//! The skeleton: its joints and segments by name, and how a joint that is
//! dragged moves the rest of the figure.

use vstd::prelude::*;
use vstd::string::*;
use crate::reading::Side;
use crate::text::same_text;

verus! {

/// A bone to draw: the names of the two joints it joins, and its colour.
#[derive(Clone, Debug)]
pub struct BoneDef {
    pub a: String,
    pub b: String,
    pub color: [u8; 3],
}

/// The kinds of limits that a joint can have. Only the hinge is in use,
/// for elbows and knees.
#[derive(Clone, Copy, Debug, PartialEq, Eq)]
pub enum ConstraintType {
    Hinge,
    Cone,
    Twist,
    EllipticalCone,
}

/// The joints of the figure.
#[derive(Clone, Copy, Debug, PartialEq, Eq)]
pub enum JointId {
    Head,
    Neck,
    LeftShoulder,
    RightShoulder,
    LeftElbow,
    RightElbow,
    LeftWrist,
    RightWrist,
    Waist,
    Crotch,
    LeftKnee,
    RightKnee,
    LeftAnkle,
    RightAnkle,
}

/// The segments of the skeleton whose lengths are configured.
#[derive(Clone, Copy, Debug, PartialEq, Eq)]
pub enum Segment {
    Arm,
    Forearm,
    Thigh,
    Shin,
    Neck,
    TorsoUpper,
    TorsoLower,
    ShoulderWidth,
}

/// The name of a joint.
pub open spec fn joint_name_text(j: JointId) -> Seq<char> {
    match j {
        JointId::Head => "head"@,
        JointId::Neck => "neck"@,
        JointId::LeftShoulder => "left_shoulder"@,
        JointId::RightShoulder => "right_shoulder"@,
        JointId::LeftElbow => "left_elbow"@,
        JointId::RightElbow => "right_elbow"@,
        JointId::LeftWrist => "left_wrist"@,
        JointId::RightWrist => "right_wrist"@,
        JointId::Waist => "waist"@,
        JointId::Crotch => "crotch"@,
        JointId::LeftKnee => "left_knee"@,
        JointId::RightKnee => "right_knee"@,
        JointId::LeftAnkle => "left_ankle"@,
        JointId::RightAnkle => "right_ankle"@,
    }
}

/// The name of a segment.
pub open spec fn segment_name_text(s: Segment) -> Seq<char> {
    match s {
        Segment::Arm => "arm"@,
        Segment::Forearm => "forearm"@,
        Segment::Thigh => "thigh"@,
        Segment::Shin => "shin"@,
        Segment::Neck => "neck"@,
        Segment::TorsoUpper => "torso_upper"@,
        Segment::TorsoLower => "torso_lower"@,
        Segment::ShoulderWidth => "shoulder_width"@,
    }
}

/// The name of a joint.
pub fn joint_name(j: JointId) -> (r: &'static str)
    ensures
        r@ == joint_name_text(j),
{
    match j {
        JointId::Head => "head",
        JointId::Neck => "neck",
        JointId::LeftShoulder => "left_shoulder",
        JointId::RightShoulder => "right_shoulder",
        JointId::LeftElbow => "left_elbow",
        JointId::RightElbow => "right_elbow",
        JointId::LeftWrist => "left_wrist",
        JointId::RightWrist => "right_wrist",
        JointId::Waist => "waist",
        JointId::Crotch => "crotch",
        JointId::LeftKnee => "left_knee",
        JointId::RightKnee => "right_knee",
        JointId::LeftAnkle => "left_ankle",
        JointId::RightAnkle => "right_ankle",
    }
}

/// The name of a segment.
pub fn segment_name(s: Segment) -> (r: &'static str)
    ensures
        r@ == segment_name_text(s),
{
    match s {
        Segment::Arm => "arm",
        Segment::Forearm => "forearm",
        Segment::Thigh => "thigh",
        Segment::Shin => "shin",
        Segment::Neck => "neck",
        Segment::TorsoUpper => "torso_upper",
        Segment::TorsoLower => "torso_lower",
        Segment::ShoulderWidth => "shoulder_width",
    }
}

/// The joint of that name, if there is one.
pub fn joint_id(name: &str) -> (r: Option<JointId>)
    ensures
        match r {
            Some(j) => joint_name_text(j) == name@,
            None => forall|j: JointId| joint_name_text(j) != name@,
        },
{
    if same_text(name, "head") {
        Some(JointId::Head)
    }     else if same_text(name, "neck") {
        Some(JointId::Neck)
    }     else if same_text(name, "left_shoulder") {
        Some(JointId::LeftShoulder)
    }     else if same_text(name, "right_shoulder") {
        Some(JointId::RightShoulder)
    }     else if same_text(name, "left_elbow") {
        Some(JointId::LeftElbow)
    }     else if same_text(name, "right_elbow") {
        Some(JointId::RightElbow)
    }     else if same_text(name, "left_wrist") {
        Some(JointId::LeftWrist)
    }     else if same_text(name, "right_wrist") {
        Some(JointId::RightWrist)
    }     else if same_text(name, "waist") {
        Some(JointId::Waist)
    }     else if same_text(name, "crotch") {
        Some(JointId::Crotch)
    }     else if same_text(name, "left_knee") {
        Some(JointId::LeftKnee)
    }     else if same_text(name, "right_knee") {
        Some(JointId::RightKnee)
    }     else if same_text(name, "left_ankle") {
        Some(JointId::LeftAnkle)
    }     else if same_text(name, "right_ankle") {
        Some(JointId::RightAnkle)
    } else {
        None
    }
}

/// The segment of that name, if there is one.
pub fn segment(name: &str) -> (r: Option<Segment>)
    ensures
        match r {
            Some(s) => segment_name_text(s) == name@,
            None => forall|s: Segment| segment_name_text(s) != name@,
        },
{
    if same_text(name, "arm") {
        Some(Segment::Arm)
    }     else if same_text(name, "forearm") {
        Some(Segment::Forearm)
    }     else if same_text(name, "thigh") {
        Some(Segment::Thigh)
    }     else if same_text(name, "shin") {
        Some(Segment::Shin)
    }     else if same_text(name, "neck") {
        Some(Segment::Neck)
    }     else if same_text(name, "torso_upper") {
        Some(Segment::TorsoUpper)
    }     else if same_text(name, "torso_lower") {
        Some(Segment::TorsoLower)
    }     else if same_text(name, "shoulder_width") {
        Some(Segment::ShoulderWidth)
    } else {
        None
    }
}

/// No two joints share a name.
pub proof fn lemma_joint_names_differ(a: JointId, b: JointId)
    requires
        joint_name_text(a) == joint_name_text(b),
    ensures
        a == b,
{
    reveal_strlit("head");
    reveal_strlit("neck");
    reveal_strlit("left_shoulder");
    reveal_strlit("right_shoulder");
    reveal_strlit("left_elbow");
    reveal_strlit("right_elbow");
    reveal_strlit("left_wrist");
    reveal_strlit("right_wrist");
    reveal_strlit("waist");
    reveal_strlit("crotch");
    reveal_strlit("left_knee");
    reveal_strlit("right_knee");
    reveal_strlit("left_ankle");
    reveal_strlit("right_ankle");
    let x = joint_name_text(a);
    let y = joint_name_text(b);
    assert(x.len() == y.len());
    assert(x[0] == y[0]);
    assert(x[1] == y[1]);
    assert(x[5] == y[5] || x.len() <= 5);
    assert(x[6] == y[6] || x.len() <= 6);
}

/// A chain of three joints that is solved as one.
#[derive(Clone, Copy, Debug, PartialEq, Eq)]
pub enum Chain {
    /// Shoulder, elbow, wrist.
    Arm(Side),
    /// Neck, waist, crotch.
    Spine,
    /// Crotch, knee, ankle.
    Leg(Side),
}

/// What dragging a joint does.
#[derive(Clone, Copy, Debug, PartialEq, Eq)]
pub enum JointMove {
    /// The neck takes the whole upper body with it.
    WholeBody,
    /// The head stays at the length of the neck from the neck.
    Head,
    /// A shoulder keeps the width of the shoulders, with the neck in the
    /// middle, and takes the arms with it.
    Shoulder(Side),
    /// A joint of a chain: `index` 1 for its middle joint, 2 for its end.
    /// The root of the chain stays where it is.
    Solve { chain: Chain, index: usize },
}

/// What dragging the joint does.
pub open spec fn spec_move_plan(j: JointId) -> JointMove {
    match j {
        JointId::Neck => JointMove::WholeBody,
        JointId::Head => JointMove::Head,
        JointId::LeftShoulder => JointMove::Shoulder(Side::Left),
        JointId::RightShoulder => JointMove::Shoulder(Side::Right),
        JointId::LeftElbow => JointMove::Solve { chain: Chain::Arm(Side::Left), index: 1 },
        JointId::LeftWrist => JointMove::Solve { chain: Chain::Arm(Side::Left), index: 2 },
        JointId::RightElbow => JointMove::Solve { chain: Chain::Arm(Side::Right), index: 1 },
        JointId::RightWrist => JointMove::Solve { chain: Chain::Arm(Side::Right), index: 2 },
        JointId::Waist => JointMove::Solve { chain: Chain::Spine, index: 1 },
        JointId::Crotch => JointMove::Solve { chain: Chain::Spine, index: 2 },
        JointId::LeftKnee => JointMove::Solve { chain: Chain::Leg(Side::Left), index: 1 },
        JointId::LeftAnkle => JointMove::Solve { chain: Chain::Leg(Side::Left), index: 2 },
        JointId::RightKnee => JointMove::Solve { chain: Chain::Leg(Side::Right), index: 1 },
        JointId::RightAnkle => JointMove::Solve { chain: Chain::Leg(Side::Right), index: 2 },
    }
}

/// What dragging the joint does.
#[verifier::when_used_as_spec(spec_move_plan)]
pub fn move_plan(j: JointId) -> (r: JointMove)
    ensures
        r == spec_move_plan(j),
{
    match j {
        JointId::Neck => JointMove::WholeBody,
        JointId::Head => JointMove::Head,
        JointId::LeftShoulder => JointMove::Shoulder(Side::Left),
        JointId::RightShoulder => JointMove::Shoulder(Side::Right),
        JointId::LeftElbow => JointMove::Solve { chain: Chain::Arm(Side::Left), index: 1 },
        JointId::LeftWrist => JointMove::Solve { chain: Chain::Arm(Side::Left), index: 2 },
        JointId::RightElbow => JointMove::Solve { chain: Chain::Arm(Side::Right), index: 1 },
        JointId::RightWrist => JointMove::Solve { chain: Chain::Arm(Side::Right), index: 2 },
        JointId::Waist => JointMove::Solve { chain: Chain::Spine, index: 1 },
        JointId::Crotch => JointMove::Solve { chain: Chain::Spine, index: 2 },
        JointId::LeftKnee => JointMove::Solve { chain: Chain::Leg(Side::Left), index: 1 },
        JointId::LeftAnkle => JointMove::Solve { chain: Chain::Leg(Side::Left), index: 2 },
        JointId::RightKnee => JointMove::Solve { chain: Chain::Leg(Side::Right), index: 1 },
        JointId::RightAnkle => JointMove::Solve { chain: Chain::Leg(Side::Right), index: 2 },
    }
}

/// The three joints of a chain, from its root to its end.
pub open spec fn spec_chain_joints(c: Chain) -> (JointId, JointId, JointId) {
    match c {
        Chain::Arm(Side::Left) => (JointId::LeftShoulder, JointId::LeftElbow, JointId::LeftWrist),
        Chain::Arm(Side::Right) => (
            JointId::RightShoulder,
            JointId::RightElbow,
            JointId::RightWrist,
        ),
        Chain::Spine => (JointId::Neck, JointId::Waist, JointId::Crotch),
        Chain::Leg(Side::Left) => (JointId::Crotch, JointId::LeftKnee, JointId::LeftAnkle),
        Chain::Leg(Side::Right) => (JointId::Crotch, JointId::RightKnee, JointId::RightAnkle),
    }
}

/// The three joints of a chain, from its root to its end.
#[verifier::when_used_as_spec(spec_chain_joints)]
pub fn chain_joints(c: Chain) -> (r: (JointId, JointId, JointId))
    ensures
        r == spec_chain_joints(c),
{
    match c {
        Chain::Arm(Side::Left) => (JointId::LeftShoulder, JointId::LeftElbow, JointId::LeftWrist),
        Chain::Arm(Side::Right) => (
            JointId::RightShoulder,
            JointId::RightElbow,
            JointId::RightWrist,
        ),
        Chain::Spine => (JointId::Neck, JointId::Waist, JointId::Crotch),
        Chain::Leg(Side::Left) => (JointId::Crotch, JointId::LeftKnee, JointId::LeftAnkle),
        Chain::Leg(Side::Right) => (JointId::Crotch, JointId::RightKnee, JointId::RightAnkle),
    }
}

/// The two segments of a chain, from its root to its end.
pub open spec fn spec_chain_segments(c: Chain) -> (Segment, Segment) {
    match c {
        Chain::Arm(_) => (Segment::Arm, Segment::Forearm),
        Chain::Spine => (Segment::TorsoUpper, Segment::TorsoLower),
        Chain::Leg(_) => (Segment::Thigh, Segment::Shin),
    }
}

/// The two segments of a chain, from its root to its end.
#[verifier::when_used_as_spec(spec_chain_segments)]
pub fn chain_segments(c: Chain) -> (r: (Segment, Segment))
    ensures
        r == spec_chain_segments(c),
{
    match c {
        Chain::Arm(_) => (Segment::Arm, Segment::Forearm),
        Chain::Spine => (Segment::TorsoUpper, Segment::TorsoLower),
        Chain::Leg(_) => (Segment::Thigh, Segment::Shin),
    }
}

/// The limit on the middle joint of a chain: a hinge for elbows and knees,
/// none for the spine.
pub open spec fn spec_chain_constraint(c: Chain) -> Option<ConstraintType> {
    match c {
        Chain::Spine => None,
        _ => Some(ConstraintType::Hinge),
    }
}

/// The limit on the middle joint of a chain.
#[verifier::when_used_as_spec(spec_chain_constraint)]
pub fn chain_constraint(c: Chain) -> (r: Option<ConstraintType>)
    ensures
        r == spec_chain_constraint(c),
{
    match c {
        Chain::Spine => None,
        _ => Some(ConstraintType::Hinge),
    }
}

/// Do the legs follow when the chain moves? They follow the crotch, the
/// end of the spine.
pub open spec fn spec_drags_legs(c: Chain) -> bool {
    c == Chain::Spine
}

/// Do the legs follow when the chain moves?
#[verifier::when_used_as_spec(spec_drags_legs)]
pub fn drags_legs(c: Chain) -> (r: bool)
    ensures
        r == spec_drags_legs(c),
{
    match c {
        Chain::Spine => true,
        _ => false,
    }
}

/// Is the joint held above the floor? Every joint but the two ankles,
/// which are the floor.
pub open spec fn spec_kept_above_floor(j: JointId) -> bool {
    j != JointId::LeftAnkle && j != JointId::RightAnkle
}

/// Is the joint held above the floor?
#[verifier::when_used_as_spec(spec_kept_above_floor)]
pub fn kept_above_floor(j: JointId) -> (r: bool)
    ensures
        r == spec_kept_above_floor(j),
{
    match j {
        JointId::LeftAnkle => false,
        JointId::RightAnkle => false,
        _ => true,
    }
}

/// How much of the way of the neck a joint goes along when the whole body
/// is dragged by the neck, in hundredths.
pub open spec fn spec_follow_percent(j: JointId) -> u8 {
    match j {
        JointId::Neck => 100,
        JointId::Head => 95,
        JointId::LeftShoulder => 88,
        JointId::RightShoulder => 88,
        JointId::LeftElbow => 55,
        JointId::RightElbow => 55,
        JointId::LeftWrist => 25,
        JointId::RightWrist => 25,
        JointId::Waist => 75,
        JointId::Crotch => 55,
        JointId::LeftKnee => 30,
        JointId::RightKnee => 30,
        JointId::LeftAnkle => 10,
        JointId::RightAnkle => 10,
    }
}

/// How much of the way of the neck a joint goes along when the whole body
/// is dragged by the neck, in hundredths.
#[verifier::when_used_as_spec(spec_follow_percent)]
pub fn follow_percent(j: JointId) -> (r: u8)
    ensures
        r == spec_follow_percent(j),
        r <= 100,
{
    match j {
        JointId::Neck => 100,
        JointId::Head => 95,
        JointId::LeftShoulder => 88,
        JointId::RightShoulder => 88,
        JointId::LeftElbow => 55,
        JointId::RightElbow => 55,
        JointId::LeftWrist => 25,
        JointId::RightWrist => 25,
        JointId::Waist => 75,
        JointId::Crotch => 55,
        JointId::LeftKnee => 30,
        JointId::RightKnee => 30,
        JointId::LeftAnkle => 10,
        JointId::RightAnkle => 10,
    }
}

/// Every joint that can be dragged is moved in a way that keeps its bones:
/// a joint of a chain is never the root of its chain, and it is the joint
/// of the chain at its index.
pub proof fn lemma_solved_joint_is_on_its_chain(j: JointId)
    ensures
        match move_plan(j) {
            JointMove::Solve { chain, index } => {
                &&& 1 <= index <= 2
                &&& index == 1 ==> chain_joints(chain).1 == j
                &&& index == 2 ==> chain_joints(chain).2 == j
            },
            _ => true,
        },
{
}

/// Where a joint comes from when a pose is made from a stick figure.
#[derive(Clone, Copy, Debug, PartialEq, Eq)]
pub enum Placement {
    /// From its point in the figure; in the middle where the figure has
    /// no such point.
    Point,
    /// From its point in the figure; midway between the shoulders where
    /// the figure has no such point.
    PointOrBetweenShoulders,
    /// From its point in the figure; straight below `parent`, by the
    /// length of `segment`, where the figure has no such point.
    PointOrBelow { parent: JointId, segment: Segment },
    /// Straight below `parent`, by the length of `segment`: a figure has no
    /// point for this joint.
    Below { parent: JointId, segment: Segment },
}

/// The name of the point of a stick figure that places the joint: the
/// name of the joint, but `pelvis` for the crotch.
pub open spec fn point_name_text(j: JointId) -> Seq<char> {
    match j {
        JointId::Crotch => "pelvis"@,
        _ => joint_name_text(j),
    }
}

/// The name of the point of a stick figure that places the joint.
pub fn point_name(j: JointId) -> (r: &'static str)
    ensures
        r@ == point_name_text(j),
{
    match j {
        JointId::Crotch => "pelvis",
        _ => joint_name(j),
    }
}

/// Where the joint comes from: the neck lies between the shoulders,
/// wrists and ankles hang from elbows and knees, the waist hangs from the
/// neck, and every other joint needs its point.
pub open spec fn spec_placement(j: JointId) -> Placement {
    match j {
        JointId::Neck => Placement::PointOrBetweenShoulders,
        JointId::LeftWrist => Placement::PointOrBelow {
            parent: JointId::LeftElbow,
            segment: Segment::Forearm,
        },
        JointId::RightWrist => Placement::PointOrBelow {
            parent: JointId::RightElbow,
            segment: Segment::Forearm,
        },
        JointId::LeftAnkle => Placement::PointOrBelow {
            parent: JointId::LeftKnee,
            segment: Segment::Shin,
        },
        JointId::RightAnkle => Placement::PointOrBelow {
            parent: JointId::RightKnee,
            segment: Segment::Shin,
        },
        JointId::Waist => Placement::Below { parent: JointId::Neck, segment: Segment::TorsoUpper },
        _ => Placement::Point,
    }
}

/// Where the joint comes from when a pose is made from a stick figure.
#[verifier::when_used_as_spec(spec_placement)]
pub fn placement(j: JointId) -> (r: Placement)
    ensures
        r == spec_placement(j),
{
    match j {
        JointId::Neck => Placement::PointOrBetweenShoulders,
        JointId::LeftWrist => Placement::PointOrBelow {
            parent: JointId::LeftElbow,
            segment: Segment::Forearm,
        },
        JointId::RightWrist => Placement::PointOrBelow {
            parent: JointId::RightElbow,
            segment: Segment::Forearm,
        },
        JointId::LeftAnkle => Placement::PointOrBelow {
            parent: JointId::LeftKnee,
            segment: Segment::Shin,
        },
        JointId::RightAnkle => Placement::PointOrBelow {
            parent: JointId::RightKnee,
            segment: Segment::Shin,
        },
        JointId::Waist => Placement::Below { parent: JointId::Neck, segment: Segment::TorsoUpper },
        _ => Placement::Point,
    }
}

/// The depth given to a point that has none of its own, in units of the
/// figure: the arms a little forward, the legs and the pelvis a little
/// back, head, neck and shoulders in the plane.
pub open spec fn spec_flat_depth(j: JointId) -> i8 {
    match j {
        JointId::LeftElbow | JointId::RightElbow | JointId::LeftWrist | JointId::RightWrist => -4i8,
        JointId::LeftKnee | JointId::RightKnee | JointId::LeftAnkle | JointId::RightAnkle => 6i8,
        JointId::Crotch => 4i8,
        _ => 0i8,
    }
}

/// The depth given to a point that has none of its own.
#[verifier::when_used_as_spec(spec_flat_depth)]
pub fn flat_depth(j: JointId) -> (r: i8)
    ensures
        r == spec_flat_depth(j),
{
    match j {
        JointId::LeftElbow | JointId::RightElbow | JointId::LeftWrist | JointId::RightWrist => -4,
        JointId::LeftKnee | JointId::RightKnee | JointId::LeftAnkle | JointId::RightAnkle => 6,
        JointId::Crotch => 4,
        _ => 0,
    }
}

/// The turn in which a joint is placed when a pose is made from a stick
/// figure: first the joints that need their point, then the neck, then
/// the joints that may hang from another, last the waist.
pub open spec fn spec_placement_turn(j: JointId) -> u8 {
    match spec_placement(j) {
        Placement::Point => 0u8,
        Placement::PointOrBetweenShoulders => 1u8,
        Placement::PointOrBelow { .. } => 2u8,
        Placement::Below { .. } => 3u8,
    }
}

/// The turn in which a joint is placed. A joint that hangs from another
/// has a later turn than the joint it hangs from, and the neck a later
/// turn than the shoulders.
#[verifier::when_used_as_spec(spec_placement_turn)]
pub fn placement_turn(j: JointId) -> (r: u8)
    ensures
        r == spec_placement_turn(j),
        match spec_placement(j) {
            Placement::Point => true,
            Placement::PointOrBetweenShoulders => spec_placement_turn(JointId::LeftShoulder) < r
                && spec_placement_turn(JointId::RightShoulder) < r,
            Placement::PointOrBelow { parent, segment } => spec_placement_turn(parent) < r,
            Placement::Below { parent, segment } => spec_placement_turn(parent) < r,
        },
{
    match placement(j) {
        Placement::Point => 0,
        Placement::PointOrBetweenShoulders => 1,
        Placement::PointOrBelow { .. } => 2,
        Placement::Below { .. } => 3,
    }
}

} // verus!
