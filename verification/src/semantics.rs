//! The words for a pose: a short description in plain language, made from
//! what was read off the figure. First comes how the figure holds itself
//! up, then the lean and turn of the trunk, the weight, the head, the arms
//! and the legs, with commas between them.

use vstd::prelude::*;
use vstd::string::*;
use crate::reading::{
    ankles_crossed,
    arm_described,
    arm_pose,
    feet_together,
    foot_up,
    hands_pose,
    is_lying,
    is_standing,
    is_upright,
    knee_bent,
    lean_of,
    leg_pose,
    leg_spread,
    lower_than,
    metrics,
    stance_of,
    tilt_of,
    turn_of,
    twist_of,
    weight_of,
    ArmPose,
    Bend,
    BodyLevel,
    ClaspLevel,
    Degree,
    ElbowDir,
    FootRaise,
    FootSpread,
    HandsPose,
    Heading,
    HeadReading,
    KneeDir,
    Lean,
    LegPose,
    LegSpread,
    PoseReading,
    ShinDir,
    Side,
    SquatDepth,
    Stance,
    Tilt,
    Turn,
    Twist,
    Weight,
    UNIT,
};
use crate::text::{
    chars_of,
    contains,
    has_substring,
    is_prefix,
    join,
    joined,
    same_text,
    starts_with,
    views,
};

verus! {

/// A copy of the text.
pub fn cat1(first: &str) -> (r: String)
    ensures
        r@ == first@,
{
    let mut out = first.to_owned();
    out
}

/// The texts one after the other.
pub fn cat2(first: &str, second: &str) -> (r: String)
    ensures
        r@ == first@ + second@,
{
    let mut out = first.to_owned();
    out.append(second);
    out
}

/// The texts one after the other.
pub fn cat3(first: &str, second: &str, third: &str) -> (r: String)
    ensures
        r@ == first@ + second@ + third@,
{
    let mut out = first.to_owned();
    out.append(second);
    out.append(third);
    out
}

/// The texts one after the other.
pub fn cat4(first: &str, second: &str, third: &str, fourth: &str) -> (r: String)
    ensures
        r@ == first@ + second@ + third@ + fourth@,
{
    let mut out = first.to_owned();
    out.append(second);
    out.append(third);
    out.append(fourth);
    out
}

/// The texts one after the other.
pub fn cat5(first: &str, second: &str, third: &str, fourth: &str, fifth: &str) -> (r: String)
    ensures
        r@ == first@ + second@ + third@ + fourth@ + fifth@,
{
    let mut out = first.to_owned();
    out.append(second);
    out.append(third);
    out.append(fourth);
    out.append(fifth);
    out
}

/// The texts one after the other.
pub fn cat6(first: &str, second: &str, third: &str, fourth: &str, fifth: &str, sixth: &str) -> (r: String)
    ensures
        r@ == first@ + second@ + third@ + fourth@ + fifth@ + sixth@,
{
    let mut out = first.to_owned();
    out.append(second);
    out.append(third);
    out.append(fourth);
    out.append(fifth);
    out.append(sixth);
    out
}

/// The texts one after the other.
pub fn cat7(first: &str, second: &str, third: &str, fourth: &str, fifth: &str, sixth: &str, seventh: &str) -> (r: String)
    ensures
        r@ == first@ + second@ + third@ + fourth@ + fifth@ + sixth@ + seventh@,
{
    let mut out = first.to_owned();
    out.append(second);
    out.append(third);
    out.append(fourth);
    out.append(fifth);
    out.append(sixth);
    out.append(seventh);
    out
}

/// The name of a side.
pub open spec fn side_text(s: Side) -> Seq<char> {
    match s {
        Side::Left => "left"@,
        Side::Right => "right"@,
    }
}

/// The name of a side.
pub fn side_str(s: Side) -> (r: &'static str)
    ensures
        r@ == side_text(s),
{
    match s {
        Side::Left => "left",
        Side::Right => "right",
    }
}

/// The name of the other side.
pub open spec fn other_side_text(s: Side) -> Seq<char> {
    match s {
        Side::Left => "right"@,
        Side::Right => "left"@,
    }
}

/// The name of the other side.
pub fn other_side_str(s: Side) -> (r: &'static str)
    ensures
        r@ == other_side_text(s),
{
    match s {
        Side::Left => "right",
        Side::Right => "left",
    }
}

/// The name of the right side or the left.
pub open spec fn hand_text(right: bool) -> Seq<char> {
    match right {
        true => "right"@,
        false => "left"@,
    }
}

/// The name of the right side or the left.
pub fn hand_str(right: bool) -> (r: &'static str)
    ensures
        r@ == hand_text(right),
{
    match right {
        true => "right",
        false => "left",
    }
}

/// The name of a level of the body.
pub open spec fn level_text(l: BodyLevel) -> Seq<char> {
    match l {
        BodyLevel::Overhead => "overhead"@,
        BodyLevel::AboveShoulder => "above shoulder"@,
        BodyLevel::AtShoulder => "at shoulder level"@,
        BodyLevel::AtChest => "at chest level"@,
        BodyLevel::AtWaist => "at waist level"@,
        BodyLevel::AtHip => "at hip level"@,
        BodyLevel::AtThigh => "at thigh level"@,
        BodyLevel::AtKnee => "at knee level"@,
        BodyLevel::BelowKnee => "below knee"@,
    }
}

/// The name of a level of the body.
pub fn level_str(l: BodyLevel) -> (r: &'static str)
    ensures
        r@ == level_text(l),
{
    match l {
        BodyLevel::Overhead => "overhead",
        BodyLevel::AboveShoulder => "above shoulder",
        BodyLevel::AtShoulder => "at shoulder level",
        BodyLevel::AtChest => "at chest level",
        BodyLevel::AtWaist => "at waist level",
        BodyLevel::AtHip => "at hip level",
        BodyLevel::AtThigh => "at thigh level",
        BodyLevel::AtKnee => "at knee level",
        BodyLevel::BelowKnee => "below knee",
    }
}

/// How high a foot is raised.
pub open spec fn foot_raise_text(h: FootRaise) -> Seq<char> {
    match h {
        FootRaise::AboveHip => "raised high above hip"@,
        FootRaise::ToHip => "raised to hip height"@,
        FootRaise::ToKnee => "raised to knee height"@,
        FootRaise::Slight => "slightly raised"@,
    }
}

/// How high a foot is raised.
pub fn foot_raise_str(h: FootRaise) -> (r: &'static str)
    ensures
        r@ == foot_raise_text(h),
{
    match h {
        FootRaise::AboveHip => "raised high above hip",
        FootRaise::ToHip => "raised to hip height",
        FootRaise::ToKnee => "raised to knee height",
        FootRaise::Slight => "slightly raised",
    }
}

/// How far apart the feet stand.
pub open spec fn foot_spread_text(s: FootSpread) -> Seq<char> {
    match s {
        FootSpread::Together => "feet together"@,
        FootSpread::HipWidth => "feet hip-width apart"@,
        FootSpread::Wide => "feet wide apart"@,
        FootSpread::VeryWide => "feet very wide apart"@,
    }
}

/// How far apart the feet stand.
pub fn foot_spread_str(s: FootSpread) -> (r: &'static str)
    ensures
        r@ == foot_spread_text(s),
{
    match s {
        FootSpread::Together => "feet together",
        FootSpread::HipWidth => "feet hip-width apart",
        FootSpread::Wide => "feet wide apart",
        FootSpread::VeryWide => "feet very wide apart",
    }
}

/// Where a raised foot or leg points.
pub open spec fn foot_dir_text(d: Heading) -> Seq<char> {
    match d {
        Heading::Unclear => ""@,
        Heading::Forward => " forward"@,
        Heading::Side => " to the side"@,
        Heading::Behind => " behind"@,
    }
}

/// Where a raised foot or leg points.
pub fn foot_dir_str(d: Heading) -> (r: &'static str)
    ensures
        r@ == foot_dir_text(d),
{
    match d {
        Heading::Unclear => "",
        Heading::Forward => " forward",
        Heading::Side => " to the side",
        Heading::Behind => " behind",
    }
}

/// Where a raised arm points.
pub open spec fn arm_dir_text(d: Heading) -> Seq<char> {
    match d {
        Heading::Unclear => ""@,
        Heading::Forward => " forward"@,
        Heading::Side => " to the side"@,
        Heading::Behind => " back"@,
    }
}

/// Where a raised arm points.
pub fn arm_dir_str(d: Heading) -> (r: &'static str)
    ensures
        r@ == arm_dir_text(d),
{
    match d {
        Heading::Unclear => "",
        Heading::Forward => " forward",
        Heading::Side => " to the side",
        Heading::Behind => " back",
    }
}

/// Where a pointing arm points.
pub open spec fn point_dir_text(d: Heading) -> Seq<char> {
    match d {
        Heading::Unclear => ""@,
        Heading::Forward => " forward"@,
        Heading::Side => " outward"@,
        Heading::Behind => ""@,
    }
}

/// Where a pointing arm points.
pub fn point_dir_str(d: Heading) -> (r: &'static str)
    ensures
        r@ == point_dir_text(d),
{
    match d {
        Heading::Unclear => "",
        Heading::Forward => " forward",
        Heading::Side => " outward",
        Heading::Behind => "",
    }
}

/// How deep a squat is.
pub open spec fn squat_text(d: SquatDepth) -> Seq<char> {
    match d {
        SquatDepth::Deep => "deep squat"@,
        SquatDepth::Plain => "squat"@,
        SquatDepth::Half => "half squat"@,
    }
}

/// How deep a squat is.
pub fn squat_str(d: SquatDepth) -> (r: &'static str)
    ensures
        r@ == squat_text(d),
{
    match d {
        SquatDepth::Deep => "deep squat",
        SquatDepth::Plain => "squat",
        SquatDepth::Half => "half squat",
    }
}

/// How the figure holds itself up.
pub open spec fn stance_text(st: Stance) -> Seq<char> {
    match st {
        Stance::LyingOnSide(s) => "lying on "@ + side_text(s) + " side"@,
        Stance::LyingFaceUp => "lying face up"@,
        Stance::LyingFaceDown => "lying face down"@,
        Stance::Kneeling { torso_forward: true } => "kneeling, torso leaning forward"@,
        Stance::Kneeling { torso_forward: false } => "kneeling"@,
        Stance::SeatedCrossLegged => "seated cross-legged"@,
        Stance::Perched => "perched, seated on edge"@,
        Stance::Seated => "seated"@,
        Stance::Squat(d) => squat_text(d),
        Stance::KneelingOn(s) => "kneeling on "@ + side_text(s) + " knee"@,
        Stance::KneeRaised(s) => side_text(s) + " knee raised"@,
        Stance::Balancing { raised, height, dir } => "balancing on "@ + other_side_text(raised) + " leg, "@ + side_text(raised) + " foot "@ + foot_raise_text(height) + foot_dir_text(dir),
        Stance::SideSplits => "doing the side splits"@,
        Stance::ForwardSplits(s) => "doing the forward splits, "@ + side_text(s) + " leg forward"@,
        Stance::TipToe(s) => "standing on tip-toe, "@ + foot_spread_text(s),
        Stance::Standing(s) => "standing, "@ + foot_spread_text(s),
    }
}

/// How the figure holds itself up.
pub fn stance_string(st: Stance) -> (r: String)
    ensures
        r@ == stance_text(st),
{
    match st {
        Stance::LyingOnSide(s) => cat3("lying on ", side_str(s), " side"),
        Stance::LyingFaceUp => cat1("lying face up"),
        Stance::LyingFaceDown => cat1("lying face down"),
        Stance::Kneeling { torso_forward: true } => cat1("kneeling, torso leaning forward"),
        Stance::Kneeling { torso_forward: false } => cat1("kneeling"),
        Stance::SeatedCrossLegged => cat1("seated cross-legged"),
        Stance::Perched => cat1("perched, seated on edge"),
        Stance::Seated => cat1("seated"),
        Stance::Squat(d) => cat1(squat_str(d)),
        Stance::KneelingOn(s) => cat3("kneeling on ", side_str(s), " knee"),
        Stance::KneeRaised(s) => cat2(side_str(s), " knee raised"),
        Stance::Balancing { raised, height, dir } => cat7("balancing on ", other_side_str(raised), " leg, ", side_str(raised), " foot ", foot_raise_str(height), foot_dir_str(dir)),
        Stance::SideSplits => cat1("doing the side splits"),
        Stance::ForwardSplits(s) => cat3("doing the forward splits, ", side_str(s), " leg forward"),
        Stance::TipToe(s) => cat2("standing on tip-toe, ", foot_spread_str(s)),
        Stance::Standing(s) => cat2("standing, ", foot_spread_str(s)),
    }
}

/// How far a lean forward or back goes.
pub open spec fn sagittal_text(forward: bool, degree: Degree) -> Seq<char> {
    match (forward, degree) {
        (true, Degree::Far) => "leaning far forward"@,
        (true, Degree::Plain) => "leaning forward"@,
        (true, Degree::Slight) => "leaning slightly forward"@,
        (false, Degree::Far) => "leaning far back"@,
        (false, Degree::Plain) => "leaning back"@,
        (false, Degree::Slight) => "leaning slightly back"@,
    }
}

/// How far a lean forward or back goes.
pub fn sagittal_str(forward: bool, degree: Degree) -> (r: &'static str)
    ensures
        r@ == sagittal_text(forward, degree),
{
    match (forward, degree) {
        (true, Degree::Far) => "leaning far forward",
        (true, Degree::Plain) => "leaning forward",
        (true, Degree::Slight) => "leaning slightly forward",
        (false, Degree::Far) => "leaning far back",
        (false, Degree::Plain) => "leaning back",
        (false, Degree::Slight) => "leaning slightly back",
    }
}

/// How far a lean to a side goes.
pub open spec fn lateral_text(left: bool, degree: Degree) -> Seq<char> {
    match (left, degree) {
        (true, Degree::Far) => "tilted far left"@,
        (true, Degree::Plain) => "tilted left"@,
        (true, Degree::Slight) => "tilted slightly left"@,
        (false, Degree::Far) => "tilted far right"@,
        (false, Degree::Plain) => "tilted right"@,
        (false, Degree::Slight) => "tilted slightly right"@,
    }
}

/// How far a lean to a side goes.
pub fn lateral_str(left: bool, degree: Degree) -> (r: &'static str)
    ensures
        r@ == lateral_text(left, degree),
{
    match (left, degree) {
        (true, Degree::Far) => "tilted far left",
        (true, Degree::Plain) => "tilted left",
        (true, Degree::Slight) => "tilted slightly left",
        (false, Degree::Far) => "tilted far right",
        (false, Degree::Plain) => "tilted right",
        (false, Degree::Slight) => "tilted slightly right",
    }
}

/// How strongly the trunk leans both ways at once.
pub open spec fn intensity_text(strong: bool) -> Seq<char> {
    match strong {
        true => "leaning"@,
        false => "leaning slightly"@,
    }
}

/// How strongly the trunk leans both ways at once.
pub fn intensity_str(strong: bool) -> (r: &'static str)
    ensures
        r@ == intensity_text(strong),
{
    match strong {
        true => "leaning",
        false => "leaning slightly",
    }
}

/// Forward or back.
pub open spec fn fore_text(forward: bool) -> Seq<char> {
    match forward {
        true => "forward"@,
        false => "back"@,
    }
}

/// Forward or back.
pub fn fore_str(forward: bool) -> (r: &'static str)
    ensures
        r@ == fore_text(forward),
{
    match forward {
        true => "forward",
        false => "back",
    }
}

/// Left or right.
pub open spec fn leftward_text(left: bool) -> Seq<char> {
    match left {
        true => "left"@,
        false => "right"@,
    }
}

/// Left or right.
pub fn leftward_str(left: bool) -> (r: &'static str)
    ensures
        r@ == leftward_text(left),
{
    match left {
        true => "left",
        false => "right",
    }
}

/// How the trunk leans; nothing for an upright trunk.
pub open spec fn lean_text(l: Lean) -> Seq<char> {
    match l {
        Lean::Upright => Seq::empty(),
        Lean::Sagittal { forward, degree } => sagittal_text(forward, degree),
        Lean::Lateral { left, degree } => lateral_text(left, degree),
        Lean::Diagonal { strong, forward, left } => intensity_text(strong) + " "@ + fore_text(forward) + " and to the "@ + leftward_text(left),
    }
}

/// How the trunk leans; nothing for an upright trunk.
pub fn lean_string(l: Lean) -> (r: String)
    ensures
        r@ == lean_text(l),
{
    match l {
        Lean::Upright => String::new(),
        Lean::Sagittal { forward, degree } => cat1(sagittal_str(forward, degree)),
        Lean::Lateral { left, degree } => cat1(lateral_str(left, degree)),
        Lean::Diagonal { strong, forward, left } => cat5(intensity_str(strong), " ", fore_str(forward), " and to the ", leftward_str(left)),
    }
}

/// Which shoulder is raised; nothing for level shoulders.
pub open spec fn tilt_text(t: Tilt) -> Seq<char> {
    match t {
        Tilt::Level => ""@,
        Tilt::Raised { side: Side::Left, sharp: true } => "left shoulder sharply raised"@,
        Tilt::Raised { side: Side::Left, sharp: false } => "left shoulder raised"@,
        Tilt::Raised { side: Side::Right, sharp: true } => "right shoulder sharply raised"@,
        Tilt::Raised { side: Side::Right, sharp: false } => "right shoulder raised"@,
    }
}

/// Which shoulder is raised; nothing for level shoulders.
pub fn tilt_str(t: Tilt) -> (r: &'static str)
    ensures
        r@ == tilt_text(t),
{
    match t {
        Tilt::Level => "",
        Tilt::Raised { side: Side::Left, sharp: true } => "left shoulder sharply raised",
        Tilt::Raised { side: Side::Left, sharp: false } => "left shoulder raised",
        Tilt::Raised { side: Side::Right, sharp: true } => "right shoulder sharply raised",
        Tilt::Raised { side: Side::Right, sharp: false } => "right shoulder raised",
    }
}

/// How far the trunk is turned; nothing for a trunk that faces the viewer.
pub open spec fn twist_text(t: Twist) -> Seq<char> {
    match t {
        Twist::Square => Seq::empty(),
        Twist::Turned { right, degree: Degree::Far } => "in profile, facing "@ + hand_text(right),
        Twist::Turned { right, degree: Degree::Plain } => "body turned "@ + hand_text(right),
        Twist::Turned { right, degree: Degree::Slight } => "body slightly turned "@ + hand_text(right),
    }
}

/// How far the trunk is turned; nothing for a trunk that faces the viewer.
pub fn twist_string(t: Twist) -> (r: String)
    ensures
        r@ == twist_text(t),
{
    match t {
        Twist::Square => String::new(),
        Twist::Turned { right, degree: Degree::Far } => cat2("in profile, facing ", hand_str(right)),
        Twist::Turned { right, degree: Degree::Plain } => cat2("body turned ", hand_str(right)),
        Twist::Turned { right, degree: Degree::Slight } => cat2("body slightly turned ", hand_str(right)),
    }
}

/// On which foot the weight rests; nothing for even weight.
pub open spec fn weight_text(wt: Weight) -> Seq<char> {
    match wt {
        Weight::Even => Seq::empty(),
        Weight::On { right, degree: Degree::Far } => "strongly weight on "@ + hand_text(right) + " foot"@,
        Weight::On { right, degree: Degree::Plain } => "weight on "@ + hand_text(right) + " foot"@,
        Weight::On { right, degree: Degree::Slight } => "slightly weight on "@ + hand_text(right) + " foot"@,
    }
}

/// On which foot the weight rests; nothing for even weight.
pub fn weight_string(wt: Weight) -> (r: String)
    ensures
        r@ == weight_text(wt),
{
    match wt {
        Weight::Even => String::new(),
        Weight::On { right, degree: Degree::Far } => cat3("strongly weight on ", hand_str(right), " foot"),
        Weight::On { right, degree: Degree::Plain } => cat3("weight on ", hand_str(right), " foot"),
        Weight::On { right, degree: Degree::Slight } => cat3("slightly weight on ", hand_str(right), " foot"),
    }
}

/// How the head nods; nothing for a level head.
pub open spec fn nod_text(t: Turn) -> Seq<char> {
    match t {
        Turn::Level => ""@,
        Turn::Plus(true) => "head bowed down"@,
        Turn::Plus(false) => "looking slightly down"@,
        Turn::Minus(true) => "head tilted back, looking up"@,
        Turn::Minus(false) => "looking slightly up"@,
    }
}

/// How the head nods; nothing for a level head.
pub fn nod_str(t: Turn) -> (r: &'static str)
    ensures
        r@ == nod_text(t),
{
    match t {
        Turn::Level => "",
        Turn::Plus(true) => "head bowed down",
        Turn::Plus(false) => "looking slightly down",
        Turn::Minus(true) => "head tilted back, looking up",
        Turn::Minus(false) => "looking slightly up",
    }
}

/// How the head is turned; nothing for a head that looks ahead.
pub open spec fn yaw_text(t: Turn) -> Seq<char> {
    match t {
        Turn::Level => ""@,
        Turn::Plus(true) => "head turned right"@,
        Turn::Plus(false) => "glancing right"@,
        Turn::Minus(true) => "head turned left"@,
        Turn::Minus(false) => "glancing left"@,
    }
}

/// How the head is turned; nothing for a head that looks ahead.
pub fn yaw_str(t: Turn) -> (r: &'static str)
    ensures
        r@ == yaw_text(t),
{
    match t {
        Turn::Level => "",
        Turn::Plus(true) => "head turned right",
        Turn::Plus(false) => "glancing right",
        Turn::Minus(true) => "head turned left",
        Turn::Minus(false) => "glancing left",
    }
}

/// How the head is tilted; nothing for a head held straight.
pub open spec fn roll_text(t: Turn) -> Seq<char> {
    match t {
        Turn::Level => ""@,
        Turn::Plus(true) => "head tilted to the right"@,
        Turn::Plus(false) => "head slightly tilted right"@,
        Turn::Minus(true) => "head tilted to the left"@,
        Turn::Minus(false) => "head slightly tilted left"@,
    }
}

/// How the head is tilted; nothing for a head held straight.
pub fn roll_str(t: Turn) -> (r: &'static str)
    ensures
        r@ == roll_text(t),
{
    match t {
        Turn::Level => "",
        Turn::Plus(true) => "head tilted to the right",
        Turn::Plus(false) => "head slightly tilted right",
        Turn::Minus(true) => "head tilted to the left",
        Turn::Minus(false) => "head slightly tilted left",
    }
}

/// How sharply an elbow is bent.
pub open spec fn elbow_bend_text(b: Bend) -> Seq<char> {
    match b {
        Bend::Deep => "sharply bent"@,
        Bend::Plain => "bent"@,
        Bend::Slight => "slightly bent"@,
        Bend::Straight => "slightly bent"@,
    }
}

/// How sharply an elbow is bent.
pub fn elbow_bend_str(b: Bend) -> (r: &'static str)
    ensures
        r@ == elbow_bend_text(b),
{
    match b {
        Bend::Deep => "sharply bent",
        Bend::Plain => "bent",
        Bend::Slight => "slightly bent",
        Bend::Straight => "slightly bent",
    }
}

/// Where the elbow points.
pub open spec fn elbow_dir_text(e: ElbowDir) -> Seq<char> {
    match e {
        ElbowDir::None_ => ""@,
        ElbowDir::Up => " elbow up"@,
        ElbowDir::Forward => " elbow forward"@,
        ElbowDir::Back => " elbow back"@,
        ElbowDir::Out => " elbow out"@,
        ElbowDir::In => " elbow in"@,
    }
}

/// Where the elbow points.
pub fn elbow_dir_str(e: ElbowDir) -> (r: &'static str)
    ensures
        r@ == elbow_dir_text(e),
{
    match e {
        ElbowDir::None_ => "",
        ElbowDir::Up => " elbow up",
        ElbowDir::Forward => " elbow forward",
        ElbowDir::Back => " elbow back",
        ElbowDir::Out => " elbow out",
        ElbowDir::In => " elbow in",
    }
}

/// Raised or overhead.
pub open spec fn lifted_text(overhead: bool) -> Seq<char> {
    match overhead {
        true => "overhead"@,
        false => "raised"@,
    }
}

/// Raised or overhead.
pub fn lifted_str(overhead: bool) -> (r: &'static str)
    ensures
        r@ == lifted_text(overhead),
{
    match overhead {
        true => "overhead",
        false => "raised",
    }
}

/// Straight forward or forward and outward.
pub open spec fn extended_text(outward: bool) -> Seq<char> {
    match outward {
        true => "extended forward-outward"@,
        false => "extended forward"@,
    }
}

/// Straight forward or forward and outward.
pub fn extended_str(outward: bool) -> (r: &'static str)
    ensures
        r@ == extended_text(outward),
{
    match outward {
        true => "extended forward-outward",
        false => "extended forward",
    }
}

/// What one arm does; nothing where nothing is said of it.
pub open spec fn arm_text(p: ArmPose, right: bool) -> Seq<char> {
    match p {
        ArmPose::Undescribed => Seq::empty(),
        ArmPose::Raised { overhead, dir } => hand_text(right) + " arm "@ + lifted_text(overhead) + arm_dir_text(dir),
        ArmPose::SlightlyRaised { dir } => hand_text(right) + " arm slightly raised"@ + arm_dir_text(dir),
        ArmPose::Crossed => hand_text(right) + " arm crossed"@,
        ArmPose::PointingUp { dir } => hand_text(right) + " arm pointing up"@ + point_dir_text(dir),
        ArmPose::PointingForward(l) => hand_text(right) + " arm pointing forward "@ + level_text(l),
        ArmPose::PointingSideways(l) => hand_text(right) + " arm pointing sideways "@ + level_text(l),
        ArmPose::PointingBehind => hand_text(right) + " arm pointing behind"@,
        ArmPose::Extended { outward, level } => hand_text(right) + " arm "@ + extended_text(outward) + " "@ + level_text(level),
        ArmPose::Reaching(l) => hand_text(right) + " arm reaching forward "@ + level_text(l),
        ArmPose::BehindBack => hand_text(right) + " arm behind back"@,
        ArmPose::SlightlyBehind => hand_text(right) + " arm slightly behind"@,
        ArmPose::Outstretched(l) => hand_text(right) + " arm outstretched sideways "@ + level_text(l),
        ArmPose::AtSide => hand_text(right) + " arm at side"@,
        ArmPose::Resting(l) => hand_text(right) + " arm resting against body "@ + level_text(l),
        ArmPose::HandOnHead => hand_text(right) + " hand on top of head"@,
        ArmPose::HandAtChin => hand_text(right) + " hand at chin"@,
        ArmPose::HandCoveringFace => hand_text(right) + " hand covering face"@,
        ArmPose::HandNearFace => hand_text(right) + " hand near face"@,
        ArmPose::HandBehindHead => hand_text(right) + " hand behind head"@,
        ArmPose::Bent { bend, elbow, at_abdomen: true, level } => hand_text(right) + " arm "@ + elbow_bend_text(bend) + elbow_dir_text(elbow) + ", hand at abdomen"@,
        ArmPose::Bent { bend, elbow, at_abdomen: false, level } => hand_text(right) + " arm "@ + elbow_bend_text(bend) + elbow_dir_text(elbow) + ", hand "@ + level_text(level),
    }
}

/// What one arm does; nothing where nothing is said of it.
pub fn arm_string(p: ArmPose, right: bool) -> (r: String)
    ensures
        r@ == arm_text(p, right),
{
    match p {
        ArmPose::Undescribed => String::new(),
        ArmPose::Raised { overhead, dir } => cat4(hand_str(right), " arm ", lifted_str(overhead), arm_dir_str(dir)),
        ArmPose::SlightlyRaised { dir } => cat3(hand_str(right), " arm slightly raised", arm_dir_str(dir)),
        ArmPose::Crossed => cat2(hand_str(right), " arm crossed"),
        ArmPose::PointingUp { dir } => cat3(hand_str(right), " arm pointing up", point_dir_str(dir)),
        ArmPose::PointingForward(l) => cat3(hand_str(right), " arm pointing forward ", level_str(l)),
        ArmPose::PointingSideways(l) => cat3(hand_str(right), " arm pointing sideways ", level_str(l)),
        ArmPose::PointingBehind => cat2(hand_str(right), " arm pointing behind"),
        ArmPose::Extended { outward, level } => cat5(hand_str(right), " arm ", extended_str(outward), " ", level_str(level)),
        ArmPose::Reaching(l) => cat3(hand_str(right), " arm reaching forward ", level_str(l)),
        ArmPose::BehindBack => cat2(hand_str(right), " arm behind back"),
        ArmPose::SlightlyBehind => cat2(hand_str(right), " arm slightly behind"),
        ArmPose::Outstretched(l) => cat3(hand_str(right), " arm outstretched sideways ", level_str(l)),
        ArmPose::AtSide => cat2(hand_str(right), " arm at side"),
        ArmPose::Resting(l) => cat3(hand_str(right), " arm resting against body ", level_str(l)),
        ArmPose::HandOnHead => cat2(hand_str(right), " hand on top of head"),
        ArmPose::HandAtChin => cat2(hand_str(right), " hand at chin"),
        ArmPose::HandCoveringFace => cat2(hand_str(right), " hand covering face"),
        ArmPose::HandNearFace => cat2(hand_str(right), " hand near face"),
        ArmPose::HandBehindHead => cat2(hand_str(right), " hand behind head"),
        ArmPose::Bent { bend, elbow, at_abdomen: true, level } => cat5(hand_str(right), " arm ", elbow_bend_str(bend), elbow_dir_str(elbow), ", hand at abdomen"),
        ArmPose::Bent { bend, elbow, at_abdomen: false, level } => cat6(hand_str(right), " arm ", elbow_bend_str(bend), elbow_dir_str(elbow), ", hand ", level_str(level)),
    }
}

/// Where clasped hands are held.
pub open spec fn clasp_text(c: ClaspLevel) -> Seq<char> {
    match c {
        ClaspLevel::Overhead => "hands clasped raised overhead"@,
        ClaspLevel::Chest => "hands clasped at chest"@,
        ClaspLevel::Waist => "hands clasped at waist"@,
        ClaspLevel::Together => "hands clasped together"@,
    }
}

/// Where clasped hands are held.
pub fn clasp_str(c: ClaspLevel) -> (r: &'static str)
    ensures
        r@ == clasp_text(c),
{
    match c {
        ClaspLevel::Overhead => "hands clasped raised overhead",
        ClaspLevel::Chest => "hands clasped at chest",
        ClaspLevel::Waist => "hands clasped at waist",
        ClaspLevel::Together => "hands clasped together",
    }
}

/// Where the knee stands.
pub open spec fn knee_text(k: KneeDir) -> Seq<char> {
    match k {
        KneeDir::Straight => ""@,
        KneeDir::Out => " knee out"@,
        KneeDir::In => " knee in"@,
    }
}

/// Where the knee stands.
pub fn knee_str(k: KneeDir) -> (r: &'static str)
    ensures
        r@ == knee_text(k),
{
    match k {
        KneeDir::Straight => "",
        KneeDir::Out => " knee out",
        KneeDir::In => " knee in",
    }
}

/// Where the shin points.
pub open spec fn shin_text(s: ShinDir) -> Seq<char> {
    match s {
        ShinDir::Plain => ""@,
        ShinDir::Forward => ", shin angled forward"@,
        ShinDir::Back => ", shin angled back"@,
    }
}

/// Where the shin points.
pub fn shin_str(s: ShinDir) -> (r: &'static str)
    ensures
        r@ == shin_text(s),
{
    match s {
        ShinDir::Plain => "",
        ShinDir::Forward => ", shin angled forward",
        ShinDir::Back => ", shin angled back",
    }
}

/// How the knee of a striding leg is bent.
pub open spec fn stride_bend_text(b: Bend) -> Seq<char> {
    match b {
        Bend::Deep => " deeply bent"@,
        Bend::Plain => " bent"@,
        Bend::Slight => " slightly bent"@,
        Bend::Straight => " straight"@,
    }
}

/// How the knee of a striding leg is bent.
pub fn stride_bend_str(b: Bend) -> (r: &'static str)
    ensures
        r@ == stride_bend_text(b),
{
    match b {
        Bend::Deep => " deeply bent",
        Bend::Plain => " bent",
        Bend::Slight => " slightly bent",
        Bend::Straight => " straight",
    }
}

/// How the knee of a stepping leg is bent.
pub open spec fn step_bend_text(b: Bend) -> Seq<char> {
    match b {
        Bend::Deep => " bent"@,
        Bend::Plain => " bent"@,
        Bend::Slight => " slightly bent"@,
        Bend::Straight => ""@,
    }
}

/// How the knee of a stepping leg is bent.
pub fn step_bend_str(b: Bend) -> (r: &'static str)
    ensures
        r@ == step_bend_text(b),
{
    match b {
        Bend::Deep => " bent",
        Bend::Plain => " bent",
        Bend::Slight => " slightly bent",
        Bend::Straight => "",
    }
}

/// Bent or not, for a leg out to the side.
pub open spec fn side_bend_text(bent: bool) -> Seq<char> {
    match bent {
        true => ", bent"@,
        false => ""@,
    }
}

/// Bent or not, for a leg out to the side.
pub fn side_bend_str(bent: bool) -> (r: &'static str)
    ensures
        r@ == side_bend_text(bent),
{
    match bent {
        true => ", bent",
        false => "",
    }
}

/// Forward, or forward and outward.
pub open spec fn stride_dir_text(outward: bool) -> Seq<char> {
    match outward {
        true => " forward-outward"@,
        false => " forward"@,
    }
}

/// Forward, or forward and outward.
pub fn stride_dir_str(outward: bool) -> (r: &'static str)
    ensures
        r@ == stride_dir_text(outward),
{
    match outward {
        true => " forward-outward",
        false => " forward",
    }
}

/// What one leg does; nothing where nothing is said of it.
pub open spec fn leg_text(p: LegPose, right: bool) -> Seq<char> {
    match p {
        LegPose::Undescribed => Seq::empty(),
        LegPose::Raised { height, dir } => hand_text(right) + " leg "@ + foot_raise_text(height) + foot_dir_text(dir),
        LegPose::OutToSide { bent } => hand_text(right) + " leg out to the side"@ + side_bend_text(bent),
        LegPose::Forward { outward, bend, knee } => hand_text(right) + " leg"@ + stride_dir_text(outward) + stride_bend_text(bend) + knee_text(knee),
        LegPose::SteppingForward { bend, knee } => hand_text(right) + " leg stepping forward"@ + step_bend_text(bend) + knee_text(knee),
        LegPose::Back { bend, knee } => hand_text(right) + " leg back"@ + stride_bend_text(bend) + knee_text(knee),
        LegPose::SteppingBack { bend, knee } => hand_text(right) + " leg stepping back"@ + step_bend_text(bend) + knee_text(knee),
        LegPose::Bent { bend: Bend::Deep, knee, shin } => hand_text(right) + " leg deeply bent"@ + knee_text(knee) + shin_text(shin),
        LegPose::Bent { bend: Bend::Plain, knee, shin } => hand_text(right) + " leg bent"@ + knee_text(knee) + shin_text(shin),
        LegPose::Bent { bend: Bend::Slight, knee, shin } => hand_text(right) + " leg slightly bent"@ + knee_text(knee),
        LegPose::Bent { bend: Bend::Straight, knee, shin } => hand_text(right) + " leg straight"@ + knee_text(knee),
    }
}

/// What one leg does; nothing where nothing is said of it.
pub fn leg_string(p: LegPose, right: bool) -> (r: String)
    ensures
        r@ == leg_text(p, right),
{
    match p {
        LegPose::Undescribed => String::new(),
        LegPose::Raised { height, dir } => cat4(hand_str(right), " leg ", foot_raise_str(height), foot_dir_str(dir)),
        LegPose::OutToSide { bent } => cat3(hand_str(right), " leg out to the side", side_bend_str(bent)),
        LegPose::Forward { outward, bend, knee } => cat5(hand_str(right), " leg", stride_dir_str(outward), stride_bend_str(bend), knee_str(knee)),
        LegPose::SteppingForward { bend, knee } => cat4(hand_str(right), " leg stepping forward", step_bend_str(bend), knee_str(knee)),
        LegPose::Back { bend, knee } => cat4(hand_str(right), " leg back", stride_bend_str(bend), knee_str(knee)),
        LegPose::SteppingBack { bend, knee } => cat4(hand_str(right), " leg stepping back", step_bend_str(bend), knee_str(knee)),
        LegPose::Bent { bend: Bend::Deep, knee, shin } => cat4(hand_str(right), " leg deeply bent", knee_str(knee), shin_str(shin)),
        LegPose::Bent { bend: Bend::Plain, knee, shin } => cat4(hand_str(right), " leg bent", knee_str(knee), shin_str(shin)),
        LegPose::Bent { bend: Bend::Slight, knee, shin } => cat3(hand_str(right), " leg slightly bent", knee_str(knee)),
        LegPose::Bent { bend: Bend::Straight, knee, shin } => cat3(hand_str(right), " leg straight", knee_str(knee)),
    }
}

/// How wide the legs are spread.
pub open spec fn spread_text(s: LegSpread) -> Seq<char> {
    match s {
        LegSpread::Close => "legs spread"@,
        LegSpread::Wide => "legs spread wide"@,
        LegSpread::VeryWide => "legs spread very wide"@,
    }
}

/// How wide the legs are spread.
pub fn spread_str(s: LegSpread) -> (r: &'static str)
    ensures
        r@ == spread_text(s),
{
    match s {
        LegSpread::Close => "legs spread",
        LegSpread::Wide => "legs spread wide",
        LegSpread::VeryWide => "legs spread very wide",
    }
}

/// Is the character white space, as `char::is_whitespace` of the standard
/// library has it?
pub uninterp spec fn is_white_space(c: char) -> bool;

/// Calls `char::is_whitespace`. The contract only names the result: it is
/// a function of the character alone.
#[verifier::external_body]
fn white_space(c: char) -> (r: bool)
    ensures
        r == is_white_space(c),
{
    c.is_whitespace()
}

/// The number of white-space characters that `s` begins with, counted from
/// position `from`.
pub open spec fn leading_white(s: Seq<char>, from: int) -> int
    decreases s.len() - from,
{
    if 0 <= from < s.len() && is_white_space(s[from]) {
        1 + leading_white(s, from + 1)
    } else {
        0
    }
}

/// The number of white-space characters that the first `upto` characters
/// of `s` end with, not counting the first `floor` characters.
pub open spec fn trailing_white(s: Seq<char>, floor: int, upto: int) -> int
    decreases upto,
{
    if 0 <= floor < upto <= s.len() && is_white_space(s[upto - 1]) {
        1 + trailing_white(s, floor, upto - 1)
    } else {
        0
    }
}

/// `s` without the white space at its two ends.
pub open spec fn trimmed(s: Seq<char>) -> Seq<char> {
    let start = leading_white(s, 0);
    let end = s.len() - trailing_white(s, start, s.len() as int);
    s.subrange(start, end)
}

/// `s` without the white space at its two ends.
pub fn trim(s: &str) -> (r: String)
    ensures
        r@ == trimmed(s@),
{
    let v = chars_of(s);
    let mut start: usize = 0;
    while start < v.len() && white_space(v[start])
        invariant
            start <= v.len(),
            v@ == s@,
            leading_white(s@, 0) == start + leading_white(s@, start as int),
        decreases v.len() - start,
    {
        start += 1;
    }
    let mut end: usize = v.len();
    while end > start && white_space(v[end - 1])
        invariant
            start <= end <= v.len(),
            v@ == s@,
            trailing_white(s@, start as int, s@.len() as int) == (v.len() - end) + trailing_white(
                s@,
                start as int,
                end as int,
            ),
        decreases end,
    {
        end -= 1;
    }
    s.substring_char(start, end).to_owned()
}

/// The texts that are not empty, in their order.
pub open spec fn nonempty(parts: Seq<Seq<char>>) -> Seq<Seq<char>>
    decreases parts.len(),
{
    if parts.len() == 0 {
        Seq::empty()
    } else if parts.last().len() == 0 {
        nonempty(parts.drop_last())
    } else {
        nonempty(parts.drop_last()).push(parts.last())
    }
}

/// Leaving out the empty texts of two lists one after the other is leaving
/// them out of the two lists joined.
pub proof fn lemma_nonempty_concat(a: Seq<Seq<char>>, b: Seq<Seq<char>>)
    ensures
        nonempty(a + b) == nonempty(a) + nonempty(b),
    decreases b.len(),
{
    if b.len() == 0 {
        assert(a + b =~= a);
        assert(nonempty(a) + nonempty(b) =~= nonempty(a));
    } else {
        assert((a + b).drop_last() =~= a + b.drop_last());
        assert((a + b).last() == b.last());
        lemma_nonempty_concat(a, b.drop_last());
        if b.last().len() == 0 {
        } else {
            assert(nonempty(a + b) =~= nonempty(a) + nonempty(b));
        }
    }
}

/// Adds `part` to `parts` unless it is empty.
pub fn push_part(parts: &mut Vec<String>, part: String)
    ensures
        views(final(parts)@) == views(old(parts)@) + nonempty(seq![part@]),
{
    let ghost before = views(parts@);
    assert(seq![part@].drop_last() =~= Seq::<Seq<char>>::empty());
    assert(nonempty(Seq::<Seq<char>>::empty()) =~= Seq::<Seq<char>>::empty());
    if part.as_str().unicode_len() > 0 {
        parts.push(part);
        assert(nonempty(seq![part@]) =~= seq![part@]);
        assert(views(parts@) =~= before + seq![part@]);
    } else {
        assert(nonempty(seq![part@]) =~= Seq::<Seq<char>>::empty());
        assert(views(parts@) =~= before + Seq::<Seq<char>>::empty());
    }
}

/// A pair of phrases for the left and the right limb, and the phrase that
/// stands for the two together.
pub struct PhrasePair {
    pub left: &'static str,
    pub right: &'static str,
    pub both: &'static str,
}

/// The text of an optional phrase, empty where there is none.
pub open spec fn text_or_empty(o: Option<String>) -> Seq<char> {
    match o {
        Some(s) => s@,
        None => Seq::empty(),
    }
}

/// The text of an optional phrase.
pub open spec fn option_text(o: Option<String>) -> Option<Seq<char>> {
    match o {
        Some(s) => Some(s@),
        None => None,
    }
}

/// The joint phrase of the first pair, from index `from` on, whose two
/// phrases are exactly `l` and `r`.
pub open spec fn first_exact(pairs: Seq<PhrasePair>, l: Seq<char>, r: Seq<char>, from: int) -> Option<
    Seq<char>,
>
    decreases pairs.len() - from,
{
    if from < 0 || from >= pairs.len() {
        None
    } else if pairs[from].left@ == l && pairs[from].right@ == r {
        Some(pairs[from].both@)
    } else {
        first_exact(pairs, l, r, from + 1)
    }
}

/// What stands for `l` and `r` together under the pair `p`, whose phrases
/// they begin with: the joint phrase, followed by what comes after the
/// pair's phrases in `l` and `r` where that is the same in both and not
/// empty.
pub open spec fn merged(p: PhrasePair, l: Seq<char>, r: Seq<char>) -> Seq<char> {
    let ls = trimmed(l.subrange(p.left@.len() as int, l.len() as int));
    let rs = trimmed(r.subrange(p.right@.len() as int, r.len() as int));
    if ls == rs && ls.len() > 0 {
        p.both@ + " "@ + ls
    } else {
        p.both@
    }
}

/// What stands for `l` and `r` together under the first pair, from index
/// `from` on, whose phrases they begin with.
pub open spec fn first_prefix(pairs: Seq<PhrasePair>, l: Seq<char>, r: Seq<char>, from: int) -> Option<
    Seq<char>,
>
    decreases pairs.len() - from,
{
    if from < 0 || from >= pairs.len() {
        None
    } else if is_prefix(pairs[from].left@, l) && is_prefix(pairs[from].right@, r) {
        Some(merged(pairs[from], l, r))
    } else {
        first_prefix(pairs, l, r, from + 1)
    }
}

/// The joint phrase for two phrases that make a pair exactly.
pub fn symmetrize_texts(l: &str, r: &str, pairs: &Vec<PhrasePair>) -> (out: Option<String>)
    ensures
        option_text(out) == first_exact(pairs@, l@, r@, 0),
{
    let mut i: usize = 0;
    while i < pairs.len()
        invariant
            i <= pairs.len(),
            first_exact(pairs@, l@, r@, 0) == first_exact(pairs@, l@, r@, i as int),
        decreases pairs.len() - i,
    {
        if same_text(l, pairs[i].left) && same_text(r, pairs[i].right) {
            return Some(pairs[i].both.to_owned());
        }
        i += 1;
    }
    None
}

/// The joint phrase for the phrases of a left and a right limb that make a
/// pair exactly. A limb without a phrase counts as the empty phrase.
pub fn symmetrize(left: &Option<String>, right: &Option<String>, pairs: &Vec<PhrasePair>) -> (out:
    Option<String>)
    ensures
        option_text(out) == first_exact(pairs@, text_or_empty(*left), text_or_empty(*right), 0),
{
    let e = "";
    proof {
        reveal_strlit("");
    }
    assert(e@ =~= Seq::<char>::empty());
    let l = match left {
        Some(s) => s.as_str(),
        None => e,
    };
    let r = match right {
        Some(s) => s.as_str(),
        None => e,
    };
    symmetrize_texts(l, r, pairs)
}

/// The joint phrase for two phrases that begin with the phrases of a pair.
pub fn symmetrize_prefix_texts(l: &str, r: &str, pairs: &Vec<PhrasePair>) -> (out: Option<String>)
    ensures
        option_text(out) == first_prefix(pairs@, l@, r@, 0),
{
    let mut i: usize = 0;
    while i < pairs.len()
        invariant
            i <= pairs.len(),
            first_prefix(pairs@, l@, r@, 0) == first_prefix(pairs@, l@, r@, i as int),
        decreases pairs.len() - i,
    {
        if starts_with(l, pairs[i].left) && starts_with(r, pairs[i].right) {
            let ln = l.unicode_len();
            let rn = r.unicode_len();
            let lp = pairs[i].left.unicode_len();
            let rp = pairs[i].right.unicode_len();
            let ls = trim(l.substring_char(lp, ln));
            let rs = trim(r.substring_char(rp, rn));
            let mut out = pairs[i].both.to_owned();
            if same_text(ls.as_str(), rs.as_str()) && ls.as_str().unicode_len() > 0 {
                out.append(" ");
                out.append(ls.as_str());
            }
            assert(out@ =~= merged(pairs@[i as int], l@, r@));
            return Some(out);
        }
        i += 1;
    }
    None
}

/// The joint phrase for the phrases of a left and a right limb that begin
/// with the phrases of a pair. A limb without a phrase counts as the empty
/// phrase.
pub fn symmetrize_prefix(
    left: &Option<String>,
    right: &Option<String>,
    pairs: &Vec<PhrasePair>,
) -> (out: Option<String>)
    ensures
        option_text(out) == first_prefix(pairs@, text_or_empty(*left), text_or_empty(*right), 0),
{
    let e = "";
    proof {
        reveal_strlit("");
    }
    assert(e@ =~= Seq::<char>::empty());
    let l = match left {
        Some(s) => s.as_str(),
        None => e,
    };
    let r = match right {
        Some(s) => s.as_str(),
        None => e,
    };
    symmetrize_prefix_texts(l, r, pairs)
}

/// One pair of phrases.
pub open spec fn pair(left: &'static str, right: &'static str, both: &'static str) -> PhrasePair {
    PhrasePair { left, right, both }
}

/// The pairs of arm phrases that are said as one.
pub open spec fn arm_pairs_table() -> Seq<PhrasePair> {
    seq![
        pair("left arm at side", "right arm at side", "arms at sides"),
        pair("left arm raised overhead", "right arm raised overhead", "arms raised overhead"),
        pair("left arm raised", "right arm raised", "arms raised"),
        pair("left arm slightly raised", "right arm slightly raised", "arms slightly raised"),
        pair("left arm extended forward", "right arm extended forward", "arms extended forward"),
        pair(
            "left arm extended forward-outward",
            "right arm extended forward-outward",
            "arms extended forward-outward",
        ),
        pair("left arm reaching forward", "right arm reaching forward", "arms reaching forward"),
        pair("left arm pointing forward", "right arm pointing forward", "arms pointing forward"),
        pair(
            "left arm outstretched sideways",
            "right arm outstretched sideways",
            "arms outstretched sideways",
        ),
        pair("left arm crossed", "right arm crossed", "arms crossed"),
        pair("left arm behind back", "right arm behind back", "arms behind back"),
        pair("left arm slightly behind", "right arm slightly behind", "arms slightly behind"),
        pair(
            "left arm resting against body",
            "right arm resting against body",
            "arms resting at sides",
        ),
    ]
}

/// The pairs of arm phrases that are said as one.
pub fn arm_pairs() -> (v: Vec<PhrasePair>)
    ensures
        v@ == arm_pairs_table(),
{
    let mut v: Vec<PhrasePair> = Vec::new();
    v.push(PhrasePair { left: "left arm at side", right: "right arm at side", both: "arms at sides" });
    v.push(
        PhrasePair {
            left: "left arm raised overhead",
            right: "right arm raised overhead",
            both: "arms raised overhead",
        },
    );
    v.push(PhrasePair { left: "left arm raised", right: "right arm raised", both: "arms raised" });
    v.push(
        PhrasePair {
            left: "left arm slightly raised",
            right: "right arm slightly raised",
            both: "arms slightly raised",
        },
    );
    v.push(
        PhrasePair {
            left: "left arm extended forward",
            right: "right arm extended forward",
            both: "arms extended forward",
        },
    );
    v.push(
        PhrasePair {
            left: "left arm extended forward-outward",
            right: "right arm extended forward-outward",
            both: "arms extended forward-outward",
        },
    );
    v.push(
        PhrasePair {
            left: "left arm reaching forward",
            right: "right arm reaching forward",
            both: "arms reaching forward",
        },
    );
    v.push(
        PhrasePair {
            left: "left arm pointing forward",
            right: "right arm pointing forward",
            both: "arms pointing forward",
        },
    );
    v.push(
        PhrasePair {
            left: "left arm outstretched sideways",
            right: "right arm outstretched sideways",
            both: "arms outstretched sideways",
        },
    );
    v.push(PhrasePair { left: "left arm crossed", right: "right arm crossed", both: "arms crossed" });
    v.push(
        PhrasePair {
            left: "left arm behind back",
            right: "right arm behind back",
            both: "arms behind back",
        },
    );
    v.push(
        PhrasePair {
            left: "left arm slightly behind",
            right: "right arm slightly behind",
            both: "arms slightly behind",
        },
    );
    v.push(
        PhrasePair {
            left: "left arm resting against body",
            right: "right arm resting against body",
            both: "arms resting at sides",
        },
    );
    assert(v@ =~= arm_pairs_table());
    v
}

/// The pairs of leg phrases that make a stride.
pub open spec fn stride_pairs_table() -> Seq<PhrasePair> {
    seq![
        pair("left leg forward", "right leg back", "legs in stride"),
        pair("left leg back", "right leg forward", "legs in stride"),
    ]
}

/// The pairs of leg phrases that make a stride.
pub fn stride_pairs() -> (v: Vec<PhrasePair>)
    ensures
        v@ == stride_pairs_table(),
{
    let mut v: Vec<PhrasePair> = Vec::new();
    v.push(PhrasePair { left: "left leg forward", right: "right leg back", both: "legs in stride" });
    v.push(PhrasePair { left: "left leg back", right: "right leg forward", both: "legs in stride" });
    assert(v@ =~= stride_pairs_table());
    v
}

/// The pairs of leg phrases that are said as one.
pub open spec fn leg_pairs_table() -> Seq<PhrasePair> {
    seq![
        pair("left leg forward", "right leg back", "legs in stride"),
        pair("left leg back", "right leg forward", "legs in stride"),
        pair("left leg forward", "right leg forward", "both legs forward"),
        pair("left leg forward-outward", "right leg back", "legs in diagonal stride"),
        pair("left leg back", "right leg forward-outward", "legs in diagonal stride"),
        pair("left leg bent", "right leg bent", "both legs bent"),
        pair("left leg slightly bent", "right leg slightly bent", "legs slightly bent"),
        pair("left leg deeply bent", "right leg deeply bent", "legs deeply bent"),
        pair("left leg straight", "right leg straight", "legs straight"),
        pair("left leg out to the side", "right leg out to the side", "legs out to the sides"),
        pair("left leg forward bent", "right leg stepping back", "legs in stride, lead knee bent"),
        pair("left leg stepping forward", "right leg back", "legs in stride"),
        pair("left leg back", "right leg stepping forward", "legs in stride"),
    ]
}

/// The pairs of leg phrases that are said as one.
pub fn leg_pairs() -> (v: Vec<PhrasePair>)
    ensures
        v@ == leg_pairs_table(),
{
    let mut v: Vec<PhrasePair> = Vec::new();
    v.push(PhrasePair { left: "left leg forward", right: "right leg back", both: "legs in stride" });
    v.push(PhrasePair { left: "left leg back", right: "right leg forward", both: "legs in stride" });
    v.push(
        PhrasePair { left: "left leg forward", right: "right leg forward", both: "both legs forward" },
    );
    v.push(
        PhrasePair {
            left: "left leg forward-outward",
            right: "right leg back",
            both: "legs in diagonal stride",
        },
    );
    v.push(
        PhrasePair {
            left: "left leg back",
            right: "right leg forward-outward",
            both: "legs in diagonal stride",
        },
    );
    v.push(PhrasePair { left: "left leg bent", right: "right leg bent", both: "both legs bent" });
    v.push(
        PhrasePair {
            left: "left leg slightly bent",
            right: "right leg slightly bent",
            both: "legs slightly bent",
        },
    );
    v.push(
        PhrasePair {
            left: "left leg deeply bent",
            right: "right leg deeply bent",
            both: "legs deeply bent",
        },
    );
    v.push(
        PhrasePair { left: "left leg straight", right: "right leg straight", both: "legs straight" },
    );
    v.push(
        PhrasePair {
            left: "left leg out to the side",
            right: "right leg out to the side",
            both: "legs out to the sides",
        },
    );
    v.push(
        PhrasePair {
            left: "left leg forward bent",
            right: "right leg stepping back",
            both: "legs in stride, lead knee bent",
        },
    );
    v.push(
        PhrasePair {
            left: "left leg stepping forward",
            right: "right leg back",
            both: "legs in stride",
        },
    );
    v.push(
        PhrasePair {
            left: "left leg back",
            right: "right leg stepping forward",
            both: "legs in stride",
        },
    );
    assert(v@ =~= leg_pairs_table());
    v
}

/// What is said of the head: nod, turn and tilt.
pub open spec fn head_parts(h: HeadReading) -> Seq<Seq<char>> {
    seq![
        nod_text(turn_of(h.nod, 15, 35)),
        yaw_text(turn_of(h.yaw, 15, 35)),
        roll_text(turn_of(h.roll, 10, 20)),
    ]
}

/// What is said of the head, with commas: the nod over 15 degrees, bowed
/// or thrown back over 35; the turn likewise; the tilt over 10 degrees, far
/// over 20. Nothing for a head held level.
pub fn head_orient(h: &HeadReading) -> (r: Option<String>)
    ensures
        match r {
            Some(s) => nonempty(head_parts(*h)).len() > 0 && s@ == joined(
                nonempty(head_parts(*h)),
                ", "@,
            ),
            None => nonempty(head_parts(*h)).len() == 0,
        },
{
    let mut parts: Vec<String> = Vec::new();
    assert(views(parts@) =~= Seq::<Seq<char>>::empty());
    push_head(&mut parts, h);
    if parts.len() == 0 {
        None
    } else {
        Some(join(&parts, ", "))
    }
}

/// Adds what is said of the head to `parts`.
pub fn push_head(parts: &mut Vec<String>, h: &HeadReading)
    ensures
        views(final(parts)@) == views(old(parts)@) + nonempty(head_parts(*h)),
{
    let a = nod_str(turn_of(h.nod, 15, 35)).to_owned();
    let b = yaw_str(turn_of(h.yaw, 15, 35)).to_owned();
    let c = roll_str(turn_of(h.roll, 10, 20)).to_owned();
    proof {
        lemma_nonempty_concat(seq![a@], seq![b@]);
        lemma_nonempty_concat(seq![a@, b@], seq![c@]);
        assert(seq![a@] + seq![b@] =~= seq![a@, b@]);
        assert(seq![a@, b@] + seq![c@] =~= head_parts(*h));
    }
    push_part(parts, a);
    push_part(parts, b);
    push_part(parts, c);
    assert(views(parts@) =~= views(old(parts)@) + nonempty(head_parts(*h)));
}

/// What is said of the trunk: lean, tilt of the shoulders and turn.
pub open spec fn torso_parts(r: PoseReading) -> Seq<Seq<char>> {
    seq![
        lean_text(lean_of(&r.figure, &r.torso)),
        tilt_text(tilt_of(&r.figure)),
        twist_text(twist_of(&r.figure, &r.torso)),
    ]
}

/// Adds what is said of the trunk to `parts`.
pub fn push_torso(parts: &mut Vec<String>, r: &PoseReading)
    ensures
        views(final(parts)@) == views(old(parts)@) + nonempty(torso_parts(*r)),
{
    let a = lean_string(lean_of(&r.figure, &r.torso));
    let b = tilt_str(tilt_of(&r.figure)).to_owned();
    let c = twist_string(twist_of(&r.figure, &r.torso));
    proof {
        lemma_nonempty_concat(seq![a@], seq![b@]);
        lemma_nonempty_concat(seq![a@, b@], seq![c@]);
        assert(seq![a@] + seq![b@] =~= seq![a@, b@]);
        assert(seq![a@, b@] + seq![c@] =~= torso_parts(*r));
    }
    push_part(parts, a);
    push_part(parts, b);
    push_part(parts, c);
    assert(views(parts@) =~= views(old(parts)@) + nonempty(torso_parts(*r)));
}

/// The phrase of the left arm.
pub open spec fn left_arm_text(r: PoseReading) -> Seq<char> {
    arm_text(
        arm_pose(
            &r.figure.left_shoulder,
            &r.figure.left_elbow,
            &r.figure.left_wrist,
            &r.figure.head,
            false,
            &r.left_arm,
            &metrics(&r.figure),
        ),
        false,
    )
}

/// The phrase of the right arm.
pub open spec fn right_arm_text(r: PoseReading) -> Seq<char> {
    arm_text(
        arm_pose(
            &r.figure.right_shoulder,
            &r.figure.right_elbow,
            &r.figure.right_wrist,
            &r.figure.head,
            true,
            &r.right_arm,
            &metrics(&r.figure),
        ),
        true,
    )
}

/// What the two hands do together.
pub open spec fn hands_of(r: PoseReading) -> HandsPose {
    hands_pose(
        &r.figure,
        &metrics(&r.figure),
        &r.left_arm,
        &r.right_arm,
        &r.hands,
        arm_described(
            arm_pose(
                &r.figure.left_shoulder,
                &r.figure.left_elbow,
                &r.figure.left_wrist,
                &r.figure.head,
                false,
                &r.left_arm,
                &metrics(&r.figure),
            ),
        ),
        arm_described(
            arm_pose(
                &r.figure.right_shoulder,
                &r.figure.right_elbow,
                &r.figure.right_wrist,
                &r.figure.head,
                true,
                &r.right_arm,
                &metrics(&r.figure),
            ),
        ),
    )
}

/// What is said of the arms. What the two hands do together comes first;
/// where they do nothing together, the two arms are said as one where
/// their phrases make a pair, and else one after the other.
pub open spec fn arms_parts(r: PoseReading) -> Seq<Seq<char>> {
    let lt = left_arm_text(r);
    let rt = right_arm_text(r);
    match hands_of(r) {
        HandsPose::PressedNearFace => seq!["hands pressed together near face"@],
        HandsPose::Clasped(c) => seq![clasp_text(c)],
        HandsPose::Guard => seq!["arms raised in guard position"@],
        HandsPose::Folded => seq!["arms folded across chest"@],
        HandsPose::BothOnChest => seq!["both hands on chest"@],
        HandsPose::OnChest(Side::Left) => seq!["left hand on chest"@],
        HandsPose::OnChest(Side::Right) => seq!["right hand on chest"@],
        HandsPose::OnHips => seq!["hands on hips"@],
        HandsPose::OnHip(Side::Left) => seq!["left hand on hip"@, rt],
        HandsPose::OnHip(Side::Right) => seq!["right hand on hip"@, lt],
        HandsPose::OnKnees => seq!["hands on knees"@],
        HandsPose::BothAtNeck => seq!["both hands at neck"@],
        HandsPose::AtNeck(Side::Left) => seq!["left hand at neck"@, rt],
        HandsPose::AtNeck(Side::Right) => seq!["right hand at neck"@, lt],
        HandsPose::ClaspedAtRest => seq!["hands clasped at rest in front"@],
        HandsPose::Apart => match first_prefix(arm_pairs_table(), lt, rt, 0) {
            Some(s) => seq![s],
            None => seq![lt, rt],
        },
    }
}

/// Adds one phrase and, where it is not empty, a second one to `parts`.
fn push_two(parts: &mut Vec<String>, first: &str, second: String)
    requires
        first@.len() > 0,
    ensures
        views(final(parts)@) == views(old(parts)@) + nonempty(seq![first@, second@]),
{
    proof {
        lemma_nonempty_concat(seq![first@], seq![second@]);
        assert(seq![first@] + seq![second@] =~= seq![first@, second@]);
    }
    push_part(parts, first.to_owned());
    push_part(parts, second);
    assert(views(parts@) =~= views(old(parts)@) + nonempty(seq![first@, second@]));
}

/// Adds one phrase to `parts`.
fn push_one(parts: &mut Vec<String>, phrase: &str)
    ensures
        views(final(parts)@) == views(old(parts)@) + nonempty(seq![phrase@]),
{
    push_part(parts, phrase.to_owned());
}

/// Adds what is said of the arms to `parts`.
pub fn push_arms(parts: &mut Vec<String>, r: &PoseReading)
    ensures
        views(final(parts)@) == views(old(parts)@) + nonempty(arms_parts(*r)),
{
    let f = &r.figure;
    let m = metrics(f);
    let lp = arm_pose(&f.left_shoulder, &f.left_elbow, &f.left_wrist, &f.head, false, &r.left_arm, &m);
    let rp = arm_pose(
        &f.right_shoulder,
        &f.right_elbow,
        &f.right_wrist,
        &f.head,
        true,
        &r.right_arm,
        &m,
    );
    let lt = arm_string(lp, false);
    let rt = arm_string(rp, true);
    proof {
        reveal_strlit("left hand on hip");
        reveal_strlit("right hand on hip");
        reveal_strlit("left hand at neck");
        reveal_strlit("right hand at neck");
    }
    match hands_pose(f, &m, &r.left_arm, &r.right_arm, &r.hands, arm_described(lp), arm_described(rp)) {
        HandsPose::PressedNearFace => push_one(parts, "hands pressed together near face"),
        HandsPose::Clasped(c) => push_one(parts, clasp_str(c)),
        HandsPose::Guard => push_one(parts, "arms raised in guard position"),
        HandsPose::Folded => push_one(parts, "arms folded across chest"),
        HandsPose::BothOnChest => push_one(parts, "both hands on chest"),
        HandsPose::OnChest(Side::Left) => push_one(parts, "left hand on chest"),
        HandsPose::OnChest(Side::Right) => push_one(parts, "right hand on chest"),
        HandsPose::OnHips => push_one(parts, "hands on hips"),
        HandsPose::OnHip(Side::Left) => push_two(parts, "left hand on hip", rt),
        HandsPose::OnHip(Side::Right) => push_two(parts, "right hand on hip", lt),
        HandsPose::OnKnees => push_one(parts, "hands on knees"),
        HandsPose::BothAtNeck => push_one(parts, "both hands at neck"),
        HandsPose::AtNeck(Side::Left) => push_two(parts, "left hand at neck", rt),
        HandsPose::AtNeck(Side::Right) => push_two(parts, "right hand at neck", lt),
        HandsPose::ClaspedAtRest => push_one(parts, "hands clasped at rest in front"),
        HandsPose::Apart => {
            let pairs = arm_pairs();
            match symmetrize_prefix_texts(lt.as_str(), rt.as_str(), &pairs) {
                Some(s) => {
                    push_part(parts, s);
                },
                None => {
                    proof {
                        lemma_nonempty_concat(seq![lt@], seq![rt@]);
                        assert(seq![lt@] + seq![rt@] =~= seq![lt@, rt@]);
                    }
                    push_part(parts, lt);
                    push_part(parts, rt);
                    assert(views(parts@) =~= views(old(parts)@) + nonempty(seq![lt@, rt@]));
                },
            }
        },
    }
}

/// Does the phrase speak of a straight or slightly bent leg?
pub open spec fn straightish(s: Seq<char>) -> bool {
    has_substring(s, "straight"@) || has_substring(s, "slightly bent"@)
}

/// Does the left leg lead a lunge: forward and bent?
pub open spec fn left_leads(l: Seq<char>) -> bool {
    is_prefix("left leg forward bent"@, l) || is_prefix("left leg forward deeply bent"@, l)
        || is_prefix("left leg forward-outward bent"@, l) || is_prefix(
        "left leg forward-outward deeply bent"@,
        l,
    ) || is_prefix("left leg stepping forward bent"@, l)
}

/// Does the right leg lead a lunge: forward and bent?
pub open spec fn right_leads(r: Seq<char>) -> bool {
    is_prefix("right leg forward bent"@, r) || is_prefix("right leg forward deeply bent"@, r)
        || is_prefix("right leg forward-outward bent"@, r) || is_prefix(
        "right leg forward-outward deeply bent"@,
        r,
    ) || is_prefix("right leg stepping forward bent"@, r)
}

/// Does the left leg trail: back, in a stride or a step?
pub open spec fn left_trails(l: Seq<char>) -> bool {
    is_prefix("left leg back"@, l) || is_prefix("left leg stepping back"@, l)
}

/// Does the right leg trail: back, in a stride or a step?
pub open spec fn right_trails(r: Seq<char>) -> bool {
    is_prefix("right leg back"@, r) || is_prefix("right leg stepping back"@, r)
}

/// What is said of two legs that stand close, from their two phrases:
/// crossed ankles, a pair said as one, legs together, a lunge, or the two
/// phrases one after the other.
pub open spec fn close_legs_parts(lt: Seq<char>, rt: Seq<char>, crossed: bool, together: bool) -> Seq<
    Seq<char>,
> {
    if crossed && straightish(lt) && straightish(rt) {
        seq!["ankles crossed"@]
    } else {
        match first_exact(leg_pairs_table(), lt, rt, 0) {
            Some(s) => seq![s],
            None => if lt == "left leg straight"@ && rt == "right leg straight"@ {
                if together {
                    seq!["legs together"@]
                } else {
                    Seq::empty()
                }
            } else if left_leads(lt) && right_trails(rt) {
                seq!["lunge, left leg leading"@]
            } else if right_leads(rt) && left_trails(lt) {
                seq!["lunge, right leg leading"@]
            } else {
                seq![lt, rt]
            },
        }
    }
}

/// What is said of the legs of a figure that stands, from their two
/// phrases: legs spread wide, with a stride where the phrases make one, or
/// what is said of legs that stand close.
pub open spec fn standing_legs_parts(
    lt: Seq<char>,
    rt: Seq<char>,
    spread: LegSpread,
    crossed: bool,
    together: bool,
) -> Seq<Seq<char>> {
    match spread {
        LegSpread::Close => close_legs_parts(lt, rt, crossed, together),
        _ => match first_exact(stride_pairs_table(), lt, rt, 0) {
            Some(s) => seq![spread_text(spread), s],
            None => seq![spread_text(spread)],
        },
    }
}

/// The phrase of the left leg.
pub open spec fn left_leg_text(r: PoseReading) -> Seq<char> {
    leg_text(
        leg_pose(&r.figure.left_knee, &r.figure.left_ankle, &r.left_leg, &metrics(&r.figure)),
        false,
    )
}

/// The phrase of the right leg.
pub open spec fn right_leg_text(r: PoseReading) -> Seq<char> {
    leg_text(
        leg_pose(&r.figure.right_knee, &r.figure.right_ankle, &r.right_leg, &metrics(&r.figure)),
        true,
    )
}

/// What is said of the legs: nothing unless the figure stands flat on both
/// feet, since every other stance has said it already.
pub open spec fn legs_parts(r: PoseReading, st: Stance) -> Seq<Seq<char>> {
    if is_standing(st) {
        standing_legs_parts(
            left_leg_text(r),
            right_leg_text(r),
            leg_spread(&r.figure, &metrics(&r.figure)),
            ankles_crossed(&r.figure),
            feet_together(&r.figure, &metrics(&r.figure)),
        )
    } else {
        Seq::empty()
    }
}

/// Does the phrase speak of a straight or slightly bent leg?
fn is_straightish(s: &str) -> (r: bool)
    ensures
        r == straightish(s@),
{
    contains(s, "straight") || contains(s, "slightly bent")
}

/// Adds what is said of two legs that stand close to `parts`.
pub fn push_close_legs(parts: &mut Vec<String>, lt: String, rt: String, crossed: bool, together: bool)
    ensures
        views(final(parts)@) == views(old(parts)@) + nonempty(
            close_legs_parts(lt@, rt@, crossed, together),
        ),
{
    let l = lt.as_str();
    let r = rt.as_str();
    if crossed && is_straightish(l) && is_straightish(r) {
        push_one(parts, "ankles crossed");
        return ;
    }
    let pairs = leg_pairs();
    match symmetrize_texts(l, r, &pairs) {
        Some(s) => {
            push_part(parts, s);
        },
        None => {
            if same_text(l, "left leg straight") && same_text(r, "right leg straight") {
                if together {
                    push_one(parts, "legs together");
                } else {
                    assert(nonempty(Seq::<Seq<char>>::empty()) =~= Seq::<Seq<char>>::empty());
                    assert(views(parts@) =~= views(old(parts)@) + Seq::<Seq<char>>::empty());
                }
                return ;
            }
            let l_leads = starts_with(l, "left leg forward bent") || starts_with(
                l,
                "left leg forward deeply bent",
            ) || starts_with(l, "left leg forward-outward bent") || starts_with(
                l,
                "left leg forward-outward deeply bent",
            ) || starts_with(l, "left leg stepping forward bent");
            let r_leads = starts_with(r, "right leg forward bent") || starts_with(
                r,
                "right leg forward deeply bent",
            ) || starts_with(r, "right leg forward-outward bent") || starts_with(
                r,
                "right leg forward-outward deeply bent",
            ) || starts_with(r, "right leg stepping forward bent");
            let r_trails = starts_with(r, "right leg back") || starts_with(
                r,
                "right leg stepping back",
            );
            let l_trails = starts_with(l, "left leg back") || starts_with(
                l,
                "left leg stepping back",
            );
            if l_leads && r_trails {
                push_one(parts, "lunge, left leg leading");
            } else if r_leads && l_trails {
                push_one(parts, "lunge, right leg leading");
            } else {
                proof {
                    lemma_nonempty_concat(seq![lt@], seq![rt@]);
                    assert(seq![lt@] + seq![rt@] =~= seq![lt@, rt@]);
                }
                push_part(parts, lt);
                push_part(parts, rt);
                assert(views(parts@) =~= views(old(parts)@) + nonempty(seq![lt@, rt@]));
            }
        },
    }
}

/// Adds what is said of the legs of a figure that stands to `parts`.
pub fn push_standing_legs(
    parts: &mut Vec<String>,
    lt: String,
    rt: String,
    spread: LegSpread,
    crossed: bool,
    together: bool,
)
    ensures
        views(final(parts)@) == views(old(parts)@) + nonempty(
            standing_legs_parts(lt@, rt@, spread, crossed, together),
        ),
{
    match spread {
        LegSpread::Close => push_close_legs(parts, lt, rt, crossed, together),
        _ => {
            let pairs = stride_pairs();
            let wide = spread_str(spread);
            match symmetrize_texts(lt.as_str(), rt.as_str(), &pairs) {
                Some(s) => {
                    proof {
                        lemma_nonempty_concat(seq![wide@], seq![s@]);
                        assert(seq![wide@] + seq![s@] =~= seq![wide@, s@]);
                    }
                    push_part(parts, wide.to_owned());
                    push_part(parts, s);
                    assert(views(parts@) =~= views(old(parts)@) + nonempty(seq![wide@, s@]));
                },
                None => {
                    push_one(parts, wide);
                },
            }
        },
    }
}

/// What is said of the legs of a figure that stands, or nothing. The two
/// phrases are those of the left and of the right leg.
pub fn legs(
    standing: bool,
    left: &Option<String>,
    right: &Option<String>,
    spread: LegSpread,
    crossed: bool,
    together: bool,
) -> (r: Option<String>)
    ensures
        ({
            let said = if standing {
                nonempty(
                    standing_legs_parts(
                        text_or_empty(*left),
                        text_or_empty(*right),
                        spread,
                        crossed,
                        together,
                    ),
                )
            } else {
                Seq::<Seq<char>>::empty()
            };
            match r {
                Some(s) => said.len() > 0 && s@ == joined(said, ", "@),
                None => said.len() == 0,
            }
        }),
{
    if !standing {
        return None;
    }
    let lt = match left {
        Some(s) => s.clone(),
        None => String::new(),
    };
    let rt = match right {
        Some(s) => s.clone(),
        None => String::new(),
    };
    let mut parts: Vec<String> = Vec::new();
    assert(views(parts@) =~= Seq::<Seq<char>>::empty());
    push_standing_legs(&mut parts, lt, rt, spread, crossed, together);
    if parts.len() == 0 {
        None
    } else {
        Some(join(&parts, ", "))
    }
}

/// Everything that is said of a pose, part by part; parts of which nothing
/// is said are empty. The trunk is left out for a figure that lies.
pub open spec fn pose_parts(r: PoseReading) -> Seq<Seq<char>> {
    let m = metrics(&r.figure);
    let st = stance_of(&r.figure, &m, &r.left_leg, &r.right_leg);
    seq![stance_text(st)] + (if is_lying(st) {
        Seq::empty()
    } else {
        torso_parts(r)
    }) + seq![weight_text(weight_of(&r.figure, &m, is_upright(st)))] + head_parts(r.head)
        + arms_parts(r) + legs_parts(r, st)
}

/// The description of a pose: what is said of it, with commas.
pub open spec fn description(r: PoseReading) -> Seq<char> {
    joined(nonempty(pose_parts(r)), ", "@)
}

/// The description of a pose.
pub fn describe(r: &PoseReading) -> (out: String)
    ensures
        out@ == description(*r),
{
    let f = &r.figure;
    let m = metrics(f);
    let st = stance_of(f, &m, &r.left_leg, &r.right_leg);
    let mut parts: Vec<String> = Vec::new();
    assert(views(parts@) =~= Seq::<Seq<char>>::empty());
    let ghost said0 = seq![stance_text(st)];
    let ghost said1 = if is_lying(st) {
        Seq::<Seq<char>>::empty()
    } else {
        torso_parts(*r)
    };
    let ghost said2 = seq![weight_text(weight_of(f, &m, is_upright(st)))];
    let ghost said3 = head_parts(r.head);
    let ghost said4 = arms_parts(*r);
    let ghost said5 = legs_parts(*r, st);
    proof {
        lemma_nonempty_concat(said0, said1);
        lemma_nonempty_concat(said0 + said1, said2);
        lemma_nonempty_concat(said0 + said1 + said2, said3);
        lemma_nonempty_concat(said0 + said1 + said2 + said3, said4);
        lemma_nonempty_concat(said0 + said1 + said2 + said3 + said4, said5);
        assert(nonempty(Seq::<Seq<char>>::empty()) =~= Seq::<Seq<char>>::empty());
    }
    push_part(&mut parts, stance_string(st));
    assert(views(parts@) =~= nonempty(said0));
    if !is_lying(st) {
        push_torso(&mut parts, r);
    }
    assert(views(parts@) =~= nonempty(said0) + nonempty(said1));
    push_part(&mut parts, weight_string(weight_of(f, &m, is_upright(st))));
    push_head(&mut parts, &r.head);
    push_arms(&mut parts, r);
    assert(views(parts@) =~= nonempty(said0) + nonempty(said1) + nonempty(said2) + nonempty(said3) + nonempty(
        said4,
    ));
    if is_standing(st) {
        let lt = leg_string(leg_pose(&f.left_knee, &f.left_ankle, &r.left_leg, &m), false);
        let rt = leg_string(leg_pose(&f.right_knee, &f.right_ankle, &r.right_leg, &m), true);
        push_standing_legs(
            &mut parts,
            lt,
            rt,
            leg_spread(f, &m),
            ankles_crossed(f),
            feet_together(f, &m),
        );
    }
    assert(views(parts@) =~= nonempty(pose_parts(*r)));
    join(&parts, ", ")
}

/// A list of phrases joined with commas begins with its first phrase.
proof fn lemma_joined_begins(parts: Seq<Seq<char>>, sep: Seq<char>)
    requires
        parts.len() > 0,
    ensures
        is_prefix(parts[0], joined(parts, sep)),
    decreases parts.len(),
{
    if parts.len() == 1 {
        assert(parts[0].subrange(0, parts[0].len() as int) =~= parts[0]);
    } else {
        let head = parts.drop_last();
        lemma_joined_begins(head, sep);
        let j = joined(head, sep);
        let all = j + sep + parts.last();
        assert(all.subrange(0, parts[0].len() as int) =~= j.subrange(0, parts[0].len() as int));
    }
}

/// What is left of a list that begins with a phrase that is not empty
/// begins with that phrase.
proof fn lemma_nonempty_keeps_first(first: Seq<char>, rest: Seq<Seq<char>>)
    requires
        first.len() > 0,
    ensures
        nonempty(seq![first] + rest).len() > 0,
        nonempty(seq![first] + rest)[0] == first,
{
    lemma_nonempty_concat(seq![first], rest);
    let one = seq![first];
    assert(one.drop_last() =~= Seq::<Seq<char>>::empty());
    assert(one.last() == first);
    assert(nonempty(one.drop_last()) =~= Seq::<Seq<char>>::empty());
    assert(nonempty(one) =~= one);
}

/// The description of a pose begins with what is said of its stance.
pub proof fn lemma_description_begins_with_stance(r: PoseReading)
    ensures
        is_prefix(
            stance_text(
                stance_of(&r.figure, &metrics(&r.figure), &r.left_leg, &r.right_leg),
            ),
            description(r),
        ),
{
    let m = metrics(&r.figure);
    let st = stance_of(&r.figure, &m, &r.left_leg, &r.right_leg);
    let rest = (if is_lying(st) {
        Seq::<Seq<char>>::empty()
    } else {
        torso_parts(r)
    }) + seq![weight_text(weight_of(&r.figure, &m, is_upright(st)))] + head_parts(r.head)
        + arms_parts(r) + legs_parts(r, st);
    assert(pose_parts(r) =~= seq![stance_text(st)] + rest);
    lemma_stance_is_said(st);
    lemma_nonempty_keeps_first(stance_text(st), rest);
    lemma_joined_begins(nonempty(pose_parts(r)), ", "@);
}

/// Something is said of every stance.
proof fn lemma_stance_is_said(st: Stance)
    ensures
        stance_text(st).len() > 0,
{
    reveal_strlit("lying on ");
    reveal_strlit("lying face up");
    reveal_strlit("lying face down");
    reveal_strlit("kneeling, torso leaning forward");
    reveal_strlit("kneeling");
    reveal_strlit("seated cross-legged");
    reveal_strlit("perched, seated on edge");
    reveal_strlit("seated");
    reveal_strlit("kneeling on ");
    reveal_strlit(" knee raised");
    reveal_strlit("balancing on ");
    reveal_strlit("doing the side splits");
    reveal_strlit("doing the forward splits, ");
    reveal_strlit("standing on tip-toe, ");
    reveal_strlit("standing, ");
    reveal_strlit("deep squat");
    reveal_strlit("squat");
    reveal_strlit("half squat");
}

/// A figure whose body is lower than 80 units is said to lie: its
/// description begins with "lying".
pub proof fn lemma_low_figure_lies(r: PoseReading)
    requires
        metrics(&r.figure).body_h < 80 * UNIT,
    ensures
        is_prefix("lying"@, description(r)),
{
    let m = metrics(&r.figure);
    let st = stance_of(&r.figure, &m, &r.left_leg, &r.right_leg);
    lemma_description_begins_with_stance(r);
    reveal_strlit("lying");
    reveal_strlit("lying on ");
    reveal_strlit("lying face up");
    reveal_strlit("lying face down");
    let t = stance_text(st);
    assert(is_prefix("lying"@, t)) by {
        assert(t.subrange(0, 5) =~= "lying"@);
    }
    let whole = description(r);
    assert(whole.subrange(0, 5) =~= whole.subrange(0, t.len() as int).subrange(0, 5));
}

/// A figure at least 80 units high, on two straight legs, with neither
/// foot off the floor and the hips not sunk under 0.32 of its height, is
/// said to stand: its description begins with "standing".
pub proof fn lemma_upright_figure_stands(r: PoseReading)
    requires
        metrics(&r.figure).body_h >= 80 * UNIT,
        !knee_bent(&r.left_leg),
        !knee_bent(&r.right_leg),
        !foot_up(&metrics(&r.figure), r.figure.left_ankle.y),
        !foot_up(&metrics(&r.figure), r.figure.right_ankle.y),
        !lower_than(&metrics(&r.figure), r.figure.crotch.y, 32),
    ensures
        is_prefix("standing"@, description(r)),
{
    let m = metrics(&r.figure);
    let st = stance_of(&r.figure, &m, &r.left_leg, &r.right_leg);
    lemma_description_begins_with_stance(r);
    reveal_strlit("standing");
    reveal_strlit("standing on tip-toe, ");
    reveal_strlit("standing, ");
    let t = stance_text(st);
    assert(is_prefix("standing"@, t)) by {
        assert(t.subrange(0, 8) =~= "standing"@);
    }
    let whole = description(r);
    assert(whole.subrange(0, 8) =~= whole.subrange(0, t.len() as int).subrange(0, 8));
}

/// Two arms that hang at the sides, with hands that do nothing together,
/// are said as one: "arms at sides", not one phrase for each arm.
pub proof fn lemma_arms_at_sides_are_said_as_one(r: PoseReading)
    requires
        hands_of(r) == HandsPose::Apart,
        left_arm_text(r) == "left arm at side"@,
        right_arm_text(r) == "right arm at side"@,
    ensures
        arms_parts(r) == seq!["arms at sides"@],
{
    let lt = left_arm_text(r);
    let rt = right_arm_text(r);
    let p = arm_pairs_table()[0];
    assert(p.left@ == lt && p.right@ == rt && p.both@ == "arms at sides"@);
    assert(lt.subrange(0, lt.len() as int) =~= lt);
    assert(rt.subrange(0, rt.len() as int) =~= rt);
    let tail = lt.subrange(lt.len() as int, lt.len() as int);
    assert(tail.len() == 0);
    assert(leading_white(tail, 0) == 0);
    assert(trailing_white(tail, 0, 0) == 0);
    assert(trimmed(tail) =~= Seq::<char>::empty());
    assert(merged(p, lt, rt) == p.both@);
}

} // verus!
