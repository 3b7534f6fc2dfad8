//! What is read off a pose before it is put into words. Lengths and
//! coordinates are whole numbers of millionths of a unit, angles of
//! millionths of a degree, ratios of millionths; `y` grows downwards and
//! `z` away from the viewer. Distances and angles are measured by the
//! caller; every threshold is applied here.

use vstd::prelude::*;

verus! {

/// One unit of length, one degree, or the ratio one.
pub const UNIT: i64 = 1_000_000;

/// A point in space.
#[derive(Clone, Copy, Debug, PartialEq, Eq)]
pub struct Point {
    pub x: i64,
    pub y: i64,
    pub z: i64,
}

/// The joints of the figure.
#[derive(Clone, Copy, Debug, PartialEq, Eq)]
pub struct Figure {
    pub head: Point,
    pub neck: Point,
    pub left_shoulder: Point,
    pub right_shoulder: Point,
    pub left_elbow: Point,
    pub right_elbow: Point,
    pub left_wrist: Point,
    pub right_wrist: Point,
    pub waist: Point,
    pub crotch: Point,
    pub left_knee: Point,
    pub right_knee: Point,
    pub left_ankle: Point,
    pub right_ankle: Point,
}

/// A limb as measured from its root (shoulder or hip) to its end (wrist or
/// ankle). `up`, `out` and `fwd` are the parts of the unit vector from root
/// to end that point upwards, away from the middle of the body, and away
/// from the viewer. `horiz_angle` is the angle of that vector in the
/// horizontal plane, 0 for forward and 90 degrees for outward;
/// `elev_angle` is its angle above the horizontal; `bend` is the angle at
/// the joint in the middle of the limb, 180 degrees for a straight limb.
#[derive(Clone, Copy, Debug, PartialEq, Eq)]
pub struct LimbReading {
    pub reach: i64,
    pub up: i64,
    pub out: i64,
    pub fwd: i64,
    pub horiz_angle: i64,
    pub elev_angle: i64,
    pub bend: i64,
}

/// An arm: the limb from shoulder to wrist, the parts of the unit vector
/// from shoulder to elbow, and the distance from wrist to head.
#[derive(Clone, Copy, Debug, PartialEq, Eq)]
pub struct ArmReading {
    pub limb: LimbReading,
    pub elbow_up: i64,
    pub elbow_fwd: i64,
    pub elbow_out: i64,
    pub hand_to_head: i64,
}

/// A leg: the limb from hip to ankle, and how far the knee stands
/// outwards of the line from hip to ankle.
#[derive(Clone, Copy, Debug, PartialEq, Eq)]
pub struct LegReading {
    pub limb: LimbReading,
    pub knee_dev: i64,
}

/// Distances between the hands and between a hand and a place on the body.
#[derive(Clone, Copy, Debug, PartialEq, Eq)]
pub struct HandsReading {
    pub wrist_gap: i64,
    pub left_to_chest: i64,
    pub right_to_chest: i64,
    pub left_to_knee: i64,
    pub right_to_knee: i64,
    pub left_to_neck: i64,
    pub right_to_neck: i64,
}

/// The angles of the trunk: how far it leans forward or back, how far to
/// a side, and how far the line of the shoulders is turned away from the
/// viewer.
#[derive(Clone, Copy, Debug, PartialEq, Eq)]
pub struct TorsoReading {
    pub fwd_angle: i64,
    pub side_angle: i64,
    pub twist_angle: i64,
}

/// The angles of the head in whole degrees: nodding down, turned to the
/// figure's right, tilted to the figure's right.
#[derive(Clone, Copy, Debug, PartialEq, Eq)]
pub struct HeadReading {
    pub nod: i32,
    pub yaw: i32,
    pub roll: i32,
}

/// Everything that is read off a pose.
#[derive(Clone, Copy, Debug, PartialEq, Eq)]
pub struct PoseReading {
    pub figure: Figure,
    pub left_arm: ArmReading,
    pub right_arm: ArmReading,
    pub hands: HandsReading,
    pub left_leg: LegReading,
    pub right_leg: LegReading,
    pub torso: TorsoReading,
    pub head: HeadReading,
}

/// The measures of the body that the thresholds are proportional to. The
/// floor is the level of the lower ankle. `shoulder_y2` is the sum of the
/// heights of the two shoulders, twice their mean.
#[derive(Clone, Copy, Debug, PartialEq, Eq)]
pub struct BodyMetrics {
    pub floor_y: i64,
    pub body_h: i128,
    pub torso_h: i128,
    pub shoulder_w: i128,
    pub neck_y: i64,
    pub shoulder_y2: i128,
    pub hip_y: i64,
}

impl BodyMetrics {
    /// The three lengths are at least one unit, and every measure is one
    /// that differences of coordinates can give.
    pub open spec fn wf(&self) -> bool {
        &&& 1_000_000 <= self.body_h <= 0x2_0000_0000_0000_0000
        &&& 1_000_000 <= self.torso_h <= 0x2_0000_0000_0000_0000
        &&& 1_000_000 <= self.shoulder_w <= 0x2_0000_0000_0000_0000
        &&& -0x2_0000_0000_0000_0000 <= self.shoulder_y2 <= 0x2_0000_0000_0000_0000
    }
}

/// `a - b`.
pub open spec fn spec_d(a: i64, b: i64) -> i128 {
    (a - b) as i128
}

/// `a - b`.
#[verifier::when_used_as_spec(spec_d)]
pub fn d(a: i64, b: i64) -> (r: i128)
    ensures
        r == a - b,
        r == spec_d(a, b),
{
    a as i128 - b as i128
}

/// `a + b`.
pub open spec fn spec_s(a: i64, b: i64) -> i128 {
    (a + b) as i128
}

/// `a + b`.
#[verifier::when_used_as_spec(spec_s)]
pub fn s(a: i64, b: i64) -> (r: i128)
    ensures
        r == a + b,
        r == spec_s(a, b),
{
    a as i128 + b as i128
}

/// `a`, with room to calculate.
pub open spec fn spec_w(a: i64) -> i128 {
    a as i128
}

/// `a`, with room to calculate.
#[verifier::when_used_as_spec(spec_w)]
pub fn w(a: i64) -> (r: i128)
    ensures
        r == a,
        r == spec_w(a),
{
    a as i128
}

/// The size of `a`, whatever its sign.
pub open spec fn spec_mag(a: i128) -> i128 {
    if a < 0 {
        (-a) as i128
    } else {
        a
    }
}

/// The size of `a`, whatever its sign.
#[verifier::when_used_as_spec(spec_mag)]
pub fn mag(a: i128) -> (r: i128)
    requires
        a > i128::MIN,
    ensures
        r == spec_mag(a),
        r >= 0,
        r == a || r == -a,
{
    if a < 0 {
        -a
    } else {
        a
    }
}

/// `a` seen from the side of the body it belongs to: as it is on the
/// right, with its sign turned on the left.
pub open spec fn spec_outward(a: i128, right: bool) -> i128 {
    if right {
        a
    } else {
        (-a) as i128
    }
}

/// `a` seen from the side of the body it belongs to.
#[verifier::when_used_as_spec(spec_outward)]
pub fn outward(a: i128, right: bool) -> (r: i128)
    requires
        a > i128::MIN,
    ensures
        r == spec_outward(a, right),
{
    if right {
        a
    } else {
        -a
    }
}

/// The larger of two coordinates.
pub open spec fn spec_max64(a: i64, b: i64) -> i64 {
    if a >= b {
        a
    } else {
        b
    }
}

/// The larger of two coordinates.
#[verifier::when_used_as_spec(spec_max64)]
pub fn max64(a: i64, b: i64) -> (r: i64)
    ensures
        r == spec_max64(a, b),
{
    if a >= b {
        a
    } else {
        b
    }
}

/// A length, taken as one unit where it is shorter.
pub open spec fn spec_at_least_unit(a: i128) -> i128 {
    if a >= 1_000_000 {
        a
    } else {
        1_000_000
    }
}

/// A length, taken as one unit where it is shorter.
#[verifier::when_used_as_spec(spec_at_least_unit)]
pub fn at_least_unit(a: i128) -> (r: i128)
    ensures
        r == spec_at_least_unit(a),
{
    if a >= 1_000_000 {
        a
    } else {
        1_000_000
    }
}

/// The measures of a figure: the floor at the lower ankle, the height of
/// the body from head to floor, the height of the trunk from neck to
/// crotch, the width over the shoulders.
pub open spec fn spec_metrics(f: &Figure) -> BodyMetrics {
    BodyMetrics {
        floor_y: max64(f.left_ankle.y, f.right_ankle.y),
        body_h: at_least_unit(mag(d(max64(f.left_ankle.y, f.right_ankle.y), f.head.y))),
        torso_h: at_least_unit(mag(d(f.crotch.y, f.neck.y))),
        shoulder_w: at_least_unit(mag(d(f.left_shoulder.x, f.right_shoulder.x))),
        neck_y: f.neck.y,
        shoulder_y2: s(f.left_shoulder.y, f.right_shoulder.y),
        hip_y: f.crotch.y,
    }
}

/// The measures of a figure: the floor at the lower ankle, the height of
/// the body from head to floor, the height of the trunk from neck to
/// crotch, the width over the shoulders.
#[verifier::when_used_as_spec(spec_metrics)]
pub fn metrics(f: &Figure) -> (r: BodyMetrics)
    ensures
        r == spec_metrics(f),
{
    BodyMetrics {
        floor_y: max64(f.left_ankle.y, f.right_ankle.y),
        body_h: at_least_unit(mag(d(max64(f.left_ankle.y, f.right_ankle.y), f.head.y))),
        torso_h: at_least_unit(mag(d(f.crotch.y, f.neck.y))),
        shoulder_w: at_least_unit(mag(d(f.left_shoulder.x, f.right_shoulder.x))),
        neck_y: f.neck.y,
        shoulder_y2: s(f.left_shoulder.y, f.right_shoulder.y),
        hip_y: f.crotch.y,
    }
}

/// How far the height `y` lies above the floor.
pub open spec fn spec_above(m: &BodyMetrics, y: i64) -> i128 {
    d(m.floor_y, y)
}

/// How far the height `y` lies above the floor.
#[verifier::when_used_as_spec(spec_above)]
pub fn above(m: &BodyMetrics, y: i64) -> (r: i128)
    ensures
        r == spec_above(m, y),
{
    d(m.floor_y, y)
}

/// Does `y` lie more than `pct` hundredths of the body's height above the
/// floor?
pub open spec fn spec_higher_than(m: &BodyMetrics, y: i64, pct: i128) -> bool {
    above(m, y) * 100 > pct * m.body_h
}

/// Does `y` lie more than `pct` hundredths of the body's height above the
/// floor?
#[verifier::when_used_as_spec(spec_higher_than)]
pub fn higher_than(m: &BodyMetrics, y: i64, pct: i128) -> (r: bool)
    requires
        m.wf(),
        0 <= pct <= 1000,
    ensures
        r == spec_higher_than(m, y, pct),
{
    assert(0 <= pct * m.body_h <= 1000 * 0x2_0000_0000_0000_0000) by (nonlinear_arith)
        requires
            0 <= pct <= 1000,
            0 <= m.body_h <= 0x2_0000_0000_0000_0000,
    ;
    above(m, y) * 100 > pct * m.body_h
}

/// Does `y` lie less than `pct` hundredths of the body's height above the
/// floor?
pub open spec fn spec_lower_than(m: &BodyMetrics, y: i64, pct: i128) -> bool {
    above(m, y) * 100 < pct * m.body_h
}

/// Does `y` lie less than `pct` hundredths of the body's height above the
/// floor?
#[verifier::when_used_as_spec(spec_lower_than)]
pub fn lower_than(m: &BodyMetrics, y: i64, pct: i128) -> (r: bool)
    requires
        m.wf(),
        0 <= pct <= 1000,
    ensures
        r == spec_lower_than(m, y, pct),
{
    assert(0 <= pct * m.body_h <= 1000 * 0x2_0000_0000_0000_0000) by (nonlinear_arith)
        requires
            0 <= pct <= 1000,
            0 <= m.body_h <= 0x2_0000_0000_0000_0000,
    ;
    above(m, y) * 100 < pct * m.body_h
}

/// A level of the body, by height above the floor as a part of the body's height.
#[derive(Clone, Copy, Debug, PartialEq, Eq)]
pub enum BodyLevel {
    /// over 0.92
    Overhead,
    /// over 0.82
    AboveShoulder,
    /// over 0.70
    AtShoulder,
    /// over 0.57
    AtChest,
    /// over 0.44
    AtWaist,
    /// over 0.32
    AtHip,
    /// over 0.20
    AtThigh,
    /// over 0.08
    AtKnee,
    /// the rest
    BelowKnee,
}

/// The level of the body at the height `y`.
pub open spec fn spec_body_level(m: &BodyMetrics, y: i64) -> BodyLevel {
    if higher_than(m, y, 92) {
        BodyLevel::Overhead
    } else if higher_than(m, y, 82) {
        BodyLevel::AboveShoulder
    } else if higher_than(m, y, 70) {
        BodyLevel::AtShoulder
    } else if higher_than(m, y, 57) {
        BodyLevel::AtChest
    } else if higher_than(m, y, 44) {
        BodyLevel::AtWaist
    } else if higher_than(m, y, 32) {
        BodyLevel::AtHip
    } else if higher_than(m, y, 20) {
        BodyLevel::AtThigh
    } else if higher_than(m, y, 8) {
        BodyLevel::AtKnee
    } else {
        BodyLevel::BelowKnee
    }
}

/// The level of the body at the height `y`.
#[verifier::when_used_as_spec(spec_body_level)]
pub fn body_level(m: &BodyMetrics, y: i64) -> (r: BodyLevel)
    requires
        m.wf(),
    ensures
        r == spec_body_level(m, y),
{
    if higher_than(m, y, 92) {
        BodyLevel::Overhead
    } else if higher_than(m, y, 82) {
        BodyLevel::AboveShoulder
    } else if higher_than(m, y, 70) {
        BodyLevel::AtShoulder
    } else if higher_than(m, y, 57) {
        BodyLevel::AtChest
    } else if higher_than(m, y, 44) {
        BodyLevel::AtWaist
    } else if higher_than(m, y, 32) {
        BodyLevel::AtHip
    } else if higher_than(m, y, 20) {
        BodyLevel::AtThigh
    } else if higher_than(m, y, 8) {
        BodyLevel::AtKnee
    } else {
        BodyLevel::BelowKnee
    }
}

/// How high a foot is raised, as a part of the body's height.
#[derive(Clone, Copy, Debug, PartialEq, Eq)]
pub enum FootRaise {
    /// over 0.50
    AboveHip,
    /// over 0.32
    ToHip,
    /// over 0.16
    ToKnee,
    /// the rest
    Slight,
}

/// How high a foot at the height `y` is raised.
pub open spec fn spec_foot_raise(m: &BodyMetrics, y: i64) -> FootRaise {
    if higher_than(m, y, 50) {
        FootRaise::AboveHip
    } else if higher_than(m, y, 32) {
        FootRaise::ToHip
    } else if higher_than(m, y, 16) {
        FootRaise::ToKnee
    } else {
        FootRaise::Slight
    }
}

/// How high a foot at the height `y` is raised.
#[verifier::when_used_as_spec(spec_foot_raise)]
pub fn foot_raise(m: &BodyMetrics, y: i64) -> (r: FootRaise)
    requires
        m.wf(),
    ensures
        r == spec_foot_raise(m, y),
{
    if higher_than(m, y, 50) {
        FootRaise::AboveHip
    } else if higher_than(m, y, 32) {
        FootRaise::ToHip
    } else if higher_than(m, y, 16) {
        FootRaise::ToKnee
    } else {
        FootRaise::Slight
    }
}

/// How far apart the feet stand, as a part of the width over the shoulders.
#[derive(Clone, Copy, Debug, PartialEq, Eq)]
pub enum FootSpread {
    /// under 0.40
    Together,
    /// under 0.90
    HipWidth,
    /// under 1.60
    Wide,
    /// the rest
    VeryWide,
}

/// How far apart feet at `left_x` and `right_x` stand.
pub open spec fn spec_foot_spread(m: &BodyMetrics, left_x: i64, right_x: i64) -> FootSpread {
    if mag(d(left_x, right_x)) * 100 < 40 * m.shoulder_w {
        FootSpread::Together
    } else if mag(d(left_x, right_x)) * 100 < 90 * m.shoulder_w {
        FootSpread::HipWidth
    } else if mag(d(left_x, right_x)) * 100 < 160 * m.shoulder_w {
        FootSpread::Wide
    } else {
        FootSpread::VeryWide
    }
}

/// How far apart feet at `left_x` and `right_x` stand.
#[verifier::when_used_as_spec(spec_foot_spread)]
pub fn foot_spread(m: &BodyMetrics, left_x: i64, right_x: i64) -> (r: FootSpread)
    requires
        m.wf(),
    ensures
        r == spec_foot_spread(m, left_x, right_x),
{
    if mag(d(left_x, right_x)) * 100 < 40 * m.shoulder_w {
        FootSpread::Together
    } else if mag(d(left_x, right_x)) * 100 < 90 * m.shoulder_w {
        FootSpread::HipWidth
    } else if mag(d(left_x, right_x)) * 100 < 160 * m.shoulder_w {
        FootSpread::Wide
    } else {
        FootSpread::VeryWide
    }
}

/// A side of the body.
#[derive(Clone, Copy, Debug, PartialEq, Eq)]
pub enum Side {
    Left,
    Right,
}

/// Where a raised limb points.
#[derive(Clone, Copy, Debug, PartialEq, Eq)]
pub enum Heading {
    /// no clear direction
    Unclear,
    /// forward
    Forward,
    /// to the side
    Side,
    /// behind or back
    Behind,
}

/// Where a raised foot points. A leg that rises 65 degrees or more has no
/// clear direction; else the foot points to the side between 45 and 135
/// degrees from forward, forward within 45 degrees, and behind otherwise.
pub open spec fn spec_raised_foot_dir(l: &LimbReading) -> Heading {
    if l.elev_angle >= 65_000_000 {
        Heading::Unclear
    } else if l.horiz_angle > 45_000_000 && l.horiz_angle < 135_000_000 {
        Heading::Side
    } else if l.horiz_angle < 45_000_000 && l.horiz_angle > -45_000_000 {
        Heading::Forward
    } else {
        Heading::Behind
    }
}

/// Where a raised foot points. A leg that rises 65 degrees or more has no
/// clear direction; else the foot points to the side between 45 and 135
/// degrees from forward, forward within 45 degrees, and behind otherwise.
#[verifier::when_used_as_spec(spec_raised_foot_dir)]
pub fn raised_foot_dir(l: &LimbReading) -> (r: Heading)
    ensures
        r == spec_raised_foot_dir(l),
{
    if l.elev_angle >= 65_000_000 {
        Heading::Unclear
    } else if l.horiz_angle > 45_000_000 && l.horiz_angle < 135_000_000 {
        Heading::Side
    } else if l.horiz_angle < 45_000_000 && l.horiz_angle > -45_000_000 {
        Heading::Forward
    } else {
        Heading::Behind
    }
}

/// How deep a squat is, by the height of the hips.
#[derive(Clone, Copy, Debug, PartialEq, Eq)]
pub enum SquatDepth {
    /// hips under 0.22 of the body's height
    Deep,
    /// under 0.32
    Plain,
    /// the rest
    Half,
}

/// How the figure holds itself up.
#[derive(Clone, Copy, Debug, PartialEq, Eq)]
pub enum Stance {
    LyingOnSide(Side),
    LyingFaceUp,
    LyingFaceDown,
    Kneeling { torso_forward: bool },
    SeatedCrossLegged,
    Perched,
    Seated,
    Squat(SquatDepth),
    KneelingOn(Side),
    KneeRaised(Side),
    Balancing { raised: Side, height: FootRaise, dir: Heading },
    SideSplits,
    ForwardSplits(Side),
    TipToe(FootSpread),
    Standing(FootSpread),
}

/// Is the knee bent, that is under 120 degrees?
pub open spec fn spec_knee_bent(l: &LegReading) -> bool {
    l.limb.bend < 120_000_000
}

/// Is the knee bent, that is under 120 degrees?
#[verifier::when_used_as_spec(spec_knee_bent)]
pub fn knee_bent(l: &LegReading) -> (r: bool)
    ensures
        r == spec_knee_bent(l),
{
    l.limb.bend < 120_000_000
}

/// Does the foot hang more than 20 units below the knee?
pub open spec fn spec_shin_down(knee: &Point, ankle: &Point) -> bool {
    d(ankle.y, knee.y) > 20_000_000
}

/// Does the foot hang more than 20 units below the knee?
#[verifier::when_used_as_spec(spec_shin_down)]
pub fn shin_down(knee: &Point, ankle: &Point) -> (r: bool)
    ensures
        r == spec_shin_down(knee, ankle),
{
    d(ankle.y, knee.y) > 20_000_000
}

/// Does the foot lie more than 20 units behind the knee?
pub open spec fn spec_shin_back(knee: &Point, ankle: &Point) -> bool {
    d(ankle.z, knee.z) > 20_000_000
}

/// Does the foot lie more than 20 units behind the knee?
#[verifier::when_used_as_spec(spec_shin_back)]
pub fn shin_back(knee: &Point, ankle: &Point) -> (r: bool)
    ensures
        r == spec_shin_back(knee, ankle),
{
    d(ankle.z, knee.z) > 20_000_000
}

/// Is the foot off the floor by more than 0.08 of the body's height?
pub open spec fn spec_foot_up(m: &BodyMetrics, y: i64) -> bool {
    above(m, y) * 100 > 8 * m.body_h
}

/// Is the foot off the floor by more than 0.08 of the body's height?
#[verifier::when_used_as_spec(spec_foot_up)]
pub fn foot_up(m: &BodyMetrics, y: i64) -> (r: bool)
    requires
        m.wf(),
    ensures
        r == spec_foot_up(m, y),
{
    above(m, y) * 100 > 8 * m.body_h
}

/// Is the foot within 0.04 of the body's height of the floor?
pub open spec fn spec_foot_down(m: &BodyMetrics, y: i64) -> bool {
    above(m, y) * 100 < 4 * m.body_h
}

/// Is the foot within 0.04 of the body's height of the floor?
#[verifier::when_used_as_spec(spec_foot_down)]
pub fn foot_down(m: &BodyMetrics, y: i64) -> (r: bool)
    requires
        m.wf(),
    ensures
        r == spec_foot_down(m, y),
{
    above(m, y) * 100 < 4 * m.body_h
}

/// How the figure holds itself up. A body lower than 80 units lies. With
/// both knees bent it kneels (a shin back, hips under half the body's
/// height), sits (both shins down) or squats; with one knee bent it kneels
/// on that knee or raises it. With straight legs it balances on one leg,
/// does the splits (hips under 0.32, feet 1.6 shoulder widths apart),
/// stands on tip-toe or stands.
pub open spec fn spec_stance_of(f: &Figure, m: &BodyMetrics, left: &LegReading, right: &LegReading) -> Stance {
    if m.body_h < 80_000_000 {
        if mag(d(f.head.x, f.crotch.x)) * 100 > 40 * m.body_h {
            if f.head.x < f.crotch.x {
                Stance::LyingOnSide(Side::Left)
            } else {
                Stance::LyingOnSide(Side::Right)
            }
        } else if f.head.z <= f.crotch.z {
            Stance::LyingFaceUp
        } else {
            Stance::LyingFaceDown
        }
    } else if knee_bent(left) && knee_bent(right) {
        if (shin_back(&f.left_knee, &f.left_ankle) || shin_back(&f.right_knee, &f.right_ankle))
            && lower_than(m, f.crotch.y, 50) {
            Stance::Kneeling { torso_forward: d(f.neck.z, f.crotch.z) * 100 < -30 * m.torso_h }
        } else if shin_down(&f.left_knee, &f.left_ankle) && shin_down(&f.right_knee, &f.right_ankle)
            && f.left_ankle.x > f.right_ankle.x {
            Stance::SeatedCrossLegged
        } else if shin_down(&f.left_knee, &f.left_ankle) && shin_down(&f.right_knee, &f.right_ankle)
            && (2 * w(f.crotch.z) - s(f.left_knee.z, f.right_knee.z) > 40_000_000 || higher_than(
            m,
            f.crotch.y,
            38,
        )) {
            if higher_than(m, f.crotch.y, 52) {
                Stance::Perched
            } else {
                Stance::Seated
            }
        } else if lower_than(m, f.crotch.y, 22) {
            Stance::Squat(SquatDepth::Deep)
        } else if lower_than(m, f.crotch.y, 32) {
            Stance::Squat(SquatDepth::Plain)
        } else {
            Stance::Squat(SquatDepth::Half)
        }
    } else if knee_bent(left) {
        if shin_back(&f.left_knee, &f.left_ankle) {
            Stance::KneelingOn(Side::Left)
        } else {
            Stance::KneeRaised(Side::Left)
        }
    } else if knee_bent(right) {
        if shin_back(&f.right_knee, &f.right_ankle) {
            Stance::KneelingOn(Side::Right)
        } else {
            Stance::KneeRaised(Side::Right)
        }
    } else if foot_up(m, f.left_ankle.y) && foot_down(m, f.right_ankle.y) {
        Stance::Balancing {
            raised: Side::Left,
            height: foot_raise(m, f.left_ankle.y),
            dir: raised_foot_dir(&left.limb),
        }
    } else if foot_up(m, f.right_ankle.y) && foot_down(m, f.left_ankle.y) {
        Stance::Balancing {
            raised: Side::Right,
            height: foot_raise(m, f.right_ankle.y),
            dir: raised_foot_dir(&right.limb),
        }
    } else if lower_than(m, f.crotch.y, 32) && mag(d(f.left_ankle.x, f.right_ankle.x)) * 10 >= 16
        * m.shoulder_w {
        Stance::SideSplits
    } else if lower_than(m, f.crotch.y, 32) && mag(d(f.left_ankle.z, f.right_ankle.z)) * 10 >= 16
        * m.shoulder_w {
        if f.left_ankle.z < f.right_ankle.z {
            Stance::ForwardSplits(Side::Left)
        } else {
            Stance::ForwardSplits(Side::Right)
        }
    } else if higher_than(m, f.left_ankle.y, 6) && higher_than(m, f.right_ankle.y, 6) && mag(
        d(f.right_ankle.y, f.left_ankle.y),
    ) * 100 < 6 * m.body_h {
        Stance::TipToe(foot_spread(m, f.left_ankle.x, f.right_ankle.x))
    } else {
        Stance::Standing(foot_spread(m, f.left_ankle.x, f.right_ankle.x))
    }
}

/// How the figure holds itself up. A body lower than 80 units lies. With
/// both knees bent it kneels (a shin back, hips under half the body's
/// height), sits (both shins down) or squats; with one knee bent it kneels
/// on that knee or raises it. With straight legs it balances on one leg,
/// does the splits (hips under 0.32, feet 1.6 shoulder widths apart),
/// stands on tip-toe or stands.
#[verifier::when_used_as_spec(spec_stance_of)]
pub fn stance_of(f: &Figure, m: &BodyMetrics, left: &LegReading, right: &LegReading) -> (r: Stance)
    requires
        m.wf(),
    ensures
        r == spec_stance_of(f, m, left, right),
{
    if m.body_h < 80_000_000 {
        if mag(d(f.head.x, f.crotch.x)) * 100 > 40 * m.body_h {
            if f.head.x < f.crotch.x {
                Stance::LyingOnSide(Side::Left)
            } else {
                Stance::LyingOnSide(Side::Right)
            }
        } else if f.head.z <= f.crotch.z {
            Stance::LyingFaceUp
        } else {
            Stance::LyingFaceDown
        }
    } else if knee_bent(left) && knee_bent(right) {
        if (shin_back(&f.left_knee, &f.left_ankle) || shin_back(&f.right_knee, &f.right_ankle))
            && lower_than(m, f.crotch.y, 50) {
            Stance::Kneeling { torso_forward: d(f.neck.z, f.crotch.z) * 100 < -30 * m.torso_h }
        } else if shin_down(&f.left_knee, &f.left_ankle) && shin_down(&f.right_knee, &f.right_ankle)
            && f.left_ankle.x > f.right_ankle.x {
            Stance::SeatedCrossLegged
        } else if shin_down(&f.left_knee, &f.left_ankle) && shin_down(&f.right_knee, &f.right_ankle)
            && (2 * w(f.crotch.z) - s(f.left_knee.z, f.right_knee.z) > 40_000_000 || higher_than(
            m,
            f.crotch.y,
            38,
        )) {
            if higher_than(m, f.crotch.y, 52) {
                Stance::Perched
            } else {
                Stance::Seated
            }
        } else if lower_than(m, f.crotch.y, 22) {
            Stance::Squat(SquatDepth::Deep)
        } else if lower_than(m, f.crotch.y, 32) {
            Stance::Squat(SquatDepth::Plain)
        } else {
            Stance::Squat(SquatDepth::Half)
        }
    } else if knee_bent(left) {
        if shin_back(&f.left_knee, &f.left_ankle) {
            Stance::KneelingOn(Side::Left)
        } else {
            Stance::KneeRaised(Side::Left)
        }
    } else if knee_bent(right) {
        if shin_back(&f.right_knee, &f.right_ankle) {
            Stance::KneelingOn(Side::Right)
        } else {
            Stance::KneeRaised(Side::Right)
        }
    } else if foot_up(m, f.left_ankle.y) && foot_down(m, f.right_ankle.y) {
        Stance::Balancing {
            raised: Side::Left,
            height: foot_raise(m, f.left_ankle.y),
            dir: raised_foot_dir(&left.limb),
        }
    } else if foot_up(m, f.right_ankle.y) && foot_down(m, f.left_ankle.y) {
        Stance::Balancing {
            raised: Side::Right,
            height: foot_raise(m, f.right_ankle.y),
            dir: raised_foot_dir(&right.limb),
        }
    } else if lower_than(m, f.crotch.y, 32) && mag(d(f.left_ankle.x, f.right_ankle.x)) * 10 >= 16
        * m.shoulder_w {
        Stance::SideSplits
    } else if lower_than(m, f.crotch.y, 32) && mag(d(f.left_ankle.z, f.right_ankle.z)) * 10 >= 16
        * m.shoulder_w {
        if f.left_ankle.z < f.right_ankle.z {
            Stance::ForwardSplits(Side::Left)
        } else {
            Stance::ForwardSplits(Side::Right)
        }
    } else if higher_than(m, f.left_ankle.y, 6) && higher_than(m, f.right_ankle.y, 6) && mag(
        d(f.right_ankle.y, f.left_ankle.y),
    ) * 100 < 6 * m.body_h {
        Stance::TipToe(foot_spread(m, f.left_ankle.x, f.right_ankle.x))
    } else {
        Stance::Standing(foot_spread(m, f.left_ankle.x, f.right_ankle.x))
    }
}

/// Does the figure lie?
pub open spec fn spec_is_lying(st: Stance) -> bool {
    match st {
        Stance::LyingOnSide(_) => true,
        Stance::LyingFaceUp => true,
        Stance::LyingFaceDown => true,
        _ => false,
    }
}

/// Does the figure lie?
#[verifier::when_used_as_spec(spec_is_lying)]
pub fn is_lying(st: Stance) -> (r: bool)
    ensures
        r == spec_is_lying(st),
{
    match st {
        Stance::LyingOnSide(_) => true,
        Stance::LyingFaceUp => true,
        Stance::LyingFaceDown => true,
        _ => false,
    }
}

/// Does the figure stand on both feet, flat or on tip-toe?
pub open spec fn spec_is_upright(st: Stance) -> bool {
    match st {
        Stance::TipToe(_) => true,
        Stance::Standing(_) => true,
        _ => false,
    }
}

/// Does the figure stand on both feet, flat or on tip-toe?
#[verifier::when_used_as_spec(spec_is_upright)]
pub fn is_upright(st: Stance) -> (r: bool)
    ensures
        r == spec_is_upright(st),
{
    match st {
        Stance::TipToe(_) => true,
        Stance::Standing(_) => true,
        _ => false,
    }
}

/// Does the figure stand flat on both feet?
pub open spec fn spec_is_standing(st: Stance) -> bool {
    match st {
        Stance::Standing(_) => true,
        _ => false,
    }
}

/// Does the figure stand flat on both feet?
#[verifier::when_used_as_spec(spec_is_standing)]
pub fn is_standing(st: Stance) -> (r: bool)
    ensures
        r == spec_is_standing(st),
{
    match st {
        Stance::Standing(_) => true,
        _ => false,
    }
}

/// How far: a little, plainly, or far.
#[derive(Clone, Copy, Debug, PartialEq, Eq)]
pub enum Degree {
    Slight,
    Plain,
    Far,
}

/// How the trunk leans.
#[derive(Clone, Copy, Debug, PartialEq, Eq)]
pub enum Lean {
    Upright,
    /// Forward or back only.
    Sagittal { forward: bool, degree: Degree },
    /// To a side only.
    Lateral { left: bool, degree: Degree },
    /// Both at once.
    Diagonal { strong: bool, forward: bool, left: bool },
}

/// How the shoulders are tilted.
#[derive(Clone, Copy, Debug, PartialEq, Eq)]
pub enum Tilt {
    Level,
    Raised { side: Side, sharp: bool },
}

/// How far the trunk is turned away from the viewer.
#[derive(Clone, Copy, Debug, PartialEq, Eq)]
pub enum Twist {
    Square,
    Turned { right: bool, degree: Degree },
}

/// On which foot the weight rests.
#[derive(Clone, Copy, Debug, PartialEq, Eq)]
pub enum Weight {
    Even,
    On { right: bool, degree: Degree },
}

/// Does the trunk lean forward or back: the neck more than 25 units off the crotch in depth, the angle over 12 degrees?
pub open spec fn spec_leans_sagittal(f: &Figure, t: &TorsoReading) -> bool {
    (d(f.neck.z, f.crotch.z) < -25_000_000 || d(f.neck.z, f.crotch.z) > 25_000_000) && t.fwd_angle > 12_000_000
}

/// Does the trunk lean forward or back: the neck more than 25 units off the crotch in depth, the angle over 12 degrees?
#[verifier::when_used_as_spec(spec_leans_sagittal)]
pub fn leans_sagittal(f: &Figure, t: &TorsoReading) -> (r: bool)
    ensures
        r == spec_leans_sagittal(f, t),
{
    (d(f.neck.z, f.crotch.z) < -25_000_000 || d(f.neck.z, f.crotch.z) > 25_000_000) && t.fwd_angle > 12_000_000
}

/// Does the trunk lean to a side: the angle over 10 degrees?
pub open spec fn spec_leans_lateral(t: &TorsoReading) -> bool {
    t.side_angle > 10_000_000
}

/// Does the trunk lean to a side: the angle over 10 degrees?
#[verifier::when_used_as_spec(spec_leans_lateral)]
pub fn leans_lateral(t: &TorsoReading) -> (r: bool)
    ensures
        r == spec_leans_lateral(t),
{
    t.side_angle > 10_000_000
}

/// How the trunk leans. Forward or back it leans far over 50 degrees and
/// plainly over 26; to a side far over 30 and plainly over 18. A lean in
/// both directions is strong over 35 degrees forward or back, or over 25 to
/// the side.
pub open spec fn spec_lean_of(f: &Figure, t: &TorsoReading) -> Lean {
    if leans_sagittal(f, t) && leans_lateral(t) {
        Lean::Diagonal {
            strong: t.fwd_angle > 35_000_000 || t.side_angle > 25_000_000,
            forward: f.neck.z < f.crotch.z,
            left: f.neck.x < f.crotch.x,
        }
    } else if leans_sagittal(f, t) {
        Lean::Sagittal {
            forward: f.neck.z < f.crotch.z,
            degree: if t.fwd_angle > 50_000_000 {
                Degree::Far
            } else if t.fwd_angle > 26_000_000 {
                Degree::Plain
            } else {
                Degree::Slight
            },
        }
    } else if leans_lateral(t) {
        Lean::Lateral {
            left: f.neck.x < f.crotch.x,
            degree: if t.side_angle > 30_000_000 {
                Degree::Far
            } else if t.side_angle > 18_000_000 {
                Degree::Plain
            } else {
                Degree::Slight
            },
        }
    } else {
        Lean::Upright
    }
}

/// How the trunk leans. Forward or back it leans far over 50 degrees and
/// plainly over 26; to a side far over 30 and plainly over 18. A lean in
/// both directions is strong over 35 degrees forward or back, or over 25 to
/// the side.
#[verifier::when_used_as_spec(spec_lean_of)]
pub fn lean_of(f: &Figure, t: &TorsoReading) -> (r: Lean)
    ensures
        r == spec_lean_of(f, t),
{
    if leans_sagittal(f, t) && leans_lateral(t) {
        Lean::Diagonal {
            strong: t.fwd_angle > 35_000_000 || t.side_angle > 25_000_000,
            forward: f.neck.z < f.crotch.z,
            left: f.neck.x < f.crotch.x,
        }
    } else if leans_sagittal(f, t) {
        Lean::Sagittal {
            forward: f.neck.z < f.crotch.z,
            degree: if t.fwd_angle > 50_000_000 {
                Degree::Far
            } else if t.fwd_angle > 26_000_000 {
                Degree::Plain
            } else {
                Degree::Slight
            },
        }
    } else if leans_lateral(t) {
        Lean::Lateral {
            left: f.neck.x < f.crotch.x,
            degree: if t.side_angle > 30_000_000 {
                Degree::Far
            } else if t.side_angle > 18_000_000 {
                Degree::Plain
            } else {
                Degree::Slight
            },
        }
    } else {
        Lean::Upright
    }
}

/// How the shoulders are tilted: one shoulder is raised where it stands
/// higher than the other by more than 0.11 of the distance in height from
/// neck to crotch, sharply where by more than 0.22.
pub open spec fn spec_tilt_of(f: &Figure) -> Tilt {
    if d(f.left_shoulder.y, f.right_shoulder.y) * 100 < -22 * mag(d(f.crotch.y, f.neck.y)) {
        Tilt::Raised { side: Side::Left, sharp: true }
    } else if d(f.left_shoulder.y, f.right_shoulder.y) * 100 < -11 * mag(d(f.crotch.y, f.neck.y)) {
        Tilt::Raised { side: Side::Left, sharp: false }
    } else if d(f.left_shoulder.y, f.right_shoulder.y) * 100 > 22 * mag(d(f.crotch.y, f.neck.y)) {
        Tilt::Raised { side: Side::Right, sharp: true }
    } else if d(f.left_shoulder.y, f.right_shoulder.y) * 100 > 11 * mag(d(f.crotch.y, f.neck.y)) {
        Tilt::Raised { side: Side::Right, sharp: false }
    } else {
        Tilt::Level
    }
}

/// How the shoulders are tilted: one shoulder is raised where it stands
/// higher than the other by more than 0.11 of the distance in height from
/// neck to crotch, sharply where by more than 0.22.
#[verifier::when_used_as_spec(spec_tilt_of)]
pub fn tilt_of(f: &Figure) -> (r: Tilt)
    ensures
        r == spec_tilt_of(f),
{
    if d(f.left_shoulder.y, f.right_shoulder.y) * 100 < -22 * mag(d(f.crotch.y, f.neck.y)) {
        Tilt::Raised { side: Side::Left, sharp: true }
    } else if d(f.left_shoulder.y, f.right_shoulder.y) * 100 < -11 * mag(d(f.crotch.y, f.neck.y)) {
        Tilt::Raised { side: Side::Left, sharp: false }
    } else if d(f.left_shoulder.y, f.right_shoulder.y) * 100 > 22 * mag(d(f.crotch.y, f.neck.y)) {
        Tilt::Raised { side: Side::Right, sharp: true }
    } else if d(f.left_shoulder.y, f.right_shoulder.y) * 100 > 11 * mag(d(f.crotch.y, f.neck.y)) {
        Tilt::Raised { side: Side::Right, sharp: false }
    } else {
        Tilt::Level
    }
}

/// How far the trunk is turned: not under 16 degrees, in profile over 62,
/// plainly over 34. It is turned to the right where the left shoulder lies
/// deeper than the right.
pub open spec fn spec_twist_of(f: &Figure, t: &TorsoReading) -> Twist {
    if t.twist_angle < 16_000_000 {
        Twist::Square
    } else {
        Twist::Turned {
            right: f.left_shoulder.z > f.right_shoulder.z,
            degree: if t.twist_angle > 62_000_000 {
                Degree::Far
            } else if t.twist_angle > 34_000_000 {
                Degree::Plain
            } else {
                Degree::Slight
            },
        }
    }
}

/// How far the trunk is turned: not under 16 degrees, in profile over 62,
/// plainly over 34. It is turned to the right where the left shoulder lies
/// deeper than the right.
#[verifier::when_used_as_spec(spec_twist_of)]
pub fn twist_of(f: &Figure, t: &TorsoReading) -> (r: Twist)
    ensures
        r == spec_twist_of(f, t),
{
    if t.twist_angle < 16_000_000 {
        Twist::Square
    } else {
        Twist::Turned {
            right: f.left_shoulder.z > f.right_shoulder.z,
            degree: if t.twist_angle > 62_000_000 {
                Degree::Far
            } else if t.twist_angle > 34_000_000 {
                Degree::Plain
            } else {
                Degree::Slight
            },
        }
    }
}

/// Twice the offset of the hips from the middle between the ankles.
pub open spec fn spec_hip_offset2(f: &Figure) -> i128 {
    (2 * f.crotch.x - (f.left_ankle.x + f.right_ankle.x)) as i128
}

/// Twice the offset of the hips from the middle between the ankles.
#[verifier::when_used_as_spec(spec_hip_offset2)]
pub fn hip_offset2(f: &Figure) -> (r: i128)
    ensures
        r == spec_hip_offset2(f),
        r == 2 * f.crotch.x - (f.left_ankle.x + f.right_ankle.x),
{
    2 * w(f.crotch.x) - s(f.left_ankle.x, f.right_ankle.x)
}

/// On which foot the weight rests, for a figure that stands with both feet
/// down: on the side to which the hips are off the middle between the
/// ankles by at least 0.22 of the width over the shoulders; strongly over
/// 0.55, plainly over 0.38.
pub open spec fn spec_weight_of(f: &Figure, m: &BodyMetrics, upright: bool) -> Weight {
    if !upright || foot_up(m, f.left_ankle.y) || foot_up(m, f.right_ankle.y) {
        Weight::Even
    } else if mag(hip_offset2(f)) * 100 < 44 * m.shoulder_w {
        Weight::Even
    } else {
        Weight::On {
            right: hip_offset2(f) > 0,
            degree: if mag(hip_offset2(f)) * 100 > 110 * m.shoulder_w {
                Degree::Far
            } else if mag(hip_offset2(f)) * 100 > 76 * m.shoulder_w {
                Degree::Plain
            } else {
                Degree::Slight
            },
        }
    }
}

/// On which foot the weight rests, for a figure that stands with both feet
/// down: on the side to which the hips are off the middle between the
/// ankles by at least 0.22 of the width over the shoulders; strongly over
/// 0.55, plainly over 0.38.
#[verifier::when_used_as_spec(spec_weight_of)]
pub fn weight_of(f: &Figure, m: &BodyMetrics, upright: bool) -> (r: Weight)
    requires
        m.wf(),
    ensures
        r == spec_weight_of(f, m, upright),
{
    if !upright || foot_up(m, f.left_ankle.y) || foot_up(m, f.right_ankle.y) {
        Weight::Even
    } else if mag(hip_offset2(f)) * 100 < 44 * m.shoulder_w {
        Weight::Even
    } else {
        Weight::On {
            right: hip_offset2(f) > 0,
            degree: if mag(hip_offset2(f)) * 100 > 110 * m.shoulder_w {
                Degree::Far
            } else if mag(hip_offset2(f)) * 100 > 76 * m.shoulder_w {
                Degree::Plain
            } else {
                Degree::Slight
            },
        }
    }
}

/// An angle of the head: level, or off to one side a little or far.
#[derive(Clone, Copy, Debug, PartialEq, Eq)]
pub enum Turn {
    Level,
    Plus(bool),
    Minus(bool),
}

/// An angle of the head against two thresholds: over `far` it is far to the
/// plus side, over `near` a little; under `-far` far to the minus side, under
/// `-near` a little.
pub open spec fn spec_turn_of(deg: i32, near: i32, far: i32) -> Turn {
    if deg > far {
        Turn::Plus(true)
    } else if deg > near {
        Turn::Plus(false)
    } else if deg < -far {
        Turn::Minus(true)
    } else if deg < -near {
        Turn::Minus(false)
    } else {
        Turn::Level
    }
}

/// An angle of the head against two thresholds: over `far` it is far to the
/// plus side, over `near` a little; under `-far` far to the minus side, under
/// `-near` a little.
#[verifier::when_used_as_spec(spec_turn_of)]
pub fn turn_of(deg: i32, near: i32, far: i32) -> (r: Turn)
    requires
        0 <= near <= far <= 360,
    ensures
        r == spec_turn_of(deg, near, far),
{
    if deg > far {
        Turn::Plus(true)
    } else if deg > near {
        Turn::Plus(false)
    } else if deg < -far {
        Turn::Minus(true)
    } else if deg < -near {
        Turn::Minus(false)
    } else {
        Turn::Level
    }
}

/// Where the elbow points.
#[derive(Clone, Copy, Debug, PartialEq, Eq)]
pub enum ElbowDir {
    None_,
    Up,
    Forward,
    Back,
    Out,
    In,
}

/// How sharply a joint is bent.
#[derive(Clone, Copy, Debug, PartialEq, Eq)]
pub enum Bend {
    Deep,
    Plain,
    Slight,
    Straight,
}

/// What one arm does.
#[derive(Clone, Copy, Debug, PartialEq, Eq)]
pub enum ArmPose {
    /// Too short to tell, or nothing to say.
    Undescribed,
    Raised { overhead: bool, dir: Heading },
    SlightlyRaised { dir: Heading },
    Crossed,
    PointingUp { dir: Heading },
    PointingForward(BodyLevel),
    PointingSideways(BodyLevel),
    PointingBehind,
    Extended { outward: bool, level: BodyLevel },
    Reaching(BodyLevel),
    BehindBack,
    SlightlyBehind,
    Outstretched(BodyLevel),
    AtSide,
    Resting(BodyLevel),
    HandOnHead,
    HandAtChin,
    HandCoveringFace,
    HandNearFace,
    HandBehindHead,
    Bent { bend: Bend, elbow: ElbowDir, at_abdomen: bool, level: BodyLevel },
}

/// Where the elbow points, from the unit vector from shoulder to elbow.
pub open spec fn spec_elbow_dir(a: &ArmReading) -> ElbowDir {
    if a.elbow_up > 550_000 {
        ElbowDir::Up
    } else if a.elbow_fwd > 550_000 {
        ElbowDir::Forward
    } else if a.elbow_fwd < -550_000 {
        ElbowDir::Back
    } else if a.elbow_out > 500_000 {
        ElbowDir::Out
    } else if a.elbow_out < -300_000 {
        ElbowDir::In
    } else {
        ElbowDir::None_
    }
}

/// Where the elbow points, from the unit vector from shoulder to elbow.
#[verifier::when_used_as_spec(spec_elbow_dir)]
pub fn elbow_dir(a: &ArmReading) -> (r: ElbowDir)
    ensures
        r == spec_elbow_dir(a),
{
    if a.elbow_up > 550_000 {
        ElbowDir::Up
    } else if a.elbow_fwd > 550_000 {
        ElbowDir::Forward
    } else if a.elbow_fwd < -550_000 {
        ElbowDir::Back
    } else if a.elbow_out > 500_000 {
        ElbowDir::Out
    } else if a.elbow_out < -300_000 {
        ElbowDir::In
    } else {
        ElbowDir::None_
    }
}

/// How sharply the elbow is bent: sharply under 75 degrees, plainly under 100.
pub open spec fn spec_elbow_bend(a: &ArmReading) -> Bend {
    if a.limb.bend < 75_000_000 {
        Bend::Deep
    } else if a.limb.bend < 100_000_000 {
        Bend::Plain
    } else {
        Bend::Slight
    }
}

/// How sharply the elbow is bent: sharply under 75 degrees, plainly under 100.
#[verifier::when_used_as_spec(spec_elbow_bend)]
pub fn elbow_bend(a: &ArmReading) -> (r: Bend)
    ensures
        r == spec_elbow_bend(a),
{
    if a.limb.bend < 75_000_000 {
        Bend::Deep
    } else if a.limb.bend < 100_000_000 {
        Bend::Plain
    } else {
        Bend::Slight
    }
}

/// Within `deg` degrees of forward.
pub open spec fn spec_within_forward(l: &LimbReading, deg: i64) -> bool {
    l.horiz_angle < deg && l.horiz_angle > -deg
}

/// Within `deg` degrees of forward.
#[verifier::when_used_as_spec(spec_within_forward)]
pub fn within_forward(l: &LimbReading, deg: i64) -> (r: bool)
    requires
        0 <= deg <= 360_000_000,
    ensures
        r == spec_within_forward(l, deg),
{
    l.horiz_angle < deg && l.horiz_angle > -deg
}

/// More than `deg` degrees from forward.
pub open spec fn spec_beyond_forward(l: &LimbReading, deg: i64) -> bool {
    l.horiz_angle > deg || l.horiz_angle < -deg
}

/// More than `deg` degrees from forward.
#[verifier::when_used_as_spec(spec_beyond_forward)]
pub fn beyond_forward(l: &LimbReading, deg: i64) -> (r: bool)
    requires
        0 <= deg <= 360_000_000,
    ensures
        r == spec_beyond_forward(l, deg),
{
    l.horiz_angle > deg || l.horiz_angle < -deg
}

/// What one arm does, checked in this order: raised (over 40 degrees above
/// the horizontal, overhead over 65), slightly raised (over 10), crossed
/// (the elbow more than half the shoulders' width inside the shoulder),
/// pointing (the elbow over 155 degrees), extended or reaching forward,
/// behind, outstretched sideways (the elbow over 120), hanging at the side,
/// resting against the body, and bent (the elbow under 130) with the hand
/// at the head, at the abdomen or at a level of the body.
pub open spec fn spec_arm_pose(sh: &Point, el: &Point, wr: &Point, head: &Point, right: bool, a: &ArmReading, m: &BodyMetrics) -> ArmPose {
    if a.limb.reach < 1_000_000 {
        ArmPose::Undescribed
    } else if a.limb.elev_angle > 40_000_000 {
        ArmPose::Raised {
            overhead: a.limb.elev_angle > 65_000_000,
            dir: if within_forward(&a.limb, 45_000_000) {
                Heading::Forward
            } else if beyond_forward(&a.limb, 135_000_000) {
                Heading::Behind
            } else if a.limb.out > 0 {
                Heading::Side
            } else {
                Heading::Unclear
            },
        }
    } else if a.limb.elev_angle > 10_000_000 {
        ArmPose::SlightlyRaised {
            dir: if a.limb.fwd > 500_000 {
                Heading::Forward
            } else if a.limb.out > 500_000 {
                Heading::Side
            } else {
                Heading::Unclear
            },
        }
    } else if outward(d(el.x, sh.x), right) * 2 < -m.shoulder_w {
        ArmPose::Crossed
    } else if a.limb.bend > 155_000_000 && a.limb.elev_angle > 35_000_000 {
        ArmPose::PointingUp {
            dir: if within_forward(&a.limb, 45_000_000) {
                Heading::Forward
            } else if a.limb.out > 0 {
                Heading::Side
            } else {
                Heading::Unclear
            },
        }
    } else if a.limb.bend > 155_000_000 && a.limb.fwd > 550_000 {
        ArmPose::PointingForward(body_level(m, wr.y))
    } else if a.limb.bend > 155_000_000 && a.limb.out > 550_000 {
        ArmPose::PointingSideways(body_level(m, wr.y))
    } else if a.limb.bend > 155_000_000 && a.limb.fwd < -450_000 {
        ArmPose::PointingBehind
    } else if a.limb.fwd > 500_000 && a.limb.bend > 120_000_000 {
        ArmPose::Extended { outward: !within_forward(&a.limb, 30_000_000), level: body_level(m, wr.y) }
    } else if a.limb.fwd > 280_000 && a.limb.bend > 120_000_000 {
        ArmPose::Reaching(body_level(m, wr.y))
    } else if a.limb.fwd < -500_000 && a.limb.bend > 120_000_000 {
        ArmPose::BehindBack
    } else if a.limb.fwd < -280_000 && a.limb.bend > 120_000_000 {
        ArmPose::SlightlyBehind
    } else if a.limb.out > 500_000 && a.limb.bend > 120_000_000 {
        ArmPose::Outstretched(body_level(m, wr.y))
    } else if a.limb.up < -300_000 && a.limb.out < 550_000 && a.limb.out > -550_000 && a.limb.fwd
        < 550_000 && a.limb.fwd > -550_000 {
        ArmPose::AtSide
    } else if a.limb.out < -100_000 && a.limb.fwd < 500_000 && a.limb.fwd > -500_000 && (2 * w(wr.y)
        - m.shoulder_y2) * 100 < 110 * m.torso_h && (2 * w(wr.y) - m.shoulder_y2) * 100 > -110
        * m.torso_h {
        ArmPose::Resting(body_level(m, wr.y))
    } else if a.limb.bend < 130_000_000 {
        if w(a.hand_to_head) * 100 < 22 * m.torso_h {
            if d(wr.y, head.y) * 100 < -8 * m.torso_h {
                ArmPose::HandOnHead
            } else if d(wr.y, head.y) * 100 > 6 * m.torso_h {
                ArmPose::HandAtChin
            } else if d(wr.z, head.z) < -10_000_000 {
                ArmPose::HandCoveringFace
            } else {
                ArmPose::HandNearFace
            }
        } else if d(wr.z, head.z) < -18_000_000 && mag(d(wr.y, head.y)) * 100 < 22 * m.torso_h {
            ArmPose::HandBehindHead
        } else {
            ArmPose::Bent {
                bend: elbow_bend(a),
                elbow: elbow_dir(a),
                at_abdomen: 100 * d(wr.y, m.hip_y) + 15 * m.torso_h < 20 * m.torso_h && 100 * d(
                    wr.y,
                    m.hip_y,
                ) + 15 * m.torso_h > -20 * m.torso_h && a.limb.out < 450_000 && a.limb.out
                    > -450_000,
                level: body_level(m, wr.y),
            }
        }
    } else {
        ArmPose::Undescribed
    }
}

/// What one arm does, checked in this order: raised (over 40 degrees above
/// the horizontal, overhead over 65), slightly raised (over 10), crossed
/// (the elbow more than half the shoulders' width inside the shoulder),
/// pointing (the elbow over 155 degrees), extended or reaching forward,
/// behind, outstretched sideways (the elbow over 120), hanging at the side,
/// resting against the body, and bent (the elbow under 130) with the hand
/// at the head, at the abdomen or at a level of the body.
#[verifier::when_used_as_spec(spec_arm_pose)]
pub fn arm_pose(sh: &Point, el: &Point, wr: &Point, head: &Point, right: bool, a: &ArmReading, m: &BodyMetrics) -> (r: ArmPose)
    requires
        m.wf(),
    ensures
        r == spec_arm_pose(sh, el, wr, head, right, a, m),
{
    if a.limb.reach < 1_000_000 {
        ArmPose::Undescribed
    } else if a.limb.elev_angle > 40_000_000 {
        ArmPose::Raised {
            overhead: a.limb.elev_angle > 65_000_000,
            dir: if within_forward(&a.limb, 45_000_000) {
                Heading::Forward
            } else if beyond_forward(&a.limb, 135_000_000) {
                Heading::Behind
            } else if a.limb.out > 0 {
                Heading::Side
            } else {
                Heading::Unclear
            },
        }
    } else if a.limb.elev_angle > 10_000_000 {
        ArmPose::SlightlyRaised {
            dir: if a.limb.fwd > 500_000 {
                Heading::Forward
            } else if a.limb.out > 500_000 {
                Heading::Side
            } else {
                Heading::Unclear
            },
        }
    } else if outward(d(el.x, sh.x), right) * 2 < -m.shoulder_w {
        ArmPose::Crossed
    } else if a.limb.bend > 155_000_000 && a.limb.elev_angle > 35_000_000 {
        ArmPose::PointingUp {
            dir: if within_forward(&a.limb, 45_000_000) {
                Heading::Forward
            } else if a.limb.out > 0 {
                Heading::Side
            } else {
                Heading::Unclear
            },
        }
    } else if a.limb.bend > 155_000_000 && a.limb.fwd > 550_000 {
        ArmPose::PointingForward(body_level(m, wr.y))
    } else if a.limb.bend > 155_000_000 && a.limb.out > 550_000 {
        ArmPose::PointingSideways(body_level(m, wr.y))
    } else if a.limb.bend > 155_000_000 && a.limb.fwd < -450_000 {
        ArmPose::PointingBehind
    } else if a.limb.fwd > 500_000 && a.limb.bend > 120_000_000 {
        ArmPose::Extended { outward: !within_forward(&a.limb, 30_000_000), level: body_level(m, wr.y) }
    } else if a.limb.fwd > 280_000 && a.limb.bend > 120_000_000 {
        ArmPose::Reaching(body_level(m, wr.y))
    } else if a.limb.fwd < -500_000 && a.limb.bend > 120_000_000 {
        ArmPose::BehindBack
    } else if a.limb.fwd < -280_000 && a.limb.bend > 120_000_000 {
        ArmPose::SlightlyBehind
    } else if a.limb.out > 500_000 && a.limb.bend > 120_000_000 {
        ArmPose::Outstretched(body_level(m, wr.y))
    } else if a.limb.up < -300_000 && a.limb.out < 550_000 && a.limb.out > -550_000 && a.limb.fwd
        < 550_000 && a.limb.fwd > -550_000 {
        ArmPose::AtSide
    } else if a.limb.out < -100_000 && a.limb.fwd < 500_000 && a.limb.fwd > -500_000 && (2 * w(wr.y)
        - m.shoulder_y2) * 100 < 110 * m.torso_h && (2 * w(wr.y) - m.shoulder_y2) * 100 > -110
        * m.torso_h {
        ArmPose::Resting(body_level(m, wr.y))
    } else if a.limb.bend < 130_000_000 {
        if w(a.hand_to_head) * 100 < 22 * m.torso_h {
            if d(wr.y, head.y) * 100 < -8 * m.torso_h {
                ArmPose::HandOnHead
            } else if d(wr.y, head.y) * 100 > 6 * m.torso_h {
                ArmPose::HandAtChin
            } else if d(wr.z, head.z) < -10_000_000 {
                ArmPose::HandCoveringFace
            } else {
                ArmPose::HandNearFace
            }
        } else if d(wr.z, head.z) < -18_000_000 && mag(d(wr.y, head.y)) * 100 < 22 * m.torso_h {
            ArmPose::HandBehindHead
        } else {
            ArmPose::Bent {
                bend: elbow_bend(a),
                elbow: elbow_dir(a),
                at_abdomen: 100 * d(wr.y, m.hip_y) + 15 * m.torso_h < 20 * m.torso_h && 100 * d(
                    wr.y,
                    m.hip_y,
                ) + 15 * m.torso_h > -20 * m.torso_h && a.limb.out < 450_000 && a.limb.out
                    > -450_000,
                level: body_level(m, wr.y),
            }
        }
    } else {
        ArmPose::Undescribed
    }
}

/// Is something said of the arm?
pub open spec fn spec_arm_described(p: ArmPose) -> bool {
    match p {
        ArmPose::Undescribed => false,
        _ => true,
    }
}

/// Is something said of the arm?
#[verifier::when_used_as_spec(spec_arm_described)]
pub fn arm_described(p: ArmPose) -> (r: bool)
    ensures
        r == spec_arm_described(p),
{
    match p {
        ArmPose::Undescribed => false,
        _ => true,
    }
}

/// Where clasped hands are held.
#[derive(Clone, Copy, Debug, PartialEq, Eq)]
pub enum ClaspLevel {
    Overhead,
    Chest,
    Waist,
    Together,
}

/// What the two hands do together.
#[derive(Clone, Copy, Debug, PartialEq, Eq)]
pub enum HandsPose {
    /// Nothing: each arm is described by itself.
    Apart,
    PressedNearFace,
    Clasped(ClaspLevel),
    Guard,
    Folded,
    BothOnChest,
    OnChest(Side),
    OnHips,
    /// One hand on the hip; the other arm is described beside it.
    OnHip(Side),
    OnKnees,
    BothAtNeck,
    /// One hand at the neck; the other arm is described beside it where
    /// something is said of it.
    AtNeck(Side),
    ClaspedAtRest,
}

/// Is the hand on the hip: the wrist at the height of the hips, more than 15 units outside the shoulder, the elbow under 120 degrees?
pub open spec fn spec_hand_on_hip(sh: &Point, wr: &Point, right: bool, a: &ArmReading, m: &BodyMetrics) -> bool {
    mag(d(wr.y, m.hip_y)) * 100 < 30 * m.torso_h && outward(d(wr.x, sh.x), right) > 15_000_000 && a.limb.bend < 120_000_000
}

/// Is the hand on the hip: the wrist at the height of the hips, more than 15 units outside the shoulder, the elbow under 120 degrees?
#[verifier::when_used_as_spec(spec_hand_on_hip)]
pub fn hand_on_hip(sh: &Point, wr: &Point, right: bool, a: &ArmReading, m: &BodyMetrics) -> (r: bool)
    requires
        m.wf(),
    ensures
        r == spec_hand_on_hip(sh, wr, right, a, m),
{
    mag(d(wr.y, m.hip_y)) * 100 < 30 * m.torso_h && outward(d(wr.x, sh.x), right) > 15_000_000 && a.limb.bend < 120_000_000
}

/// Is the wrist near the height of the neck: within 0.38 of the trunk's height?
pub open spec fn spec_wrist_at_face(wr: &Point, m: &BodyMetrics) -> bool {
    mag(d(wr.y, m.neck_y)) * 100 < 38 * m.torso_h
}

/// Is the wrist near the height of the neck: within 0.38 of the trunk's height?
#[verifier::when_used_as_spec(spec_wrist_at_face)]
pub fn wrist_at_face(wr: &Point, m: &BodyMetrics) -> (r: bool)
    requires
        m.wf(),
    ensures
        r == spec_wrist_at_face(wr, m),
{
    mag(d(wr.y, m.neck_y)) * 100 < 38 * m.torso_h
}

/// Is the wrist in the band of the chest: within 0.35 of the trunk's height of a line 0.30 of it below the shoulders?
pub open spec fn spec_wrist_at_chest(wr: &Point, m: &BodyMetrics) -> bool {
    20 * w(wr.y) - 10 * m.shoulder_y2 < 13 * m.torso_h && 20 * w(wr.y) - 10 * m.shoulder_y2
        + m.torso_h > 0
}

/// Is the wrist in the band of the chest: within 0.35 of the trunk's height of a line 0.30 of it below the shoulders?
#[verifier::when_used_as_spec(spec_wrist_at_chest)]
pub fn wrist_at_chest(wr: &Point, m: &BodyMetrics) -> (r: bool)
    requires
        m.wf(),
    ensures
        r == spec_wrist_at_chest(wr, m),
{
    20 * w(wr.y) - 10 * m.shoulder_y2 < 13 * m.torso_h && 20 * w(wr.y) - 10 * m.shoulder_y2
        + m.torso_h > 0
}

/// Where clasped hands are held, from twice the mean height of the wrists.
pub open spec fn spec_clasp_level(f: &Figure, m: &BodyMetrics) -> ClaspLevel {
    if s(f.left_wrist.y, f.right_wrist.y) * 100 < 200 * w(m.neck_y) + 10 * m.torso_h {
        ClaspLevel::Overhead
    } else if s(f.left_wrist.y, f.right_wrist.y) * 2 < 2 * m.shoulder_y2 + m.torso_h {
        ClaspLevel::Chest
    } else if (s(f.left_wrist.y, f.right_wrist.y) - 2 * w(m.hip_y)) * 100 < 70 * m.torso_h && (s(
        f.left_wrist.y,
        f.right_wrist.y,
    ) - 2 * w(m.hip_y)) * 100 > -70 * m.torso_h {
        ClaspLevel::Waist
    } else {
        ClaspLevel::Together
    }
}

/// Where clasped hands are held, from twice the mean height of the wrists.
#[verifier::when_used_as_spec(spec_clasp_level)]
pub fn clasp_level(f: &Figure, m: &BodyMetrics) -> (r: ClaspLevel)
    requires
        m.wf(),
    ensures
        r == spec_clasp_level(f, m),
{
    if s(f.left_wrist.y, f.right_wrist.y) * 100 < 200 * w(m.neck_y) + 10 * m.torso_h {
        ClaspLevel::Overhead
    } else if s(f.left_wrist.y, f.right_wrist.y) * 2 < 2 * m.shoulder_y2 + m.torso_h {
        ClaspLevel::Chest
    } else if (s(f.left_wrist.y, f.right_wrist.y) - 2 * w(m.hip_y)) * 100 < 70 * m.torso_h && (s(
        f.left_wrist.y,
        f.right_wrist.y,
    ) - 2 * w(m.hip_y)) * 100 > -70 * m.torso_h {
        ClaspLevel::Waist
    } else {
        ClaspLevel::Together
    }
}

/// The smaller of two distances.
pub open spec fn spec_min64(a: i64, b: i64) -> i64 {
    if a <= b {
        a
    } else {
        b
    }
}

/// The smaller of two distances.
#[verifier::when_used_as_spec(spec_min64)]
pub fn min64(a: i64, b: i64) -> (r: i64)
    ensures
        r == spec_min64(a, b),
{
    if a <= b {
        a
    } else {
        b
    }
}

/// What the two hands do together, checked in this order: clasped (the
/// wrists within 0.20 of the trunk's height of each other), a guard, arms
/// folded, hands on the chest, on the hips, on the knees, at the neck,
/// clasped at rest before the hips. A hand on one hip counts only where
/// something is said of the other arm.
pub open spec fn spec_hands_pose(f: &Figure, m: &BodyMetrics, la: &ArmReading, ra: &ArmReading, h: &HandsReading, left_said: bool, right_said: bool) -> HandsPose {
    if w(h.wrist_gap) * 100 < 20 * m.torso_h {
        if w(min64(la.hand_to_head, ra.hand_to_head)) * 100 < 22 * m.torso_h {
            HandsPose::PressedNearFace
        } else {
            HandsPose::Clasped(clasp_level(f, m))
        }
    } else if la.limb.bend < 110_000_000 && ra.limb.bend < 110_000_000 && wrist_at_face(
        &f.left_wrist,
        m,
    ) && wrist_at_face(&f.right_wrist, m) {
        HandsPose::Guard
    } else if la.limb.bend < 110_000_000 && ra.limb.bend < 110_000_000 && 2 * w(f.left_wrist.x) > s(
        f.left_shoulder.x,
        f.right_shoulder.x,
    ) + 20_000_000 && 2 * w(f.right_wrist.x) < s(f.left_shoulder.x, f.right_shoulder.x) - 20_000_000
        && wrist_at_chest(&f.left_wrist, m) && wrist_at_chest(&f.right_wrist, m) {
        HandsPose::Folded
    } else if w(h.left_to_chest) * 100 < 28 * m.torso_h && w(h.right_to_chest) * 100 < 28 * m.torso_h {
        HandsPose::BothOnChest
    } else if w(h.left_to_chest) * 100 < 28 * m.torso_h {
        HandsPose::OnChest(Side::Left)
    } else if w(h.right_to_chest) * 100 < 28 * m.torso_h {
        HandsPose::OnChest(Side::Right)
    } else if hand_on_hip(&f.left_shoulder, &f.left_wrist, false, la, m) && hand_on_hip(
        &f.right_shoulder,
        &f.right_wrist,
        true,
        ra,
        m,
    ) {
        HandsPose::OnHips
    } else if hand_on_hip(&f.left_shoulder, &f.left_wrist, false, la, m) && right_said {
        HandsPose::OnHip(Side::Left)
    } else if hand_on_hip(&f.right_shoulder, &f.right_wrist, true, ra, m) && left_said {
        HandsPose::OnHip(Side::Right)
    } else if w(h.left_to_knee) * 100 < 28 * m.torso_h && w(h.right_to_knee) * 100 < 28 * m.torso_h {
        HandsPose::OnKnees
    } else if w(h.left_to_neck) * 100 < 24 * m.torso_h && w(h.right_to_neck) * 100 < 24 * m.torso_h {
        HandsPose::BothAtNeck
    } else if w(h.left_to_neck) * 100 < 24 * m.torso_h {
        HandsPose::AtNeck(Side::Left)
    } else if w(h.right_to_neck) * 100 < 24 * m.torso_h {
        HandsPose::AtNeck(Side::Right)
    } else if (s(f.left_wrist.y, f.right_wrist.y) - 2 * w(m.hip_y)) * 100 < 56 * m.torso_h && (s(
        f.left_wrist.y,
        f.right_wrist.y,
    ) - 2 * w(m.hip_y)) * 100 > -56 * m.torso_h && w(h.wrist_gap) * 100 < 30 * m.torso_h && mag(d(f.left_wrist.x, f.right_wrist.x)) * 100 < 25 * m.shoulder_w {
        HandsPose::ClaspedAtRest
    } else {
        HandsPose::Apart
    }
}

/// What the two hands do together, checked in this order: clasped (the
/// wrists within 0.20 of the trunk's height of each other), a guard, arms
/// folded, hands on the chest, on the hips, on the knees, at the neck,
/// clasped at rest before the hips. A hand on one hip counts only where
/// something is said of the other arm.
#[verifier::when_used_as_spec(spec_hands_pose)]
pub fn hands_pose(f: &Figure, m: &BodyMetrics, la: &ArmReading, ra: &ArmReading, h: &HandsReading, left_said: bool, right_said: bool) -> (r: HandsPose)
    requires
        m.wf(),
    ensures
        r == spec_hands_pose(f, m, la, ra, h, left_said, right_said),
{
    if w(h.wrist_gap) * 100 < 20 * m.torso_h {
        if w(min64(la.hand_to_head, ra.hand_to_head)) * 100 < 22 * m.torso_h {
            HandsPose::PressedNearFace
        } else {
            HandsPose::Clasped(clasp_level(f, m))
        }
    } else if la.limb.bend < 110_000_000 && ra.limb.bend < 110_000_000 && wrist_at_face(
        &f.left_wrist,
        m,
    ) && wrist_at_face(&f.right_wrist, m) {
        HandsPose::Guard
    } else if la.limb.bend < 110_000_000 && ra.limb.bend < 110_000_000 && 2 * w(f.left_wrist.x) > s(
        f.left_shoulder.x,
        f.right_shoulder.x,
    ) + 20_000_000 && 2 * w(f.right_wrist.x) < s(f.left_shoulder.x, f.right_shoulder.x) - 20_000_000
        && wrist_at_chest(&f.left_wrist, m) && wrist_at_chest(&f.right_wrist, m) {
        HandsPose::Folded
    } else if w(h.left_to_chest) * 100 < 28 * m.torso_h && w(h.right_to_chest) * 100 < 28 * m.torso_h {
        HandsPose::BothOnChest
    } else if w(h.left_to_chest) * 100 < 28 * m.torso_h {
        HandsPose::OnChest(Side::Left)
    } else if w(h.right_to_chest) * 100 < 28 * m.torso_h {
        HandsPose::OnChest(Side::Right)
    } else if hand_on_hip(&f.left_shoulder, &f.left_wrist, false, la, m) && hand_on_hip(
        &f.right_shoulder,
        &f.right_wrist,
        true,
        ra,
        m,
    ) {
        HandsPose::OnHips
    } else if hand_on_hip(&f.left_shoulder, &f.left_wrist, false, la, m) && right_said {
        HandsPose::OnHip(Side::Left)
    } else if hand_on_hip(&f.right_shoulder, &f.right_wrist, true, ra, m) && left_said {
        HandsPose::OnHip(Side::Right)
    } else if w(h.left_to_knee) * 100 < 28 * m.torso_h && w(h.right_to_knee) * 100 < 28 * m.torso_h {
        HandsPose::OnKnees
    } else if w(h.left_to_neck) * 100 < 24 * m.torso_h && w(h.right_to_neck) * 100 < 24 * m.torso_h {
        HandsPose::BothAtNeck
    } else if w(h.left_to_neck) * 100 < 24 * m.torso_h {
        HandsPose::AtNeck(Side::Left)
    } else if w(h.right_to_neck) * 100 < 24 * m.torso_h {
        HandsPose::AtNeck(Side::Right)
    } else if (s(f.left_wrist.y, f.right_wrist.y) - 2 * w(m.hip_y)) * 100 < 56 * m.torso_h && (s(
        f.left_wrist.y,
        f.right_wrist.y,
    ) - 2 * w(m.hip_y)) * 100 > -56 * m.torso_h && w(h.wrist_gap) * 100 < 30 * m.torso_h && mag(d(f.left_wrist.x, f.right_wrist.x)) * 100 < 25 * m.shoulder_w {
        HandsPose::ClaspedAtRest
    } else {
        HandsPose::Apart
    }
}

/// Where the knee stands against the line from hip to ankle.
#[derive(Clone, Copy, Debug, PartialEq, Eq)]
pub enum KneeDir {
    Straight,
    Out,
    In,
}

/// Where the shin points.
#[derive(Clone, Copy, Debug, PartialEq, Eq)]
pub enum ShinDir {
    Plain,
    Forward,
    Back,
}

/// What one leg does.
#[derive(Clone, Copy, Debug, PartialEq, Eq)]
pub enum LegPose {
    /// Too short to tell.
    Undescribed,
    Raised { height: FootRaise, dir: Heading },
    OutToSide { bent: bool },
    Forward { outward: bool, bend: Bend, knee: KneeDir },
    SteppingForward { bend: Bend, knee: KneeDir },
    Back { bend: Bend, knee: KneeDir },
    SteppingBack { bend: Bend, knee: KneeDir },
    Bent { bend: Bend, knee: KneeDir, shin: ShinDir },
}

/// Where the knee stands: out or in where it is more than 18 units off the line from hip to ankle.
pub open spec fn spec_knee_dir(l: &LegReading) -> KneeDir {
    if l.knee_dev > 18_000_000 {
        KneeDir::Out
    } else if l.knee_dev < -18_000_000 {
        KneeDir::In
    } else {
        KneeDir::Straight
    }
}

/// Where the knee stands: out or in where it is more than 18 units off the line from hip to ankle.
#[verifier::when_used_as_spec(spec_knee_dir)]
pub fn knee_dir(l: &LegReading) -> (r: KneeDir)
    ensures
        r == spec_knee_dir(l),
{
    if l.knee_dev > 18_000_000 {
        KneeDir::Out
    } else if l.knee_dev < -18_000_000 {
        KneeDir::In
    } else {
        KneeDir::Straight
    }
}

/// Where the shin points: forward or back where the ankle lies more than 20 units deeper or nearer than the knee.
pub open spec fn spec_shin_dir(kn: &Point, an: &Point) -> ShinDir {
    if d(an.z, kn.z) > 20_000_000 {
        ShinDir::Forward
    } else if d(kn.z, an.z) > 20_000_000 {
        ShinDir::Back
    } else {
        ShinDir::Plain
    }
}

/// Where the shin points: forward or back where the ankle lies more than 20 units deeper or nearer than the knee.
#[verifier::when_used_as_spec(spec_shin_dir)]
pub fn shin_dir(kn: &Point, an: &Point) -> (r: ShinDir)
    ensures
        r == spec_shin_dir(kn, an),
{
    if d(an.z, kn.z) > 20_000_000 {
        ShinDir::Forward
    } else if d(kn.z, an.z) > 20_000_000 {
        ShinDir::Back
    } else {
        ShinDir::Plain
    }
}

/// How the knee of a striding leg is bent: deeply under 100 degrees, plainly under 130, slightly under 155.
pub open spec fn spec_stride_bend(l: &LegReading) -> Bend {
    if l.limb.bend < 100_000_000 {
        Bend::Deep
    } else if l.limb.bend < 130_000_000 {
        Bend::Plain
    } else if l.limb.bend < 155_000_000 {
        Bend::Slight
    } else {
        Bend::Straight
    }
}

/// How the knee of a striding leg is bent: deeply under 100 degrees, plainly under 130, slightly under 155.
#[verifier::when_used_as_spec(spec_stride_bend)]
pub fn stride_bend(l: &LegReading) -> (r: Bend)
    ensures
        r == spec_stride_bend(l),
{
    if l.limb.bend < 100_000_000 {
        Bend::Deep
    } else if l.limb.bend < 130_000_000 {
        Bend::Plain
    } else if l.limb.bend < 155_000_000 {
        Bend::Slight
    } else {
        Bend::Straight
    }
}

/// How the knee of a stepping leg is bent: plainly under 130 degrees, slightly under 155.
pub open spec fn spec_step_bend(l: &LegReading) -> Bend {
    if l.limb.bend < 130_000_000 {
        Bend::Plain
    } else if l.limb.bend < 155_000_000 {
        Bend::Slight
    } else {
        Bend::Straight
    }
}

/// How the knee of a stepping leg is bent: plainly under 130 degrees, slightly under 155.
#[verifier::when_used_as_spec(spec_step_bend)]
pub fn step_bend(l: &LegReading) -> (r: Bend)
    ensures
        r == spec_step_bend(l),
{
    if l.limb.bend < 130_000_000 {
        Bend::Plain
    } else if l.limb.bend < 155_000_000 {
        Bend::Slight
    } else {
        Bend::Straight
    }
}

/// What one leg does, checked in this order: raised (the ankle over 17
/// degrees above the hip), out to the side (55 to 125 degrees from
/// forward), a stride forward or back (over 0.55 of the leg's reach) or a
/// step (over 0.35), and else how the knee is bent.
pub open spec fn spec_leg_pose(kn: &Point, an: &Point, l: &LegReading, m: &BodyMetrics) -> LegPose {
    if l.limb.reach < 1_000_000 {
        LegPose::Undescribed
    } else if l.limb.elev_angle > 17_000_000 {
        LegPose::Raised {
            height: foot_raise(m, an.y),
            dir: if within_forward(&l.limb, 55_000_000) {
                Heading::Forward
            } else if beyond_forward(&l.limb, 125_000_000) {
                Heading::Behind
            } else if l.limb.out > 0 {
                Heading::Side
            } else {
                Heading::Unclear
            },
        }
    } else if l.limb.horiz_angle > 55_000_000 && l.limb.horiz_angle < 125_000_000 {
        LegPose::OutToSide { bent: l.limb.bend < 130_000_000 }
    } else if l.limb.fwd > 550_000 {
        LegPose::Forward {
            outward: l.limb.horiz_angle > 30_000_000 && l.limb.horiz_angle < 80_000_000,
            bend: stride_bend(l),
            knee: knee_dir(l),
        }
    } else if l.limb.fwd > 350_000 {
        LegPose::SteppingForward { bend: step_bend(l), knee: knee_dir(l) }
    } else if l.limb.fwd < -550_000 {
        LegPose::Back { bend: stride_bend(l), knee: knee_dir(l) }
    } else if l.limb.fwd < -350_000 {
        LegPose::SteppingBack { bend: step_bend(l), knee: knee_dir(l) }
    } else {
        LegPose::Bent { bend: stride_bend(l), knee: knee_dir(l), shin: shin_dir(kn, an) }
    }
}

/// What one leg does, checked in this order: raised (the ankle over 17
/// degrees above the hip), out to the side (55 to 125 degrees from
/// forward), a stride forward or back (over 0.55 of the leg's reach) or a
/// step (over 0.35), and else how the knee is bent.
#[verifier::when_used_as_spec(spec_leg_pose)]
pub fn leg_pose(kn: &Point, an: &Point, l: &LegReading, m: &BodyMetrics) -> (r: LegPose)
    requires
        m.wf(),
    ensures
        r == spec_leg_pose(kn, an, l, m),
{
    if l.limb.reach < 1_000_000 {
        LegPose::Undescribed
    } else if l.limb.elev_angle > 17_000_000 {
        LegPose::Raised {
            height: foot_raise(m, an.y),
            dir: if within_forward(&l.limb, 55_000_000) {
                Heading::Forward
            } else if beyond_forward(&l.limb, 125_000_000) {
                Heading::Behind
            } else if l.limb.out > 0 {
                Heading::Side
            } else {
                Heading::Unclear
            },
        }
    } else if l.limb.horiz_angle > 55_000_000 && l.limb.horiz_angle < 125_000_000 {
        LegPose::OutToSide { bent: l.limb.bend < 130_000_000 }
    } else if l.limb.fwd > 550_000 {
        LegPose::Forward {
            outward: l.limb.horiz_angle > 30_000_000 && l.limb.horiz_angle < 80_000_000,
            bend: stride_bend(l),
            knee: knee_dir(l),
        }
    } else if l.limb.fwd > 350_000 {
        LegPose::SteppingForward { bend: step_bend(l), knee: knee_dir(l) }
    } else if l.limb.fwd < -550_000 {
        LegPose::Back { bend: stride_bend(l), knee: knee_dir(l) }
    } else if l.limb.fwd < -350_000 {
        LegPose::SteppingBack { bend: step_bend(l), knee: knee_dir(l) }
    } else {
        LegPose::Bent { bend: stride_bend(l), knee: knee_dir(l), shin: shin_dir(kn, an) }
    }
}

/// How wide the legs are spread.
#[derive(Clone, Copy, Debug, PartialEq, Eq)]
pub enum LegSpread {
    /// feet under 0.90 of the shoulders' width apart
    Close,
    /// under 1.60
    Wide,
    /// the rest
    VeryWide,
}

/// How wide the legs are spread.
pub open spec fn spec_leg_spread(f: &Figure, m: &BodyMetrics) -> LegSpread {
    if mag(d(f.left_ankle.x, f.right_ankle.x)) * 100 < 90 * m.shoulder_w {
        LegSpread::Close
    } else if mag(d(f.left_ankle.x, f.right_ankle.x)) * 100 < 160 * m.shoulder_w {
        LegSpread::Wide
    } else {
        LegSpread::VeryWide
    }
}

/// How wide the legs are spread.
#[verifier::when_used_as_spec(spec_leg_spread)]
pub fn leg_spread(f: &Figure, m: &BodyMetrics) -> (r: LegSpread)
    requires
        m.wf(),
    ensures
        r == spec_leg_spread(f, m),
{
    if mag(d(f.left_ankle.x, f.right_ankle.x)) * 100 < 90 * m.shoulder_w {
        LegSpread::Close
    } else if mag(d(f.left_ankle.x, f.right_ankle.x)) * 100 < 160 * m.shoulder_w {
        LegSpread::Wide
    } else {
        LegSpread::VeryWide
    }
}

/// Are the ankles crossed: the left one more than 8 units to the right of the right one?
pub open spec fn spec_ankles_crossed(f: &Figure) -> bool {
    d(f.left_ankle.x, f.right_ankle.x) > 8_000_000
}

/// Are the ankles crossed: the left one more than 8 units to the right of the right one?
#[verifier::when_used_as_spec(spec_ankles_crossed)]
pub fn ankles_crossed(f: &Figure) -> (r: bool)
    ensures
        r == spec_ankles_crossed(f),
{
    d(f.left_ankle.x, f.right_ankle.x) > 8_000_000
}

/// Are the feet together: under 0.40 of the shoulders' width apart?
pub open spec fn spec_feet_together(f: &Figure, m: &BodyMetrics) -> bool {
    mag(d(f.left_ankle.x, f.right_ankle.x)) * 100 < 40 * m.shoulder_w
}

/// Are the feet together: under 0.40 of the shoulders' width apart?
#[verifier::when_used_as_spec(spec_feet_together)]
pub fn feet_together(f: &Figure, m: &BodyMetrics) -> (r: bool)
    requires
        m.wf(),
    ensures
        r == spec_feet_together(f, m),
{
    mag(d(f.left_ankle.x, f.right_ankle.x)) * 100 < 40 * m.shoulder_w
}

} // verus!
