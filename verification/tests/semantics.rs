use promptpuppet::reading::{
    arm_pose, body_level, foot_spread, leg_pose, metrics, stance_of, ArmPose, ArmReading, Bend,
    BodyLevel, Figure, FootSpread, HandsReading, HeadReading, KneeDir, LegPose, LegReading,
    LegSpread, LimbReading, Point, PoseReading, ShinDir, Side, Stance, TorsoReading,
};
use promptpuppet::semantics::{
    arm_pairs, describe, head_orient, leg_pairs, legs, symmetrize, symmetrize_prefix, trim,
    PhrasePair,
};

type V3 = (f32, f32, f32);

#[derive(Clone, Copy)]
struct Joints {
    head: V3,
    neck: V3,
    left_shoulder: V3,
    right_shoulder: V3,
    left_elbow: V3,
    right_elbow: V3,
    left_wrist: V3,
    right_wrist: V3,
    waist: V3,
    crotch: V3,
    left_knee: V3,
    right_knee: V3,
    left_ankle: V3,
    right_ankle: V3,
}

fn micro(v: f32) -> i64 {
    (v as f64 * 1_000_000.0).round() as i64
}

fn point(j: V3) -> Point {
    Point { x: micro(j.0), y: micro(j.1), z: micro(j.2) }
}

fn sub(a: V3, b: V3) -> V3 {
    (a.0 - b.0, a.1 - b.1, a.2 - b.2)
}

fn mag(a: V3) -> f32 {
    (a.0 * a.0 + a.1 * a.1 + a.2 * a.2).sqrt()
}

fn norm(a: V3) -> V3 {
    let m = mag(a).max(1e-6);
    (a.0 / m, a.1 / m, a.2 / m)
}

fn dot(a: V3, b: V3) -> f32 {
    a.0 * b.0 + a.1 * b.1 + a.2 * b.2
}

/// Angle in degrees at `b`: 180 for a straight line through `b`.
fn angle_at(a: V3, b: V3, c: V3) -> f32 {
    dot(norm(sub(a, b)), norm(sub(c, b))).clamp(-1.0, 1.0).acos().to_degrees()
}

/// A limb from `root` over `mid` to `end`; `sign` is 1 on the right side of
/// the body and -1 on the left.
fn limb(root: V3, mid: V3, end: V3, sign: f32) -> LimbReading {
    let v = sub(end, root);
    let reach = mag(v);
    let m = reach.max(1e-6);
    let up = -v.1 / m;
    let out = v.0 * sign / m;
    let fwd = v.2 / m;
    let flat = (fwd * fwd + out * out).sqrt().max(1e-6);
    LimbReading {
        reach: micro(reach),
        up: micro(up),
        out: micro(out),
        fwd: micro(fwd),
        horiz_angle: micro(out.atan2(fwd).to_degrees()),
        elev_angle: micro(up.atan2(flat).to_degrees()),
        bend: micro(angle_at(root, mid, end)),
    }
}

fn arm(sh: V3, el: V3, wr: V3, head: V3, sign: f32) -> ArmReading {
    let se = sub(el, sh);
    let m = mag(se).max(1e-6);
    ArmReading {
        limb: limb(sh, el, wr, sign),
        elbow_up: micro(-se.1 / m),
        elbow_fwd: micro(se.2 / m),
        elbow_out: micro(se.0 * sign / m),
        hand_to_head: micro(mag(sub(wr, head))),
    }
}

fn leg(hip: V3, kn: V3, an: V3, sign: f32) -> LegReading {
    let t = if (an.1 - hip.1).abs() > 1.0 { (kn.1 - hip.1) / (an.1 - hip.1) } else { 0.5 };
    let line_x = hip.0 + t * (an.0 - hip.0);
    LegReading { limb: limb(hip, kn, an, sign), knee_dev: micro((kn.0 - line_x) * sign) }
}

/// Everything that is read off the joints of a pose.
fn read_pose(j: &Joints) -> PoseReading {
    let torso_h = (j.crotch.1 - j.neck.1).abs().max(1.0);
    let shoulder_y = (j.left_shoulder.1 + j.right_shoulder.1) / 2.0;
    let sternum = (
        (j.left_shoulder.0 + j.right_shoulder.0) / 2.0,
        shoulder_y + torso_h * 0.25,
        (j.left_shoulder.2 + j.right_shoulder.2) / 2.0,
    );
    let lean_x = j.neck.0 - j.crotch.0;
    let lean_z = j.neck.2 - j.crotch.2;
    let dz = j.left_shoulder.2 - j.right_shoulder.2;
    let dx = (j.left_shoulder.0 - j.right_shoulder.0).abs().max(1.0);
    let d = norm(sub(j.head, j.neck));
    let neck_to_head = mag(sub(j.head, j.neck)).max(1.0);
    let roll = ((j.head.0 - j.neck.0) / neck_to_head).clamp(-1.0, 1.0).asin().to_degrees();
    PoseReading {
        figure: Figure {
            head: point(j.head),
            neck: point(j.neck),
            left_shoulder: point(j.left_shoulder),
            right_shoulder: point(j.right_shoulder),
            left_elbow: point(j.left_elbow),
            right_elbow: point(j.right_elbow),
            left_wrist: point(j.left_wrist),
            right_wrist: point(j.right_wrist),
            waist: point(j.waist),
            crotch: point(j.crotch),
            left_knee: point(j.left_knee),
            right_knee: point(j.right_knee),
            left_ankle: point(j.left_ankle),
            right_ankle: point(j.right_ankle),
        },
        left_arm: arm(j.left_shoulder, j.left_elbow, j.left_wrist, j.head, -1.0),
        right_arm: arm(j.right_shoulder, j.right_elbow, j.right_wrist, j.head, 1.0),
        hands: HandsReading {
            wrist_gap: micro(mag(sub(j.left_wrist, j.right_wrist))),
            left_to_chest: micro(mag(sub(j.left_wrist, sternum))),
            right_to_chest: micro(mag(sub(j.right_wrist, sternum))),
            left_to_knee: micro(mag(sub(j.left_wrist, j.left_knee))),
            right_to_knee: micro(mag(sub(j.right_wrist, j.right_knee))),
            left_to_neck: micro(mag(sub(j.left_wrist, j.neck))),
            right_to_neck: micro(mag(sub(j.right_wrist, j.neck))),
        },
        left_leg: leg(j.crotch, j.left_knee, j.left_ankle, -1.0),
        right_leg: leg(j.crotch, j.right_knee, j.right_ankle, 1.0),
        torso: TorsoReading {
            fwd_angle: micro((lean_z.abs() / torso_h).atan().to_degrees()),
            side_angle: micro((lean_x.abs() / torso_h).atan().to_degrees()),
            twist_angle: micro(dz.abs().atan2(dx).to_degrees()),
        },
        head: HeadReading {
            nod: (-d.2).asin().to_degrees() as i32,
            yaw: d.0.asin().to_degrees() as i32,
            roll: roll as i32,
        },
    }
}

/// A figure that stands upright, arms hanging, feet together.
fn standing() -> Joints {
    Joints {
        head: (400.0, 150.0, 0.0),
        neck: (400.0, 190.0, 0.0),
        left_shoulder: (360.0, 190.0, 0.0),
        right_shoulder: (440.0, 190.0, 0.0),
        left_elbow: (355.0, 270.0, 0.0),
        right_elbow: (445.0, 270.0, 0.0),
        left_wrist: (352.0, 350.0, 0.0),
        right_wrist: (448.0, 350.0, 0.0),
        waist: (400.0, 270.0, 0.0),
        crotch: (400.0, 340.0, 0.0),
        left_knee: (385.0, 440.0, 20.0),
        right_knee: (415.0, 440.0, 20.0),
        left_ankle: (385.0, 539.0, 40.0),
        right_ankle: (415.0, 539.0, 40.0),
    }
}

fn said(j: &Joints) -> String {
    describe(&read_pose(j))
}

#[test]
fn a_standing_figure_is_said_to_stand() {
    let text = said(&standing());
    assert!(text.contains("standing"), "{text}");
    assert_eq!(text, "standing, feet together, arms at sides, legs straight");
}

#[test]
fn a_flat_figure_is_said_to_lie() {
    let mut j = standing();
    // head and hips nearly at the height of the feet
    j.head = (200.0, 520.0, 0.0);
    j.neck = (240.0, 520.0, 0.0);
    j.left_shoulder = (240.0, 500.0, 0.0);
    j.right_shoulder = (240.0, 539.0, 0.0);
    j.waist = (320.0, 520.0, 0.0);
    j.crotch = (400.0, 520.0, 0.0);
    let text = said(&j);
    assert!(text.starts_with("lying"), "{text}");
    assert!(text.starts_with("lying on left side"), "{text}");
    assert!(!text.contains("leaning"), "{text}");
    assert!(!text.contains("leg"), "{text}");

    j.head = (400.0, 520.0, -200.0);
    assert!(said(&j).starts_with("lying face up"));
    j.head = (400.0, 520.0, 200.0);
    assert!(said(&j).starts_with("lying face down"));
}

#[test]
fn two_arms_at_the_side_are_said_as_one() {
    let r = read_pose(&standing());
    let m = metrics(&r.figure);
    let f = &r.figure;
    let left =
        arm_pose(&f.left_shoulder, &f.left_elbow, &f.left_wrist, &f.head, false, &r.left_arm, &m);
    let right = arm_pose(
        &f.right_shoulder,
        &f.right_elbow,
        &f.right_wrist,
        &f.head,
        true,
        &r.right_arm,
        &m,
    );
    assert_eq!(left, ArmPose::AtSide);
    assert_eq!(right, ArmPose::AtSide);
    let both = symmetrize_prefix(
        &Some("left arm at side".to_string()),
        &Some("right arm at side".to_string()),
        &arm_pairs(),
    );
    assert_eq!(both.as_deref(), Some("arms at sides"));
    let text = describe(&r);
    assert!(text.contains("arms at sides"), "{text}");
    assert!(!text.contains("left arm at side"), "{text}");
}

#[test]
fn prefix_pairs_keep_a_common_ending() {
    let pairs = arm_pairs();
    let some = |s: &str| Some(s.to_string());
    assert_eq!(
        symmetrize_prefix(
            &some("left arm extended forward at chest level"),
            &some("right arm extended forward at chest level"),
            &pairs
        )
        .as_deref(),
        Some("arms extended forward at chest level")
    );
    assert_eq!(
        symmetrize_prefix(
            &some("left arm extended forward at chest level"),
            &some("right arm extended forward at waist level"),
            &pairs
        )
        .as_deref(),
        Some("arms extended forward")
    );
    assert_eq!(
        symmetrize_prefix(&some("left arm raised forward"), &some("right arm raised"), &pairs)
            .as_deref(),
        Some("arms raised")
    );
    assert_eq!(symmetrize_prefix(&some("left arm at side"), &None, &pairs), None);
    assert_eq!(symmetrize_prefix(&None, &None, &pairs), None);
    let empty_pair = vec![PhrasePair { left: "", right: "", both: "nothing" }];
    assert_eq!(symmetrize_prefix(&None, &None, &empty_pair).as_deref(), Some("nothing"));
}

#[test]
fn exact_pairs_must_match_whole_phrases() {
    let pairs = leg_pairs();
    let some = |s: &str| Some(s.to_string());
    assert_eq!(
        symmetrize(&some("left leg straight"), &some("right leg straight"), &pairs).as_deref(),
        Some("legs straight")
    );
    assert_eq!(
        symmetrize(&some("left leg back"), &some("right leg forward"), &pairs).as_deref(),
        Some("legs in stride")
    );
    assert_eq!(
        symmetrize(&some("left leg straight knee out"), &some("right leg straight"), &pairs),
        None
    );
    assert_eq!(symmetrize(&None, &some("right leg straight"), &pairs), None);
}

#[test]
fn trim_takes_white_space_off_both_ends() {
    assert_eq!(trim("  at chest level \n"), "at chest level");
    assert_eq!(trim("\u{a0}x\u{2003}"), "x");
    assert_eq!(trim("   "), "");
    assert_eq!(trim(""), "");
    assert_eq!(trim("a b"), "a b");
}

#[test]
fn the_head_is_read_in_whole_degrees() {
    let head = |nod, yaw, roll| head_orient(&HeadReading { nod, yaw, roll });
    assert_eq!(head(0, 0, 0), None);
    assert_eq!(head(15, -15, 10), None);
    assert_eq!(head(16, 0, 0).as_deref(), Some("looking slightly down"));
    assert_eq!(head(36, 0, 0).as_deref(), Some("head bowed down"));
    assert_eq!(head(-16, 0, 0).as_deref(), Some("looking slightly up"));
    assert_eq!(head(-36, 0, 0).as_deref(), Some("head tilted back, looking up"));
    assert_eq!(head(0, 16, 0).as_deref(), Some("glancing right"));
    assert_eq!(head(0, -36, 0).as_deref(), Some("head turned left"));
    assert_eq!(head(0, 0, 11).as_deref(), Some("head slightly tilted right"));
    assert_eq!(head(0, 0, -21).as_deref(), Some("head tilted to the left"));
    assert_eq!(
        head(40, -20, 25).as_deref(),
        Some("head bowed down, glancing left, head tilted to the right")
    );
}

#[test]
fn feet_are_spread_by_the_width_of_the_shoulders() {
    let r = read_pose(&standing());
    let m = metrics(&r.figure);
    // shoulders are 80 units wide
    let spread = |gap: i64| foot_spread(&m, 0, gap * 1_000_000);
    assert_eq!(spread(31), FootSpread::Together);
    assert_eq!(spread(32), FootSpread::HipWidth);
    assert_eq!(spread(71), FootSpread::HipWidth);
    assert_eq!(spread(72), FootSpread::Wide);
    assert_eq!(spread(127), FootSpread::Wide);
    assert_eq!(spread(128), FootSpread::VeryWide);
}

#[test]
fn levels_of_the_body() {
    let r = read_pose(&standing());
    let m = metrics(&r.figure);
    // the floor is at 539, the head at 150: the body is 389 units high
    let at = |y: f32| body_level(&m, micro(y));
    assert_eq!(at(150.0), BodyLevel::Overhead);
    assert_eq!(at(539.0 - 0.93 * 389.0), BodyLevel::Overhead);
    assert_eq!(at(539.0 - 0.91 * 389.0), BodyLevel::AboveShoulder);
    assert_eq!(at(539.0 - 0.75 * 389.0), BodyLevel::AtShoulder);
    assert_eq!(at(539.0 - 0.60 * 389.0), BodyLevel::AtChest);
    assert_eq!(at(539.0 - 0.50 * 389.0), BodyLevel::AtWaist);
    assert_eq!(at(539.0 - 0.40 * 389.0), BodyLevel::AtHip);
    assert_eq!(at(539.0 - 0.25 * 389.0), BodyLevel::AtThigh);
    assert_eq!(at(539.0 - 0.10 * 389.0), BodyLevel::AtKnee);
    assert_eq!(at(539.0), BodyLevel::BelowKnee);
}

#[test]
fn stances_with_bent_knees() {
    // both knees bent at a right angle, shins hanging down, hips high: seated
    let mut j = standing();
    j.crotch = (400.0, 400.0, 0.0);
    j.waist = (400.0, 330.0, 0.0);
    j.neck = (400.0, 250.0, 0.0);
    j.head = (400.0, 210.0, 0.0);
    j.left_shoulder = (360.0, 250.0, 0.0);
    j.right_shoulder = (440.0, 250.0, 0.0);
    j.left_knee = (385.0, 400.0, -100.0);
    j.right_knee = (415.0, 400.0, -100.0);
    j.left_ankle = (385.0, 539.0, -100.0);
    j.right_ankle = (415.0, 539.0, -100.0);
    let r = read_pose(&j);
    let m = metrics(&r.figure);
    assert_eq!(stance_of(&r.figure, &m, &r.left_leg, &r.right_leg), Stance::Seated);
    assert!(said(&j).starts_with("seated"));

    // ankles swapped: cross-legged
    j.left_ankle.0 = 430.0;
    j.right_ankle.0 = 370.0;
    assert!(said(&j).starts_with("seated cross-legged"));

    // left knee bent with the shin back: kneeling on that knee
    let mut k = standing();
    k.left_knee = (385.0, 440.0, 0.0);
    k.left_ankle = (385.0, 445.0, 99.0);
    let text = said(&k);
    assert!(text.starts_with("kneeling on left knee"), "{text}");
    assert!(!text.contains("leg"), "{text}");
}

#[test]
fn one_foot_off_the_floor_is_balancing() {
    let mut j = standing();
    j.left_knee = (385.0, 390.0, 80.0);
    j.left_ankle = (385.0, 440.0, 160.0);
    let r = read_pose(&j);
    let m = metrics(&r.figure);
    match stance_of(&r.figure, &m, &r.left_leg, &r.right_leg) {
        Stance::Balancing { raised, .. } => assert_eq!(raised, Side::Left),
        other => panic!("{other:?}"),
    }
    let text = said(&j);
    assert!(text.starts_with("balancing on right leg, left foot raised to knee height forward"), "{text}");
}

#[test]
fn legs_of_a_standing_figure() {
    let some = |s: &str| Some(s.to_string());
    let close = LegSpread::Close;
    assert_eq!(legs(false, &some("left leg straight"), &some("right leg straight"), close, false, true), None);
    assert_eq!(
        legs(true, &some("left leg straight"), &some("right leg straight"), close, false, true)
            .as_deref(),
        Some("legs straight")
    );
    assert_eq!(
        legs(true, &some("left leg straight"), &some("right leg straight"), close, true, true)
            .as_deref(),
        Some("ankles crossed")
    );
    assert_eq!(
        legs(true, &some("left leg forward bent knee out"), &some("right leg back straight"), close, false, false)
            .as_deref(),
        Some("lunge, left leg leading")
    );
    assert_eq!(
        legs(true, &some("left leg stepping back"), &some("right leg forward-outward deeply bent"), close, false, false)
            .as_deref(),
        Some("lunge, right leg leading")
    );
    assert_eq!(
        legs(true, &some("left leg bent knee in"), &some("right leg straight"), close, false, false)
            .as_deref(),
        Some("left leg bent knee in, right leg straight")
    );
    assert_eq!(
        legs(true, &some("left leg straight"), &None, close, false, false).as_deref(),
        Some("left leg straight")
    );
    assert_eq!(legs(true, &None, &None, close, false, false), None);
    assert_eq!(
        legs(true, &some("left leg straight"), &some("right leg straight"), LegSpread::Wide, true, false)
            .as_deref(),
        Some("legs spread wide")
    );
    assert_eq!(
        legs(true, &some("left leg forward"), &some("right leg back"), LegSpread::VeryWide, false, false)
            .as_deref(),
        Some("legs spread very wide, legs in stride")
    );
}

#[test]
fn a_leg_is_read_from_its_limb() {
    let r = read_pose(&standing());
    let m = metrics(&r.figure);
    let limb = |fwd: i64, horiz: i64, bend: i64| LegReading {
        limb: LimbReading {
            reach: 200_000_000,
            up: -900_000,
            out: 0,
            fwd,
            horiz_angle: horiz,
            elev_angle: -60_000_000,
            bend,
        },
        knee_dev: 19_000_000,
    };
    let kn = Point { x: 0, y: 0, z: 0 };
    let an = Point { x: 0, y: 0, z: 21_000_000 };
    assert_eq!(
        leg_pose(&kn, &an, &limb(600_000, 10_000_000, 90_000_000), &m),
        LegPose::Forward { outward: false, bend: Bend::Deep, knee: KneeDir::Out }
    );
    assert_eq!(
        leg_pose(&kn, &an, &limb(-400_000, 170_000_000, 140_000_000), &m),
        LegPose::SteppingBack { bend: Bend::Slight, knee: KneeDir::Out }
    );
    assert_eq!(
        leg_pose(&kn, &an, &limb(0, 0, 120_000_000), &m),
        LegPose::Bent { bend: Bend::Plain, knee: KneeDir::Out, shin: ShinDir::Forward }
    );
    assert_eq!(
        leg_pose(&kn, &an, &limb(0, 90_000_000, 120_000_000), &m),
        LegPose::OutToSide { bent: true }
    );
}

#[test]
fn a_leaning_turned_figure() {
    let mut j = standing();
    // neck forward of the hips by 100 units over a trunk of 150: 33.7 degrees
    j.neck.2 = -100.0;
    j.head.2 = -100.0;
    j.left_shoulder = (360.0, 170.0, -60.0);
    j.right_shoulder = (440.0, 190.0, -140.0);
    let text = said(&j);
    assert!(text.contains("leaning forward"), "{text}");
    assert!(text.contains("left shoulder raised"), "{text}");
    assert!(text.contains("body turned right"), "{text}");
}

#[test]
fn weight_on_one_foot() {
    let mut j = standing();
    j.crotch.0 = 430.0;
    let text = said(&j);
    assert!(text.contains("slightly weight on right foot") || text.contains("weight on right foot"), "{text}");
    j.crotch.0 = 350.0;
    assert!(said(&j).contains("strongly weight on left foot"));
}
