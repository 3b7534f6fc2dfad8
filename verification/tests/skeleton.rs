use promptpuppet::reading::Side;
use promptpuppet::skeleton::{
    chain_constraint, chain_joints, chain_segments, drags_legs, flat_depth, follow_percent,
    joint_id, joint_name, kept_above_floor, move_plan, placement, placement_turn, point_name,
    segment, segment_name, Chain, ConstraintType, JointId, JointMove, Placement, Segment,
};

const JOINTS: [JointId; 14] = [
    JointId::Head,
    JointId::Neck,
    JointId::LeftShoulder,
    JointId::RightShoulder,
    JointId::LeftElbow,
    JointId::RightElbow,
    JointId::LeftWrist,
    JointId::RightWrist,
    JointId::Waist,
    JointId::Crotch,
    JointId::LeftKnee,
    JointId::RightKnee,
    JointId::LeftAnkle,
    JointId::RightAnkle,
];

#[test]
fn joint_names_round_trip() {
    for j in JOINTS {
        assert_eq!(joint_id(joint_name(j)), Some(j));
    }
    assert_eq!(joint_name(JointId::LeftShoulder), "left_shoulder");
    assert_eq!(joint_id("hips"), None);
    assert_eq!(joint_id(""), None);
}

#[test]
fn segment_names_round_trip() {
    for s in [
        Segment::Arm,
        Segment::Forearm,
        Segment::Thigh,
        Segment::Shin,
        Segment::Neck,
        Segment::TorsoUpper,
        Segment::TorsoLower,
        Segment::ShoulderWidth,
    ] {
        assert_eq!(segment(segment_name(s)), Some(s));
    }
    assert_eq!(segment("torso_upper"), Some(Segment::TorsoUpper));
    assert_eq!(segment("tail"), None);
}

#[test]
fn dragging_is_routed_by_joint() {
    assert_eq!(move_plan(JointId::Neck), JointMove::WholeBody);
    assert_eq!(move_plan(JointId::Head), JointMove::Head);
    assert_eq!(move_plan(JointId::RightShoulder), JointMove::Shoulder(Side::Right));
    assert_eq!(
        move_plan(JointId::LeftWrist),
        JointMove::Solve { chain: Chain::Arm(Side::Left), index: 2 }
    );
    assert_eq!(move_plan(JointId::Waist), JointMove::Solve { chain: Chain::Spine, index: 1 });
    assert_eq!(
        move_plan(JointId::RightKnee),
        JointMove::Solve { chain: Chain::Leg(Side::Right), index: 1 }
    );
}

#[test]
fn chains_know_their_joints_and_segments() {
    assert_eq!(
        chain_joints(Chain::Leg(Side::Left)),
        (JointId::Crotch, JointId::LeftKnee, JointId::LeftAnkle)
    );
    assert_eq!(chain_segments(Chain::Arm(Side::Right)), (Segment::Arm, Segment::Forearm));
    assert_eq!(chain_segments(Chain::Spine), (Segment::TorsoUpper, Segment::TorsoLower));
    assert_eq!(chain_constraint(Chain::Spine), None);
    assert_eq!(chain_constraint(Chain::Leg(Side::Right)), Some(ConstraintType::Hinge));
    assert!(drags_legs(Chain::Spine));
    assert!(!drags_legs(Chain::Arm(Side::Left)));
}

#[test]
fn only_the_ankles_may_touch_the_floor() {
    for j in JOINTS {
        let ankle = j == JointId::LeftAnkle || j == JointId::RightAnkle;
        assert_eq!(kept_above_floor(j), !ankle);
    }
}

#[test]
fn followers_of_the_neck() {
    assert_eq!(follow_percent(JointId::Head), 95);
    assert_eq!(follow_percent(JointId::LeftShoulder), 88);
    assert_eq!(follow_percent(JointId::RightElbow), 55);
    assert_eq!(follow_percent(JointId::LeftWrist), 25);
    assert_eq!(follow_percent(JointId::Waist), 75);
    assert_eq!(follow_percent(JointId::Crotch), 55);
    assert_eq!(follow_percent(JointId::RightKnee), 30);
    assert_eq!(follow_percent(JointId::LeftAnkle), 10);
}

#[test]
fn a_stick_figure_names_the_crotch_pelvis() {
    assert_eq!(point_name(JointId::Crotch), "pelvis");
    assert_eq!(point_name(JointId::LeftKnee), "left_knee");
    assert_eq!(point_name(JointId::Head), "head");
}

#[test]
fn joints_without_a_point_hang_from_their_parents() {
    assert_eq!(placement(JointId::Head), Placement::Point);
    assert_eq!(placement(JointId::Neck), Placement::PointOrBetweenShoulders);
    assert_eq!(
        placement(JointId::LeftWrist),
        Placement::PointOrBelow { parent: JointId::LeftElbow, segment: Segment::Forearm }
    );
    assert_eq!(
        placement(JointId::RightAnkle),
        Placement::PointOrBelow { parent: JointId::RightKnee, segment: Segment::Shin }
    );
    assert_eq!(
        placement(JointId::Waist),
        Placement::Below { parent: JointId::Neck, segment: Segment::TorsoUpper }
    );
    for j in JOINTS {
        match placement(j) {
            Placement::PointOrBelow { parent, .. } | Placement::Below { parent, .. } => {
                assert!(placement_turn(parent) < placement_turn(j));
            }
            _ => {}
        }
    }
}

#[test]
fn a_flat_figure_gets_a_little_depth() {
    assert_eq!(flat_depth(JointId::LeftElbow), -4);
    assert_eq!(flat_depth(JointId::RightWrist), -4);
    assert_eq!(flat_depth(JointId::LeftKnee), 6);
    assert_eq!(flat_depth(JointId::RightAnkle), 6);
    assert_eq!(flat_depth(JointId::Crotch), 4);
    assert_eq!(flat_depth(JointId::Head), 0);
    assert_eq!(flat_depth(JointId::Neck), 0);
    assert_eq!(flat_depth(JointId::LeftShoulder), 0);
}
