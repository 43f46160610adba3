use rust_ai_chat::pet_domain::{PetSnapshot, PetState};
use rust_ai_chat::pet_view::{
    apply_snapshot, current_pose, pose_face, pose_label, project_pose, revision_caption,
    should_blink, PetPose,
};

fn snap(state: PetState, revision: u64) -> PetSnapshot {
    PetSnapshot { state, revision }
}

#[test]
fn idle_can_project_to_blink() {
    assert_eq!(project_pose(PetState::Idle, true), PetPose::Blink,);
}

#[test]
fn sleeping_wins_over_blink() {
    assert_eq!(project_pose(PetState::Sleeping, true), PetPose::Sleep,);
}

#[test]
fn interacting_wins_over_blink() {
    assert_eq!(project_pose(PetState::Interacting, true), PetPose::Interact,);
}

#[test]
fn poses_without_blink() {
    assert_eq!(project_pose(PetState::Idle, false), PetPose::Idle);
    assert_eq!(project_pose(PetState::Interacting, false), PetPose::Interact);
    assert_eq!(project_pose(PetState::Sleeping, false), PetPose::Sleep);
}

#[test]
fn first_snapshot_is_always_shown() {
    let s = snap(PetState::Sleeping, 7);
    assert_eq!(apply_snapshot(None, s), Some(s));
}

#[test]
fn older_snapshot_is_ignored() {
    let shown = snap(PetState::Interacting, 5);
    assert_eq!(apply_snapshot(Some(shown), snap(PetState::Idle, 4)), Some(shown));
}

#[test]
fn same_or_newer_snapshot_replaces() {
    let shown = snap(PetState::Interacting, 5);
    let same = snap(PetState::Idle, 5);
    let newer = snap(PetState::Sleeping, 9);
    assert_eq!(apply_snapshot(Some(shown), same), Some(same));
    assert_eq!(apply_snapshot(Some(shown), newer), Some(newer));
}

#[test]
fn newest_wins_in_either_order() {
    let a = snap(PetState::Interacting, 2);
    let b = snap(PetState::Sleeping, 3);
    assert_eq!(apply_snapshot(apply_snapshot(None, a), b), Some(b));
    assert_eq!(apply_snapshot(apply_snapshot(None, b), a), Some(b));
}

#[test]
fn only_idle_pet_blinks() {
    assert!(!should_blink(None));
    assert!(should_blink(Some(snap(PetState::Idle, 0))));
    assert!(!should_blink(Some(snap(PetState::Interacting, 1))));
    assert!(!should_blink(Some(snap(PetState::Sleeping, 1))));
}

#[test]
fn pose_of_shown_snapshot() {
    assert_eq!(current_pose(None, true), None);
    assert_eq!(current_pose(Some(snap(PetState::Idle, 1)), true), Some(PetPose::Blink));
    assert_eq!(current_pose(Some(snap(PetState::Sleeping, 1)), true), Some(PetPose::Sleep));
}

#[test]
fn faces_and_labels() {
    assert_eq!(pose_face(Some(PetPose::Idle)), "😺");
    assert_eq!(pose_face(Some(PetPose::Blink)), "😻");
    assert_eq!(pose_face(Some(PetPose::Interact)), "😸");
    assert_eq!(pose_face(Some(PetPose::Sleep)), "😴");
    assert_eq!(pose_face(None), "🐾");
    assert_eq!(pose_label(Some(PetPose::Idle)), "待機");
    assert_eq!(pose_label(Some(PetPose::Blink)), "眨眼");
    assert_eq!(pose_label(Some(PetPose::Interact)), "互動");
    assert_eq!(pose_label(Some(PetPose::Sleep)), "睡覺");
    assert_eq!(pose_label(None), "載入中");
}

#[test]
fn newest_delivered_snapshot_ends_up_shown() {
    let deliveries = [
        snap(PetState::Interacting, 3),
        snap(PetState::Idle, 1),
        snap(PetState::Sleeping, 6),
        snap(PetState::Idle, 4),
        snap(PetState::Interacting, 2),
    ];
    let mut shown = None;
    for s in deliveries {
        shown = apply_snapshot(shown, s);
    }
    assert_eq!(shown, Some(snap(PetState::Sleeping, 6)));
}

#[test]
fn revision_caption_shows_decimal_or_dash() {
    assert_eq!(revision_caption(None), "-");
    assert_eq!(revision_caption(Some(snap(PetState::Idle, 0))), "0");
    assert_eq!(revision_caption(Some(snap(PetState::Idle, 7))), "7");
    assert_eq!(revision_caption(Some(snap(PetState::Sleeping, 1230))), "1230");
    assert_eq!(
        revision_caption(Some(snap(PetState::Idle, u64::MAX))),
        u64::MAX.to_string()
    );
}
