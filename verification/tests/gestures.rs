use photo_gallery::PreviewCommand;
use photo_gallery::PullPhase;
use photo_gallery::PullToRefresh;
use photo_gallery::SwipeTracker;
use photo_gallery::decode_key;

#[test]
fn pull_past_threshold_triggers_refresh() {
    let mut g = PullToRefresh::new();
    g.touch_start(true, 0);
    g.touch_move(180);
    assert_eq!(g.pull_y, 90);
    let start_refresh = g.touch_end();
    assert!(start_refresh);
    assert_eq!(g.phase, PullPhase::Refreshing);
    assert_eq!(g.pull_y, 80);
    g.finish_refresh();
    assert_eq!(g.phase, PullPhase::Idle);
    assert_eq!(g.pull_y, 0);
}

#[test]
fn pull_below_threshold_resets() {
    let mut g = PullToRefresh::new();
    g.touch_start(true, 10);
    g.touch_move(110);
    assert_eq!(g.pull_y, 50);
    let start_refresh = g.touch_end();
    assert!(!start_refresh);
    assert_eq!(g.phase, PullPhase::Idle);
    assert_eq!(g.pull_y, 0);
}

#[test]
fn pull_distance_is_damped_and_capped() {
    let mut g = PullToRefresh::new();
    g.touch_start(true, 0);
    g.touch_move(100);
    assert_eq!(g.pull_y, 50);
    g.touch_move(239);
    assert_eq!(g.pull_y, 119);
    g.touch_move(1000);
    assert_eq!(g.pull_y, 120);
}

#[test]
fn pull_not_at_scroll_top_is_ignored() {
    let mut g = PullToRefresh::new();
    g.touch_start(false, 0);
    assert_eq!(g.phase, PullPhase::Idle);
    g.touch_move(200);
    assert_eq!(g.pull_y, 0);
    assert!(!g.touch_end());
}

#[test]
fn upward_move_does_not_pull() {
    let mut g = PullToRefresh::new();
    g.touch_start(true, 100);
    g.touch_move(40);
    assert_eq!(g.pull_y, 0);
}

#[test]
fn gesture_while_refreshing_is_ignored() {
    let mut g = PullToRefresh::new();
    g.touch_start(true, 0);
    g.touch_move(200);
    assert!(g.touch_end());
    assert_eq!(g.phase, PullPhase::Refreshing);

    g.touch_start(true, 0);
    assert_eq!(g.phase, PullPhase::Refreshing);
    g.touch_move(300);
    assert_eq!(g.pull_y, 80);
    assert!(!g.touch_end());
    assert_eq!(g.phase, PullPhase::Refreshing);
}

#[test]
fn swipe_right_past_threshold_goes_prev() {
    let mut t = SwipeTracker::new();
    t.touch_start(100);
    t.touch_move(160);
    assert_eq!(t.drag_x, 60);
    assert_eq!(t.touch_end(), PreviewCommand::GoPrev);
    assert!(!t.active);
    assert_eq!(t.drag_x, 0);
}

#[test]
fn swipe_left_past_threshold_goes_next() {
    let mut t = SwipeTracker::new();
    t.touch_start(200);
    t.touch_move(130);
    assert_eq!(t.drag_x, -70);
    assert_eq!(t.touch_end(), PreviewCommand::GoNext);
}

#[test]
fn swipe_below_threshold_snaps_back() {
    let mut t = SwipeTracker::new();
    t.touch_start(100);
    t.touch_move(140);
    assert_eq!(t.touch_end(), PreviewCommand::Ignore);
    assert_eq!(t.drag_x, 0);
}

#[test]
fn swipe_at_exact_threshold_snaps_back() {
    let mut t = SwipeTracker::new();
    t.touch_start(0);
    t.touch_move(50);
    assert_eq!(t.touch_end(), PreviewCommand::Ignore);
    let mut t = SwipeTracker::new();
    t.touch_start(0);
    t.touch_move(-50);
    assert_eq!(t.touch_end(), PreviewCommand::Ignore);
}

#[test]
fn release_without_touch_is_ignored() {
    let mut t = SwipeTracker::new();
    assert_eq!(t.touch_end(), PreviewCommand::Ignore);
}

#[test]
fn keyboard_mapping() {
    assert_eq!(decode_key("ArrowLeft"), PreviewCommand::GoPrev);
    assert_eq!(decode_key("ArrowRight"), PreviewCommand::GoNext);
    assert_eq!(decode_key("Escape"), PreviewCommand::Close);
    assert_eq!(decode_key("Enter"), PreviewCommand::Ignore);
    assert_eq!(decode_key("arrowleft"), PreviewCommand::Ignore);
    assert_eq!(decode_key(""), PreviewCommand::Ignore);
}
