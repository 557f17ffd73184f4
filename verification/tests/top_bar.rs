use neothesia::neothesia::rewind_controller::{PlayerAction, RewindController};
use neothesia::neothesia::top_bar::looper::{LoopTickSide, Looper};
use neothesia::neothesia::top_bar::progress_bar::{on_progress_bar_msg, ProgressBarMsg};
use neothesia::neothesia::top_bar::widget::{
    LooperEvent, LooperState, ProgressBarState,
};
use neothesia::neothesia::top_bar::TopBar;
use neothesia::nuon::widget::PointerEvent;

const S: u128 = 1_000_000_000;

#[test]
fn looper_first_loop_is_five_seconds() {
    let mut t = TopBar::new();
    assert!(!t.is_looper_active());
    t.toggle_looper(10 * S);
    assert!(t.is_looper_active());
    assert_eq!((t.loop_start_timestamp(), t.loop_end_timestamp()), (10 * S, 15 * S));
    assert_eq!(t.loop_restart(16 * S), Some(10 * S));
    assert_eq!(t.loop_restart(15 * S), None);
    t.toggle_looper(20 * S);
    assert!(!t.is_looper_active());
    assert_eq!(t.loop_restart(16 * S), None);
    t.toggle_looper(30 * S);
    assert_eq!((t.loop_start_timestamp(), t.loop_end_timestamp()), (10 * S, 15 * S));
}

#[test]
fn top_bar_expands_for_pointer_or_settings() {
    let mut t = TopBar::new();
    t.set_expanded(true);
    assert!(t.is_expanded);
    t.set_expanded(false);
    assert!(!t.is_expanded);
    t.toggle_settings();
    t.set_expanded(false);
    assert!(t.is_expanded);
}

#[test]
fn tick_looper_loops_three_seconds() {
    let mut l = Looper::new();
    l.toggle(4 * S);
    assert!(l.is_active());
    assert_eq!((l.start_timestamp(), l.end_timestamp()), (4 * S, 7 * S));
    l.set_tick(LoopTickSide::End, 9 * S);
    assert_eq!(l.end_timestamp(), 9 * S);
    l.toggle(5 * S);
    assert!(!l.is_active());
    assert_eq!(l.end_timestamp(), 9 * S);
}

#[test]
fn progress_bar_press_rewinds_and_release_resumes() {
    let mut r = RewindController::new();
    let e = on_progress_bar_msg(&mut r, ProgressBarMsg::Pressed, false);
    assert_eq!(e.player, PlayerAction::Pause);
    assert!(e.seek_to_pointer);
    let e = on_progress_bar_msg(&mut r, ProgressBarMsg::Pressed, true);
    assert_eq!(e.player, PlayerAction::Nothing);
    let e = on_progress_bar_msg(&mut r, ProgressBarMsg::Released, true);
    assert_eq!(e.player, PlayerAction::Resume);
    assert!(!r.is_rewinding());
}

#[test]
fn progress_bar_widget_messages() {
    let mut s = ProgressBarState::default();
    s.update(PointerEvent::CursorMoved { inside: true });
    let r = s.update(PointerEvent::LeftPress);
    assert!(r.pressed && r.grab_mouse);
    let r = s.update(PointerEvent::LeftRelease);
    assert!(r.released && r.ungrab_mouse);
    let r = s.update(PointerEvent::LeftRelease);
    assert!(!r.released);
}

#[test]
fn loop_ticks_follow_the_pointer_while_apart() {
    let mut s = LooperState::default();
    s.update(LooperEvent::CursorMoved { over_start: true, over_end: false, left_of_end: true, right_of_start: false });
    let r = s.update(LooperEvent::LeftPress);
    assert_eq!(r.grabs, 1);
    assert!(r.capture);
    let r = s.update(LooperEvent::CursorMoved { over_start: false, over_end: false, left_of_end: true, right_of_start: true });
    assert!(r.move_start && !r.move_end);
    let r = s.update(LooperEvent::CursorMoved { over_start: false, over_end: false, left_of_end: false, right_of_start: true });
    assert!(!r.move_start && !r.move_end);
    let r = s.update(LooperEvent::LeftRelease);
    assert_eq!(r.ungrabs, 1);
    assert!(!s.start.is_pressed);
}
