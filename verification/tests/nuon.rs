use std::hash::{DefaultHasher, Hash, Hasher};

use neothesia::nuon::layers::{LayerId, LayerStack};
use neothesia::nuon::tree::{type_check, Tree, WidgetDesc};
use neothesia::nuon::elements::{ElementsPointer, Release};
use neothesia::nuon::hit::{first_hit, topmost_hit};
use neothesia::nuon::v2;
use neothesia::nuon::v2::{ClickAreaEvent as E2, Id as Id2, PointerState as P2};
use neothesia::nuon::widget::{ButtonState, Canvas, Null, PointerEvent, SpeedPillState};
use neothesia::nuon::{
    button_id, button_look, card, row_group, spin_result, ButtonLook, Card, ClickAreaEvent, Id,
    PointerState, RowGroup, SettingsRowSpinResult,
};

fn std_hash<H: Hash>(v: H) -> u64 {
    let mut h = DefaultHasher::new();
    v.hash(&mut h);
    h.finish()
}

#[test]
fn id_hash_is_the_std_hash_of_the_string() {
    assert_eq!(Id::hash("scroll").as_raw(), std_hash("scroll"));
    assert_eq!(Id::hash("").as_raw(), std_hash(""));
    assert_ne!(Id::hash("a"), Id::hash("b"));
    assert_eq!(Id::hash("Replay"), Id::hash("Replay"));
}

#[test]
fn id_hash_with_matches_hashing_two_integers() {
    let list = Id::hash("list").as_raw();
    let expected = {
        let mut h = DefaultHasher::new();
        list.hash(&mut h);
        (3usize).hash(&mut h);
        h.finish()
    };
    let writes = vec![list.to_ne_bytes().to_vec(), 3usize.to_ne_bytes().to_vec()];
    assert_eq!(Id::hash_with(&writes).as_raw(), expected);
    let other = vec![list.to_ne_bytes().to_vec(), 4usize.to_ne_bytes().to_vec()];
    assert_ne!(Id::hash_with(&writes), Id::hash_with(&other));
    assert_eq!(Id::hash_with(&[]).as_raw(), DefaultHasher::new().finish());
}

#[test]
fn id_from_a_string_is_its_hash() {
    assert_eq!(Id::from("scroll"), Id::hash("scroll"));
    assert_eq!(Id::from("scroll").as_raw(), std_hash("scroll"));
    let a = String::from("same");
    assert_eq!(Id::from(a.as_str()), Id::from("same"));
}

#[test]
fn v2_id_hash_is_the_std_hash() {
    assert_eq!(v2::Id::hash("LooperStart").0, std_hash("LooperStart"));
    assert_eq!(v2::button_id(Some("x"), "icon"), v2::Id::hash("x"));
    assert_eq!(v2::button_id(None, "icon"), v2::Id::hash("icon"));
}

#[test]
fn click_area_event_predicates() {
    let null = ClickAreaEvent::null();
    assert_eq!(null, ClickAreaEvent::Idle { hovered: false, pressed: false });
    assert!(!null.is_clicked() && !null.is_pressed() && !null.is_hovered() && !null.is_press_start());
    assert!(ClickAreaEvent::PressStart.is_pressed());
    assert!(ClickAreaEvent::PressStart.is_press_start());
    assert!(ClickAreaEvent::Idle { hovered: false, pressed: true }.is_pressed());
    assert!(ClickAreaEvent::Idle { hovered: true, pressed: false }.is_hovered());
    assert!(ClickAreaEvent::PressEnd { clicked: true }.is_clicked());
    assert!(!ClickAreaEvent::PressEnd { clicked: false }.is_clicked());
}

#[test]
fn click_area_press_and_click() {
    let a = Id::hash("a");
    let mut ui = PointerState::new();
    assert_eq!(ui.check_click_area(a, true), ClickAreaEvent::Idle { hovered: true, pressed: false });
    assert_eq!(ui.hovered, Some(a));
    ui.mouse_down();
    assert_eq!(ui.check_click_area(a, true), ClickAreaEvent::PressStart);
    assert_eq!(ui.active, Some(a));
    ui.done();
    assert_eq!(ui.check_click_area(a, true), ClickAreaEvent::Idle { hovered: false, pressed: true });
    ui.mouse_up();
    assert_eq!(ui.check_click_area(a, true), ClickAreaEvent::PressEnd { clicked: true });
    assert_eq!(ui.active, None);
}

#[test]
fn click_area_release_outside_is_no_click() {
    let a = Id::hash("a");
    let mut ui = PointerState::new();
    ui.mouse_down();
    ui.check_click_area(a, true);
    ui.mouse_up();
    assert_eq!(ui.check_click_area(a, false), ClickAreaEvent::PressEnd { clicked: false });
    assert_eq!(ui.hovered, None);
}

#[test]
fn only_one_element_takes_the_press() {
    let a = Id::hash("a");
    let b = Id::hash("b");
    let mut ui = PointerState::new();
    ui.mouse_down();
    assert_eq!(ui.check_click_area(a, true), ClickAreaEvent::PressStart);
    assert_eq!(ui.check_click_area(b, true), ClickAreaEvent::Idle { hovered: false, pressed: false });
    assert_eq!(ui.active, Some(a));
}

#[test]
fn v2_press_moves_to_the_last_area() {
    let a = Id2::hash("a");
    let b = Id2::hash("b");
    let mut ui = P2::new();
    ui.mouse_down();
    assert_eq!(ui.check_click_area(a, true), E2::PressStart);
    assert_eq!(ui.check_click_area(b, true), E2::PressStart);
    assert_eq!(ui.active, Some(b));
    ui.mouse_up();
    assert_eq!(ui.check_click_area(b, true), E2::PressEnd { clicked: true });
    assert!(E2::PressEnd { clicked: true }.is_clicked());
    assert!(!E2::Idle { hovered: true }.is_clicked());
}

#[test]
fn button_looks() {
    let a = Id::hash("a");
    let mut ui = PointerState::new();
    assert_eq!(button_look(&ui, a), ButtonLook::Normal);
    ui.hovered = Some(a);
    assert_eq!(button_look(&ui, a), ButtonLook::Hovered);
    ui.active = Some(Id::hash("b"));
    assert_eq!(button_look(&ui, a), ButtonLook::Normal);
    ui.active = Some(a);
    assert_eq!(button_look(&ui, a), ButtonLook::Pressed);
}

#[test]
fn button_identity() {
    let given = Id(7);
    assert_eq!(button_id(Some(given), "label", "X"), given);
    assert_eq!(button_id(None, "label", "X"), Id::hash("label"));
    assert_eq!(button_id(None, "", "X"), Id::hash("X"));
}

#[test]
fn cards_and_groups() {
    assert_eq!(Card::new(), card());
    assert_eq!(RowGroup::new(), row_group());
    assert_eq!(Null::new(), Null);
    let c = Canvas::new(5u32);
    assert_eq!(c.draw, 5);
}

#[test]
fn spin_row_results() {
    assert_eq!(spin_result(false, false), SettingsRowSpinResult::Idle);
    assert_eq!(spin_result(true, false), SettingsRowSpinResult::Plus);
    assert_eq!(spin_result(false, true), SettingsRowSpinResult::Minus);
    assert_eq!(spin_result(true, true), SettingsRowSpinResult::Minus);
}

#[test]
fn retained_button_clicks_on_release_over_it() {
    let mut b = ButtonState::default();
    let r = b.update(PointerEvent::LeftPress);
    assert!(!r.grab_mouse);
    b.update(PointerEvent::CursorMoved { inside: true });
    let r = b.update(PointerEvent::LeftPress);
    assert!(r.grab_mouse && b.is_pressed);
    let r = b.update(PointerEvent::LeftRelease);
    assert!(r.clicked && r.ungrab_mouse && !b.is_pressed);

    b.update(PointerEvent::LeftPress);
    b.update(PointerEvent::CursorMoved { inside: false });
    let r = b.update(PointerEvent::LeftRelease);
    assert!(!r.clicked && r.ungrab_mouse);
    let pill = SpeedPillState::default();
    assert!(!pill.minus.is_pressed && !pill.plus.is_hovered);
}

fn leaf(t: u64, s: u32) -> WidgetDesc<u32> {
    WidgetDesc { state_type: t, state: s, children: Vec::new() }
}

#[test]
fn tree_diff_keeps_matching_states() {
    let w = WidgetDesc { state_type: 1, state: 10, children: vec![leaf(2, 20), leaf(3, 30)] };
    let mut tree = Tree::new(&w);
    assert_eq!(*tree.state.get(), 10);
    *tree.children[0].state.get_mut() = 99;

    let w2 = WidgetDesc { state_type: 1, state: 11, children: vec![leaf(2, 21), leaf(4, 40), leaf(5, 50)] };
    tree.diff(&w2);
    assert_eq!(*tree.state.get(), 10);
    assert_eq!(tree.children.len(), 3);
    assert_eq!(*tree.children[0].state.get(), 99);
    assert_eq!(*tree.children[1].state.get(), 40);
    assert_eq!(tree.children[2].state.state_type, Some(5));

    let w3 = WidgetDesc { state_type: 7, state: 70, children: vec![] };
    tree.diff(&w3);
    assert_eq!(*tree.state.get(), 70);
    assert_eq!(tree.children.len(), 0);
}

#[test]
fn tree_diff_truncates_extra_children() {
    let w = WidgetDesc { state_type: 1, state: 1, children: vec![leaf(2, 2), leaf(3, 3)] };
    let mut tree = Tree::new(&w);
    let w2 = WidgetDesc { state_type: 1, state: 1, children: vec![leaf(2, 5)] };
    tree.diff(&w2);
    assert_eq!(tree.children.len(), 1);
    assert_eq!(*tree.children[0].state.get(), 2);
    let null: Tree<u32> = Tree::null();
    assert!(null.state.state.is_none());
    assert!(null.children.is_empty());
}

#[test]
fn layer_stack_push_pop_and_clear() {
    let mut layers = LayerStack::new(0u32);
    assert_eq!(layers.len(), 1);
    assert!(!layers.is_empty());
    layers.push(1);
    assert_eq!(*layers.current(), 1);
    *layers.current_mut() = 11;
    layers.push_overlay(2);
    layers.push(3);
    assert_eq!(*layers.current(), 3);
    assert_eq!(layers.overlay_layers(), &[2, 3]);
    layers.pop();
    layers.pop();
    assert_eq!(*layers.current(), 11);
    layers.pop();
    assert_eq!(*layers.current(), 0);
    layers.pop();
    assert_eq!(*layers.current(), 0);
    assert_eq!(layers.regular_layers(), &[0, 11]);
    assert_eq!(layers.len(), 4);
    layers.clear(5);
    assert_eq!(layers.len(), 1);
    assert_eq!(*layers.current(), 5);
    let _ = LayerId::Regular(0);
}

#[test]
fn clear_keeps_the_history_of_entered_layers() {
    let mut layers = LayerStack::new(0u32);
    layers.push(1);
    layers.push(2);
    layers.clear(7);
    assert_eq!(layers.regular_layers(), &[7]);
    assert_eq!(*layers.current(), 7);
    layers.push(8);
    layers.pop();
    assert_eq!(*layers.current(), 7);
    assert_eq!(layers.len(), 2);
}

#[test]
fn press_and_release_over_an_element_clicks() {
    let mut p = ElementsPointer::new();
    p.set_hovered(Some(4));
    assert_eq!(p.press(), Some(4));
    assert_eq!(p.pressed, Some(4));
    assert_eq!(p.release(), Some(Release { element: 4, clicked: true }));
    assert_eq!(p.release(), None);
    assert_eq!(p.pressed, None);
}

#[test]
fn release_away_from_the_pressed_element_is_no_click() {
    let mut p = ElementsPointer::new();
    assert_eq!(p.press(), None);
    p.set_hovered(Some(4));
    p.press();
    p.set_hovered(Some(5));
    assert_eq!(p.release(), Some(Release { element: 4, clicked: false }));
    p.set_hovered(None);
    p.set_mouse_grab(Some(9));
    assert_eq!(p.mouse_grab, Some(9));
    assert_eq!(p.hovered, None);
}

#[test]
fn state_views_are_type_checked() {
    let tree = Tree::new(&leaf(2, 20));
    assert_eq!(tree.state.state_type_id(), Some(2));
    assert!(tree.state.may_view_as(None));
    assert!(tree.state.may_view_as(Some(2)));
    assert!(!tree.state.may_view_as(Some(3)));
    let null: Tree<u32> = Tree::null();
    assert_eq!(null.state.state_type_id(), None);
    assert!(null.state.may_view_as(None));
    assert!(!null.state.may_view_as(Some(2)));
    assert!(type_check(None, None));
    assert!(!type_check(Some(1), None));
}

#[test]
fn hover_picks_the_topmost_hit() {
    assert_eq!(topmost_hit(&[true, false, true, false]), Some(2));
    assert_eq!(topmost_hit(&[false, false]), None);
    assert_eq!(topmost_hit(&[]), None);
    assert_eq!(first_hit(&[false, true, true]), Some(1));
    assert_eq!(first_hit(&[false]), None);
}
