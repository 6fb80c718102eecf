use tweek_theme::controller::{
    Frame, ModalDisplayStyle, NavError, NavEvent, NavItem, Point, Screen, TransitionState,
    BACK_BUTTON, CLOSE_BUTTON, MODAL, NEXT_BUTTON,
};
use tweek_theme::events::{Action, Event};
use tweek_theme::nav::{EventLayer, NavController};
use tweek_theme::theme::ThemeManager;

fn frame() -> Frame {
    Frame::new(0, 0, 1000, 600)
}

fn screen(id: u32, title: &str) -> Screen {
    Screen::new(id, title.to_string(), frame())
}

#[test]
fn push_pop_scenario_keeps_front_on_newest_entry() {
    let mut nav = NavController::new(frame());
    assert!(nav.push_controller(screen(1, "R")).is_ok());
    assert_eq!(nav.controllers.len(), 1);
    assert_eq!(nav.front_idx, 0);
    assert!(nav.push_controller(screen(2, "A")).is_ok());
    assert_eq!(nav.controllers.len(), 2);
    assert_eq!(nav.front_idx, 1);
    assert!(nav.push_controller(screen(3, "B")).is_ok());
    assert_eq!(nav.controllers.len(), 3);
    assert_eq!(nav.front_idx, 2);
    assert!(nav.pop_controller().is_ok());
    assert_eq!(nav.controllers.len(), 2);
    assert_eq!(nav.front_idx, 1);
    assert!(nav.pop_controller().is_ok());
    assert_eq!(nav.controllers.len(), 1);
    assert_eq!(nav.front_idx, 0);
    assert_eq!(nav.pop_controller(), Err(NavError::InvalidPop));
    assert_eq!(nav.controllers.len(), 1);
    assert_eq!(nav.front_idx, 0);
    assert_eq!(nav.controllers[0].id, 1);
}

#[test]
fn push_then_pop_restores_previous_front_controller() {
    let mut nav = NavController::new(frame());
    let _ = nav.push_controller(screen(1, "R"));
    let _ = nav.push_controller(screen(2, "A"));
    let before_front = nav.controllers[nav.front_idx].id;
    let _ = nav.push_controller(screen(3, "C"));
    let _ = nav.pop_controller();
    assert_eq!(nav.controllers[nav.front_idx].id, before_front);
    assert_eq!(nav.controllers.len(), 2);
}

#[test]
fn push_fires_view_will_load_on_new_front() {
    let mut nav = NavController::new(frame());
    let s = screen(1, "R");
    assert!(!s.loaded);
    let _ = nav.push_controller(s);
    assert!(nav.controllers[0].loaded);
}

#[test]
fn present_then_dismiss_leaves_base_stack_unchanged() {
    let mut nav = NavController::new(frame());
    let _ = nav.push_controller(screen(1, "R"));
    let _ = nav.push_controller(screen(2, "A"));
    let before: Vec<u32> = nav.controllers.iter().map(|s| s.id).collect();
    let before_front = nav.front_idx;
    assert!(nav.present_controller(screen(9, "M"), ModalDisplayStyle::Plain).is_ok());
    assert!(nav.modal_controller.is_some());
    assert_eq!(nav.transition, TransitionState::Starting);
    nav.dismiss_modal();
    assert!(nav.modal_controller.is_none());
    assert_eq!(nav.transition, TransitionState::Idle);
    let after: Vec<u32> = nav.controllers.iter().map(|s| s.id).collect();
    assert_eq!(after, before);
    assert_eq!(nav.front_idx, before_front);
}

#[test]
fn present_rejects_every_other_style() {
    let mut nav = NavController::new(frame());
    let _ = nav.push_controller(screen(1, "R"));
    for style in [
        ModalDisplayStyle::CoverVertical,
        ModalDisplayStyle::FlipHorizontal,
        ModalDisplayStyle::CrossDissolve,
    ] {
        assert_eq!(
            nav.present_controller(screen(9, "M"), style),
            Err(NavError::UnsupportedModalStyle)
        );
        assert!(nav.modal_controller.is_none());
        assert_eq!(nav.transition, TransitionState::Idle);
    }
}

#[test]
fn stack_mutation_is_refused_while_modal_is_active() {
    let mut nav = NavController::new(frame());
    let _ = nav.push_controller(screen(1, "R"));
    let _ = nav.push_controller(screen(2, "A"));
    let _ = nav.present_controller(screen(9, "M"), ModalDisplayStyle::Plain);
    assert_eq!(nav.push_controller(screen(3, "B")), Err(NavError::ModalActive));
    assert_eq!(nav.pop_controller(), Err(NavError::ModalActive));
    assert_eq!(nav.controllers.len(), 2);
    assert_eq!(nav.front_idx, 1);
}

#[test]
fn render_paints_front_before_modal() {
    let mut nav = NavController::new(frame());
    let _ = nav.push_controller(screen(4, "F"));
    let _ = nav.present_controller(screen(9, "M"), ModalDisplayStyle::Plain);
    assert_eq!(nav.render(), vec![4, 9]);
}

#[test]
fn render_without_modal_paints_front_only() {
    let mut nav = NavController::new(frame());
    let _ = nav.push_controller(screen(4, "F"));
    let _ = nav.push_controller(screen(5, "G"));
    assert_eq!(nav.render(), vec![5]);
}

#[test]
fn one_navigation_event_per_frame() {
    let mut s = screen(1, "R");
    let e1 = Event::new(Action::Button(10));
    let e2 = Event::new(Action::Button(20));
    let _ = s.queue.store(e1);
    let _ = s.queue.store(e2);
    let ev = s.update();
    assert_eq!(ev, Some(NavEvent::Back));
    assert_eq!(s.queue.queue().as_slice(), &[e2]);
    let ev = s.update();
    assert_eq!(ev, Some(NavEvent::Next));
    assert_eq!(s.queue.queue().len(), 0);
}

#[test]
fn local_events_are_handled_without_counting_as_navigation() {
    let mut s = screen(1, "R");
    let _ = s.queue.store(Event::new(Action::Selected(2)));
    let _ = s.queue.store(Event::new(Action::Selected(5)));
    let _ = s.queue.store(Event::new(Action::Button(MODAL)));
    let _ = s.queue.store(Event::new(Action::Button(NEXT_BUTTON)));
    let ev = s.update();
    assert_eq!(ev, Some(NavEvent::Modal));
    assert_eq!(s.selected, Some(5));
    assert_eq!(s.queue.queue().len(), 1);
    let ev = s.update();
    assert_eq!(ev, Some(NavEvent::Next));
    let ev = s.update();
    assert_eq!(ev, None);
}

#[test]
fn unrecognized_button_tags_stay_local() {
    let mut s = screen(1, "R");
    let _ = s.queue.store(Event::new(Action::Button(999)));
    let ev = s.update();
    assert_eq!(ev, None);
    assert_eq!(s.queue.queue().len(), 0);
    assert_eq!(s.selected, None);
}

#[test]
fn route_builds_destination_in_source_frame() {
    let mut s = screen(1, "Settings");
    s.add_route(NavEvent::Modal, 8, "Profile".to_string());
    let t = s.nav_target_for_event(NavEvent::Modal).expect("route answers the event");
    assert_eq!(t.event, NavEvent::Modal);
    assert_eq!(t.controller.id, 8);
    assert_eq!(t.controller.title, "Profile");
    assert_eq!(t.controller.frame, s.frame);
    assert!(!t.controller.loaded);
    assert!(s.nav_target_for_event(NavEvent::Next).is_none());
}

#[test]
fn next_flow_pushes_on_the_following_tick() {
    let mut nav = NavController::new(frame());
    let mut root = screen(1, "Builder");
    root.add_route(NavEvent::Next, 2, "Settings".to_string());
    let _ = nav.push_controller(root);
    let _ = nav.controllers[0].queue.store(Event::new(Action::Button(NEXT_BUTTON)));
    let errs = nav.update();
    assert!(errs.is_empty());
    assert_eq!(nav.controllers.len(), 1);
    assert!(nav.next_target.is_some());
    let errs = nav.update();
    assert!(errs.is_empty());
    assert_eq!(nav.controllers.len(), 2);
    assert_eq!(nav.front_idx, 1);
    assert_eq!(nav.controllers[1].id, 2);
    assert_eq!(nav.controllers[1].title, "Settings");
    assert!(nav.controllers[1].loaded);
    assert!(nav.next_target.is_none());
}

#[test]
fn modal_flow_presents_then_close_dismisses() {
    let mut nav = NavController::new(frame());
    let mut root = screen(1, "Settings");
    root.add_route(NavEvent::Modal, 8, "Profile".to_string());
    let _ = nav.push_controller(root);
    let _ = nav.controllers[0].queue.store(Event::new(Action::Button(MODAL)));
    let _ = nav.update();
    let _ = nav.update();
    assert!(nav.modal_controller.is_some());
    assert_eq!(nav.modal_controller.as_ref().unwrap().id, 8);
    assert!(nav.modal_controller.as_ref().unwrap().loaded);
    assert_eq!(nav.transition, TransitionState::Starting);
    assert_eq!(nav.render(), vec![1, 8]);
    // the modal holds exclusive focus: its close button dismisses it
    let _ = nav
        .modal_controller
        .as_mut()
        .unwrap()
        .queue
        .store(Event::new(Action::Button(CLOSE_BUTTON)));
    let errs = nav.update();
    assert!(errs.is_empty());
    assert!(nav.modal_controller.is_none());
    assert_eq!(nav.transition, TransitionState::Idle);
    assert_eq!(nav.controllers.len(), 1);
    assert_eq!(nav.front_idx, 0);
}

#[test]
fn back_flow_pops_within_the_same_tick() {
    let mut nav = NavController::new(frame());
    let _ = nav.push_controller(screen(1, "R"));
    let _ = nav.push_controller(screen(2, "A"));
    let _ = nav.controllers[1].queue.store(Event::new(Action::Button(BACK_BUTTON)));
    let errs = nav.update();
    assert!(errs.is_empty());
    assert_eq!(nav.controllers.len(), 1);
    assert_eq!(nav.front_idx, 0);
    assert_eq!(nav.controllers[0].id, 1);
}

#[test]
fn back_on_root_reports_invalid_pop() {
    let mut nav = NavController::new(frame());
    let _ = nav.push_controller(screen(1, "R"));
    let _ = nav.controllers[0].queue.store(Event::new(Action::Button(BACK_BUTTON)));
    let errs = nav.update();
    assert_eq!(errs, vec![NavError::InvalidPop]);
    assert_eq!(nav.controllers.len(), 1);
}

#[test]
fn modal_receives_exclusive_update() {
    let mut nav = NavController::new(frame());
    let _ = nav.push_controller(screen(1, "R"));
    let _ = nav.controllers[0].queue.store(Event::new(Action::Button(BACK_BUTTON)));
    let _ = nav.present_controller(screen(9, "M"), ModalDisplayStyle::Plain);
    let errs = nav.update();
    // the front controller's queued event was not drained
    assert!(errs.is_empty());
    assert_eq!(nav.controllers[0].queue.queue().len(), 1);
    assert_eq!(nav.controllers.len(), 1);
}

#[test]
fn input_routes_to_modal_when_present() {
    let mut nav = NavController::new(frame());
    let _ = nav.push_controller(screen(1, "F"));
    let modal = Screen::new(9, "M".to_string(), Frame::new(100, 100, 200, 200));
    let _ = nav.present_controller(modal, ModalDisplayStyle::Plain);
    let inside_modal = Point { x: 150, y: 150 };
    let outside_modal = Point { x: 10, y: 10 };
    assert!(nav.handle_mouse_at(&inside_modal));
    assert!(!nav.handle_mouse_at(&outside_modal));
    assert!(nav.handle_mouse_down(&inside_modal));
    assert!(!nav.handle_mouse_up(&outside_modal));
}

#[test]
fn input_routes_to_front_without_modal() {
    let mut nav = NavController::new(frame());
    let _ = nav.push_controller(Screen::new(1, "F".to_string(), Frame::new(0, 0, 100, 100)));
    assert!(nav.handle_mouse_down(&Point { x: 50, y: 50 }));
    assert!(!nav.handle_mouse_down(&Point { x: 100, y: 50 }));
    assert!(nav.handle_mouse_at(&Point { x: 0, y: 0 }));
    assert!(!nav.handle_mouse_up(&Point { x: -1, y: 0 }));
}

#[test]
fn set_theme_reaches_the_front_controller() {
    let mut nav = NavController::new(frame());
    let _ = nav.push_controller(screen(1, "R"));
    let _ = nav.push_controller(screen(2, "A"));
    let theme = ThemeManager::nav_theme();
    nav.set_theme(&theme);
    assert_eq!(nav.controllers[1].bg_color, 0x333333);
    assert_eq!(nav.controllers[0].bg_color, 0);
}

#[test]
fn screen_exposes_title_and_nav_items() {
    let mut s = screen(1, "Theme Builder");
    assert_eq!(s.screen_title(), "Theme Builder");
    assert!(s.left_nav_items().is_empty());
    assert!(s.right_nav_items().is_empty());
    s.add_left_item(NavItem::new(BACK_BUTTON, 70));
    s.add_right_item(NavItem::new(NEXT_BUTTON, 71));
    assert_eq!(s.left_nav_items().len(), 1);
    assert_eq!(s.left_nav_items()[0].tag, BACK_BUTTON);
    assert_eq!(s.right_nav_items()[0].tag, NEXT_BUTTON);
}

#[test]
fn dismiss_without_modal_changes_nothing() {
    let mut nav = NavController::new(frame());
    let _ = nav.push_controller(screen(1, "R"));
    nav.dismiss_modal();
    assert!(nav.modal_controller.is_none());
    assert_eq!(nav.transition, TransitionState::Idle);
    assert_eq!(nav.controllers.len(), 1);
    assert_eq!(nav.front_idx, 0);
}

#[test]
fn event_layer_starts_at_zero() {
    assert_eq!(EventLayer::new().id, 0);
}
