use led_ring::buttons::{Buttons, ButtonsContainer, FatalError};
use led_ring::polling;

#[test]
fn polling_fresh_press_reported_once() {
    let mut button = polling::Button::new();
    // One maximal run of high reads: reported at its first poll only.
    assert!(button.handle_pressed(true));
    assert!(!button.handle_pressed(true));
    assert!(!button.handle_pressed(true));
}

#[test]
fn polling_release_rearms() {
    let mut button = polling::Button::new();
    let levels = [true, true, false, true, true, true, false, false, true];
    let expected = [true, false, false, true, false, false, false, false, true];
    for i in 0..levels.len() {
        assert_eq!(button.handle_pressed(levels[i]), expected[i]);
    }
}

#[test]
fn polling_low_reads_report_nothing() {
    let mut button = polling::Button::new();
    assert!(!button.handle_pressed(false));
    assert!(!button.handle_pressed(false));
}

#[test]
fn latch_reports_each_edge_once() {
    let mut buttons = Buttons::new();
    // No edge yet: nothing to report.
    assert!(!buttons.user.handle_pressed());
    buttons.user.record_press();
    assert!(buttons.user.handle_pressed());
    // The read cleared the latch.
    assert!(!buttons.user.handle_pressed());
}

#[test]
fn latch_collapses_edges_between_reads() {
    let mut buttons = Buttons::new();
    buttons.user.record_press();
    buttons.user.record_press();
    buttons.user.record_press();
    assert!(buttons.user.handle_pressed());
    assert!(!buttons.user.handle_pressed());
}

#[test]
fn container_reports_use_before_init() {
    let mut container = ButtonsContainer::new();
    assert_eq!(container.handle_pressed(), Err(FatalError::UseBeforeInit));
    assert_eq!(container.record_press(), Err(FatalError::UseBeforeInit));
}

#[test]
fn container_initialises_once() {
    let mut container = ButtonsContainer::new();
    assert_eq!(container.update(Buttons::new()), Ok(()));
    assert_eq!(container.handle_pressed(), Ok(false));
}

#[test]
fn container_rejects_second_init() {
    let mut container = ButtonsContainer::new();
    assert_eq!(container.update(Buttons::new()), Ok(()));
    // Latch an edge, then try to initialise again: the second construction
    // is the fatal error, and the latched edge survives it.
    assert_eq!(container.record_press(), Ok(()));
    assert_eq!(container.update(Buttons::new()), Err(FatalError::DoubleInit));
    assert_eq!(container.handle_pressed(), Ok(true));
}

#[test]
fn container_routes_edges_to_the_user_button() {
    let mut container = ButtonsContainer::new();
    assert_eq!(container.update(Buttons::new()), Ok(()));
    assert_eq!(container.record_press(), Ok(()));
    assert_eq!(container.record_press(), Ok(()));
    assert_eq!(container.handle_pressed(), Ok(true));
    assert_eq!(container.handle_pressed(), Ok(false));
}
