use led_ring::control::{next_index, Controller};
use led_ring::led_wheel::LEDWheel;
use led_ring::polling::Button;

#[test]
fn wheel_starts_dark() {
    let mut wheel = LEDWheel::new();
    for index in 0..8 {
        assert!(!wheel.by_index(index).high);
    }
}

#[test]
fn wheel_position_wraps_around() {
    let mut wheel = LEDWheel::new();
    wheel.by_index(3).set_high();
    // Position 11 is position 3 plus one full turn: the identical line.
    assert!(wheel.by_index(11).high);
    assert!(wheel.by_index(19).high);
    // Its neighbours are other lines.
    assert!(!wheel.by_index(2).high);
    assert!(!wheel.by_index(4).high);
    wheel.by_index(11).set_low();
    assert!(!wheel.by_index(3).high);
}

#[test]
fn wheel_lines_do_not_alias() {
    let mut wheel = LEDWheel::new();
    wheel.by_index(0).set_high();
    for index in 1..8 {
        assert!(!wheel.by_index(index).high);
    }
}

#[test]
fn next_index_steps_both_ways() {
    assert_eq!(next_index(3, 1), 4);
    assert_eq!(next_index(3, -1), 2);
}

#[test]
fn wraparound_forward() {
    // Start at position 7, direction +1, no press: next position is 0.
    let mut controller = Controller::new();
    assert_eq!(controller.index, 7);
    assert_eq!(controller.delta, 1);
    let (lit, unlit) = controller.tick(false);
    assert_eq!(lit, 0);
    assert_eq!(unlit, 7);
    assert_eq!(controller.index, 0);
}

#[test]
fn wraparound_backward() {
    // Start at position 0, direction -1, no press: next position is 7.
    let mut controller = Controller {
        button: Button::new(),
        wheel: LEDWheel::new(),
        index: 0,
        delta: -1,
    };
    let (lit, unlit) = controller.tick(false);
    assert_eq!(lit, 7);
    assert_eq!(unlit, 0);
    assert_eq!(controller.index, 7);
}

#[test]
fn held_press_flips_direction_once() {
    // The button reads high across three consecutive polls with no release
    // in between: the direction flips once, not three times.
    let mut controller = Controller::new();
    assert_eq!(controller.delta, 1);
    controller.tick(true);
    assert_eq!(controller.delta, -1);
    controller.tick(true);
    assert_eq!(controller.delta, -1);
    controller.tick(true);
    assert_eq!(controller.delta, -1);
}

#[test]
fn each_fresh_press_flips_direction() {
    let mut controller = Controller::new();
    controller.tick(true);
    assert_eq!(controller.delta, -1);
    controller.tick(false);
    assert_eq!(controller.delta, -1);
    controller.tick(true);
    assert_eq!(controller.delta, 1);
}

#[test]
fn tick_moves_the_single_lit_line() {
    let mut controller = Controller::new();
    controller.tick(false);
    // Exactly position 0 is lit after the first tick.
    for index in 0..8 {
        assert_eq!(controller.wheel.by_index(index).high, index == 0);
    }
    controller.tick(false);
    for index in 0..8 {
        assert_eq!(controller.wheel.by_index(index).high, index == 1);
    }
}

#[test]
fn chaser_walks_all_the_way_around() {
    let mut controller = Controller::new();
    for expected in 0..8 {
        let (lit, _) = controller.tick(false);
        assert_eq!(lit, expected);
    }
    // One full turn later the chaser is back at position 0.
    let (lit, _) = controller.tick(false);
    assert_eq!(lit, 0);
}
