use led_button::led::Direction;
use led_button::led::LedController;
use led_button::led::LedState;
use led_button::led::TickEvent;
use led_button::led::press_transition;
use led_button::led::time_transition;
use led_button::led::BLINK_INTERVAL_MS;
use led_button::led::FADE_INTERVAL_MS;
use led_button::press::PressType;

#[test]
fn press_table_off_row() {
    assert_eq!(press_transition(LedState::Off, PressType::Short), LedState::On);
    assert_eq!(press_transition(LedState::Off, PressType::Long), LedState::On);
    assert_eq!(press_transition(LedState::Off, PressType::Double), LedState::On);
}

#[test]
fn press_table_on_row() {
    assert_eq!(press_transition(LedState::On, PressType::Short), LedState::Off);
    assert_eq!(press_transition(LedState::On, PressType::Long), LedState::Blinking(true));
    assert_eq!(
        press_transition(LedState::On, PressType::Double),
        LedState::Fading { level: 0, direction: Direction::Up }
    );
}

#[test]
fn press_table_blinking_row() {
    assert_eq!(press_transition(LedState::Blinking(true), PressType::Short), LedState::Off);
    assert_eq!(press_transition(LedState::Blinking(false), PressType::Long), LedState::On);
    assert_eq!(press_transition(LedState::Blinking(false), PressType::Double), LedState::Off);
}

#[test]
fn press_table_fading_row() {
    let fading = LedState::Fading { level: 40, direction: Direction::Down };
    assert_eq!(press_transition(fading, PressType::Short), LedState::Off);
    assert_eq!(press_transition(fading, PressType::Long), LedState::On);
    assert_eq!(press_transition(fading, PressType::Double), LedState::Off);
}

#[test]
fn time_leaves_off_and_on_alone() {
    assert_eq!(time_transition(LedState::Off), LedState::Off);
    assert_eq!(time_transition(LedState::On), LedState::On);
}

#[test]
fn blinking_flips_phase() {
    assert_eq!(time_transition(LedState::Blinking(true)), LedState::Blinking(false));
    assert_eq!(time_transition(LedState::Blinking(false)), LedState::Blinking(true));
}

#[test]
fn fade_walks_the_full_wave() {
    // Starting at level 0 going up, ticks walk 0,10,...,100, then back down
    // to 0, and never leave [0,100].
    let mut s = LedState::Fading { level: 0, direction: Direction::Up };
    let mut seen: Vec<u8> = Vec::new();
    for _ in 0..21 {
        match s {
            LedState::Fading { level, .. } => seen.push(level),
            _ => panic!("fade left the Fading state"),
        }
        s = time_transition(s);
    }
    let expected: Vec<u8> = vec![
        0, 10, 20, 30, 40, 50, 60, 70, 80, 90, 100, 90, 80, 70, 60, 50, 40, 30, 20, 10, 0,
    ];
    assert_eq!(seen, expected);
    assert_eq!(s, LedState::Fading { level: 10, direction: Direction::Up });
}

#[test]
fn fade_reverses_at_both_boundaries() {
    assert_eq!(
        time_transition(LedState::Fading { level: 90, direction: Direction::Up }),
        LedState::Fading { level: 100, direction: Direction::Down }
    );
    assert_eq!(
        time_transition(LedState::Fading { level: 10, direction: Direction::Down }),
        LedState::Fading { level: 0, direction: Direction::Up }
    );
}

#[test]
fn brightness_is_stable_between_ticks() {
    let c = LedController::new();
    assert_eq!(c.current_brightness(), c.current_brightness());
    let mut c2 = LedController::new();
    c2.button_pressed(PressType::Long);
    c2.button_pressed(PressType::Long);
    let first = c2.current_brightness();
    let second = c2.current_brightness();
    assert_eq!(first, second);
    assert_eq!(first, 100);
}

#[test]
fn timer_intervals_per_state() {
    let mut c = LedController::new();
    assert_eq!(c.timer_interval(), None);
    c.button_pressed(PressType::Short);
    assert_eq!(c.timer_interval(), None);
    c.button_pressed(PressType::Long);
    assert_eq!(c.timer_interval(), Some(BLINK_INTERVAL_MS));
    c.button_pressed(PressType::Long);
    c.button_pressed(PressType::Double);
    assert_eq!(c.timer_interval(), Some(FADE_INTERVAL_MS));
}

#[test]
fn scenario_off_short_turns_on() {
    let mut c = LedController::new();
    c.tick(TickEvent::Press(PressType::Short));
    assert_eq!(c.current_brightness(), 100);
}

#[test]
fn scenario_on_long_starts_blinking() {
    let mut c = LedController::new();
    c.tick(TickEvent::Press(PressType::Short));
    c.tick(TickEvent::Press(PressType::Long));
    assert_eq!(c.current_brightness(), 100);
    // One full blink interval elapses with no press: the phase flips and the
    // brightness alternates from 100 to 0.
    c.tick(TickEvent::TimerElapsed);
    assert_eq!(c.current_brightness(), 0);
    c.tick(TickEvent::TimerElapsed);
    assert_eq!(c.current_brightness(), 100);
}

#[test]
fn scenario_on_short_turns_off() {
    let mut c = LedController::new();
    c.tick(TickEvent::Press(PressType::Short));
    c.tick(TickEvent::Press(PressType::Short));
    assert_eq!(c.current_brightness(), 0);
}

#[test]
fn scenario_blinking_short_preempts_toggle() {
    let mut c = LedController::new();
    c.tick(TickEvent::Press(PressType::Short));
    c.tick(TickEvent::Press(PressType::Long));
    // A short press arrives before the next blink interval: the press branch
    // of the race wins and the pending toggle is discarded.
    c.tick(TickEvent::Press(PressType::Short));
    assert_eq!(c.current_brightness(), 0);
    // The discarded timer leaks nothing into the next cycle: time alone
    // leaves Off unchanged.
    c.tick(TickEvent::TimerElapsed);
    assert_eq!(c.current_brightness(), 0);
}

#[test]
fn scenario_double_starts_fade_from_zero() {
    let mut c = LedController::new();
    c.tick(TickEvent::Press(PressType::Short));
    c.tick(TickEvent::Press(PressType::Double));
    assert_eq!(c.current_brightness(), 0);
    c.tick(TickEvent::TimerElapsed);
    assert_eq!(c.current_brightness(), 10);
    c.tick(TickEvent::TimerElapsed);
    assert_eq!(c.current_brightness(), 20);
}
