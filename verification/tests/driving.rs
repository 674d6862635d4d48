use blazingice::drive::{
    in_air_after, nitro_active, plan_handling, plan_steering, plan_throttle, plan_vertical,
    read_controls, Controls, KeyState, Motion, SpeedAction, SpeedProfile, SteerAction, Turn,
    TurnRate, VerticalAction,
};

fn no_keys() -> KeyState {
    KeyState {
        key_w: false,
        arrow_up: false,
        key_s: false,
        arrow_down: false,
        key_a: false,
        arrow_left: false,
        key_d: false,
        arrow_right: false,
        key_n: false,
    }
}

fn controls(gas: bool, brake: bool, left: bool, right: bool, nitro_held: bool) -> Controls {
    Controls { gas, brake, left, right, nitro_held }
}

#[test]
fn wasd_and_arrows_map_to_the_same_controls() {
    let mut wasd = no_keys();
    wasd.key_w = true;
    wasd.key_a = true;
    let mut arrows = no_keys();
    arrows.arrow_up = true;
    arrows.arrow_left = true;
    let expected = controls(true, false, true, false, false);
    assert_eq!(read_controls(wasd), expected);
    assert_eq!(read_controls(arrows), expected);
}

#[test]
fn brake_right_and_nitro_keys() {
    let mut keys = no_keys();
    keys.key_s = true;
    keys.arrow_right = true;
    keys.key_n = true;
    assert_eq!(read_controls(keys), controls(false, true, false, true, true));
    assert_eq!(read_controls(no_keys()), controls(false, false, false, false, false));
}

#[test]
fn nitro_needs_key_and_fuel() {
    assert!(nitro_active(true, true));
    assert!(!nitro_active(true, false));
    assert!(!nitro_active(false, true));
    assert!(!nitro_active(false, false));
}

#[test]
fn gas_wins_over_brake() {
    let p = plan_throttle(controls(true, true, false, false, false), true);
    assert_eq!(p.action, SpeedAction::Accelerate);
    assert_eq!(p.profile, SpeedProfile::Base);
    assert!(!p.nitro_active);
    assert!(p.bleed_over_base);
}

#[test]
fn braking_and_coasting() {
    assert_eq!(plan_throttle(controls(false, true, false, false, false), true).action, SpeedAction::Brake);
    assert_eq!(plan_throttle(controls(false, false, false, false, false), true).action, SpeedAction::Coast);
}

#[test]
fn nitro_boost_lifts_the_cap_only_with_fuel() {
    let boosted = plan_throttle(controls(true, false, false, false, true), true);
    assert!(boosted.nitro_active);
    assert_eq!(boosted.profile, SpeedProfile::Boost);
    assert!(!boosted.bleed_over_base);
    let empty = plan_throttle(controls(true, false, false, false, true), false);
    assert!(!empty.nitro_active);
    assert_eq!(empty.profile, SpeedProfile::Base);
    assert!(empty.bleed_over_base);
}

#[test]
fn left_wins_over_right() {
    assert_eq!(plan_steering(controls(false, false, true, true, false)), SteerAction::Left);
    assert_eq!(plan_steering(controls(false, false, false, true, false)), SteerAction::Right);
    assert_eq!(plan_steering(controls(false, false, false, false, false)), SteerAction::Center);
}

fn motion(fast: bool, committed: bool, moving: bool, forward: bool) -> Motion {
    Motion { fast_for_drift: fast, steer_committed: committed, moving, forward }
}

#[test]
fn braking_into_a_fast_turn_drifts() {
    let h = plan_handling(controls(false, true, true, false, false), motion(true, true, true, true));
    assert!(h.drifting);
    assert_eq!(h.turn, Some(Turn { reverse: false, rate: TurnRate::Drift }));
}

#[test]
fn turning_without_brake_grips() {
    let h = plan_handling(controls(true, false, false, true, false), motion(true, true, true, true));
    assert!(!h.drifting);
    assert_eq!(h.turn, Some(Turn { reverse: false, rate: TurnRate::Grip }));
}

#[test]
fn no_drift_when_slow_or_barely_steering() {
    let c = controls(false, true, true, false, false);
    assert!(!plan_handling(c, motion(false, true, true, true)).drifting);
    assert!(!plan_handling(c, motion(true, false, true, true)).drifting);
    assert!(!plan_handling(controls(false, true, false, false, false), motion(true, true, true, true)).drifting);
}

#[test]
fn reversing_turns_the_other_way_and_stopped_car_does_not_turn() {
    let c = controls(false, true, false, true, false);
    let h = plan_handling(c, motion(false, true, true, false));
    assert_eq!(h.turn, Some(Turn { reverse: true, rate: TurnRate::Grip }));
    assert_eq!(plan_handling(c, motion(false, true, false, true)).turn, None);
}

#[test]
fn jump_state_machine() {
    assert_eq!(plan_vertical(false, true, true), VerticalAction::Launch);
    assert_eq!(plan_vertical(false, false, true), VerticalAction::FollowGround);
    assert_eq!(plan_vertical(true, true, false), VerticalAction::Fly);
    assert_eq!(plan_vertical(true, false, true), VerticalAction::Land);
    assert!(in_air_after(VerticalAction::Launch));
    assert!(in_air_after(VerticalAction::Fly));
    assert!(!in_air_after(VerticalAction::Land));
    assert!(!in_air_after(VerticalAction::FollowGround));
}
