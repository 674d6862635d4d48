//! The driving decisions taken each frame: which keys mean what, whether
//! nitro fires, whether the car accelerates, brakes or coasts, which way it
//! steers, when it drifts, and how it leaves and rejoins the ground.
//! The application applies each decision to the car's speed, angles and
//! position.

use vstd::prelude::*;

verus! {

/// The keys the game reads, pressed or not.
#[derive(Clone, Copy, Debug, PartialEq, Eq, Structural)]
pub struct KeyState {
    pub key_w: bool,
    pub arrow_up: bool,
    pub key_s: bool,
    pub arrow_down: bool,
    pub key_a: bool,
    pub arrow_left: bool,
    pub key_d: bool,
    pub arrow_right: bool,
    pub key_n: bool,
}

/// The driver's intent for this frame.
#[derive(Clone, Copy, Debug, PartialEq, Eq, Structural)]
pub struct Controls {
    pub gas: bool,
    pub brake: bool,
    pub left: bool,
    pub right: bool,
    pub nitro_held: bool,
}

/// Reads the driver's intent from the keyboard: W or Up accelerates, S or
/// Down brakes, A or Left and D or Right steer, N fires nitro.
pub fn read_controls(keys: KeyState) -> (c: Controls)
    ensures
        c.gas == (keys.key_w || keys.arrow_up),
        c.brake == (keys.key_s || keys.arrow_down),
        c.left == (keys.key_a || keys.arrow_left),
        c.right == (keys.key_d || keys.arrow_right),
        c.nitro_held == keys.key_n,
{
    Controls {
        gas: keys.key_w || keys.arrow_up,
        brake: keys.key_s || keys.arrow_down,
        left: keys.key_a || keys.arrow_left,
        right: keys.key_d || keys.arrow_right,
        nitro_held: keys.key_n,
    }
}

/// Whether nitro fires: it is held and the tank is not empty.
pub open spec fn spec_nitro_active(nitro_held: bool, tank_not_empty: bool) -> bool {
    nitro_held && tank_not_empty
}

/// Whether nitro fires this frame. The tank drains while it does and
/// recharges otherwise.
pub fn nitro_active(nitro_held: bool, tank_not_empty: bool) -> (active: bool)
    ensures
        active == spec_nitro_active(nitro_held, tank_not_empty),
{
    nitro_held && tank_not_empty
}

/// Which speed cap and acceleration apply.
#[derive(Clone, Copy, Debug, PartialEq, Eq, Structural)]
pub enum SpeedProfile {
    /// The normal cap and acceleration.
    Base,
    /// The higher nitro cap with its gentler ramp.
    Boost,
}

/// What happens to the speed this frame.
#[derive(Clone, Copy, Debug, PartialEq, Eq, Structural)]
pub enum SpeedAction {
    /// Speed up towards the cap of the profile.
    Accelerate,
    /// Slow down, and on into reverse down to the reverse limit.
    Brake,
    /// Let friction pull the speed towards zero.
    Coast,
}

/// The throttle decisions of one frame.
#[derive(Clone, Copy, Debug, PartialEq, Eq, Structural)]
pub struct ThrottlePlan {
    /// Nitro fires: the tank drains (else it recharges).
    pub nitro_active: bool,
    pub profile: SpeedProfile,
    pub action: SpeedAction,
    /// A speed above the normal cap bleeds back down towards it.
    pub bleed_over_base: bool,
}

pub open spec fn throttle_spec(c: Controls, tank_not_empty: bool) -> ThrottlePlan {
    let active = spec_nitro_active(c.nitro_held, tank_not_empty);
    ThrottlePlan {
        nitro_active: active,
        profile: if active {
            SpeedProfile::Boost
        } else {
            SpeedProfile::Base
        },
        action: if c.gas {
            SpeedAction::Accelerate
        } else if c.brake {
            SpeedAction::Brake
        } else {
            SpeedAction::Coast
        },
        bleed_over_base: !active,
    }
}

/// Decides nitro and speed for this frame: gas wins over the brake, nitro
/// lifts the cap only while it fires, and without it any excess over the
/// normal cap bleeds away.
pub fn plan_throttle(c: Controls, tank_not_empty: bool) -> (p: ThrottlePlan)
    ensures
        p == throttle_spec(c, tank_not_empty),
{
    let active = nitro_active(c.nitro_held, tank_not_empty);
    let profile = if active {
        SpeedProfile::Boost
    } else {
        SpeedProfile::Base
    };
    let action = if c.gas {
        SpeedAction::Accelerate
    } else if c.brake {
        SpeedAction::Brake
    } else {
        SpeedAction::Coast
    };
    ThrottlePlan { nitro_active: active, profile, action, bleed_over_base: !active }
}

/// What happens to the steering angle this frame.
#[derive(Clone, Copy, Debug, PartialEq, Eq, Structural)]
pub enum SteerAction {
    /// Ramp towards full left lock.
    Left,
    /// Ramp towards full right lock.
    Right,
    /// Spring back towards centre.
    Center,
}

pub open spec fn steer_spec(c: Controls) -> SteerAction {
    if c.left {
        SteerAction::Left
    } else if c.right {
        SteerAction::Right
    } else {
        SteerAction::Center
    }
}

/// Decides the steering for this frame; left wins over right.
pub fn plan_steering(c: Controls) -> (s: SteerAction)
    ensures
        s == steer_spec(c),
{
    if c.left {
        SteerAction::Left
    } else if c.right {
        SteerAction::Right
    } else {
        SteerAction::Center
    }
}

/// How fast the heading follows the steering.
#[derive(Clone, Copy, Debug, PartialEq, Eq, Structural)]
pub enum TurnRate {
    /// The sharp rate of a drift.
    Drift,
    /// The gentler rate of a normal turn.
    Grip,
}

/// A change of heading this frame.
#[derive(Clone, Copy, Debug, PartialEq, Eq, Structural)]
pub struct Turn {
    /// The car rolls backwards, so steering turns the other way.
    pub reverse: bool,
    pub rate: TurnRate,
}

/// Facts about the car after this frame's speed and steering updates.
#[derive(Clone, Copy, Debug, PartialEq, Eq, Structural)]
pub struct Motion {
    /// The speed is above the drift threshold in either direction.
    pub fast_for_drift: bool,
    /// The wheels are turned past the drift threshold either way.
    pub steer_committed: bool,
    /// The car moves at all (more than a crawl either way).
    pub moving: bool,
    /// The car moves forwards.
    pub forward: bool,
}

/// The handling decisions of one frame.
#[derive(Clone, Copy, Debug, PartialEq, Eq, Structural)]
pub struct HandlingPlan {
    /// The car drifts: the slip angle chases the steering, else it recovers.
    pub drifting: bool,
    /// How the heading changes, if at all.
    pub turn: Option<Turn>,
}

pub open spec fn spec_drifting(c: Controls, m: Motion) -> bool {
    c.brake && (c.left || c.right) && m.fast_for_drift && m.steer_committed
}

pub open spec fn handling_spec(c: Controls, m: Motion) -> HandlingPlan {
    let drifting = spec_drifting(c, m);
    HandlingPlan {
        drifting,
        turn: if m.moving {
            Some(
                Turn {
                    reverse: !m.forward,
                    rate: if drifting {
                        TurnRate::Drift
                    } else {
                        TurnRate::Grip
                    },
                },
            )
        } else {
            None
        },
    }
}

/// Decides drifting and turning: the car drifts only when braking and
/// steering at speed with the wheels turned well over; it turns only while
/// moving, against the steering when reversing, sharply when drifting and
/// gently otherwise.
pub fn plan_handling(c: Controls, m: Motion) -> (h: HandlingPlan)
    ensures
        h == handling_spec(c, m),
{
    let drifting = c.brake && (c.left || c.right) && m.fast_for_drift && m.steer_committed;
    let turn = if m.moving {
        let rate = if drifting {
            TurnRate::Drift
        } else {
            TurnRate::Grip
        };
        Some(Turn { reverse: !m.forward, rate })
    } else {
        None
    };
    HandlingPlan { drifting, turn }
}

/// What happens to the car's height this frame.
#[derive(Clone, Copy, Debug, PartialEq, Eq, Structural)]
pub enum VerticalAction {
    /// Leave the ground off a bump.
    Launch,
    /// Stay on the ground and follow its height.
    FollowGround,
    /// Fly under gravity.
    Fly,
    /// Fly under gravity and touch down this frame.
    Land,
}

pub open spec fn vertical_spec(in_air: bool, launch_ready: bool, touched_down: bool) -> VerticalAction {
    if !in_air {
        if launch_ready {
            VerticalAction::Launch
        } else {
            VerticalAction::FollowGround
        }
    } else if touched_down {
        VerticalAction::Land
    } else {
        VerticalAction::Fly
    }
}

/// Whether the car is in the air after the given vertical action.
pub open spec fn airborne_after(a: VerticalAction) -> bool {
    a == VerticalAction::Launch || a == VerticalAction::Fly
}

/// The jump state machine: on the ground the car launches when a bump rises
/// ahead while it is fast enough (`launch_ready`), else it follows the ground;
/// in the air it flies, and lands once its flight reaches the ground
/// (`touched_down`).
pub fn plan_vertical(in_air: bool, launch_ready: bool, touched_down: bool) -> (a: VerticalAction)
    ensures
        a == vertical_spec(in_air, launch_ready, touched_down),
{
    if !in_air {
        if launch_ready {
            VerticalAction::Launch
        } else {
            VerticalAction::FollowGround
        }
    } else if touched_down {
        VerticalAction::Land
    } else {
        VerticalAction::Fly
    }
}

/// Whether the car is in the air once the action is carried out.
pub fn in_air_after(a: VerticalAction) -> (b: bool)
    ensures
        b == airborne_after(a),
{
    match a {
        VerticalAction::Launch | VerticalAction::Fly => true,
        VerticalAction::FollowGround | VerticalAction::Land => false,
    }
}

/// Drifting takes both the brake and a steering key: turning without the
/// brake never drifts and turns at the gentle grip rate, and neither does
/// braking in a straight line.
pub proof fn lemma_drift_needs_brake_and_steering(c: Controls, m: Motion)
    ensures
        handling_spec(c, m).drifting ==> c.brake && (c.left || c.right),
        !c.brake ==> !handling_spec(c, m).drifting,
        !c.brake && m.moving ==> handling_spec(c, m).turn == Some(
            Turn { reverse: !m.forward, rate: TurnRate::Grip },
        ),
{
}

/// The heading changes only while the car moves, and reversing turns the
/// car the opposite way to driving forwards with the same steering.
pub proof fn lemma_turns_only_while_moving(c: Controls, m: Motion)
    ensures
        !m.moving ==> handling_spec(c, m).turn is None,
        m.moving ==> (handling_spec(c, m).turn matches Some(t) && t.reverse == !m.forward),
{
}

/// Nitro lifts the speed cap exactly while it fires, it fires only while
/// held with fuel in the tank, and speed above the normal cap bleeds away
/// exactly while it does not fire.
pub proof fn lemma_nitro_boost(c: Controls, tank_not_empty: bool)
    ensures
        ({
            let p = throttle_spec(c, tank_not_empty);
            &&& p.nitro_active <==> c.nitro_held && tank_not_empty
            &&& p.profile == SpeedProfile::Boost <==> p.nitro_active
            &&& p.bleed_over_base <==> !p.nitro_active
        }),
{
}

/// The throttle ignores the brake while gas is held, and the speed is left
/// to friction only when neither pedal is pressed.
pub proof fn lemma_gas_over_brake(c: Controls, tank_not_empty: bool)
    ensures
        c.gas ==> throttle_spec(c, tank_not_empty).action == SpeedAction::Accelerate,
        !c.gas && c.brake ==> throttle_spec(c, tank_not_empty).action == SpeedAction::Brake,
        throttle_spec(c, tank_not_empty).action == SpeedAction::Coast <==> !c.gas && !c.brake,
{
}

/// The car leaves the ground only by launching off a bump and returns to
/// it only by landing: a grounded car stays grounded unless a launch is
/// ready, and a flying car stays up until its flight reaches the ground.
pub proof fn lemma_air_state(in_air: bool, launch_ready: bool, touched_down: bool)
    ensures
        airborne_after(vertical_spec(in_air, launch_ready, touched_down)) == if in_air {
            !touched_down
        } else {
            launch_ready
        },
        !in_air ==> vertical_spec(in_air, launch_ready, touched_down) != VerticalAction::Land,
        in_air ==> vertical_spec(in_air, launch_ready, touched_down) != VerticalAction::Launch,
{
}

/// Nitro fires exactly when its key is held and the tank is not empty.
pub proof fn lemma_nitro_fires_when_held_with_fuel(nitro_held: bool, tank_not_empty: bool)
    ensures
        spec_nitro_active(nitro_held, tank_not_empty) <==> (nitro_held && tank_not_empty),
{
}

/// The left key turns the wheels left whatever else is held; the right key
/// turns them right when left is not held; with neither key the wheels
/// spring back to centre.
pub proof fn lemma_steering_follows_keys(c: Controls)
    ensures
        c.left ==> steer_spec(c) == SteerAction::Left,
        !c.left && c.right ==> steer_spec(c) == SteerAction::Right,
        !c.left && !c.right ==> steer_spec(c) == SteerAction::Center,
{
}

/// The car drifts exactly when it brakes while either steering key is held,
/// at drift speed with the wheels turned well over; while it moves it turns,
/// at the drift rate exactly when it drifts and at the grip rate otherwise,
/// against the steering when reversing; a car that does not move does not
/// turn.
pub proof fn lemma_handling_decisions(c: Controls, m: Motion)
    ensures
        handling_spec(c, m).drifting <==> (c.brake && (c.left || c.right) && m.fast_for_drift
            && m.steer_committed),
        m.moving ==> handling_spec(c, m).turn == Some(
            Turn {
                reverse: !m.forward,
                rate: if c.brake && (c.left || c.right) && m.fast_for_drift && m.steer_committed {
                    TurnRate::Drift
                } else {
                    TurnRate::Grip
                },
            },
        ),
        !m.moving ==> handling_spec(c, m).turn == None::<Turn>,
{
}

/// On the ground the car launches exactly when a launch is ready and
/// otherwise follows the ground, whatever `touched_down` says; in the air it
/// lands exactly when its flight reaches the ground and otherwise flies on,
/// whatever `launch_ready` says.
pub proof fn lemma_vertical_decisions(launch_ready: bool, touched_down: bool)
    ensures
        vertical_spec(false, launch_ready, touched_down) == if launch_ready {
            VerticalAction::Launch
        } else {
            VerticalAction::FollowGround
        },
        vertical_spec(true, launch_ready, touched_down) == if touched_down {
            VerticalAction::Land
        } else {
            VerticalAction::Fly
        },
{
}

/// Launching and flying leave the car in the air; following the ground and
/// landing leave it on the ground.
pub proof fn lemma_airborne_after_actions()
    ensures
        airborne_after(VerticalAction::Launch),
        airborne_after(VerticalAction::Fly),
        !airborne_after(VerticalAction::FollowGround),
        !airborne_after(VerticalAction::Land),
{
}

/// The throttle plan field by field: nitro fires and the boost profile
/// applies exactly when nitro is held with fuel, speed above the normal cap
/// bleeds exactly when it does not, and the pedals pick the speed action
/// with gas first.
pub proof fn lemma_throttle_decisions(c: Controls, tank_not_empty: bool)
    ensures
        throttle_spec(c, tank_not_empty) == (ThrottlePlan {
            nitro_active: c.nitro_held && tank_not_empty,
            profile: if c.nitro_held && tank_not_empty {
                SpeedProfile::Boost
            } else {
                SpeedProfile::Base
            },
            action: if c.gas {
                SpeedAction::Accelerate
            } else if c.brake {
                SpeedAction::Brake
            } else {
                SpeedAction::Coast
            },
            bleed_over_base: !(c.nitro_held && tank_not_empty),
        }),
{
}

} // verus!
