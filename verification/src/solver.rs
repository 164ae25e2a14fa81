//! One tick of the movement solver, as a machine that is stepped from
//! outside: it hands out the probe it needs next and is resumed with the
//! answer of the physics world.
//!
//! A tick asks for the ground first. With the answer it settles the new
//! velocity, the count of ticks on ground and the height. It then looks for
//! a step to climb, where that applies, and last makes up to three checks
//! for an overhang: after each of the first two it pulls the velocity back
//! from the overhang, after the third it stops the controller.

use vstd::prelude::*;
use crate::config::ControllerConfig;
use crate::crouch::{next_height, update_height};
use crate::fixed::{magnitude, ONE};
use crate::ground::{
    count_ground_tick, move_in_air, move_on_ground, next_ground_tick, next_velocity,
};
use crate::intent::{wish, wish_direction, wish_speed, Heading, InputIntent, Wish};
use crate::overhang::{
    floor_probe, is_floor_probe, is_overhang_probe, overhang_applies, overhang_probe, pull_back,
    pulled_back, wants_overhang,
};
use crate::probe::{
    answer_wf, classify_ground, ground_of, ground_probe, is_ground_probe, CastHit, Probe,
};
use crate::state::ControllerState;
use crate::step::{climb, is_step_probe, step_applies, step_probe, stepped, wants_step};
use crate::vector::{Vec3, Vector};

verus! {

/// The overhang check after which a controller that still overhangs is
/// stopped. The checks before it pull the velocity back.
pub const LAST_PASS: u8 = 2;

/// How far a tick has come.
#[derive(Clone, Copy, Debug, PartialEq, Eq, Structural)]
pub enum Stage {
    /// The ground probe is out.
    Ground,
    /// The step probe is out.
    Step,
    /// The overhang probe of check `pass` is out.
    Overhang { pass: u8 },
    /// The overhang probe of check `pass` hit a surface with this normal,
    /// and the floor ray is out.
    Floor { pass: u8, normal: Vec3 },
    /// The tick is over.
    Done,
}

impl Stage {
    /// An upper bound on the number of probes that a tick at this stage
    /// still waits for.
    pub open spec fn probes_left(self) -> nat {
        match self {
            Stage::Ground => 8,
            Stage::Step => 7,
            Stage::Overhang { pass } => if pass <= LAST_PASS {
                (2 * (LAST_PASS - pass) + 2) as nat
            } else {
                0
            },
            Stage::Floor { pass, .. } => if pass <= LAST_PASS {
                (2 * (LAST_PASS - pass) + 1) as nat
            } else {
                0
            },
            Stage::Done => 0,
        }
    }

    /// The check is one of the three, and the normal has components
    /// between minus one and one.
    pub open spec fn wf(self) -> bool {
        match self {
            Stage::Overhang { pass } => pass <= LAST_PASS,
            Stage::Floor { pass, normal } => pass <= LAST_PASS && normal@.within(ONE as int),
            _ => true,
        }
    }
}

/// A tick under way.
#[derive(Clone, Copy, Debug, PartialEq, Eq, Structural)]
pub struct Tick {
    /// The controller, as far as the tick has changed it.
    pub state: ControllerState,
    pub config: ControllerConfig,
    /// The wished direction and speed of this tick.
    pub wish: Wish,
    pub crouch: bool,
    pub jump: bool,
    /// Duration of the tick.
    pub dt: i64,
    pub stage: Stage,
}

/// The controller but for its velocity.
pub open spec fn same_but_velocity(before: ControllerState, after: ControllerState) -> bool {
    &&& after.position == before.position
    &&& after.yaw == before.yaw
    &&& after.pitch == before.pitch
    &&& after.height == before.height
    &&& after.ground_tick == before.ground_tick
    &&& after.collider_shape == before.collider_shape
}

impl Tick {
    /// Configuration, controller, wish, duration and stage are all well
    /// formed.
    pub open spec fn wf(&self) -> bool {
        &&& self.config.wf()
        &&& self.state.wf(self.config)
        &&& self.wish.wf()
        &&& magnitude(self.dt as int)
        &&& self.stage.wf()
    }

    /// The two are stages of one tick: all but state and stage agree.
    pub open spec fn same_tick(&self, other: Tick) -> bool {
        &&& self.config == other.config
        &&& self.wish == other.wish
        &&& self.crouch == other.crouch
        &&& self.jump == other.jump
        &&& self.dt == other.dt
    }

    /// How a tick goes on with overhang check `pass`, for a controller in
    /// `state`: with the overhang probe, where there is a check left, the
    /// overhang is looked for at all, and the controller moves; else the
    /// tick is over.
    pub open spec fn goes_to_overhang(
        &self,
        state: ControllerState,
        pass: int,
        stage: Stage,
        probe: Option<Probe>,
    ) -> bool {
        if pass <= LAST_PASS && overhang_applies(state.ground_tick as int, self.crouch, self.jump)
            && state.velocity@ != Vector::zero() {
            &&& stage matches Stage::Overhang { pass: p }
            &&& p == pass
            &&& probe matches Some(asked)
            &&& is_overhang_probe(asked, state.position@, state.velocity@, state.height as int)
        } else {
            stage == Stage::Done && probe is None
        }
    }

    /// What the answer to the ground probe makes of the controller: the new
    /// velocity, count of ticks on ground and height.
    pub open spec fn ground_settles(&self, answer: Option<CastHit>, after: ControllerState) -> bool {
        let ground = ground_of(answer, self.config.traction_normal_cutoff as int);
        &&& after.velocity@ == next_velocity(
            self.state.velocity@,
            self.state.ground_tick as int,
            ground,
            self.wish,
            self.jump,
            self.config,
            self.dt as int,
        )
        &&& after.ground_tick == next_ground_tick(self.state.ground_tick as int, ground.is_some())
        &&& after.height == next_height(
            self.state.height as int,
            self.crouch,
            self.config,
            self.dt as int,
        )
        &&& after.position == self.state.position
        &&& after.yaw == self.state.yaw
        &&& after.pitch == self.state.pitch
        &&& after.collider_shape == self.state.collider_shape
    }

    /// How a tick goes on once the ground is dealt with: with the step
    /// probe where steps are climbed, else with the first overhang check.
    pub open spec fn goes_to_step(
        &self,
        state: ControllerState,
        stage: Stage,
        probe: Option<Probe>,
    ) -> bool {
        if step_applies(
            state.collider_shape,
            self.config.step_offset as int,
            state.ground_tick as int,
        ) {
            &&& stage == Stage::Step
            &&& probe matches Some(asked)
            &&& is_step_probe(
                asked,
                state.position@,
                state.velocity@,
                state.collider_shape,
                state.height as int,
                self.config.step_offset as int,
                self.dt as int,
            )
        } else {
            self.goes_to_overhang(state, 0, stage, probe)
        }
    }

    /// What the answer to the step probe makes of the controller: it is
    /// raised onto the ledge that was found.
    pub open spec fn step_settles(&self, answer: Option<CastHit>, after: ControllerState) -> bool {
        &&& after.position@ == stepped(
            self.state.position@,
            self.config.step_offset as int,
            answer,
            self.config.traction_normal_cutoff as int,
        )
        &&& after.velocity == self.state.velocity
        &&& after.yaw == self.state.yaw
        &&& after.pitch == self.state.pitch
        &&& after.height == self.state.height
        &&& after.ground_tick == self.state.ground_tick
        &&& after.collider_shape == self.state.collider_shape
    }

    /// What the answer to the floor ray of check `pass` makes of the
    /// controller. Where the ray found no floor the controller overhangs:
    /// its velocity is pulled back from the surface, or, at the last
    /// check, set to zero.
    pub open spec fn floor_settles(
        &self,
        pass: u8,
        normal: Vec3,
        answer: Option<CastHit>,
        after: ControllerState,
    ) -> bool {
        &&& same_but_velocity(self.state, after)
        &&& after.velocity@ == if answer is Some {
            self.state.velocity@
        } else if pass < LAST_PASS {
            pulled_back(self.state.velocity@, normal@)
        } else {
            Vector::zero()
        }
    }

    /// `next` and `probe` are what the tick has come to after `answer`, and
    /// what it asks for.
    pub open spec fn resumes_as(
        &self,
        answer: Option<CastHit>,
        next: Tick,
        probe: Option<Probe>,
    ) -> bool {
        &&& self.same_tick(next)
        &&& match self.stage {
            Stage::Ground => {
                &&& self.ground_settles(answer, next.state)
                &&& self.goes_to_step(next.state, next.stage, probe)
            },
            Stage::Step => {
                &&& self.step_settles(answer, next.state)
                &&& self.goes_to_overhang(next.state, 0, next.stage, probe)
            },
            Stage::Overhang { pass } => {
                &&& next.state == self.state
                &&& match answer {
                    Some(CastHit { normal: Some(normal), .. }) => {
                        &&& next.stage == (Stage::Floor { pass, normal })
                        &&& probe matches Some(asked)
                        &&& is_floor_probe(
                            asked,
                            self.state.position@,
                            self.state.height as int,
                        )
                    },
                    _ => self.goes_to_overhang(next.state, pass + 1, next.stage, probe),
                }
            },
            Stage::Floor { pass, normal } => {
                &&& self.floor_settles(pass, normal, answer, next.state)
                &&& self.goes_to_overhang(next.state, pass + 1, next.stage, probe)
            },
            Stage::Done => next.state == self.state && next.stage == Stage::Done && probe is None,
        }
    }

    /// Starts a tick: works out the wish and asks for the ground.
    pub fn begin(
        state: ControllerState,
        config: ControllerConfig,
        intent: &InputIntent,
        heading: &Heading,
        dt: i64,
    ) -> (r: (Tick, Probe))
        requires
            config.wf(),
            state.wf(config),
            intent.movement@.within(ONE as int),
            heading.wf(),
            magnitude(dt as int),
        ensures
            r.0.wf(),
            r.0.state == state,
            r.0.config == config,
            r.0.wish.direction@ == wish_direction(intent.movement@, *heading, config),
            r.0.wish.speed == wish_speed(intent.movement@, intent.crouch, *heading, config),
            r.0.crouch == intent.crouch,
            r.0.jump == intent.jump,
            r.0.dt == dt,
            r.0.stage == Stage::Ground,
            is_ground_probe(r.1, state.position, state.collider_shape, state.height as int),
    {
        let tick = Tick {
            state,
            config,
            wish: wish(intent, heading, &config),
            crouch: intent.crouch,
            jump: intent.jump,
            dt,
            stage: Stage::Ground,
        };
        (tick, ground_probe(state.position, &state.collider_shape, state.height))
    }

    /// Goes on with overhang check `pass`.
    fn enter_overhang(self, pass: u8) -> (r: (Tick, Option<Probe>))
        requires
            self.wf(),
            pass <= LAST_PASS + 1,
        ensures
            r.0.wf(),
            r.0.state == self.state,
            self.same_tick(r.0),
            self.goes_to_overhang(self.state, pass as int, r.0.stage, r.1),
    {
        let moving = self.state.velocity.x != 0 || self.state.velocity.y != 0
            || self.state.velocity.z != 0;
        if pass <= LAST_PASS && wants_overhang(self.state.ground_tick, self.crouch, self.jump)
            && moving {
            let probe = overhang_probe(
                self.state.position,
                self.state.velocity,
                self.state.height,
            );
            (Tick { stage: Stage::Overhang { pass }, ..self }, Some(probe))
        } else {
            (Tick { stage: Stage::Done, ..self }, None)
        }
    }

    /// Goes on with the step probe or, where steps are not climbed, with
    /// the first overhang check.
    fn enter_step(self) -> (r: (Tick, Option<Probe>))
        requires
            self.wf(),
        ensures
            r.0.wf(),
            r.0.state == self.state,
            self.same_tick(r.0),
            self.goes_to_step(self.state, r.0.stage, r.1),
    {
        if wants_step(&self.state.collider_shape, self.config.step_offset, self.state.ground_tick) {
            let probe = step_probe(
                self.state.position,
                self.state.velocity,
                &self.state.collider_shape,
                self.state.height,
                self.config.step_offset,
                self.dt,
            );
            (Tick { stage: Stage::Step, ..self }, Some(probe))
        } else {
            self.enter_overhang(0)
        }
    }

    /// Takes the answer to the probe that is out, and says which probe the
    /// tick needs next; none when the tick is over. Resuming a tick that is
    /// over changes nothing.
    pub fn resume(self, answer: Option<CastHit>) -> (r: (Tick, Option<Probe>))
        requires
            self.wf(),
            answer_wf(answer),
        ensures
            r.0.wf(),
            self.resumes_as(answer, r.0, r.1),
            r.1 is None <==> r.0.stage == Stage::Done,
            self.stage != Stage::Done ==> r.0.stage.probes_left() < self.stage.probes_left(),
            self.stage == Stage::Ground ==> (r.0.state.ground_tick == 0 <==> ground_of(
                answer,
                self.config.traction_normal_cutoff as int,
            ) is None),
    {
        match self.stage {
            Stage::Ground => {
                let ground = classify_ground(answer, self.config.traction_normal_cutoff);
                let velocity = match ground {
                    Some(hit) => move_on_ground(
                        self.state.velocity,
                        self.state.ground_tick,
                        &hit,
                        &self.wish,
                        self.jump,
                        &self.config,
                        self.dt,
                    ),
                    None => move_in_air(self.state.velocity, &self.wish, &self.config, self.dt),
                };
                let ground_tick = count_ground_tick(self.state.ground_tick, ground.is_some());
                let height = update_height(self.state.height, self.crouch, &self.config, self.dt);
                let state = ControllerState { velocity, ground_tick, height, ..self.state };
                let settled = Tick { state, ..self };
                settled.enter_step()
            },
            Stage::Step => {
                let position = climb(
                    self.state.position,
                    self.config.step_offset,
                    answer,
                    self.config.traction_normal_cutoff,
                );
                let state = ControllerState { position, ..self.state };
                let raised = Tick { state, ..self };
                raised.enter_overhang(0)
            },
            Stage::Overhang { pass } => {
                match answer {
                    Some(CastHit { normal: Some(normal), .. }) => {
                        let probe = floor_probe(self.state.position, self.state.height);
                        (Tick { stage: Stage::Floor { pass, normal }, ..self }, Some(probe))
                    },
                    _ => self.enter_overhang(pass + 1),
                }
            },
            Stage::Floor { pass, normal } => {
                let velocity = if answer.is_some() {
                    self.state.velocity
                } else if pass < LAST_PASS {
                    pull_back(self.state.velocity, normal)
                } else {
                    Vec3::zero()
                };
                let state = ControllerState { velocity, ..self.state };
                let checked = Tick { state, ..self };
                checked.enter_overhang(pass + 1)
            },
            Stage::Done => (self, None),
        }
    }

    /// Tells whether the tick is over.
    pub fn is_done(&self) -> (r: bool)
        ensures
            r == (self.stage == Stage::Done),
    {
        match self.stage {
            Stage::Done => true,
            _ => false,
        }
    }
}

} // verus!
