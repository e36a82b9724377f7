//! The simulation session: the state that one running animation owns, and
//! the commands that change it.

use crate::arith::{evaluates, total, Request};
use crate::camera::{can_view, is_camera_update, start_camera, Camera};
use crate::clock::{ClockModel, SimulationClock};
use crate::geometry::{Point, Point2, Scalar, ONE_BITS, ZERO_BITS};
use crate::history::{HistoryModel, ParameterHistory};
use crate::params::{is_dump, VFParams};
use crate::plot::{is_plot, plot_points, PlotStyle, Segment, Viewport};
use crate::status::{can_show, is_line, labelled, Status, FPS_DECIMALS, SPEED_DECIMALS};
use crate::wavefront::{is_step, Ring, WavefrontModel, WavefrontState};
use vstd::prelude::*;

verus! {

/// Steps per half turn of the ring that the wavefront is seeded on.
pub const POINT_COUNT: usize = 100;

/// Bit pattern of `0.0`, the angle at which the ring starts.
pub const POINT_OFFSET_BITS: u64 = ZERO_BITS;

/// Bit pattern of `1.0`, the radius of the ring.
pub const POINT_RADIUS_BITS: u64 = ONE_BITS;

/// Bit pattern of `1.0`, the width of the lines a frame is drawn with.
pub const DRAW_WIDTH_BITS: u64 = ONE_BITS;

/// What a simulation holds.
pub struct SimulationModel {
    pub history: HistoryModel,
    pub clock: ClockModel,
    pub wavefront: WavefrontModel,
    pub ring: Ring,
}

/// The simulated world: the parameter sets, the clock, the wavefront, and the
/// ring that the wavefront is seeded on.
pub struct Simulation {
    history: ParameterHistory,
    clock: SimulationClock,
    wavefront: WavefrontState,
    ring: Ring,
}

impl View for Simulation {
    type V = SimulationModel;

    closed spec fn view(&self) -> SimulationModel {
        SimulationModel {
            history: self.history@,
            clock: self.clock@,
            wavefront: self.wavefront@,
            ring: self.ring,
        }
    }
}

impl SimulationModel {
    /// Whether `self` is `before` started afresh under the parameter history
    /// `history`: the clock is back at zero, the wavefront is seeded anew on
    /// the same ring.
    pub open spec fn restarts<A: Fn(Request) -> Scalar>(
        self,
        arith: A,
        before: SimulationModel,
        history: HistoryModel,
    ) -> bool {
        &&& self.history == history
        &&& self.clock == before.clock.reset()
        &&& self.wavefront.seeded(arith, before.ring)
        &&& self.ring == before.ring
    }
}

/// The ring a new simulation is seeded on: it starts at the angle `0.0`, has
/// the radius `1.0`, and a hundred steps per half turn.
pub open spec fn is_start_ring(ring: Ring) -> bool {
    &&& ring.spec_offset() == (Scalar { bits: POINT_OFFSET_BITS })
    &&& ring.spec_radius() == (Scalar { bits: POINT_RADIUS_BITS })
    &&& ring.spec_count() == POINT_COUNT
}

impl Simulation {
    /// A simulation at tick zero, running at the default speed, with `params`
    /// active and nothing to step back or forward to, seeded on the starting
    /// ring.
    pub fn new<A: Fn(Request) -> Scalar>(params: VFParams, arith: &A) -> (sim: Simulation)
        requires
            total(*arith),
        ensures
            sim@.history == HistoryModel::start(params),
            sim@.clock == ClockModel::start(),
            is_start_ring(sim@.ring),
            sim@.wavefront.seeded(*arith, sim@.ring),
    {
        let ring = Ring::new(
            Scalar::from_bits(POINT_OFFSET_BITS),
            Scalar::from_bits(POINT_RADIUS_BITS),
            POINT_COUNT,
        ).unwrap();
        Simulation {
            history: ParameterHistory::new(params),
            clock: SimulationClock::new(),
            wavefront: WavefrontState::seed(&ring, arith),
            ring,
        }
    }

    /// The active parameter set.
    pub fn params(&self) -> (params: &VFParams)
        ensures
            *params == self@.history.active,
    {
        self.history.active()
    }

    /// The parameter history.
    pub fn history(&self) -> (history: &ParameterHistory)
        ensures
            history@ == self@.history,
    {
        &self.history
    }

    /// The clock.
    pub fn clock(&self) -> (clock: &SimulationClock)
        ensures
            clock@ == self@.clock,
    {
        &self.clock
    }

    /// The wavefront.
    pub fn wavefront(&self) -> (wavefront: &WavefrontState)
        ensures
            wavefront@ == self@.wavefront,
    {
        &self.wavefront
    }

    /// The ring that the wavefront is seeded on.
    pub fn ring(&self) -> (ring: &Ring)
        ensures
            *ring == self@.ring,
    {
        &self.ring
    }
}

/// The direction of a change of speed.
#[derive(Clone, Copy, Debug, PartialEq, Eq, Structural)]
pub enum SpeedChange {
    /// One step up.
    Faster,
    /// One step down.
    Slower,
}

/// What an operator can ask of a session, whatever device the request came
/// from.
#[derive(Clone, Copy, Debug, PartialEq, Eq, Structural)]
pub enum Command {
    /// Draw with the given style from now on.
    ChangeStyle(PlotStyle),
    /// Change the speed by one step.
    AdjustSpeed(SpeedChange),
    /// Set the clock to zero and seed the wavefront anew.
    Reset,
    /// Pause a running simulation, resume a paused one.
    TogglePause,
    /// Switch the camera to the other projection.
    ToggleProjection,
    /// Step back in the parameter history.
    HistoryBack,
    /// Step forward in the parameter history.
    HistoryForward,
}

/// What a session holds.
pub struct AppModel {
    pub sim: SimulationModel,
    pub plot_style: PlotStyle,
    pub camera: Camera,
    pub draw_width: Scalar,
}

/// One running session: the simulation, and how it is shown.
pub struct App {
    pub sim: Simulation,
    pub plot_style: PlotStyle,
    pub camera: Camera,
    draw_width: Scalar,
}

impl View for App {
    type V = AppModel;

    closed spec fn view(&self) -> AppModel {
        AppModel {
            sim: self.sim@,
            plot_style: self.plot_style,
            camera: self.camera,
            draw_width: self.draw_width,
        }
    }
}

impl AppModel {
    /// Whether `self` is `before` after `command`.
    ///
    /// A change of style changes the style and nothing else. A change of speed
    /// and a pause change the clock's speed and nothing else. A switch of
    /// projection changes the camera's projection and nothing else. A reset
    /// starts the simulation afresh under the same history. A step back that
    /// finds a set to step to starts the simulation afresh under the history
    /// one step back; one that finds none changes nothing. A step forward
    /// starts the simulation afresh under the history one step forward, with
    /// what `generate` returned as the active set if the history had no set
    /// to return to.
    pub open spec fn follows<G: FnOnce() -> VFParams, A: Fn(Request) -> Scalar>(
        self,
        command: Command,
        generate: G,
        arith: A,
        before: AppModel,
    ) -> bool {
        match command {
            Command::ChangeStyle(style) => self == (AppModel { plot_style: style, ..before }),
            Command::AdjustSpeed(SpeedChange::Faster) => self == (AppModel {
                sim: SimulationModel { clock: before.sim.clock.faster(), ..before.sim },
                ..before
            }),
            Command::AdjustSpeed(SpeedChange::Slower) => self == (AppModel {
                sim: SimulationModel { clock: before.sim.clock.slower(), ..before.sim },
                ..before
            }),
            Command::TogglePause => self == (AppModel {
                sim: SimulationModel { clock: before.sim.clock.toggle_pause(), ..before.sim },
                ..before
            }),
            Command::ToggleProjection => self == (AppModel {
                camera: Camera { proj: before.camera.proj.spec_toggled(), ..before.camera },
                ..before
            }),
            Command::Reset => {
                &&& self == (AppModel { sim: self.sim, ..before })
                &&& self.sim.restarts(arith, before.sim, before.sim.history)
            },
            Command::HistoryBack => if before.sim.history.back.len() > 0 {
                &&& self == (AppModel { sim: self.sim, ..before })
                &&& self.sim.restarts(arith, before.sim, before.sim.history.undo())
            } else {
                self == before
            },
            Command::HistoryForward => {
                &&& self == (AppModel { sim: self.sim, ..before })
                &&& if before.sim.history.forward.len() > 0 {
                    self.sim.restarts(arith, before.sim, before.sim.history.redo())
                } else {
                    &&& call_ensures(generate, (), self.sim.history.active)
                    &&& self.sim.restarts(
                        arith,
                        before.sim,
                        before.sim.history.branch(self.sim.history.active),
                    )
                }
            },
        }
    }

    /// Whether `status` is the status of this session at the frame rate `fps`:
    /// the frame rate behind `fps : `, the dump of the active parameter set,
    /// the hint for switching the projection, and the speed in units behind
    /// `Sim Speed: `.
    pub open spec fn has_status<A: Fn(Request) -> Scalar, S: Fn(Scalar, usize) -> String>(
        self,
        arith: A,
        show: S,
        fps: Scalar,
        status: Status,
    ) -> bool {
        &&& is_line(show, "fps : "@, fps, FPS_DECIMALS, status.fps@)
        &&& is_dump(show, self.sim.history.active, status.params@)
        &&& status.camera@ == self.camera.proj.hint()
        &&& exists|speed: Scalar|
            evaluates(arith, self.sim.clock.speed_term(), speed) && #[trigger] is_line(
                show,
                "Sim Speed: "@,
                speed,
                SPEED_DECIMALS,
                status.speed@,
            )
    }

    /// Whether `self` is `before` after one update that found the step size
    /// `dt`.
    ///
    /// The clock is one tick later. `dt` is the step size at the new tick for
    /// a frame that took `frame_dt`. The camera is updated at the new tick.
    /// The current frame is the old one moved by one step of size `dt` under
    /// the active parameter set. The frame before it, the history, the ring
    /// and the way of drawing are the same.
    pub open spec fn updates<A: Fn(Request) -> Scalar>(
        self,
        arith: A,
        frame_dt: Scalar,
        before: AppModel,
        dt: Scalar,
    ) -> bool {
        let clock = before.sim.clock.tick();
        &&& self == (AppModel {
            sim: SimulationModel { clock, wavefront: self.sim.wavefront, ..before.sim },
            camera: self.camera,
            ..before
        })
        &&& evaluates(arith, clock.step_size_term(frame_dt), dt)
        &&& is_camera_update(arith, clock.elapsed as u64, before.camera, self.camera)
        &&& is_step(
            arith,
            dt,
            before.sim.history.active,
            before.sim.wavefront.current,
            self.sim.wavefront.current,
        )
        &&& self.sim.wavefront.previous == before.sim.wavefront.previous
    }
}

impl App {
    /// A session on a new simulation, drawn with `plot_style` through the
    /// starting camera with lines of width `1.0`.
    pub fn new<A: Fn(Request) -> Scalar>(
        params: VFParams,
        plot_style: PlotStyle,
        arith: &A,
    ) -> (app: App)
        requires
            total(*arith),
        ensures
            app@.plot_style == plot_style,
            app@.camera == start_camera(),
            app@.draw_width == (Scalar { bits: DRAW_WIDTH_BITS }),
            app@.sim.history == HistoryModel::start(params),
            app@.sim.clock == ClockModel::start(),
            is_start_ring(app@.sim.ring),
            app@.sim.wavefront.seeded(*arith, app@.sim.ring),
    {
        App {
            sim: Simulation::new(params, arith),
            plot_style,
            camera: Camera::new(),
            draw_width: Scalar::from_bits(DRAW_WIDTH_BITS),
        }
    }

    /// The width of the lines a frame is drawn with.
    pub fn draw_width(&self) -> (width: Scalar)
        ensures
            width == self@.draw_width,
    {
        self.draw_width
    }

    /// Sets the clock back to zero and leaves everything else alone.
    pub fn reset_time(&mut self)
        ensures
            final(self)@ == (AppModel {
                sim: SimulationModel { clock: old(self)@.sim.clock.reset(), ..old(self)@.sim },
                ..old(self)@
            }),
    {
        self.sim.clock.reset();
    }

    /// Seeds the wavefront anew on the ring, lets the frame before equal the
    /// current frame, and leaves everything else alone.
    pub fn reset_wavefront<A: Fn(Request) -> Scalar>(&mut self, arith: &A)
        requires
            total(*arith),
        ensures
            final(self)@ == (AppModel {
                sim: SimulationModel { wavefront: final(self)@.sim.wavefront, ..old(self)@.sim },
                ..old(self)@
            }),
            final(self)@.sim.wavefront.seeded(*arith, old(self)@.sim.ring),
    {
        self.sim.wavefront = WavefrontState::seed(&self.sim.ring, arith);
    }

    /// Advances the session by one tick: the clock ticks, the step size for
    /// the new tick is found, the camera is updated, and every point of the
    /// current frame is moved by one step under the active parameter set.
    /// Returns the step size.
    pub fn update<A: Fn(Request) -> Scalar>(&mut self, frame_dt: Scalar, arith: &A) -> (dt: Scalar)
        requires
            total(*arith),
        ensures
            final(self)@.updates(*arith, frame_dt, old(self)@, dt),
    {
        self.sim.clock.tick();
        let dt = self.sim.clock.step_size(frame_dt, arith);
        self.camera.update(self.sim.clock.elapsed(), arith);
        self.sim.wavefront.advance(dt, self.sim.history.active(), arith);
        dt
    }

    /// Plots the frame as the camera shows it on the viewport, and then lets
    /// the trailing frame catch up with the current one. Nothing else changes.
    pub fn render<A: Fn(Request) -> Scalar, V: Fn(&Point, &Point) -> Point2>(
        &mut self,
        viewport: &Viewport,
        arith: &A,
        view: &V,
    ) -> (segments: Vec<Segment>)
        requires
            total(*arith),
            can_view(*view, old(self)@.camera),
        ensures
            is_plot(
                *arith,
                *view,
                old(self)@.camera,
                *viewport,
                old(self)@.plot_style,
                old(self)@.draw_width,
                old(self)@.sim.wavefront.current,
                old(self)@.sim.wavefront.previous,
                segments@,
            ),
            final(self)@ == (AppModel {
                sim: SimulationModel {
                    wavefront: WavefrontModel {
                        current: old(self)@.sim.wavefront.current,
                        previous: old(self)@.sim.wavefront.current,
                    },
                    ..old(self)@.sim
                },
                ..old(self)@
            }),
    {
        let segments = plot_points(
            &self.camera,
            viewport,
            &self.plot_style,
            self.draw_width,
            &self.sim.wavefront,
            arith,
            view,
        );
        self.sim.wavefront.commit();
        segments
    }

    /// The status lines of the session at the frame rate `fps`. Numbers are
    /// written as `show` returns them.
    pub fn status<A: Fn(Request) -> Scalar, S: Fn(Scalar, usize) -> String>(
        &self,
        fps: Scalar,
        arith: &A,
        show: &S,
    ) -> (status: Status)
        requires
            total(*arith),
            can_show(*show),
        ensures
            self@.has_status(*arith, *show, fps, status),
    {
        let speed = self.sim.clock.speed_in_units(arith);
        let status = Status {
            fps: labelled("fps : ", fps, FPS_DECIMALS, show),
            params: self.sim.history.active().to_string(show),
            camera: self.camera.proj.toggle_hint(),
            speed: labelled("Sim Speed: ", speed, SPEED_DECIMALS, show),
        };
        // The speed just found is the witness.
        assert(is_line(*show, "Sim Speed: "@, speed, SPEED_DECIMALS, status.speed@));
        status
    }

    /// Carries out one command.
    ///
    /// `generate` is called, once, only by a step forward that finds no set to
    /// return to.
    pub fn apply<G: FnOnce() -> VFParams, A: Fn(Request) -> Scalar>(
        &mut self,
        command: Command,
        generate: G,
        arith: &A,
    )
        requires
            total(*arith),
            command is HistoryForward && old(self)@.sim.history.forward.len() == 0
                ==> call_requires(generate, ()),
        ensures
            final(self)@.follows(command, generate, *arith, old(self)@),
            command is ChangeStyle ==> final(self)@.sim == old(self)@.sim,
    {
        match command {
            Command::ChangeStyle(style) => {
                self.plot_style = style;
            },
            Command::AdjustSpeed(SpeedChange::Faster) => {
                self.sim.clock.faster();
            },
            Command::AdjustSpeed(SpeedChange::Slower) => {
                self.sim.clock.slower();
            },
            Command::TogglePause => {
                self.sim.clock.toggle_pause();
            },
            Command::ToggleProjection => {
                self.camera.toggle_projection();
            },
            Command::Reset => {
                self.reset_time();
                self.reset_wavefront(arith);
            },
            Command::HistoryBack => {
                if self.sim.history.navigate_back() {
                    self.reset_time();
                    self.reset_wavefront(arith);
                }
            },
            Command::HistoryForward => {
                self.sim.history.navigate_forward(generate);
                self.reset_time();
                self.reset_wavefront(arith);
            },
        }
    }
}

/// A change of style is pure presentation: the simulation, with its wavefront
/// and its parameter history, the camera and the line width are what they
/// were.
pub proof fn lemma_style_change_is_presentation<G: FnOnce() -> VFParams, A: Fn(Request) -> Scalar>(
    before: AppModel,
    after: AppModel,
    style: PlotStyle,
    generate: G,
    arith: A,
)
    requires
        after.follows(Command::ChangeStyle(style), generate, arith, before),
    ensures
        after.plot_style == style,
        after.sim == before.sim,
        after.sim.wavefront == before.sim.wavefront,
        after.sim.history == before.sim.history,
        after.camera == before.camera,
        after.draw_width == before.draw_width,
{
}

} // verus!
