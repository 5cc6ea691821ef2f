use vstd::arithmetic::div_mod::{
    lemma_fundamental_div_mod, lemma_fundamental_div_mod_converse, lemma_mod_bound,
    lemma_small_mod,
};
use vstd::prelude::*;

use crate::inputs::joy_featherwing::{Button, ButtonSet, JoyFeatherwing};
use crate::inputs::shared::SharedSensorState;
use crate::state::{State, StateView};
use crate::states::catalog::RegionCatalog;
use crate::states::region_select::{
    menu_lines, pressed, region_select_state, state_after, Level, MenuLine, MenuNavigator,
    NavigatorView, SelectionResult, ViewportState,
};
use crate::states::time::{clock_reading, line_of, time_line, time_state, TimeLine};

pub mod catalog;
pub mod names;
pub mod region_select;
pub mod time;
pub mod zones;

verus! {

/// Frames between two looks at the buttons. A button that is held down
/// would otherwise be taken for a new press on every frame.
pub const INPUT_POLL_INTERVAL: usize = 7;

/// Frames between two adjustments of the canvas's brightness.
pub const BRIGHTNESS_UPDATE_INTERVAL: usize = 10;

/// A pacer as a plain value: it fires on every `interval`-th frame, and
/// `elapsed` frames have passed since it fired last.
pub struct PacerView {
    pub interval: nat,
    pub elapsed: nat,
}

impl PacerView {
    pub open spec fn wf(self) -> bool {
        self.elapsed < self.interval
    }

    /// Whether the pacer fires on the next frame.
    pub open spec fn fires(self) -> bool {
        self.elapsed + 1 == self.interval
    }

    /// The pacer after the next frame.
    pub open spec fn ticked(self) -> PacerView {
        PacerView {
            elapsed: if self.fires() {
                0
            } else {
                self.elapsed + 1
            },
            ..self
        }
    }

    /// The pacer after the next `frames` frames.
    pub open spec fn after(self, frames: nat) -> PacerView
        decreases frames,
    {
        if frames == 0 {
            self
        } else {
            self.after((frames - 1) as nat).ticked()
        }
    }
}

/// Counts frames and fires on every `interval`-th one.
#[derive(Clone, Copy, Debug)]
pub struct FramePacer {
    interval: usize,
    elapsed: usize,
}

impl View for FramePacer {
    type V = PacerView;

    closed spec fn view(&self) -> PacerView {
        PacerView { interval: self.interval as nat, elapsed: self.elapsed as nat }
    }
}

impl FramePacer {
    #[verifier::type_invariant]
    spec fn inv(self) -> bool {
        self.elapsed < self.interval
    }

    /// A pacer that fires on every `interval`-th frame, for the first time
    /// on frame number `interval`. An interval of 0 is taken as 1: the
    /// pacer fires on every frame.
    pub fn new(interval: usize) -> (pacer: FramePacer)
        ensures
            pacer@.elapsed == 0,
            pacer@.interval == (if interval == 0 {
                1
            } else {
                interval as nat
            }),
    {
        FramePacer {
            interval: if interval == 0 {
                1
            } else {
                interval
            },
            elapsed: 0,
        }
    }

    /// Counts one frame, and says whether the pacer fires on it.
    pub fn tick(&mut self) -> (fired: bool)
        ensures
            old(self)@.wf(),
            final(self)@ == old(self)@.ticked(),
            fired == old(self)@.fires(),
    {
        proof {
            use_type_invariant(&*self);
        }
        if self.elapsed + 1 == self.interval {
            self.elapsed = 0;
            true
        } else {
            self.elapsed = self.elapsed + 1;
            false
        }
    }
}

/// A pacer fires on every `interval`-th frame and on no other: after any
/// number of frames, the frames since it fired last are the remainder of
/// all frames by the interval.
pub proof fn lemma_pacer_period(pacer: PacerView, frames: nat)
    requires
        pacer.wf(),
    ensures
        pacer.after(frames).interval == pacer.interval,
        pacer.after(frames).elapsed == (pacer.elapsed + frames) % pacer.interval,
        pacer.after(frames).wf(),
    decreases frames,
{
    let m = pacer.interval as int;
    if frames == 0 {
        lemma_small_mod(pacer.elapsed, pacer.interval);
    } else {
        lemma_pacer_period(pacer, (frames - 1) as nat);
        let before: int = pacer.elapsed + frames - 1;
        let q = before / m;
        let x = before % m;
        lemma_fundamental_div_mod(before, m);
        lemma_mod_bound(before, m);
        assert(m * q == q * m) by (nonlinear_arith);
        if x + 1 == m {
            assert(before + 1 == (q + 1) * m + 0) by (nonlinear_arith)
                requires
                    before == q * m + x,
                    x + 1 == m,
            ;
            lemma_fundamental_div_mod_converse(before + 1, m, q + 1, 0);
        } else {
            lemma_fundamental_div_mod_converse(before + 1, m, q, x + 1);
        }
    }
}

/// What a frame shows.
#[derive(Clone, Debug, PartialEq, Eq)]
pub enum Scene {
    /// The menu, as its lines from the top.
    Menu(Vec<MenuLine>),
    /// The time of day; nothing where it could not be told.
    Clock(Option<TimeLine>),
    /// Nothing: the frame on which a selection was completed.
    Blank,
}

/// What the render loop has to do for one frame.
#[derive(Clone, Debug, PartialEq, Eq)]
pub struct Frame {
    /// The brightness to set the canvas to, where it is due.
    pub brightness: Option<u8>,
    pub scene: Scene,
}

/// The clock as a plain value.
pub struct ClockView {
    pub state: StateView,
    pub menu: NavigatorView,
    pub input: PacerView,
    pub light: PacerView,
}

impl ClockView {
    /// The buttons that the next frame takes notice of: those in `held`
    /// where the input pacer fires, none on the frames between.
    pub open spec fn noticed(self, held: ButtonSet) -> Seq<Button> {
        if self.input.fires() {
            held.listing()
        } else {
            Seq::empty()
        }
    }

    /// The clock after a frame on which the buttons `held` are down.
    ///
    /// While a region is selected, the buttons move the menu on the frames
    /// on which the input pacer fires, and the time is shown as soon as
    /// they complete a selection. Once the time is shown, the buttons are
    /// ignored and nothing changes any more but the brightness pacer.
    pub open spec fn stepped(self, held: ButtonSet) -> ClockView {
        match self.state {
            StateView::RegionSelect => {
                let run = pressed(self.menu.viewport, self.menu.catalog, self.noticed(held));
                ClockView {
                    state: state_after(run.1),
                    menu: NavigatorView { catalog: self.menu.catalog, viewport: run.0 },
                    input: self.input.ticked(),
                    light: self.light.ticked(),
                }
            },
            StateView::Time(_) => ClockView { light: self.light.ticked(), ..self },
        }
    }

    /// `scene` is what the frame that leads from `self` to `next` shows at
    /// the moment `unix_seconds`: the time of the selected zone once a
    /// region is selected, the menu as it stands after the frame while one
    /// is being selected, and nothing on the frame that completes the
    /// selection.
    pub open spec fn shows(self, next: ClockView, unix_seconds: i64, scene: Scene) -> bool {
        match self.state {
            StateView::Time(selection) => scene matches Scene::Clock(line) && line_of(line)
                == time_line(clock_reading(selection.zone, unix_seconds as int)),
            StateView::RegionSelect => match next.state {
                StateView::RegionSelect => scene matches Scene::Menu(lines) && menu_lines(
                    next.menu,
                    lines@,
                ),
                StateView::Time(_) => scene is Blank,
            },
        }
    }
}

/// The clock: it starts by letting the user select a region, and shows the
/// time of that region from then on.
#[derive(Debug)]
pub struct ClockStateMachine {
    state: State,
    menu: MenuNavigator,
    input: FramePacer,
    light: FramePacer,
}

impl View for ClockStateMachine {
    type V = ClockView;

    closed spec fn view(&self) -> ClockView {
        ClockView {
            state: self.state@,
            menu: self.menu@,
            input: self.input@,
            light: self.light@,
        }
    }
}

impl ClockStateMachine {
    /// A clock over `catalog` that waits for a region to be selected, or
    /// `None` where the catalog has no country to select.
    pub fn new(catalog: RegionCatalog) -> (clock: Option<ClockStateMachine>)
        ensures
            clock is Some <==> catalog@.countries.len() > 0,
            clock matches Some(c) ==> c@ == (ClockView {
                state: StateView::RegionSelect,
                menu: NavigatorView {
                    catalog: catalog@,
                    viewport: ViewportState {
                        level: Level::Country,
                        country_index: 0,
                        city_index: 0,
                    },
                },
                input: PacerView { interval: INPUT_POLL_INTERVAL as nat, elapsed: 0 },
                light: PacerView { interval: BRIGHTNESS_UPDATE_INTERVAL as nat, elapsed: 0 },
            }),
    {
        match MenuNavigator::new(catalog) {
            Some(menu) => Some(
                ClockStateMachine {
                    state: State::RegionSelect,
                    menu,
                    input: FramePacer::new(INPUT_POLL_INTERVAL),
                    light: FramePacer::new(BRIGHTNESS_UPDATE_INTERVAL),
                },
            ),
            None => None,
        }
    }

    /// The selection whose time is shown, once there is one.
    pub fn selection(&self) -> (selection: Option<&SelectionResult>)
        ensures
            match self@.state {
                StateView::Time(s) => selection matches Some(found) && found@ == s,
                StateView::RegionSelect => selection is None,
            },
    {
        match &self.state {
            State::Time(selection) => Some(selection),
            State::RegionSelect => None,
        }
    }

    pub fn menu(&self) -> (menu: &MenuNavigator)
        ensures
            menu@ == self@.menu,
    {
        &self.menu
    }

    /// One frame: takes the latest readings of the peripherals and the
    /// moment `unix_seconds`, moves on, and says what the frame shows.
    pub fn step(&mut self, shared: &SharedSensorState, unix_seconds: i64) -> (frame: Frame)
        ensures
            final(self)@ == old(self)@.stepped(shared.buttons),
            frame.brightness == (if old(self)@.light.fires() {
                Some(shared.brightness)
            } else {
                None
            }),
            old(self)@.shows(final(self)@, unix_seconds, frame.scene),
    {
        let brightness = if self.light.tick() {
            Some(shared.get_brightness())
        } else {
            None
        };
        let held: Option<SelectionResult> = match &self.state {
            State::Time(selection) => Some(
                SelectionResult {
                    country: selection.country.clone(),
                    city: selection.city.clone(),
                    zone: selection.zone,
                },
            ),
            State::RegionSelect => None,
        };
        let scene = match held {
            Some(selection) => {
                let shown = time_state(selection, unix_seconds);
                self.state = shown.0;
                Scene::Clock(shown.1)
            },
            None => {
                let buttons = if self.input.tick() {
                    JoyFeatherwing::get_joy_buttons(shared)
                } else {
                    Vec::new()
                };
                let next = region_select_state(&mut self.menu, &buttons);
                let scene = match &next {
                    State::RegionSelect => Scene::Menu(self.menu.menu()),
                    State::Time(_) => Scene::Blank,
                };
                self.state = next;
                scene
            },
        };
        Frame { brightness, scene }
    }
}

} // verus!
