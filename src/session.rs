use vstd::prelude::*;
use crate::animator::{Direction, OffsetAnimator, Oscillation, OFFSET_LIMIT_STEPS};
use crate::ticker::TickScheduler;
use crate::torus::{
    torus_image,
    trig_values,
    view_distance_down,
    view_distance_up,
    Donut,
    Scene,
    SceneBuffer,
    TorusParams,
    Trig,
};
use crate::fixed::ONE;

verus! {

/// Interval between two steps of the start panel's list, in milliseconds.
pub const NEXT_ANIM_MS: u64 = 100;
/// Interval between two automatic steps of the canvas rectangles, in milliseconds.
pub const OFFSET_ANIM_MS: u64 = 100;
/// Number of panels.
pub const PANEL_COUNT: usize = 5;
/// Number of entries of the start panel's list.
pub const SUBLIST_LEN: usize = 3;

/// Which half of the end panel is highlighted.
#[derive(Clone, Copy, Debug, PartialEq, Eq, Structural)]
pub enum EndState {
    Left,
    Right,
}

/// The panel on screen.
#[derive(Clone, Copy, Debug, PartialEq, Eq, Structural)]
pub enum RatState {
    Start,
    Mid,
    End(EndState),
    Donut,
    Canva,
}

/// A key press, as far as the panels tell keys apart.
#[derive(Clone, Copy, Debug, PartialEq, Eq, Structural)]
pub enum Key {
    Esc,
    Left,
    Right,
    Up,
    Down,
    Tab,
    Other,
}

/// Sign of the mid panel's counter, which picks its colour.
#[derive(Clone, Copy, Debug, PartialEq, Eq, Structural)]
pub enum Tone {
    Positive,
    Negative,
    Zero,
}

/// The panels in the order in which left and right move through them.
pub open spec fn panel_at(i: int) -> RatState {
    if i == 0 {
        RatState::Start
    } else if i == 1 {
        RatState::Mid
    } else if i == 2 {
        RatState::End(EndState::Left)
    } else if i == 3 {
        RatState::Donut
    } else {
        RatState::Canva
    }
}

/// The panel at position `i` of the cycle.
pub fn panel(i: usize) -> (r: RatState)
    requires
        i < PANEL_COUNT,
    ensures
        r == panel_at(i as int),
{
    match i {
        0 => RatState::Start,
        1 => RatState::Mid,
        2 => RatState::End(EndState::Left),
        3 => RatState::Donut,
        _ => RatState::Canva,
    }
}

/// Abstract state of a session.
pub struct RatView {
    pub value: int,
    pub state: RatState,
    pub selected: int,
    pub sublist_selected: int,
    pub start_tick: TickScheduler,
    pub canva_tick: TickScheduler,
    pub donut: TorusParams,
    pub offsets: Oscillation,
    pub auto_offset: bool,
    pub quit: bool,
}

/// Left and right move through the panels, wrapping at both ends; escape quits.
pub open spec fn navigate(v: RatView, key: Key) -> RatView {
    match key {
        Key::Esc => RatView { quit: true, ..v },
        Key::Right => {
            let s = if v.selected + 1 >= PANEL_COUNT { 0 } else { v.selected + 1 };
            RatView { selected: s, state: panel_at(s), ..v }
        },
        Key::Left => {
            let s = if v.selected == 0 { PANEL_COUNT - 1 } else { v.selected - 1 };
            RatView { selected: s, state: panel_at(s), ..v }
        },
        _ => v,
    }
}

/// Up and down count the mid panel's value up and down, saturating.
pub open spec fn mid_step(v: RatView, key: Key) -> RatView {
    match key {
        Key::Up => RatView {
            value: if v.value < i32::MAX { v.value + 1 } else { v.value },
            ..v
        },
        Key::Down => RatView {
            value: if v.value > i32::MIN { v.value - 1 } else { v.value },
            ..v
        },
        _ => v,
    }
}

/// Tab moves the end panel's highlight to the other half.
pub open spec fn end_step(v: RatView, key: Key) -> RatView {
    match key {
        Key::Tab => RatView {
            state: if v.state == RatState::End(EndState::Left) {
                RatState::End(EndState::Right)
            } else {
                RatState::End(EndState::Left)
            },
            ..v
        },
        _ => v,
    }
}

/// Up and down move the torus's camera away and closer.
pub open spec fn donut_step(v: RatView, key: Key) -> RatView {
    match key {
        Key::Up => RatView { donut: view_distance_up(v.donut), ..v },
        Key::Down => RatView { donut: view_distance_down(v.donut), ..v },
        _ => v,
    }
}

/// Tab switches automatic animation on and off; while it is off, up and down
/// step the rectangles by hand.
pub open spec fn canva_step(v: RatView, key: Key) -> RatView {
    match key {
        Key::Up => if !v.auto_offset {
            RatView { offsets: v.offsets.manual(true), ..v }
        } else {
            v
        },
        Key::Down => if !v.auto_offset {
            RatView { offsets: v.offsets.manual(false), ..v }
        } else {
            v
        },
        Key::Tab => RatView { auto_offset: !v.auto_offset, ..v },
        _ => v,
    }
}

/// A key press: the panel may change first, then the panel on screen handles the key.
pub open spec fn key_step(v: RatView, key: Key) -> RatView {
    let w = navigate(v, key);
    match w.state {
        RatState::Start => w,
        RatState::Mid => mid_step(w, key),
        RatState::End(_) => end_step(w, key),
        RatState::Donut => donut_step(w, key),
        RatState::Canva => canva_step(w, key),
    }
}

/// A frame of the start panel at `now`: when its step is owed, the list's
/// highlight moves to the next entry, wrapping.
pub open spec fn start_frame(v: RatView, now: u64) -> RatView {
    if v.start_tick.is_due(now) {
        RatView {
            sublist_selected: if v.sublist_selected == SUBLIST_LEN - 1 {
                0
            } else {
                v.sublist_selected + 1
            },
            start_tick: TickScheduler { last_tick: now, ..v.start_tick },
            ..v
        }
    } else {
        v
    }
}

/// A frame of the canvas panel at `now`: when animation is on and its step is
/// owed, the rectangles take one automatic step.
pub open spec fn canva_frame(v: RatView, now: u64) -> RatView {
    if v.auto_offset && v.canva_tick.is_due(now) {
        RatView {
            offsets: v.offsets.tick(),
            canva_tick: TickScheduler { last_tick: now, ..v.canva_tick },
            ..v
        }
    } else {
        v
    }
}

/// A frame drawn before its panel's step is owed changes nothing: neither the
/// list's highlight nor the rectangles drift between two such frames.
pub proof fn lemma_idle_frames_keep_state(v: RatView, now: u64)
    ensures
        !v.start_tick.is_due(now) ==> start_frame(v, now) == v,
        !v.canva_tick.is_due(now) ==> canva_frame(v, now) == v,
{
}

/// On the canvas panel with animation running, switching it off and stepping
/// by hand moves the rectangles one step and changes nothing else: the
/// canvas clock in particular is left as it was.
pub proof fn lemma_manual_step_keeps_clock(v: RatView)
    requires
        v.state == RatState::Canva,
        v.auto_offset,
    ensures
        key_step(key_step(v, Key::Tab), Key::Up) == (RatView {
            offsets: v.offsets.manual(true),
            auto_offset: false,
            ..v
        }),
{
}

/// The whole session: the panel on screen and the state of every panel.
pub struct Rat {
    value: i32,
    state: RatState,
    selected: usize,
    sublist_selected: usize,
    start_tick: TickScheduler,
    canva_tick: TickScheduler,
    donut: Donut,
    offsets: OffsetAnimator,
    auto_offset: bool,
    quit: bool,
}

impl View for Rat {
    type V = RatView;

    closed spec fn view(&self) -> RatView {
        RatView {
            value: self.value as int,
            state: self.state,
            selected: self.selected as int,
            sublist_selected: self.sublist_selected as int,
            start_tick: self.start_tick,
            canva_tick: self.canva_tick,
            donut: self.donut@,
            offsets: self.offsets@,
            auto_offset: self.auto_offset,
            quit: self.quit,
        }
    }
}

impl Rat {
    #[verifier::type_invariant]
    spec fn inv(self) -> bool {
        &&& self.selected < PANEL_COUNT
        &&& self.sublist_selected < SUBLIST_LEN
    }

    /// A session started at `now` (milliseconds), on the start panel.
    pub fn new(now: u64) -> (r: Rat)
        ensures
            r@.value == 0,
            r@.state == RatState::Start,
            r@.selected == 0,
            r@.sublist_selected == 0,
            r@.start_tick == (TickScheduler { last_tick: now, interval: NEXT_ANIM_MS }),
            r@.canva_tick == (TickScheduler { last_tick: now, interval: OFFSET_ANIM_MS }),
            r@.offsets == (Oscillation {
                phase: 0,
                direction: Direction::Growing,
                limit: OFFSET_LIMIT_STEPS as int,
            }),
            r@.donut == (TorusParams {
                theta_step: 70_000,
                phi_step: 20_000,
                inner_radius: 1,
                outer_radius: 2,
                projection_scale: 64_000,
                view_distance: 5,
                width: 100,
                height: 100,
            }),
            r@.auto_offset,
            !r@.quit,
    {
        Rat {
            value: 0,
            state: RatState::Start,
            selected: 0,
            sublist_selected: 0,
            start_tick: TickScheduler::new(NEXT_ANIM_MS, now),
            canva_tick: TickScheduler::new(OFFSET_ANIM_MS, now),
            donut: Donut::default(),
            offsets: OffsetAnimator::default(),
            auto_offset: true,
            quit: false,
        }
    }

    pub fn value(&self) -> (r: i32)
        ensures
            r == self@.value,
    {
        self.value
    }

    pub fn state(&self) -> (r: RatState)
        ensures
            r == self@.state,
    {
        self.state
    }

    pub fn selected(&self) -> (r: usize)
        ensures
            r == self@.selected,
    {
        self.selected
    }

    pub fn sublist_selected(&self) -> (r: usize)
        ensures
            r == self@.sublist_selected,
    {
        self.sublist_selected
    }

    pub fn start_tick(&self) -> (r: TickScheduler)
        ensures
            r == self@.start_tick,
    {
        self.start_tick
    }

    pub fn canva_tick(&self) -> (r: TickScheduler)
        ensures
            r == self@.canva_tick,
    {
        self.canva_tick
    }

    pub fn donut(&self) -> (r: &Donut)
        ensures
            r@ == self@.donut,
    {
        &self.donut
    }

    pub fn offsets(&self) -> (r: &OffsetAnimator)
        ensures
            r@ == self@.offsets,
    {
        &self.offsets
    }

    pub fn auto_offset(&self) -> (r: bool)
        ensures
            r == self@.auto_offset,
    {
        self.auto_offset
    }

    pub fn quit(&self) -> (r: bool)
        ensures
            r == self@.quit,
    {
        self.quit
    }

    /// Handles one key press: escape, left and right first, then the panel
    /// on screen.
    pub fn handle_key(&mut self, key: Key)
        ensures
            final(self)@ == key_step(old(self)@, key),
    {
        proof {
            use_type_invariant(&*self);
        }
        match key {
            Key::Esc => {
                self.quit = true;
            },
            Key::Right => {
                let s = if self.selected + 1 >= PANEL_COUNT {
                    0
                } else {
                    self.selected + 1
                };
                self.selected = s;
                self.state = panel(s);
            },
            Key::Left => {
                let s = if self.selected == 0 {
                    PANEL_COUNT - 1
                } else {
                    self.selected - 1
                };
                self.selected = s;
                self.state = panel(s);
            },
            _ => {},
        }
        match self.state {
            RatState::Start => {},
            RatState::Mid => self.handle_mid(key),
            RatState::End(_) => self.handle_end(key),
            RatState::Donut => self.handle_donut(key),
            RatState::Canva => self.handle_canva(key),
        }
    }

    /// Up and down count the value up and down, saturating at `i32`'s bounds.
    pub fn handle_mid(&mut self, key: Key)
        ensures
            final(self)@ == mid_step(old(self)@, key),
    {
        proof {
            use_type_invariant(&*self);
        }
        match key {
            Key::Up => {
                if self.value < i32::MAX {
                    self.value = self.value + 1;
                }
            },
            Key::Down => {
                if self.value > i32::MIN {
                    self.value = self.value - 1;
                }
            },
            _ => {},
        }
    }

    /// Tab moves the highlight to the other half.
    pub fn handle_end(&mut self, key: Key)
        ensures
            final(self)@ == end_step(old(self)@, key),
    {
        proof {
            use_type_invariant(&*self);
        }
        match key {
            Key::Tab => {
                if self.state == RatState::End(EndState::Left) {
                    self.state = RatState::End(EndState::Right);
                } else {
                    self.state = RatState::End(EndState::Left);
                }
            },
            _ => {},
        }
    }

    /// Up and down move the torus's camera away and closer.
    pub fn handle_donut(&mut self, key: Key)
        ensures
            final(self)@ == donut_step(old(self)@, key),
    {
        proof {
            use_type_invariant(&*self);
        }
        match key {
            Key::Up => self.donut.increase_view_distance(),
            Key::Down => self.donut.decrease_view_distance(),
            _ => {},
        }
    }

    /// Tab switches automatic animation; while it is off, up and down step
    /// the rectangles by hand.
    pub fn handle_canva(&mut self, key: Key)
        ensures
            final(self)@ == canva_step(old(self)@, key),
    {
        proof {
            use_type_invariant(&*self);
        }
        match key {
            Key::Up => {
                if !self.auto_offset {
                    self.offsets.step_manual(true);
                }
            },
            Key::Down => {
                if !self.auto_offset {
                    self.offsets.step_manual(false);
                }
            },
            Key::Tab => {
                self.auto_offset = !self.auto_offset;
            },
            _ => {},
        }
    }

    /// A frame of the start panel at `now`: returns the entry of its list to
    /// highlight, after the list's step if one was owed.
    pub fn render_start(&mut self, now: u64) -> (r: usize)
        ensures
            final(self)@ == start_frame(old(self)@, now),
            r == final(self)@.sublist_selected,
            r < SUBLIST_LEN,
    {
        proof {
            use_type_invariant(&*self);
        }
        if self.start_tick.poll(now) {
            if self.sublist_selected == SUBLIST_LEN - 1 {
                self.sublist_selected = 0;
            } else {
                self.sublist_selected = self.sublist_selected + 1;
            }
        }
        self.sublist_selected
    }

    /// The colour of the mid panel's counter follows its sign.
    pub fn render_mid(&self) -> (r: Tone)
        ensures
            r == (if self@.value > 0 {
                Tone::Positive
            } else if self@.value < 0 {
                Tone::Negative
            } else {
                Tone::Zero
            }),
    {
        if self.value > 0 {
            Tone::Positive
        } else if self.value < 0 {
            Tone::Negative
        } else {
            Tone::Zero
        }
    }

    /// The highlighted half of the end panel, if it is on screen.
    pub fn render_end(&self) -> (r: Option<EndState>)
        ensures
            r == (match self@.state {
                RatState::End(s) => Some(s),
                _ => None,
            }),
    {
        match self.state {
            RatState::End(s) => Some(s),
            _ => None,
        }
    }

    /// A frame of the donut panel: the torus, unturned, swept over the given
    /// tube and ring angles. The panel shows a still torus; turning it takes
    /// `compute_donut` with other angles.
    pub fn render_donut(&self, thetas: &Vec<Trig>, phis: &Vec<Trig>) -> (r: SceneBuffer)
        ensures
            r@ == (Scene {
                width: self@.donut.width,
                height: self@.donut.height,
                cells: torus_image(
                    self@.donut,
                    (ONE as int, 0int),
                    (ONE as int, 0int),
                    trig_values(thetas@),
                    trig_values(phis@),
                ),
            }),
    {
        let zero = Trig::zero();
        self.donut.compute_donut(&zero, &zero, thetas, phis)
    }

    /// A frame of the canvas panel at `now`: returns the offsets to draw, then
    /// takes an automatic step if animation is on and one is owed.
    pub fn render_canva(&mut self, now: u64) -> (r: [(i64, i64); 4])
        ensures
            final(self)@ == canva_frame(old(self)@, now),
            forall|i: int|
                0 <= i < 4 ==> (#[trigger] r@[i]).0 == old(self)@.offsets.offset(i).0 && r@[i].1
                    == old(self)@.offsets.offset(i).1,
    {
        proof {
            use_type_invariant(&*self);
        }
        let r = self.offsets.offsets();
        if self.auto_offset && self.canva_tick.poll(now) {
            self.offsets.tick();
        }
        r
    }
}

} // verus!
