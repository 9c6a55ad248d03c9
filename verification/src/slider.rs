//! The video scrubber: a horizontal control that maps a range of values onto
//! the screen and follows the pointer, the keyboard and the scroll wheel.
//!
//! The scrubber is split in two. [`VideoSlider`] is the configuration that
//! the owner rebuilds whenever it likes: the range, the step, the current
//! value. [`State`] is what the scrubber remembers between events. Drawing
//! and the delivery of notifications are the caller's: [`VideoSlider::update`]
//! says in its [`Outcome`] what has to be done.

use vstd::prelude::*;
use crate::geometry::{clamp_coordinate, saturate, Point, Rectangle, Size};
use crate::rounding::{
    clamp, lemma_round_div_bounded, lemma_round_div_monotonic, lemma_round_div_multiple,
    lemma_round_div_nearest, round_div, round_div_i128, round_div_nat, round_div_u128,
};
use crate::text::{decimal_padded, push_decimal_padded};

verus! {

/// How the scrubber is shown.
#[derive(Clone, Copy, Debug, PartialEq, Eq, Structural)]
pub enum Status {
    /// Neither hovered nor dragged.
    Active,
    /// The cursor is over the scrubber.
    Hovered,
    /// The scrubber is being dragged.
    Dragged,
}

/// The modifier keys that the scrubber reacts to.
#[derive(Clone, Copy, Debug, PartialEq, Eq, Structural)]
pub struct Modifiers {
    /// The platform's command key: resets the value on a click.
    pub command: bool,
    /// The control key: lets the scroll wheel nudge the value.
    pub control: bool,
}

/// The keys that the scrubber tells apart.
#[derive(Clone, Copy, Debug, PartialEq, Eq, Structural)]
pub enum Key {
    ArrowUp,
    ArrowDown,
    Other,
}

/// What happened, as far as the scrubber cares.
#[derive(Clone, Copy, Debug, PartialEq, Eq, Structural)]
pub enum Event {
    /// The primary button went down, or a finger touched the screen.
    ButtonPressed,
    /// The primary button went up, or a finger was lifted or lost.
    ButtonReleased,
    /// The cursor or a finger moved.
    CursorMoved,
    /// The wheel was scrolled; `down` when the vertical delta is negative.
    WheelScrolled { down: bool },
    /// A key went down.
    KeyPressed(Key),
    /// The held modifier keys changed.
    ModifiersChanged(Modifiers),
    /// The window is about to be drawn again.
    RedrawRequested,
    /// Anything else.
    Other,
}

/// The mathematical content of a [`VideoSlider`].
pub struct SliderModel {
    pub range_start: int,
    pub range_end: int,
    pub step: int,
    pub shift_step: Option<int>,
    pub value: int,
    pub default: Option<int>,
    pub thumbnails: nat,
    pub duration_ms: nat,
    pub status: Option<Status>,
}

impl SliderModel {
    /// The range is not inverted, the step is positive, and the value and
    /// the default lie in the range.
    pub open spec fn wf(self) -> bool {
        &&& self.range_start <= self.range_end
        &&& self.step > 0
        &&& self.range_start <= self.value <= self.range_end
        &&& self.default matches Some(d) ==> self.range_start <= d <= self.range_end
    }

    /// The length of the range.
    pub open spec fn span(self) -> int {
        self.range_end - self.range_start
    }

    /// Whether `v` is the range start plus a whole number of steps.
    pub open spec fn aligned(self, v: int) -> bool {
        (v - self.range_start) % self.step == 0
    }

    /// The value under the horizontal position `x` of a track that begins
    /// at `left` and is `width` wide: the range start at or before the left
    /// edge, the range end at or after the right edge, and in between the
    /// point of the step grid nearest to the linear interpolation, limited
    /// to the range end.
    pub open spec fn locate(self, x: int, left: int, width: int) -> int {
        if x <= left {
            self.range_start
        } else if x >= left + width {
            self.range_end
        } else {
            let steps = round_div((x - left) * self.span(), width * self.step);
            let value = steps * self.step + self.range_start;
            if value < self.range_end {
                value
            } else {
                self.range_end
            }
        }
    }

    /// The grid point one step above the one nearest to `v`, limited to the
    /// range end.
    pub open spec fn increment(self, v: int) -> int {
        let next = self.range_start + self.step * (round_div(v - self.range_start, self.step) + 1);
        if next > self.range_end {
            self.range_end
        } else {
            next
        }
    }

    /// The grid point one step below the one nearest to `v`, limited to the
    /// range start.
    pub open spec fn decrement(self, v: int) -> int {
        let previous = self.range_start + self.step * (round_div(v - self.range_start, self.step)
            - 1);
        if previous < self.range_start {
            self.range_start
        } else {
            previous
        }
    }
}

/// What the scrubber remembers between events.
#[derive(Clone, Copy, Debug, PartialEq, Eq)]
pub struct State {
    /// Whether the cursor was over the scrubber when it last moved.
    pub is_hovering: bool,
    /// Where the cursor was when it last moved.
    pub cursor_position: Point,
    /// The value under the cursor when it last moved.
    pub cursor_location: i64,
    /// Whether a drag is under way.
    pub is_dragging: bool,
    /// The modifier keys held at the moment.
    pub keyboard_modifiers: Modifiers,
}

/// The mathematical content of a [`State`].
pub struct StateModel {
    pub is_hovering: bool,
    pub cursor_position: Point,
    pub cursor_location: int,
    pub is_dragging: bool,
    pub keyboard_modifiers: Modifiers,
}

impl View for State {
    type V = StateModel;

    open spec fn view(&self) -> StateModel {
        StateModel {
            is_hovering: self.is_hovering,
            cursor_position: self.cursor_position,
            cursor_location: self.cursor_location as int,
            is_dragging: self.is_dragging,
            keyboard_modifiers: self.keyboard_modifiers,
        }
    }
}

impl Default for State {
    /// Nothing hovered, nothing dragged, no modifier held, the cursor at the
    /// origin.
    fn default() -> (state: State)
        ensures
            state@ == StateModel::initial(),
    {
        State {
            is_hovering: false,
            cursor_position: Point { x: 0, y: 0 },
            cursor_location: 0,
            is_dragging: false,
            keyboard_modifiers: Modifiers { command: false, control: false },
        }
    }
}

impl StateModel {
    /// The state of a scrubber that has seen no event yet.
    pub open spec fn initial() -> StateModel {
        StateModel {
            is_hovering: false,
            cursor_position: Point { x: 0, y: 0 },
            cursor_location: 0,
            is_dragging: false,
            keyboard_modifiers: Modifiers { command: false, control: false },
        }
    }
}

/// What the caller has to do after an event.
#[derive(Clone, Copy, Debug, PartialEq, Eq)]
pub struct Outcome {
    /// The new value to announce, where the value changed.
    pub change: Option<i64>,
    /// Whether a drag ended: the release is to be announced.
    pub released: bool,
    /// Whether the event was consumed and is to go no further.
    pub captured: bool,
    /// Whether the scrubber has to be drawn again.
    pub redraw: bool,
}

/// The mathematical content of an [`Outcome`].
pub struct OutcomeModel {
    pub change: Option<int>,
    pub released: bool,
    pub captured: bool,
    pub redraw: bool,
}

impl View for Outcome {
    type V = OutcomeModel;

    open spec fn view(&self) -> OutcomeModel {
        OutcomeModel {
            change: match self.change {
                Some(v) => Some(v as int),
                None => None,
            },
            released: self.released,
            captured: self.captured,
            redraw: self.redraw,
        }
    }
}

impl SliderModel {
    /// The value that an event asks for, if it asks for one: a press over
    /// the track asks for the value under the cursor, or with the command
    /// key held for the default; a move during a drag asks for the value
    /// under the cursor wherever that is; the wheel with the control key
    /// held, and the arrow keys, nudge while the cursor is over the track.
    pub open spec fn requested(
        self,
        state: StateModel,
        event: Event,
        bounds: Rectangle,
        cursor: Option<Point>,
    ) -> Option<int> {
        match event {
            Event::ButtonPressed => match bounds.spec_position_over(cursor) {
                Some(p) => if state.keyboard_modifiers.command {
                    self.default
                } else {
                    Some(self.locate(p.x as int, bounds.x as int, bounds.width as int))
                },
                None => None,
            },
            Event::CursorMoved => match cursor {
                Some(p) if state.is_dragging => Some(
                    self.locate(p.x as int, bounds.x as int, bounds.width as int),
                ),
                _ => None,
            },
            Event::WheelScrolled { down } => if state.keyboard_modifiers.control
                && bounds.spec_is_over(cursor) {
                Some(
                    if down {
                        self.decrement(self.value)
                    } else {
                        self.increment(self.value)
                    },
                )
            } else {
                None
            },
            Event::KeyPressed(key) => if bounds.spec_is_over(cursor) {
                match key {
                    Key::ArrowUp => Some(self.increment(self.value)),
                    Key::ArrowDown => Some(self.decrement(self.value)),
                    Key::Other => None,
                }
            } else {
                None
            },
            _ => None,
        }
    }

    /// The change that an event brings about: the requested value, unless
    /// it is the current one.
    pub open spec fn change(
        self,
        state: StateModel,
        event: Event,
        bounds: Rectangle,
        cursor: Option<Point>,
    ) -> Option<int> {
        match self.requested(state, event, bounds, cursor) {
            Some(v) if v != self.value => Some(v),
            _ => None,
        }
    }

    /// Whether a drag is under way after an event: a press over the track
    /// begins one unless the command key is held, a release ends it, and
    /// nothing else touches it.
    pub open spec fn dragging_after(
        self,
        state: StateModel,
        event: Event,
        bounds: Rectangle,
        cursor: Option<Point>,
    ) -> bool {
        match event {
            Event::ButtonPressed => if bounds.spec_is_over(cursor) {
                !state.keyboard_modifiers.command
            } else {
                state.is_dragging
            },
            Event::ButtonReleased => false,
            _ => state.is_dragging,
        }
    }

    /// The remembered state after an event.
    pub open spec fn state_after(
        self,
        state: StateModel,
        event: Event,
        bounds: Rectangle,
        cursor: Option<Point>,
    ) -> StateModel {
        let is_dragging = self.dragging_after(state, event, bounds, cursor);
        match event {
            Event::CursorMoved => StateModel {
                is_hovering: bounds.spec_is_over(cursor),
                cursor_position: match cursor {
                    Some(p) => p,
                    None => Point { x: 0, y: 0 },
                },
                cursor_location: match cursor {
                    Some(p) => self.locate(p.x as int, bounds.x as int, bounds.width as int),
                    None => 0,
                },
                is_dragging,
                keyboard_modifiers: state.keyboard_modifiers,
            },
            Event::ModifiersChanged(modifiers) => StateModel {
                keyboard_modifiers: modifiers,
                is_dragging,
                ..state
            },
            _ => StateModel { is_dragging, ..state },
        }
    }

    /// Whether an event is consumed.
    pub open spec fn captures(
        self,
        state: StateModel,
        event: Event,
        bounds: Rectangle,
        cursor: Option<Point>,
    ) -> bool {
        match event {
            Event::ButtonPressed => bounds.spec_is_over(cursor),
            Event::ButtonReleased => state.is_dragging,
            Event::CursorMoved => state.is_dragging,
            Event::WheelScrolled { down } => state.keyboard_modifiers.control
                && bounds.spec_is_over(cursor),
            Event::KeyPressed(key) => bounds.spec_is_over(cursor),
            _ => false,
        }
    }

    /// How the scrubber is to be shown after an event: dragged during a
    /// drag, else hovered with the cursor over it, else active.
    pub open spec fn status_now(
        self,
        state: StateModel,
        event: Event,
        bounds: Rectangle,
        cursor: Option<Point>,
    ) -> Status {
        if self.dragging_after(state, event, bounds, cursor) {
            Status::Dragged
        } else if bounds.spec_is_over(cursor) {
            Status::Hovered
        } else {
            Status::Active
        }
    }

    /// The scrubber after an event: the value follows the change, and a
    /// redraw request records how the scrubber is shown.
    pub open spec fn after(
        self,
        state: StateModel,
        event: Event,
        bounds: Rectangle,
        cursor: Option<Point>,
    ) -> SliderModel {
        SliderModel {
            value: match self.change(state, event, bounds, cursor) {
                Some(v) => v,
                None => self.value,
            },
            status: if event == Event::RedrawRequested {
                Some(self.status_now(state, event, bounds, cursor))
            } else {
                self.status
            },
            ..self
        }
    }

    /// What the caller has to do after an event. The release is announced
    /// when a release ends a drag. Another drawing is due when the event is
    /// no redraw request and the scrubber is to be shown otherwise than it
    /// was drawn last.
    pub open spec fn outcome(
        self,
        state: StateModel,
        event: Event,
        bounds: Rectangle,
        cursor: Option<Point>,
    ) -> OutcomeModel {
        OutcomeModel {
            change: self.change(state, event, bounds, cursor),
            released: event == Event::ButtonReleased && state.is_dragging,
            captured: self.captures(state, event, bounds, cursor),
            redraw: event != Event::RedrawRequested && match self.status {
                Some(shown) => shown != self.status_now(state, event, bounds, cursor),
                None => false,
            },
        }
    }
}

/// The scrubber itself: a range of values, a step grid on it, and the
/// current value.
#[derive(Clone, Copy, Debug)]
pub struct VideoSlider {
    range_start: i64,
    range_end: i64,
    step: i64,
    shift_step: Option<i64>,
    value: i64,
    default: Option<i64>,
    thumbnails: usize,
    duration_ms: u64,
    status: Option<Status>,
}

impl View for VideoSlider {
    type V = SliderModel;

    closed spec fn view(&self) -> SliderModel {
        SliderModel {
            range_start: self.range_start as int,
            range_end: self.range_end as int,
            step: self.step as int,
            shift_step: match self.shift_step {
                Some(s) => Some(s as int),
                None => None,
            },
            value: self.value as int,
            default: match self.default {
                Some(d) => Some(d as int),
                None => None,
            },
            thumbnails: self.thumbnails as nat,
            duration_ms: self.duration_ms as nat,
            status: self.status,
        }
    }
}

impl VideoSlider {
    /// A scrubber over the values from `range_start` to `range_end`, with a
    /// step of one, no default and nothing drawn yet. An inverted range
    /// collapses to its start. `value` is limited to the range.
    /// `thumbnails` is the number of preview images of the strip and
    /// `duration_ms` the length of the video in milliseconds.
    pub fn new(
        range_start: i64,
        range_end: i64,
        value: i64,
        thumbnails: usize,
        duration_ms: u64,
    ) -> (slider: VideoSlider)
        ensures
            slider@.wf(),
            slider@ == (SliderModel {
                range_start: range_start as int,
                range_end: if range_end < range_start {
                    range_start as int
                } else {
                    range_end as int
                },
                step: 1,
                shift_step: None,
                value: if value < range_start || range_end < range_start {
                    range_start as int
                } else if value > range_end {
                    range_end as int
                } else {
                    value as int
                },
                default: None,
                thumbnails: thumbnails as nat,
                duration_ms: duration_ms as nat,
                status: None,
            }),
    {
        let range_end = if range_end < range_start {
            range_start
        } else {
            range_end
        };
        let value = if value >= range_start {
            value
        } else {
            range_start
        };
        let value = if value <= range_end {
            value
        } else {
            range_end
        };
        VideoSlider {
            range_start,
            range_end,
            step: 1,
            shift_step: None,
            value,
            default: None,
            thumbnails,
            duration_ms,
            status: None,
        }
    }

    /// Sets the value that a click with the command key held resets the
    /// scrubber to. It is limited to the range.
    pub fn default(self, default: i64) -> (slider: VideoSlider)
        requires
            self@.wf(),
        ensures
            slider@.wf(),
            slider@ == (SliderModel {
                default: Some(clamp(default as int, self@.range_start, self@.range_end)),
                ..self@
            }),
    {
        let limited = if default < self.range_start {
            self.range_start
        } else if default > self.range_end {
            self.range_end
        } else {
            default
        };
        VideoSlider { default: Some(limited), ..self }
    }

    /// Sets the distance between two neighbouring grid points.
    pub fn step(self, step: i64) -> (slider: VideoSlider)
        requires
            self@.wf(),
            step > 0,
        ensures
            slider@.wf(),
            slider@ == (SliderModel { step: step as int, ..self@ }),
    {
        VideoSlider { step, ..self }
    }

    /// Sets the step for use while the shift key is held.
    pub fn shift_step(self, shift_step: i64) -> (slider: VideoSlider)
        requires
            self@.wf(),
        ensures
            slider@.wf(),
            slider@ == (SliderModel { shift_step: Some(shift_step as int), ..self@ }),
    {
        VideoSlider { shift_step: Some(shift_step), ..self }
    }

    /// The current value.
    pub fn value(&self) -> (v: i64)
        ensures
            v == self@.value,
    {
        self.value
    }

    /// The two ends of the range.
    pub fn range(&self) -> (ends: (i64, i64))
        ensures
            ends.0 == self@.range_start,
            ends.1 == self@.range_end,
    {
        (self.range_start, self.range_end)
    }

    /// The distance between two neighbouring grid points.
    pub fn step_size(&self) -> (step: i64)
        ensures
            step == self@.step,
    {
        self.step
    }

    /// The step for use while the shift key is held, if one was set.
    pub fn shift_step_size(&self) -> (step: Option<i64>)
        ensures
            step.is_some() == self@.shift_step.is_some(),
            step matches Some(s) ==> self@.shift_step == Some(s as int),
    {
        self.shift_step
    }

    /// The value that a click with the command key held resets to, if one
    /// was set.
    pub fn default_value(&self) -> (default: Option<i64>)
        ensures
            default.is_some() == self@.default.is_some(),
            default matches Some(d) ==> self@.default == Some(d as int),
    {
        self.default
    }

    /// How the scrubber was shown when it was drawn last.
    pub fn status(&self) -> (status: Option<Status>)
        ensures
            status == self@.status,
    {
        self.status
    }

    /// The value under the horizontal cursor position `x` on a track that
    /// occupies `bounds`.
    pub fn locate(&self, x: i32, bounds: Rectangle) -> (value: i64)
        requires
            self@.wf(),
        ensures
            value == self@.locate(x as int, bounds.x as int, bounds.width as int),
            self@.range_start <= value <= self@.range_end,
    {
        let left: i64 = bounds.x as i64;
        let width: i64 = bounds.width as i64;
        let px: i64 = x as i64;
        proof {
            lemma_locate_in_range(self@, x as int, bounds.x as int, bounds.width as int);
        }
        if px <= left {
            return self.range_start;
        }
        if px >= left + width {
            return self.range_end;
        }
        let offset: i128 = (px - left) as i128;
        let span: i128 = self.range_end as i128 - self.range_start as i128;
        let step: i128 = self.step as i128;
        assert(0 <= offset * span <= 0x1_0000_0000 * 0x1_0000_0000_0000_0000) by (nonlinear_arith)
            requires
                0 < offset < 0x1_0000_0000,
                0 <= span < 0x1_0000_0000_0000_0000,
        ;
        assert(0 < width * step <= 0x1_0000_0000 * 0x1_0000_0000_0000_0000) by (nonlinear_arith)
            requires
                0 < width < 0x1_0000_0000,
                0 < step < 0x1_0000_0000_0000_0000,
        ;
        let num: i128 = offset * span;
        let den: i128 = width as i128 * step;
        let steps: i128 = round_div_i128(num, den);
        proof {
            lemma_round_div_nearest(num as int, den as int);
            assert(0 <= 2 * (steps * step) <= 2 * span + step) by (nonlinear_arith)
                requires
                    2 * (steps * den) <= 2 * num + den,
                    num == offset * span,
                    den == width * step,
                    0 < offset < width,
                    span >= 0,
                    step > 0,
                    steps >= 0,
            ;
        }
        let value: i128 = steps * step + self.range_start as i128;
        if value < self.range_end as i128 {
            value as i64
        } else {
            self.range_end
        }
    }

    /// The grid point one step above the one nearest to `value`, limited to
    /// the range end.
    pub fn increment(&self, value: i64) -> (next: i64)
        requires
            self@.wf(),
        ensures
            next == self@.increment(value as int),
    {
        let step: i128 = self.step as i128;
        let offset: i128 = value as i128 - self.range_start as i128;
        let nearest: i128 = round_div_i128(offset, step);
        proof {
            lemma_round_div_nearest(offset as int, step as int);
            assert(step * (nearest + 1) == nearest * step + step) by (nonlinear_arith);
        }
        let next: i128 = self.range_start as i128 + step * (nearest + 1);
        if next > self.range_end as i128 {
            self.range_end
        } else {
            next as i64
        }
    }

    /// The grid point one step below the one nearest to `value`, limited to
    /// the range start.
    pub fn decrement(&self, value: i64) -> (previous: i64)
        requires
            self@.wf(),
        ensures
            previous == self@.decrement(value as int),
    {
        let step: i128 = self.step as i128;
        let offset: i128 = value as i128 - self.range_start as i128;
        let nearest: i128 = round_div_i128(offset, step);
        proof {
            lemma_round_div_nearest(offset as int, step as int);
            assert(step * (nearest - 1) == nearest * step - step) by (nonlinear_arith);
        }
        let previous: i128 = self.range_start as i128 + step * (nearest - 1);
        if previous < self.range_start as i128 {
            self.range_start
        } else {
            previous as i64
        }
    }
}

impl VideoSlider {
    /// Handles one event. `bounds` is where the track lies on the screen
    /// and `cursor` where the cursor is, if it is anywhere. The scrubber
    /// takes the value that the event asks for, `state` follows the cursor,
    /// the drag and the modifier keys, and the outcome says what the caller
    /// owes: the announcement of a change or of a release, the capture of
    /// the event, another drawing.
    pub fn update(
        &mut self,
        state: &mut State,
        event: Event,
        bounds: Rectangle,
        cursor: Option<Point>,
    ) -> (outcome: Outcome)
        requires
            old(self)@.wf(),
        ensures
            final(self)@.wf(),
            final(self)@ == old(self)@.after(old(state)@, event, bounds, cursor),
            final(state)@ == old(self)@.state_after(old(state)@, event, bounds, cursor),
            outcome@ == old(self)@.outcome(old(state)@, event, bounds, cursor),
    {
        let over = bounds.position_over(cursor);
        let mut requested: Option<i64> = None;
        let mut released = false;
        let mut captured = false;
        proof {
            lemma_nudge_in_range(self@, self@.value);
            lemma_value_stays_in_range(self@, state@, event, bounds, cursor);
        }
        match event {
            Event::ButtonPressed => {
                if let Some(p) = over {
                    if state.keyboard_modifiers.command {
                        requested = self.default;
                        state.is_dragging = false;
                    } else {
                        requested = Some(self.locate(p.x, bounds));
                        state.is_dragging = true;
                    }
                    captured = true;
                }
            },
            Event::ButtonReleased => {
                if state.is_dragging {
                    released = true;
                    state.is_dragging = false;
                    captured = true;
                }
            },
            Event::CursorMoved => {
                state.is_hovering = over.is_some();
                match cursor {
                    Some(p) => {
                        let location = self.locate(p.x, bounds);
                        state.cursor_position = p;
                        state.cursor_location = location;
                        if state.is_dragging {
                            requested = Some(location);
                        }
                    },
                    None => {
                        state.cursor_position = Point { x: 0, y: 0 };
                        state.cursor_location = 0;
                    },
                }
                if state.is_dragging {
                    captured = true;
                }
            },
            Event::WheelScrolled { down } => {
                if state.keyboard_modifiers.control && over.is_some() {
                    requested = Some(
                        if down {
                            self.decrement(self.value)
                        } else {
                            self.increment(self.value)
                        },
                    );
                    captured = true;
                }
            },
            Event::KeyPressed(key) => {
                if over.is_some() {
                    match key {
                        Key::ArrowUp => {
                            requested = Some(self.increment(self.value));
                        },
                        Key::ArrowDown => {
                            requested = Some(self.decrement(self.value));
                        },
                        Key::Other => {},
                    }
                    captured = true;
                }
            },
            Event::ModifiersChanged(modifiers) => {
                state.keyboard_modifiers = modifiers;
            },
            Event::RedrawRequested => {},
            Event::Other => {},
        }
        let mut change: Option<i64> = None;
        if let Some(v) = requested {
            if v != self.value {
                change = Some(v);
                self.value = v;
            }
        }
        let current = if state.is_dragging {
            Status::Dragged
        } else if over.is_some() {
            Status::Hovered
        } else {
            Status::Active
        };
        let mut redraw = false;
        match event {
            Event::RedrawRequested => {
                self.status = Some(current);
            },
            _ => {
                if let Some(shown) = self.status {
                    redraw = shown != current;
                }
            },
        }
        Outcome { change, released, captured, redraw }
    }

    /// Whether the cursor is to be shown as a pointing hand: during a drag
    /// and while it is over the track.
    pub fn wants_pointer(state: &State, bounds: Rectangle, cursor: Option<Point>) -> (pointer: bool)
        ensures
            pointer == (state.is_dragging || bounds.spec_is_over(cursor)),
    {
        state.is_dragging || bounds.is_over(cursor)
    }
}

/// The height at which the preview image is shown.
pub const THUMBNAIL_HEIGHT: i32 = 100;

/// The room between the preview image and the track below it.
pub const THUMBNAIL_GAP: i32 = 30;

/// The width of the timestamp label.
pub const TIMESTAMP_WIDTH: i32 = 80;

/// The height of the timestamp label.
pub const TIMESTAMP_HEIGHT: i32 = 20;

/// The room between the timestamp label and the track below it.
pub const TIMESTAMP_GAP: i32 = 5;

/// The preview image that floats above the track.
#[derive(Clone, Copy, Debug, PartialEq, Eq)]
pub struct ThumbnailOverlay {
    /// Which image of the strip is shown.
    pub index: usize,
    /// Where it is shown.
    pub bounds: Rectangle,
}

/// The timestamp label that floats above the track.
#[derive(Clone, Debug, PartialEq, Eq)]
pub struct TimestampOverlay {
    /// The time under the cursor, as hours, minutes and seconds.
    pub timestamp: String,
    /// Where it is shown.
    pub bounds: Rectangle,
}

/// What floats above the track while it is hovered or dragged.
#[derive(Clone, Debug, PartialEq, Eq)]
pub struct Overlay {
    /// The preview image, where the strip has one.
    pub thumbnail: Option<ThumbnailOverlay>,
    /// The timestamp label.
    pub timestamp: TimestampOverlay,
}

/// The time `seconds` written as hours, minutes and seconds, each with at
/// least two digits, with colons in between.
pub open spec fn timestamp_text(seconds: nat) -> Seq<char> {
    decimal_padded(seconds / 3600) + seq![':'] + decimal_padded(seconds % 3600 / 60) + seq![':']
        + decimal_padded(seconds % 60)
}

/// The size at which an image of `image` pixels is previewed: as high as
/// every preview, and as wide as its proportions ask, to the nearest pixel.
/// An image without height is previewed without width.
pub open spec fn thumbnail_size(image: Size) -> Size {
    Size {
        width: if image.height > 0 && image.width > 0 {
            clamp_coordinate(
                round_div_nat(image.width * THUMBNAIL_HEIGHT, image.height as int),
            ) as i32
        } else {
            0
        },
        height: THUMBNAIL_HEIGHT,
    }
}

/// Where a panel of `size` floats. Horizontally it is centred on the
/// cursor and moved by `translation` once: the cursor position is taken as
/// it is. Vertically it stands `gap` above the top of the track, and is
/// moved by `translation` twice: once with the track, whose bounds are given
/// before the move, and once more with the panel itself. A coordinate that
/// a pixel position cannot hold is limited to the nearest one that it can.
pub open spec fn floating_bounds(
    cursor: Point,
    track: Rectangle,
    translation: Point,
    size: Size,
    gap: int,
) -> Rectangle {
    Rectangle {
        x: clamp_coordinate(cursor.x - half(size.width as int) + translation.x) as i32,
        y: clamp_coordinate(track.y + translation.y - size.height - gap + translation.y) as i32,
        width: size.width,
        height: size.height,
    }
}

impl SliderModel {
    /// Which image of the strip belongs to the value `location`: the
    /// fraction of the range that lies below `location`, times the number of
    /// images, rounded down and limited to the images there are. The first
    /// image on a range without length.
    pub open spec fn thumbnail_index(self, location: int) -> int {
        if self.thumbnails == 0 || self.span() <= 0 {
            0
        } else {
            clamp(
                (location - self.range_start) * self.thumbnails / self.span(),
                0,
                self.thumbnails - 1,
            )
        }
    }

    /// The time in whole seconds that belongs to the value `location`: the
    /// fraction of the range that lies below `location`, all of it at most,
    /// times the duration, rounded to the nearest second. Zero on a range
    /// without length.
    pub open spec fn timestamp_seconds(self, location: int) -> int {
        if self.span() <= 0 {
            0
        } else {
            round_div_nat(
                clamp(location - self.range_start, 0, self.span()) * self.duration_ms,
                self.span() * 1000,
            )
        }
    }
}

/// Computes [`thumbnail_size`].
pub fn preview_size(image: Size) -> (size: Size)
    ensures
        size == thumbnail_size(image),
{
    if image.height > 0 && image.width > 0 {
        let scaled: u128 = image.width as u128 * 100;
        let width = round_div_u128(scaled, image.height as u128);
        proof {
            lemma_round_div_bounded(scaled as int, image.height as int);
        }
        Size { width: saturate(width as i64), height: THUMBNAIL_HEIGHT }
    } else {
        Size { width: 0, height: THUMBNAIL_HEIGHT }
    }
}

/// Computes [`floating_bounds`].
pub fn place_floating(
    cursor: Point,
    track: Rectangle,
    translation: Point,
    size: Size,
    gap: i32,
) -> (bounds: Rectangle)
    ensures
        bounds == floating_bounds(cursor, track, translation, size, gap as int),
{
    let x: i64 = cursor.x as i64 - halve(size.width) + translation.x as i64;
    let y: i64 = track.y as i64 + translation.y as i64 - size.height as i64 - gap as i64
        + translation.y as i64;
    Rectangle { x: saturate(x), y: saturate(y), width: size.width, height: size.height }
}

/// Writes `seconds` as hours, minutes and seconds.
pub fn format_timestamp(seconds: u64) -> (text: String)
    ensures
        text@ == timestamp_text(seconds as nat),
{
    let mut text = String::new();
    push_decimal_padded(&mut text, seconds / 3600);
    text.append(":");
    push_decimal_padded(&mut text, seconds % 3600 / 60);
    text.append(":");
    push_decimal_padded(&mut text, seconds % 60);
    proof {
        reveal_strlit(":");
        assert(":"@ =~= seq![':']);
        assert(text@ =~= timestamp_text(seconds as nat));
    }
    text
}

impl VideoSlider {
    /// Which image of the strip belongs to the value `location`.
    pub fn thumbnail_index(&self, location: i64) -> (index: usize)
        requires
            self@.wf(),
        ensures
            index == self@.thumbnail_index(location as int),
            self@.thumbnails > 0 ==> index < self@.thumbnails,
    {
        if self.thumbnails == 0 || self.range_end <= self.range_start || location
            <= self.range_start {
            proof {
                if self@.thumbnails > 0 && self@.span() > 0 {
                    let offset = location - self.range_start;
                    assert(offset * self@.thumbnails <= 0) by (nonlinear_arith)
                        requires
                            offset <= 0,
                            self@.thumbnails > 0,
                    ;
                    vstd::arithmetic::div_mod::lemma_div_is_ordered(
                        offset * self@.thumbnails,
                        0,
                        self@.span(),
                    );
                }
            }
            return 0;
        }
        let offset: u128 = (location as i128 - self.range_start as i128) as u128;
        let span: u128 = (self.range_end as i128 - self.range_start as i128) as u128;
        let count: u128 = self.thumbnails as u128;
        assert(offset * count < 0x1_0000_0000_0000_0000 * 0x1_0000_0000_0000_0000)
            by (nonlinear_arith)
            requires
                0 <= offset < 0x1_0000_0000_0000_0000,
                0 <= count < 0x1_0000_0000_0000_0000,
        ;
        let scaled: u128 = offset * count / span;
        proof {
            vstd::arithmetic::div_mod::lemma_div_pos_is_pos((offset * count) as int, span as int);
        }
        if scaled >= count {
            self.thumbnails - 1
        } else {
            scaled as usize
        }
    }

    /// The time in whole seconds that belongs to the value `location`.
    pub fn timestamp_seconds(&self, location: i64) -> (seconds: u64)
        requires
            self@.wf(),
        ensures
            seconds == self@.timestamp_seconds(location as int),
    {
        if self.range_end <= self.range_start {
            return 0;
        }
        let span: u128 = (self.range_end as i128 - self.range_start as i128) as u128;
        let offset: u128 = if location <= self.range_start {
            0
        } else if location >= self.range_end {
            span
        } else {
            (location as i128 - self.range_start as i128) as u128
        };
        let duration: u128 = self.duration_ms as u128;
        assert(offset * duration < 0x1_0000_0000_0000_0000 * 0x1_0000_0000_0000_0000)
            by (nonlinear_arith)
            requires
                0 <= offset < 0x1_0000_0000_0000_0000,
                0 <= duration < 0x1_0000_0000_0000_0000,
        ;
        let seconds = round_div_u128(offset * duration, span * 1000);
        proof {
            let num = (offset * duration) as int;
            let den = (span * 1000) as int;
            lemma_round_div_nearest(num, den);
            assert(seconds * 1000 <= duration + 500) by (nonlinear_arith)
                requires
                    2 * (seconds * den) <= 2 * num + den,
                    num == offset * duration,
                    den == span * 1000,
                    0 <= offset <= span,
                    span >= 1,
                    duration >= 0,
                    seconds >= 0,
            ;
        }
        seconds as u64
    }

    /// What floats above the track: nothing unless the scrubber is hovered
    /// or dragged, else the timestamp label for the value under the cursor
    /// and, where the strip has images, the image for that value. `image`
    /// is the size in pixels of the images of the strip.
    pub fn overlay(
        &self,
        state: &State,
        bounds: Rectangle,
        translation: Point,
        image: Size,
    ) -> (overlay: Option<Overlay>)
        requires
            self@.wf(),
        ensures
            overlay.is_some() == (state.is_hovering || state.is_dragging),
            overlay matches Some(o) ==> {
                &&& o.timestamp.timestamp@ == timestamp_text(
                    self@.timestamp_seconds(state.cursor_location as int) as nat,
                )
                &&& o.timestamp.bounds == floating_bounds(
                    state.cursor_position,
                    bounds,
                    translation,
                    Size { width: TIMESTAMP_WIDTH, height: TIMESTAMP_HEIGHT },
                    TIMESTAMP_GAP as int,
                )
                &&& o.thumbnail.is_some() == (self@.thumbnails > 0)
                &&& o.thumbnail matches Some(t) ==> {
                    &&& t.index == self@.thumbnail_index(state.cursor_location as int)
                    &&& t.bounds == floating_bounds(
                        state.cursor_position,
                        bounds,
                        translation,
                        thumbnail_size(image),
                        THUMBNAIL_GAP as int,
                    )
                }
            },
    {
        if !state.is_hovering && !state.is_dragging {
            return None;
        }
        let index = self.thumbnail_index(state.cursor_location);
        let thumbnail = if index < self.thumbnails {
            Some(
                ThumbnailOverlay {
                    index,
                    bounds: place_floating(
                        state.cursor_position,
                        bounds,
                        translation,
                        preview_size(image),
                        THUMBNAIL_GAP,
                    ),
                },
            )
        } else {
            None
        };
        let timestamp = TimestampOverlay {
            timestamp: format_timestamp(self.timestamp_seconds(state.cursor_location)),
            bounds: place_floating(
                state.cursor_position,
                bounds,
                translation,
                Size { width: TIMESTAMP_WIDTH, height: TIMESTAMP_HEIGHT },
                TIMESTAMP_GAP,
            ),
        };
        Some(Overlay { thumbnail, timestamp })
    }
}

/// Where the parts of the scrubber are drawn.
#[derive(Clone, Copy, Debug, PartialEq, Eq, Structural)]
pub struct Rail {
    /// The part of the rail before the handle.
    pub filled: Rectangle,
    /// The part of the rail behind the handle.
    pub rest: Rectangle,
    /// The handle.
    pub handle: Rectangle,
}

/// Half of `v`, rounded down.
pub open spec fn half(v: int) -> int {
    v / 2
}

impl SliderModel {
    /// How far the handle stands from the left end of a track that is
    /// `track_width` wide, for a handle that is `handle_width` wide: the
    /// fraction of the range that lies below the value, times the room that
    /// the handle has to move in, to the nearest pixel. At the left end on
    /// a range without length.
    pub open spec fn handle_offset(self, track_width: int, handle_width: int) -> int {
        if self.range_start >= self.range_end {
            0
        } else {
            round_div((track_width - handle_width) * (self.value - self.range_start), self.span())
        }
    }

    /// Where the parts of the scrubber are drawn on a track that occupies
    /// `bounds`, with a handle of the size `handle` and a rail that is
    /// `rail_width` high. The rail runs along the middle of the track, and
    /// the handle is centred on it. The rail is cut in two at the middle
    /// of the handle. A coordinate that a pixel position cannot hold is
    /// limited to the nearest one that it can.
    pub open spec fn rail(self, bounds: Rectangle, handle: Size, rail_width: int) -> Rail {
        let offset = self.handle_offset(bounds.width as int, handle.width as int);
        let middle = bounds.y + half(bounds.height as int);
        let cut = offset + half(handle.width as int);
        Rail {
            filled: Rectangle {
                x: bounds.x,
                y: clamp_coordinate(middle - half(rail_width)) as i32,
                width: clamp_coordinate(cut) as i32,
                height: clamp_coordinate(rail_width) as i32,
            },
            rest: Rectangle {
                x: clamp_coordinate(bounds.x + cut) as i32,
                y: clamp_coordinate(middle - half(rail_width)) as i32,
                width: clamp_coordinate(bounds.width - cut) as i32,
                height: clamp_coordinate(rail_width) as i32,
            },
            handle: Rectangle {
                x: clamp_coordinate(bounds.x + offset) as i32,
                y: clamp_coordinate(middle - half(handle.height as int)) as i32,
                width: handle.width,
                height: handle.height,
            },
        }
    }
}

/// The handle stays on the track: at the left end for the range start, at
/// the right end for the range end, and in between for every value.
pub proof fn lemma_handle_on_track(m: SliderModel, track_width: int, handle_width: int)
    requires
        m.wf(),
        handle_width <= track_width,
    ensures
        0 <= m.handle_offset(track_width, handle_width) <= track_width - handle_width,
        m.value == m.range_start ==> m.handle_offset(track_width, handle_width) == 0,
        m.value == m.range_end && m.range_start < m.range_end ==> m.handle_offset(
            track_width,
            handle_width,
        ) == track_width - handle_width,
{
    if m.range_start < m.range_end {
        let room = track_width - handle_width;
        let below = m.value - m.range_start;
        let span = m.span();
        assert(0 <= room * below <= room * span) by (nonlinear_arith)
            requires
                room >= 0,
                0 <= below <= span,
        ;
        lemma_round_div_multiple(room, span);
        lemma_round_div_multiple(0, span);
        assert(0 * span == 0);
        lemma_round_div_monotonic(0, room * below, span);
        lemma_round_div_monotonic(room * below, room * span, span);
        if below == 0 {
            assert(room * below == 0) by (nonlinear_arith)
                requires
                    below == 0,
            ;
        }
    }
}

/// Half of `v`, rounded down.
fn halve(v: i32) -> (h: i64)
    ensures
        h == half(v as int),
{
    if v >= 0 {
        v as i64 / 2
    } else {
        -((1 - v as i64) / 2)
    }
}

impl VideoSlider {
    /// How far the handle stands from the left end of the track.
    pub fn handle_offset(&self, track_width: i32, handle_width: i32) -> (offset: i64)
        requires
            self@.wf(),
        ensures
            offset == self@.handle_offset(track_width as int, handle_width as int),
            -0x1_0000_0000 <= offset <= 0x1_0000_0000,
            handle_width <= track_width ==> 0 <= offset <= track_width - handle_width,
    {
        proof {
            if handle_width <= track_width {
                lemma_handle_on_track(self@, track_width as int, handle_width as int);
            }
        }
        if self.range_start >= self.range_end {
            return 0;
        }
        let room: i128 = track_width as i128 - handle_width as i128;
        let below: i128 = self.value as i128 - self.range_start as i128;
        let span: i128 = self.range_end as i128 - self.range_start as i128;
        assert(-0x1_0000_0000 * 0x1_0000_0000_0000_0000 <= room * below <= 0x1_0000_0000
            * 0x1_0000_0000_0000_0000) by (nonlinear_arith)
            requires
                -0x1_0000_0000 <= room <= 0x1_0000_0000,
                0 <= below <= 0x1_0000_0000_0000_0000,
        ;
        let offset = round_div_i128(room * below, span);
        proof {
            // the offset is no further from zero than the room
            lemma_round_div_nearest((room * below) as int, span as int);
            assert(-0x1_0000_0000 <= offset <= 0x1_0000_0000) by (nonlinear_arith)
                requires
                    -span <= 2 * (room * below - offset * span) <= span,
                    -0x1_0000_0000 <= room <= 0x1_0000_0000,
                    0 <= below <= span,
                    span >= 1,
            ;
        }
        offset as i64
    }

    /// Where the parts of the scrubber are drawn.
    pub fn rail(&self, bounds: Rectangle, handle: Size, rail_width: i32) -> (rail: Rail)
        requires
            self@.wf(),
        ensures
            rail == self@.rail(bounds, handle, rail_width as int),
    {
        let offset = self.handle_offset(bounds.width, handle.width);
        let middle: i64 = bounds.y as i64 + halve(bounds.height);
        let cut: i64 = offset + halve(handle.width);
        let rail_y = saturate(middle - halve(rail_width));
        Rail {
            filled: Rectangle { x: bounds.x, y: rail_y, width: saturate(cut), height: rail_width },
            rest: Rectangle {
                x: saturate(bounds.x as i64 + cut),
                y: rail_y,
                width: saturate(bounds.width as i64 - cut),
                height: rail_width,
            },
            handle: Rectangle {
                x: saturate(bounds.x as i64 + offset),
                y: saturate(middle - halve(handle.height)),
                width: handle.width,
                height: handle.height,
            },
        }
    }
}

/// Every located value lies in the range.
pub proof fn lemma_locate_in_range(m: SliderModel, x: int, left: int, width: int)
    requires
        m.wf(),
    ensures
        m.range_start <= m.locate(x, left, width) <= m.range_end,
{
    if left < x < left + width {
        let num = (x - left) * m.span();
        let den = width * m.step;
        assert(num >= 0) by (nonlinear_arith)
            requires
                x - left > 0,
                m.span() >= 0,
                num == (x - left) * m.span(),
        ;
        assert(den > 0) by (nonlinear_arith)
            requires
                width > 0,
                m.step > 0,
                den == width * m.step,
        ;
        lemma_round_div_nearest(num, den);
        let steps = round_div(num, den);
        assert(steps * m.step >= 0) by (nonlinear_arith)
            requires
                steps >= 0,
                m.step > 0,
        ;
    }
}

/// A position at or before the left edge gives the range start, and one
/// past the left edge that is at or after the right edge gives the range
/// end.
pub proof fn lemma_locate_edges(m: SliderModel, x: int, left: int, width: int)
    ensures
        x <= left ==> m.locate(x, left, width) == m.range_start,
        left < x && x >= left + width ==> m.locate(x, left, width) == m.range_end,
{
}

/// Every located value is on the step grid, or is the range end.
pub proof fn lemma_locate_on_grid(m: SliderModel, x: int, left: int, width: int)
    requires
        m.wf(),
    ensures
        m.aligned(m.locate(x, left, width)) || m.locate(x, left, width) == m.range_end,
{
    if x <= left {
        assert(0int % m.step == 0);
    } else if left < x < left + width {
        let steps = round_div((x - left) * m.span(), width * m.step);
        lemma_multiple_aligned(steps, m.step);
    }
}

/// A whole number of steps leaves no remainder.
proof fn lemma_multiple_aligned(k: int, step: int)
    requires
        step > 0,
    ensures
        (k * step) % step == 0,
        (step * k) % step == 0,
{
    vstd::arithmetic::div_mod::lemma_mod_multiples_basic(k, step);
    assert(k * step == step * k) by (nonlinear_arith);
}

/// On the step grid, a nudge moves by exactly one step unless the range
/// bound is nearer, and then it stops at the bound.
pub proof fn lemma_nudge_aligned(m: SliderModel, v: int)
    requires
        m.wf(),
        m.aligned(v),
    ensures
        m.increment(v) == if v + m.step > m.range_end {
            m.range_end
        } else {
            v + m.step
        },
        m.decrement(v) == if v - m.step < m.range_start {
            m.range_start
        } else {
            v - m.step
        },
{
    let d = v - m.range_start;
    let k = d / m.step;
    vstd::arithmetic::div_mod::lemma_fundamental_div_mod(d, m.step);
    assert(d == m.step * k);
    assert(m.step * k == k * m.step) by (nonlinear_arith);
    lemma_round_div_multiple(k, m.step);
    assert(m.step * (k + 1) == m.step * k + m.step) by (nonlinear_arith);
    assert(m.step * (k - 1) == m.step * k - m.step) by (nonlinear_arith);
}

/// A step down and a step up again lead back to where one was, from every
/// grid point strictly inside the range.
pub proof fn lemma_step_round_trip(m: SliderModel, v: int)
    requires
        m.wf(),
        m.aligned(v),
        m.range_start < v < m.range_end,
    ensures
        m.increment(m.decrement(v)) == v,
{
    lemma_nudge_aligned(m, v);
    let d = v - m.range_start;
    let k = d / m.step;
    vstd::arithmetic::div_mod::lemma_fundamental_div_mod(d, m.step);
    assert(d == m.step * k);
    assert(k >= 1) by (nonlinear_arith)
        requires
            d == m.step * k,
            d > 0,
            m.step > 0,
    ;
    assert(m.step * k >= m.step) by (nonlinear_arith)
        requires
            k >= 1,
            m.step > 0,
    ;
    let below = v - m.step;
    assert(m.decrement(v) == below);
    assert(below - m.range_start == (k - 1) * m.step) by (nonlinear_arith)
        requires
            below - m.range_start == m.step * k - m.step,
    ;
    lemma_multiple_aligned(k - 1, m.step);
    lemma_nudge_aligned(m, below);
}

/// Every nudged value is on the step grid, or is the range bound on its
/// side: the range end after a step up, the range start after a step down.
pub proof fn lemma_nudge_on_grid(m: SliderModel, v: int)
    requires
        m.wf(),
    ensures
        m.aligned(m.increment(v)) || m.increment(v) == m.range_end,
        m.aligned(m.decrement(v)) || m.decrement(v) == m.range_start,
{
    let nearest = round_div(v - m.range_start, m.step);
    lemma_multiple_aligned(nearest + 1, m.step);
    lemma_multiple_aligned(nearest - 1, m.step);
}

/// A nudge never leaves the range, and at a range bound the nudge towards
/// that bound stays there.
pub proof fn lemma_nudge_in_range(m: SliderModel, v: int)
    requires
        m.wf(),
        m.range_start <= v <= m.range_end,
    ensures
        m.range_start <= m.increment(v) <= m.range_end,
        m.range_start <= m.decrement(v) <= m.range_end,
        v == m.range_end ==> m.increment(v) == m.range_end,
        v == m.range_start ==> m.decrement(v) == m.range_start,
{
    let d = v - m.range_start;
    let q = round_div(d, m.step);
    lemma_round_div_nearest(d, m.step);
    assert(m.step * (q + 1) == q * m.step + m.step) by (nonlinear_arith);
    assert(m.step * (q - 1) == q * m.step - m.step) by (nonlinear_arith);
    assert(q * m.step >= 0) by (nonlinear_arith)
        requires
            q >= 0,
            m.step > 0,
    ;
    if v == m.range_start {
        assert(q == 0) by {
            lemma_round_div_multiple(0, m.step);
            assert(0 * m.step == 0);
        }
    }
}

/// No event takes the value out of the range or off the step grid's
/// reach: the scrubber stays well formed.
pub proof fn lemma_value_stays_in_range(
    m: SliderModel,
    state: StateModel,
    event: Event,
    bounds: Rectangle,
    cursor: Option<Point>,
)
    requires
        m.wf(),
    ensures
        m.after(state, event, bounds, cursor).wf(),
        m.range_start <= m.after(state, event, bounds, cursor).value <= m.range_end,
{
    lemma_nudge_in_range(m, m.value);
    if let Some(p) = cursor {
        lemma_locate_in_range(m, p.x as int, bounds.x as int, bounds.width as int);
    }
}

/// While a drag is under way, a move of the cursor takes the value under
/// it, wherever the cursor is, and the drag goes on.
pub proof fn lemma_drag_follows_cursor(
    m: SliderModel,
    state: StateModel,
    bounds: Rectangle,
    position: Point,
)
    requires
        state.is_dragging,
    ensures
        m.state_after(state, Event::CursorMoved, bounds, Some(position)).is_dragging,
        m.after(state, Event::CursorMoved, bounds, Some(position)).value == m.locate(
            position.x as int,
            bounds.x as int,
            bounds.width as int,
        ),
        m.outcome(state, Event::CursorMoved, bounds, Some(position)).captured,
{
}

/// A release is announced for the drag that it ends, and not again: after
/// a release no drag is under way, wherever the cursor is, and a second
/// release announces nothing.
pub proof fn lemma_release_announced_once(
    m: SliderModel,
    state: StateModel,
    bounds: Rectangle,
    first: Option<Point>,
    second: Option<Point>,
)
    ensures
        m.outcome(state, Event::ButtonReleased, bounds, first).released == state.is_dragging,
        !m.state_after(state, Event::ButtonReleased, bounds, first).is_dragging,
        !m.after(state, Event::ButtonReleased, bounds, first).outcome(
            m.state_after(state, Event::ButtonReleased, bounds, first),
            Event::ButtonReleased,
            bounds,
            second,
        ).released,
{
}

/// A change is announced only for a value that differs from the current
/// one, and the announced value is the new value.
pub proof fn lemma_change_is_a_change(
    m: SliderModel,
    state: StateModel,
    event: Event,
    bounds: Rectangle,
    cursor: Option<Point>,
)
    ensures
        match m.outcome(state, event, bounds, cursor).change {
            Some(v) => v != m.value && m.after(state, event, bounds, cursor).value == v,
            None => m.after(state, event, bounds, cursor).value == m.value,
        },
{
}

} // verus!
