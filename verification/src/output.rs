//! Everything that lives on one display: the sensor along its top edge, the
//! sensor along its bottom edge and, while it is shown, the clock.

use vstd::prelude::*;
use crate::border::{self, Border, Position};
use crate::clock::{self, Clock};
use crate::platform::{
    creates, destroys, destroys_once, DisplayId, Effect, IdSource, PointerEvent, Step,
    Subscription, SurfaceHandle, TimerHandle, Visual, VisualView,
};
use crate::time::{formatted, ClockTime};

verus! {

/// What a display's widgets are told.
///
/// `MouseEvent` carries a pointer event and the surface it happened on.
/// `Border` and `Clock` address one sensor and the clock directly. `ShowClock`
/// asks for the clock to be there.
#[derive(Debug, Clone, Copy, PartialEq, Eq, Structural)]
pub enum Message {
    Ignore,
    ShowClock,
    Clock(clock::Message),
    MouseEvent(PointerEvent, SurfaceHandle),
    Border(Position, border::Message),
}

/// The widgets of one display.
///
/// The two sensors are there from the first moment to the last. The clock is
/// there exactly while it is shown or counting down towards closing: that
/// `clock` is `None` is what it means for the clock to be hidden.
#[derive(Debug, Clone, Copy, PartialEq, Eq, Structural)]
pub struct Output {
    pub border_top: Border,
    pub border_bottom: Border,
    pub clock: Option<Clock>,
    pub display: DisplayId,
}

impl Output {
    /// The widgets of a display that has just been attached: two sensors that
    /// have seen nothing, under the next two identities, and no clock.
    pub open spec fn created(display: DisplayId, ids: IdSource) -> Output {
        Output {
            border_top: Border::created(Position::Top, SurfaceHandle(ids.next)),
            border_bottom: Border::created(Position::Bottom, SurfaceHandle(ids.advanced(1).next)),
            clock: None,
            display,
        }
    }

    /// The requests that go with [`Output::created`]: the top strip, then the
    /// bottom strip.
    pub open spec fn creation(display: DisplayId, ids: IdSource) -> Seq<Effect> {
        seq![
            Effect::CreateSurface(Border::strip(display, Position::Top, SurfaceHandle(ids.next))),
            Effect::CreateSurface(
                Border::strip(display, Position::Bottom, SurfaceHandle(ids.advanced(1).next)),
            ),
        ]
    }

    /// One of the display's widgets has the surface `id`.
    pub open spec fn owns(self, id: SurfaceHandle) -> bool {
        ||| self.border_top.owns(id)
        ||| self.border_bottom.owns(id)
        ||| self.clock matches Some(clock) && clock.owns(id)
    }

    /// Each sensor lies along its own edge, the clock is on this display, and no
    /// two widgets share a surface.
    pub open spec fn wf(self) -> bool {
        &&& self.border_top.position == Position::Top
        &&& self.border_bottom.position == Position::Bottom
        &&& self.border_top.id != self.border_bottom.id
        &&& self.clock matches Some(clock) ==> {
            &&& clock.output == self.display
            &&& clock.id != self.border_top.id
            &&& clock.id != self.border_bottom.id
        }
    }

    /// Every surface and timer of the display is numbered below `bound`.
    pub open spec fn below(self, bound: u64) -> bool {
        &&& self.border_top.below(bound)
        &&& self.border_bottom.below(bound)
        &&& self.clock matches Some(clock) ==> clock.below(bound)
    }

    /// The sensor along `position`.
    pub open spec fn border(self, position: Position) -> Border {
        match position {
            Position::Top => self.border_top,
            Position::Bottom => self.border_bottom,
        }
    }

    /// The display with `sensor` in place of its sensor along `position`.
    pub open spec fn with_border(self, position: Position, sensor: Border) -> Output {
        match position {
            Position::Top => Output { border_top: sensor, ..self },
            Position::Bottom => Output { border_bottom: sensor, ..self },
        }
    }

    /// The requests that take every surface of the display down: the top strip,
    /// the bottom strip, then the clock if there is one.
    pub open spec fn teardown(self) -> Seq<Effect> {
        let sensors = seq![
            Effect::DestroySurface(self.border_top.id),
            Effect::DestroySurface(self.border_bottom.id),
        ];
        match self.clock {
            Some(clock) => sensors.push(Effect::DestroySurface(clock.id)),
            None => sensors,
        }
    }

    /// Where a message to the clock leads. Without a clock nothing happens. A
    /// clock that is told to `Close` is gone afterwards.
    pub open spec fn tell_clock(self, message: clock::Message, ids: IdSource, now: ClockTime)
        -> Step<Output> {
        match self.clock {
            Some(clock) => {
                let told = clock.step(message, ids, now);
                Step {
                    state: Output {
                        clock: if message == clock::Message::Close {
                            None
                        } else {
                            Some(told.state)
                        },
                        ..self
                    },
                    effects: told.effects,
                    ids: told.ids,
                }
            },
            None => Step { state: self, effects: Seq::empty(), ids },
        }
    }

    /// Where asking for the clock leads. A clock that is there stays, and stops
    /// counting down towards closing. Otherwise a clock appears under the next
    /// identity, showing the moment `now`.
    pub open spec fn show_clock(self, ids: IdSource, now: ClockTime) -> Step<Output> {
        if self.clock is Some {
            self.tell_clock(clock::Message::StopCloseTimer, ids, now)
        } else {
            let id = SurfaceHandle(ids.next);
            Step {
                state: Output { clock: Some(Clock::created(self.display, id, now)), ..self },
                effects: seq![Effect::CreateSurface(Clock::surface(self.display, id))],
                ids: ids.advanced(1),
            }
        }
    }

    /// What the display acts on when the sensor along `position` is told
    /// `message`: the sensor's report on a pointer event, and `Entered` and
    /// `Left` themselves.
    pub open spec fn heard(self, position: Position, message: border::Message) -> Option<
        border::Message,
    > {
        match message {
            border::Message::MouseEvent(_) => self.border(position).signal(message),
            _ => Some(message),
        }
    }

    /// Where a message to the sensor along `position` leads. The sensor takes
    /// the message. When the bottom sensor is entered the clock is asked for,
    /// when it is left the clock starts counting down towards closing. The top
    /// sensor moves nothing but itself.
    pub open spec fn tell_border(
        self,
        position: Position,
        message: border::Message,
        ids: IdSource,
        now: ClockTime,
    ) -> Step<Output> {
        let moved = self.with_border(position, self.border(position).after(message));
        match (position, self.heard(position, message)) {
            (Position::Bottom, Some(border::Message::Entered)) => moved.show_clock(ids, now),
            (Position::Bottom, Some(border::Message::Left)) => moved.tell_clock(
                clock::Message::StartCloseTimer,
                ids,
                now,
            ),
            _ => Step { state: moved, effects: Seq::empty(), ids },
        }
    }

    /// Where `message` leads, given the identity source `ids` and the moment
    /// `now`. A pointer event goes to the sensor that has the surface, the top
    /// sensor first; on any other surface it is dropped.
    pub open spec fn step(self, message: Message, ids: IdSource, now: ClockTime) -> Step<Output> {
        match message {
            Message::MouseEvent(event, id) => {
                if self.border_top.owns(id) {
                    self.tell_border(Position::Top, border::Message::MouseEvent(event), ids, now)
                } else if self.border_bottom.owns(id) {
                    self.tell_border(
                        Position::Bottom,
                        border::Message::MouseEvent(event),
                        ids,
                        now,
                    )
                } else {
                    Step { state: self, effects: Seq::empty(), ids }
                }
            },
            Message::Border(position, message) => self.tell_border(position, message, ids, now),
            Message::Clock(message) => self.tell_clock(message, ids, now),
            Message::ShowClock => self.show_clock(ids, now),
            Message::Ignore => Step { state: self, effects: Seq::empty(), ids },
        }
    }

    /// What the surface `id` shows: nothing on a sensor, else the clock face if
    /// there is a clock, else nothing.
    pub open spec fn shown(self, id: SurfaceHandle) -> VisualView {
        if self.border_top.owns(id) || self.border_bottom.owns(id) {
            VisualView::Blank
        } else {
            match self.clock {
                Some(clock) => clock::face_of(
                    formatted(clock.date.secs as int, clock.date.offset as int, clock::time_pattern()),
                    formatted(clock.date.secs as int, clock.date.offset as int, clock::date_pattern()),
                ),
                None => VisualView::Blank,
            }
        }
    }

    /// Makes the widgets of a display that has just been attached and asks for
    /// the two sensor strips.
    pub fn new(output: DisplayId, ids: &mut IdSource) -> (made: (Output, Vec<Effect>))
        requires
            old(ids).can_supply(2),
        ensures
            made.0 == Output::created(output, *old(ids)),
            made.1@ == Output::creation(output, *old(ids)),
            *final(ids) == old(ids).advanced(2),
    {
        let (border_top, top_effect) = Border::new(output, Position::Top, ids);
        let (border_bottom, bottom_effect) = Border::new(output, Position::Bottom, ids);
        let mut effects: Vec<Effect> = Vec::new();
        effects.push(top_effect);
        effects.push(bottom_effect);
        (Output { border_top, border_bottom, clock: None, display: output }, effects)
    }

    /// Tells whether one of the display's widgets has the surface `id`.
    pub fn has(&self, id: SurfaceHandle) -> (found: bool)
        ensures
            found == self.owns(id),
    {
        if self.border_top.has(id) || self.border_bottom.has(id) {
            return true;
        }
        match &self.clock {
            Some(clock) => clock.has(id),
            None => false,
        }
    }

    /// While the clock is there it is told to `Update` every five seconds.
    pub fn subscription(&self) -> (tick: Option<Subscription<Message>>)
        ensures
            tick == if self.clock is Some {
                Some(
                    Subscription {
                        period_secs: clock::REFRESH_SECS,
                        message: Message::Clock(clock::Message::Update),
                    },
                )
            } else {
                None
            },
    {
        match &self.clock {
            Some(clock) => {
                let inner = clock.subscription();
                Some(
                    Subscription {
                        period_secs: inner.period_secs,
                        message: Message::Clock(inner.message),
                    },
                )
            },
            None => None,
        }
    }

    /// Feeds `message` to the display's widgets at the moment `now` and returns
    /// what the host has to do.
    pub fn update(&mut self, message: Message, ids: &mut IdSource, now: ClockTime) -> (effects:
        Vec<Effect>)
        requires
            old(ids).can_supply(1),
        ensures
            (Step { state: *final(self), effects: effects@, ids: *final(ids) }) == old(self).step(
                message,
                *old(ids),
                now,
            ),
    {
        match message {
            Message::MouseEvent(event, id) => {
                if self.border_top.has(id) {
                    self.update_border(Position::Top, border::Message::MouseEvent(event), ids, now)
                } else if self.border_bottom.has(id) {
                    self.update_border(
                        Position::Bottom,
                        border::Message::MouseEvent(event),
                        ids,
                        now,
                    )
                } else {
                    Vec::new()
                }
            },
            Message::Border(position, message) => self.update_border(position, message, ids, now),
            Message::Clock(message) => self.update_clock(message, ids, now),
            Message::ShowClock => self.show(ids, now),
            Message::Ignore => Vec::new(),
        }
    }

    /// Feeds `message` to the sensor along `position` and acts on what is heard.
    fn update_border(
        &mut self,
        position: Position,
        message: border::Message,
        ids: &mut IdSource,
        now: ClockTime,
    ) -> (effects: Vec<Effect>)
        requires
            old(ids).can_supply(1),
        ensures
            (Step { state: *final(self), effects: effects@, ids: *final(ids) })
                == old(self).tell_border(position, message, *old(ids), now),
    {
        let report = match position {
            Position::Top => self.border_top.update(message),
            Position::Bottom => self.border_bottom.update(message),
        };
        let heard = match message {
            border::Message::MouseEvent(_) => report,
            _ => Some(message),
        };
        match (position, heard) {
            (Position::Bottom, Some(border::Message::Entered)) => self.show(ids, now),
            (Position::Bottom, Some(border::Message::Left)) => self.update_clock(
                clock::Message::StartCloseTimer,
                ids,
                now,
            ),
            _ => Vec::new(),
        }
    }

    /// Feeds `message` to the clock, if there is one, and lets go of a clock that
    /// was told to close.
    fn update_clock(&mut self, message: clock::Message, ids: &mut IdSource, now: ClockTime) -> (effects:
        Vec<Effect>)
        requires
            old(ids).can_supply(1),
        ensures
            (Step { state: *final(self), effects: effects@, ids: *final(ids) })
                == old(self).tell_clock(message, *old(ids), now),
    {
        match self.clock {
            Some(mut clock) => {
                let effects = clock.update(message, ids, now);
                self.clock = match message {
                    clock::Message::Close => None,
                    _ => Some(clock),
                };
                effects
            },
            None => Vec::new(),
        }
    }

    /// Makes sure the clock is there: keeps the one that is, or makes one.
    fn show(&mut self, ids: &mut IdSource, now: ClockTime) -> (effects: Vec<Effect>)
        requires
            old(ids).can_supply(1),
        ensures
            (Step { state: *final(self), effects: effects@, ids: *final(ids) })
                == old(self).show_clock(*old(ids), now),
    {
        if self.clock.is_some() {
            return self.update_clock(clock::Message::StopCloseTimer, ids, now);
        }
        let (clock, effect) = Clock::new(self.display, ids, now);
        self.clock = Some(clock);
        let mut effects: Vec<Effect> = Vec::new();
        effects.push(effect);
        effects
    }

    /// What the surface `id` shows.
    pub fn view(&self, id: SurfaceHandle) -> (shown: Visual)
        ensures
            shown@ == self.shown(id),
    {
        if self.border_top.has(id) {
            return self.border_top.view();
        }
        if self.border_bottom.has(id) {
            return self.border_bottom.view();
        }
        match &self.clock {
            Some(clock) => clock.view(),
            None => Visual::Blank,
        }
    }

    /// Asks for every surface of the display to be taken down.
    pub fn destroy(&self) -> (effects: Vec<Effect>)
        ensures
            effects@ == self.teardown(),
    {
        let mut effects: Vec<Effect> = Vec::new();
        effects.push(self.border_top.destroy());
        effects.push(self.border_bottom.destroy());
        if let Some(clock) = &self.clock {
            effects.push(clock.destroy());
        }
        effects
    }
}

/// Well-formed widgets stay well formed, whatever they are told. They stay on
/// their display, take one identity at most, and the only surface they can gain
/// is the one under the next identity.
pub proof fn step_keeps_wf(output: Output, message: Message, ids: IdSource, now: ClockTime)
    requires
        output.wf(),
        output.below(ids.next),
        ids.can_supply(1),
    ensures
        ({
            let told = output.step(message, ids, now);
            &&& told.state.wf()
            &&& told.state.below(told.ids.next)
            &&& told.ids == ids || told.ids == ids.advanced(1)
            &&& told.state.display == output.display
            &&& forall|id: SurfaceHandle| #[trigger]
                told.state.owns(id) ==> output.owns(id) || id == SurfaceHandle(ids.next)
        }),
{
}

/// The surfaces that the widgets of a display have are the surfaces that were
/// asked for and not yet taken down: a step asks only for a surface that is new
/// and is had afterwards, takes down only a surface that was had and is gone
/// afterwards, never the same one twice, and every other surface is had
/// afterwards exactly if it was had before.
pub proof fn step_accounts_for_surfaces(
    output: Output,
    message: Message,
    ids: IdSource,
    now: ClockTime,
    id: SurfaceHandle,
)
    requires
        output.wf(),
        output.below(ids.next),
        ids.can_supply(1),
    ensures
        ({
            let told = output.step(message, ids, now);
            &&& creates(told.effects, id) ==> id == SurfaceHandle(ids.next) && !output.owns(id)
                && told.state.owns(id)
            &&& destroys(told.effects, id) ==> output.owns(id) && !told.state.owns(id)
            &&& !creates(told.effects, id) && !destroys(told.effects, id) ==> (told.state.owns(id)
                <==> output.owns(id))
            &&& destroys_once(told.effects)
        }),
{
    let told = output.step(message, ids, now);
    if output.owns(id) && !told.state.owns(id) {
        assert(told.effects[0] == Effect::DestroySurface(id));
    }
}

/// The pointer enters the bottom sensor of `output`.
pub open spec fn bottom_entered(output: Output) -> Message {
    Message::MouseEvent(PointerEvent::CursorEntered, output.border_bottom.id)
}

/// The pointer leaves the bottom sensor of `output`.
pub open spec fn bottom_left(output: Output) -> Message {
    Message::MouseEvent(PointerEvent::CursorLeft, output.border_bottom.id)
}

/// Entering the bottom sensor, leaving it and entering it again keeps the clock:
/// the second entry cancels the very timer that the leave has started and takes
/// no surface down, and when that timer then reports that it was cancelled,
/// nothing happens.
pub proof fn reentry_cancels_close_timer(
    output: Output,
    ids: IdSource,
    enter: ClockTime,
    leave: ClockTime,
    reenter: ClockTime,
    report: ClockTime,
)
    requires
        output.wf(),
        output.border_bottom.initial_entered,
    ensures
        ({
            let entered = output.step(bottom_entered(output), ids, enter);
            let left = entered.state.step(bottom_left(output), entered.ids, leave);
            let back = left.state.step(bottom_entered(output), left.ids, reenter);
            let timer = TimerHandle(entered.ids.next);
            let told = back.state.step(
                Message::Clock(clock::outcome_of(true)),
                back.ids,
                report,
            );
            &&& entered.state.clock is Some
            &&& left.effects.last() == (Effect::StartTimer {
                timer,
                millis: clock::CLOSE_DELAY_MILLIS,
                output: output.display,
            })
            &&& left.state.clock matches Some(clock) && clock.close_timer == Some(timer)
            &&& back.effects == seq![Effect::CancelTimer(timer)]
            &&& back.state.clock matches Some(clock) && clock.close_timer is None
            &&& told == (Step { state: back.state, effects: Seq::empty(), ids: back.ids })
        }),
{
}

/// Entering the bottom sensor while the clock is hidden, leaving it and letting
/// the timer run out shows the clock and takes it away again: the entry asks for
/// the clock's surface, the leave starts the timer, and the timer's report takes
/// that one surface down and leaves the display without a clock.
pub proof fn expired_close_timer_closes(
    output: Output,
    ids: IdSource,
    enter: ClockTime,
    leave: ClockTime,
    expiry: ClockTime,
)
    requires
        output.wf(),
        output.border_bottom.initial_entered,
        output.clock is None,
    ensures
        ({
            let entered = output.step(bottom_entered(output), ids, enter);
            let left = entered.state.step(bottom_left(output), entered.ids, leave);
            let closed = left.state.step(
                Message::Clock(clock::outcome_of(false)),
                left.ids,
                expiry,
            );
            let id = SurfaceHandle(ids.next);
            &&& entered.effects == seq![Effect::CreateSurface(Clock::surface(output.display, id))]
            &&& entered.state.clock == Some(Clock::created(output.display, id, enter))
            &&& left.effects == seq![
                Effect::StartTimer {
                    timer: TimerHandle(entered.ids.next),
                    millis: clock::CLOSE_DELAY_MILLIS,
                    output: output.display,
                },
            ]
            &&& closed.effects == seq![Effect::DestroySurface(id)]
            &&& closed.state.clock is None
            &&& closed.state.border_top == output.border_top
            &&& closed.state.border_bottom == entered.state.border_bottom
        }),
{
    let entered = output.step(bottom_entered(output), ids, enter);
    let left = entered.state.step(bottom_left(output), entered.ids, leave);
    assert(left.effects =~= seq![
        Effect::StartTimer {
            timer: TimerHandle(entered.ids.next),
            millis: clock::CLOSE_DELAY_MILLIS,
            output: output.display,
        },
    ]);
}

} // verus!
