//! The floating clock: a small surface near the bottom of a display that shows
//! the time and the date, and the timer that takes it away again.

use vstd::prelude::*;
use crate::platform::{
    Anchor, DisplayId, Effect, IdSource, KeyboardInteractivity, Step, Subscription,
    SurfaceHandle, SurfaceSettings, TimerHandle, Visual, VisualView,
};
use crate::time::{format_time, formatted, ClockTime};

verus! {

/// How long the clock stays once the pointer has left, in milliseconds.
pub const CLOSE_DELAY_MILLIS: u64 = 200;

/// How often the shown time is refreshed, in seconds.
pub const REFRESH_SECS: u64 = 5;

/// Width of the clock's surface.
pub const WIDTH: u32 = 200;

/// Height of the clock's surface.
pub const HEIGHT: u32 = 120;

/// Gap between the clock's surface and the bottom edge of the display.
pub const MARGIN_BOTTOM: i32 = 10;

/// What a clock is told.
///
/// `Close` and `Ignore` are the two ways a close timer reports back: `Close`
/// when it ran out, `Ignore` when it was cancelled first.
#[derive(Debug, Clone, Copy, PartialEq, Eq, Structural)]
pub enum Message {
    Ignore,
    StartCloseTimer,
    StopCloseTimer,
    Close,
    Update,
}

/// One clock. It exists exactly as long as it is on screen.
///
/// `output` is the display the clock is on, `date` the moment it shows, and
/// `close_timer` the timer that is counting down towards closing, if any.
#[derive(Debug, Clone, Copy, PartialEq, Eq, Structural)]
pub struct Clock {
    pub id: SurfaceHandle,
    pub output: DisplayId,
    pub date: ClockTime,
    pub close_timer: Option<TimerHandle>,
}

/// The strftime pattern of the upper line: hours and minutes.
pub open spec fn time_pattern() -> Seq<char> {
    "%H:%M"@
}

/// The strftime pattern of the lower line: weekday, day, month and year.
pub open spec fn date_pattern() -> Seq<char> {
    "%a, %e %b %G"@
}

/// The clock face made of two lines of text. A line that could not be written is
/// left empty.
pub open spec fn face_of(time: Option<Seq<char>>, date: Option<Seq<char>>) -> VisualView {
    VisualView::ClockFace {
        time: match time {
            Some(text) => text,
            None => Seq::empty(),
        },
        date: match date {
            Some(text) => text,
            None => Seq::empty(),
        },
    }
}

/// What a close timer reports when it is done: `Ignore` if it was cancelled,
/// `Close` if it ran out.
pub open spec fn outcome_of(cancelled: bool) -> Message {
    if cancelled {
        Message::Ignore
    } else {
        Message::Close
    }
}

impl Clock {
    /// The surface requested for a clock: 200 by 120, centred along the bottom
    /// edge with a gap of 10, closed to pointer and keyboard.
    pub open spec fn surface(output: DisplayId, id: SurfaceHandle) -> SurfaceSettings {
        SurfaceSettings {
            id,
            output,
            anchor: Anchor { top: false, bottom: true, left: false, right: false },
            width: Some(WIDTH),
            height: Some(HEIGHT),
            margin_bottom: MARGIN_BOTTOM,
            pointer_interactivity: false,
            keyboard_interactivity: KeyboardInteractivity::Never,
        }
    }

    /// A clock that has just appeared on `output` at the moment `now`.
    pub open spec fn created(output: DisplayId, id: SurfaceHandle, now: ClockTime) -> Clock {
        Clock { id, output, date: now, close_timer: None }
    }

    /// The clock's surface is `id`.
    pub open spec fn owns(self, id: SurfaceHandle) -> bool {
        self.id == id
    }

    /// The clock's surface and its timer are numbered below `bound`.
    pub open spec fn below(self, bound: u64) -> bool {
        &&& self.id.0 < bound
        &&& self.close_timer matches Some(timer) ==> timer.0 < bound
    }

    /// Where `message` leads, given the identity source `ids` and the moment
    /// `now`.
    ///
    /// * `Update` shows the moment `now`.
    /// * `StartCloseTimer` cancels the timer that is counting down, if any, and
    ///   starts a new one of 200 ms under the next identity.
    /// * `StopCloseTimer` cancels the timer that is counting down, if any.
    /// * `Close` asks for the surface to be taken down.
    /// * `Ignore` does nothing.
    pub open spec fn step(self, message: Message, ids: IdSource, now: ClockTime) -> Step<Clock> {
        match message {
            Message::Update => Step {
                state: Clock { date: now, ..self },
                effects: Seq::empty(),
                ids,
            },
            Message::Close => Step {
                state: self,
                effects: seq![Effect::DestroySurface(self.id)],
                ids,
            },
            Message::StartCloseTimer => {
                let timer = TimerHandle(ids.next);
                let start = Effect::StartTimer {
                    timer,
                    millis: CLOSE_DELAY_MILLIS,
                    output: self.output,
                };
                Step {
                    state: Clock { close_timer: Some(timer), ..self },
                    effects: match self.close_timer {
                        Some(pending) => seq![Effect::CancelTimer(pending), start],
                        None => seq![start],
                    },
                    ids: ids.advanced(1),
                }
            },
            Message::StopCloseTimer => Step {
                state: Clock { close_timer: None, ..self },
                effects: match self.close_timer {
                    Some(pending) => seq![Effect::CancelTimer(pending)],
                    None => Seq::empty(),
                },
                ids,
            },
            Message::Ignore => Step { state: self, effects: Seq::empty(), ids },
        }
    }

    /// Makes a clock for `output` that shows the moment `now`, and asks for its
    /// surface.
    pub fn new(output: DisplayId, ids: &mut IdSource, now: ClockTime) -> (made: (Clock, Effect))
        requires
            old(ids).can_supply(1),
        ensures
            made.0 == Clock::created(output, SurfaceHandle(old(ids).next), now),
            made.1 == Effect::CreateSurface(Clock::surface(output, SurfaceHandle(old(ids).next))),
            *final(ids) == old(ids).advanced(1),
    {
        let id = SurfaceHandle(ids.fresh());
        let settings = SurfaceSettings {
            id,
            output,
            anchor: Anchor { top: false, bottom: true, left: false, right: false },
            width: Some(WIDTH),
            height: Some(HEIGHT),
            margin_bottom: MARGIN_BOTTOM,
            pointer_interactivity: false,
            keyboard_interactivity: KeyboardInteractivity::Never,
        };
        (Clock { id, output, date: now, close_timer: None }, Effect::CreateSurface(settings))
    }

    /// Tells whether `id` is the clock's surface.
    pub fn has(&self, id: SurfaceHandle) -> (found: bool)
        ensures
            found == self.owns(id),
    {
        self.id.0 == id.0
    }

    /// A clock is told to `Update` every five seconds.
    pub fn subscription(&self) -> (tick: Subscription<Message>)
        ensures
            tick == (Subscription { period_secs: REFRESH_SECS, message: Message::Update }),
    {
        Subscription { period_secs: REFRESH_SECS, message: Message::Update }
    }

    /// Feeds `message` to the clock at the moment `now` and returns what the host
    /// has to do.
    pub fn update(&mut self, message: Message, ids: &mut IdSource, now: ClockTime) -> (effects: Vec<
        Effect,
    >)
        requires
            old(ids).can_supply(1),
        ensures
            (Step { state: *final(self), effects: effects@, ids: *final(ids) }) == old(self).step(
                message,
                *old(ids),
                now,
            ),
    {
        let mut effects: Vec<Effect> = Vec::new();
        match message {
            Message::Update => {
                self.date = now;
            },
            Message::Close => {
                effects.push(self.destroy());
            },
            Message::StartCloseTimer => {
                if let Some(pending) = self.close_timer {
                    effects.push(Effect::CancelTimer(pending));
                }
                let (start, timer) = close_timer(self.output, ids);
                self.close_timer = Some(timer);
                effects.push(start);
            },
            Message::StopCloseTimer => {
                if let Some(pending) = self.close_timer {
                    effects.push(Effect::CancelTimer(pending));
                }
                self.close_timer = None;
            },
            Message::Ignore => {},
        }
        assert(effects@ =~= old(self).step(message, *old(ids), now).effects);
        effects
    }

    /// The clock face: the shown moment as hours and minutes, and below it as
    /// weekday, day, month and year.
    pub fn view(&self) -> (shown: Visual)
        ensures
            shown@ == face_of(
                formatted(self.date.secs as int, self.date.offset as int, time_pattern()),
                formatted(self.date.secs as int, self.date.offset as int, date_pattern()),
            ),
    {
        let time = format_time(self.date, "%H:%M");
        let date = format_time(self.date, "%a, %e %b %G");
        face(time, date)
    }

    /// Asks for the clock's surface to be taken down.
    pub fn destroy(&self) -> (effect: Effect)
        ensures
            effect == Effect::DestroySurface(self.id),
    {
        Effect::DestroySurface(self.id)
    }
}

/// Puts two lines of text on a clock face. A missing line is left empty.
pub fn face(time: Option<String>, date: Option<String>) -> (shown: Visual)
    ensures
        shown@ == face_of(
            match time {
                Some(text) => Some(text@),
                None => None,
            },
            match date {
                Some(text) => Some(text@),
                None => None,
            },
        ),
{
    let time = match time {
        Some(text) => text,
        None => String::new(),
    };
    let date = match date {
        Some(text) => text,
        None => String::new(),
    };
    Visual::ClockFace { time, date }
}

/// Takes the next identity for a close timer and asks for that timer to be
/// started on behalf of the clock on `output`.
pub fn close_timer(output: DisplayId, ids: &mut IdSource) -> (started: (Effect, TimerHandle))
    requires
        old(ids).can_supply(1),
    ensures
        started.1 == TimerHandle(old(ids).next),
        started.0 == (Effect::StartTimer {
            timer: started.1,
            millis: CLOSE_DELAY_MILLIS,
            output,
        }),
        *final(ids) == old(ids).advanced(1),
{
    let timer = TimerHandle(ids.fresh());
    (Effect::StartTimer { timer, millis: CLOSE_DELAY_MILLIS, output }, timer)
}

/// Turns the way a close timer ended into the message it reports: `Ignore` if
/// it was cancelled, `Close` if it ran out.
pub fn timer_outcome(cancelled: bool) -> (message: Message)
    ensures
        message == outcome_of(cancelled),
{
    if cancelled {
        Message::Ignore
    } else {
        Message::Close
    }
}

} // verus!
