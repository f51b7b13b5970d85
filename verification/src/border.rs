//! A hover sensor: a thin strip along one edge of a display that reports when the
//! pointer really enters and leaves it.

use vstd::prelude::*;
use crate::platform::{
    Anchor, DisplayId, Effect, IdSource, KeyboardInteractivity, PointerEvent, SurfaceHandle,
    SurfaceSettings, Visual,
};

verus! {

/// Thickness of a sensor strip.
pub const THICKNESS: u32 = 10;

/// The edge a sensor lies along.
#[derive(Debug, Clone, Copy, PartialEq, Eq, Structural)]
pub enum Position {
    Top,
    Bottom,
}

/// What goes into a sensor and what comes out of it: pointer events go in,
/// `Entered` and `Left` come out.
#[derive(Debug, Clone, Copy, PartialEq, Eq, Structural)]
pub enum Message {
    Entered,
    Left,
    MouseEvent(PointerEvent),
}

/// One hover sensor.
///
/// The platform reports the pointer as entering a surface as soon as the surface
/// appears; `initial_entered` records that this first report has been swallowed.
/// `active` records that a real entry has been reported since.
#[derive(Debug, Clone, Copy, PartialEq, Eq, Structural)]
pub struct Border {
    pub id: SurfaceHandle,
    pub position: Position,
    pub initial_entered: bool,
    pub active: bool,
}

impl Border {
    /// The strip requested for a sensor: ten units thick, spanning the whole
    /// width of the display along `position`, open to the pointer.
    pub open spec fn strip(output: DisplayId, position: Position, id: SurfaceHandle)
        -> SurfaceSettings {
        SurfaceSettings {
            id,
            output,
            anchor: Anchor {
                top: position == Position::Top,
                bottom: position == Position::Bottom,
                left: true,
                right: true,
            },
            width: None,
            height: Some(THICKNESS),
            margin_bottom: 0,
            pointer_interactivity: true,
            keyboard_interactivity: KeyboardInteractivity::OnDemand,
        }
    }

    /// A sensor that has seen nothing yet.
    pub open spec fn created(position: Position, id: SurfaceHandle) -> Border {
        Border { id, position, initial_entered: false, active: false }
    }

    /// The sensor's surface is `id`.
    pub open spec fn owns(self, id: SurfaceHandle) -> bool {
        self.id == id
    }

    /// The sensor's surface is numbered below `bound`.
    pub open spec fn below(self, bound: u64) -> bool {
        self.id.0 < bound
    }

    /// What the sensor reports on `message`.
    ///
    /// The first entry ever is swallowed, every later one is reported. A leave is
    /// reported once an entry has been. Nothing else is reported.
    pub open spec fn signal(self, message: Message) -> Option<Message> {
        match message {
            Message::MouseEvent(PointerEvent::CursorEntered) if self.initial_entered => Some(
                Message::Entered,
            ),
            Message::MouseEvent(PointerEvent::CursorLeft) if self.active => Some(Message::Left),
            _ => None,
        }
    }

    /// The sensor after `message`.
    ///
    /// An entry sets `initial_entered` when it is the first and `active` when it
    /// is not. Nothing ever clears either flag: a second leave in a row is
    /// reported like the first.
    pub open spec fn after(self, message: Message) -> Border {
        match message {
            Message::MouseEvent(PointerEvent::CursorEntered) => Border {
                initial_entered: true,
                active: self.active || self.initial_entered,
                ..self
            },
            _ => self,
        }
    }

    /// Makes a sensor for the `position` edge of `output` and asks for its strip.
    pub fn new(output: DisplayId, position: Position, ids: &mut IdSource) -> (made: (Border, Effect))
        requires
            old(ids).can_supply(1),
        ensures
            made.0 == Border::created(position, SurfaceHandle(old(ids).next)),
            made.1 == Effect::CreateSurface(
                Border::strip(output, position, SurfaceHandle(old(ids).next)),
            ),
            *final(ids) == old(ids).advanced(1),
    {
        let id = SurfaceHandle(ids.fresh());
        let (top, bottom) = match position {
            Position::Top => (true, false),
            Position::Bottom => (false, true),
        };
        let settings = SurfaceSettings {
            id,
            output,
            anchor: Anchor { top, bottom, left: true, right: true },
            width: None,
            height: Some(THICKNESS),
            margin_bottom: 0,
            pointer_interactivity: true,
            keyboard_interactivity: KeyboardInteractivity::OnDemand,
        };
        let border = Border { id, position, initial_entered: false, active: false };
        (border, Effect::CreateSurface(settings))
    }

    /// Tells whether `id` is the sensor's surface.
    pub fn has(&self, id: SurfaceHandle) -> (found: bool)
        ensures
            found == self.owns(id),
    {
        self.id.0 == id.0
    }

    /// Feeds `message` to the sensor and returns what it reports.
    pub fn update(&mut self, message: Message) -> (report: Option<Message>)
        ensures
            *final(self) == old(self).after(message),
            report == old(self).signal(message),
    {
        match message {
            Message::MouseEvent(PointerEvent::CursorEntered) => {
                if !self.initial_entered {
                    self.initial_entered = true;
                    return None;
                }
                self.active = true;
                Some(Message::Entered)
            },
            Message::MouseEvent(PointerEvent::CursorLeft) => {
                if !self.active {
                    return None;
                }
                Some(Message::Left)
            },
            _ => None,
        }
    }

    /// A sensor shows nothing.
    pub fn view(&self) -> (shown: Visual)
        ensures
            shown@ == crate::platform::VisualView::Blank,
    {
        Visual::Blank
    }

    /// Asks for the sensor's strip to be taken down.
    pub fn destroy(&self) -> (effect: Effect)
        ensures
            effect == Effect::DestroySurface(self.id),
    {
        Effect::DestroySurface(self.id)
    }
}

/// A new sensor swallows the first entry and reports the second, whether or not
/// the pointer is reported as leaving in between.
pub proof fn first_entry_is_swallowed(position: Position, id: SurfaceHandle, between: Seq<Message>)
    requires
        forall|i: int| 0 <= i < between.len() ==> between[i] != Message::MouseEvent(
            PointerEvent::CursorEntered,
        ),
    ensures
        Border::created(position, id).signal(Message::MouseEvent(PointerEvent::CursorEntered))
            is None,
        replay(
            Border::created(position, id).after(Message::MouseEvent(PointerEvent::CursorEntered)),
            between,
        ).signal(Message::MouseEvent(PointerEvent::CursorEntered)) == Some(Message::Entered),
{
    let first = Border::created(position, id).after(
        Message::MouseEvent(PointerEvent::CursorEntered),
    );
    replay_keeps_first_entry(first, between);
}

/// The sensor after each of `messages` in turn.
pub open spec fn replay(sensor: Border, messages: Seq<Message>) -> Border
    decreases messages.len(),
{
    if messages.len() == 0 {
        sensor
    } else {
        replay(sensor.after(messages[0]), messages.drop_first())
    }
}

/// Once the first entry has been swallowed it stays swallowed.
pub proof fn replay_keeps_first_entry(sensor: Border, messages: Seq<Message>)
    requires
        sensor.initial_entered,
    ensures
        replay(sensor, messages).initial_entered,
    decreases messages.len(),
{
    if messages.len() > 0 {
        replay_keeps_first_entry(sensor.after(messages[0]), messages.drop_first());
    }
}

} // verus!
