//! Plain values that stand for what the windowing platform hands to the panel and
//! takes back from it: identities, pointer events, surface requests and timers.

use vstd::prelude::*;

verus! {

/// Identity of one physical display, valid for as long as the display is attached.
/// Only ever compared for equality.
#[derive(Clone, Copy, Debug, PartialEq, Eq, Hash, Structural)]
pub struct DisplayId(pub u64);

/// Identity of one on-screen surface. Only ever compared for equality.
#[derive(Clone, Copy, Debug, PartialEq, Eq, Hash, Structural)]
pub struct SurfaceHandle(pub u64);

/// Identity of one scheduled one-shot timer. Only ever compared for equality.
#[derive(Clone, Copy, Debug, PartialEq, Eq, Hash, Structural)]
pub struct TimerHandle(pub u64);

/// Hands out identities, each one once: `next` is the first number not yet given.
#[derive(Clone, Copy, Debug, PartialEq, Eq, Structural)]
pub struct IdSource {
    pub next: u64,
}

impl IdSource {
    /// `n` more identities can be handed out.
    pub open spec fn can_supply(self, n: nat) -> bool {
        self.next + n <= u64::MAX
    }

    /// The source after it has handed out `n` identities.
    pub open spec fn advanced(self, n: nat) -> IdSource {
        IdSource { next: (self.next + n) as u64 }
    }

    /// A source that has handed out nothing yet. Its first identity is 1.
    pub fn new() -> (ids: IdSource)
        ensures
            ids.next == 1,
    {
        IdSource { next: 1 }
    }

    /// Tells whether `n` more identities can be handed out.
    pub fn has_spare(&self, n: u64) -> (spare: bool)
        ensures
            spare == self.can_supply(n as nat),
    {
        n <= u64::MAX - self.next
    }

    /// Hands out the next identity.
    pub fn fresh(&mut self) -> (id: u64)
        requires
            old(self).can_supply(1),
        ensures
            id == old(self).next,
            *final(self) == old(self).advanced(1),
    {
        let id: u64 = self.next;
        self.next = id + 1;
        id
    }
}

/// What the pointer did on a surface. Everything but entering and leaving is
/// `Other`.
#[derive(Clone, Copy, Debug, PartialEq, Eq, Structural)]
pub enum PointerEvent {
    CursorEntered,
    CursorLeft,
    Other,
}

/// What happened to a display. Everything but appearing and disappearing is
/// `Other`.
#[derive(Clone, Copy, Debug, PartialEq, Eq, Structural)]
pub enum OutputEvent {
    Created,
    Removed,
    Other,
}

/// The display edges a surface is attached to.
#[derive(Clone, Copy, Debug, PartialEq, Eq, Structural)]
pub struct Anchor {
    pub top: bool,
    pub bottom: bool,
    pub left: bool,
    pub right: bool,
}

/// Whether a surface takes keyboard focus.
#[derive(Clone, Copy, Debug, PartialEq, Eq, Structural)]
pub enum KeyboardInteractivity {
    Never,
    OnDemand,
}

/// A request for one surface: where it sits, how large it is and which input it
/// takes. A missing width or height lets the surface span the anchored edges.
#[derive(Clone, Copy, Debug, PartialEq, Eq, Structural)]
pub struct SurfaceSettings {
    pub id: SurfaceHandle,
    pub output: DisplayId,
    pub anchor: Anchor,
    pub width: Option<u32>,
    pub height: Option<u32>,
    pub margin_bottom: i32,
    pub pointer_interactivity: bool,
    pub keyboard_interactivity: KeyboardInteractivity,
}

/// One thing the host has to do.
///
/// A timer started with `StartTimer` reports back exactly once, to the clock of
/// the display `output`: as a close request when it ran out, as a no-op when
/// `CancelTimer` reached it first.
#[derive(Clone, Copy, Debug, PartialEq, Eq, Structural)]
pub enum Effect {
    CreateSurface(SurfaceSettings),
    DestroySurface(SurfaceHandle),
    StartTimer { timer: TimerHandle, millis: u64, output: DisplayId },
    CancelTimer(TimerHandle),
}

/// `effects` asks for the surface `id` to be put up.
pub open spec fn creates(effects: Seq<Effect>, id: SurfaceHandle) -> bool {
    exists|i: int|
        0 <= i < effects.len() && (#[trigger] effects[i]) is CreateSurface
            && effects[i]->CreateSurface_0.id == id
}

/// `effects` asks for the surface `id` to be taken down.
pub open spec fn destroys(effects: Seq<Effect>, id: SurfaceHandle) -> bool {
    exists|i: int| 0 <= i < effects.len() && #[trigger] effects[i] == Effect::DestroySurface(id)
}

/// `effects` asks for no surface to be taken down twice.
pub open spec fn destroys_once(effects: Seq<Effect>) -> bool {
    forall|i: int, j: int|
        0 <= i < j < effects.len() && (#[trigger] effects[i]) is DestroySurface
            ==> effects[i] != #[trigger] effects[j]
}

/// A message the host has to deliver again and again, once per period, for as
/// long as the subscription is offered.
#[derive(Debug, PartialEq, Eq)]
pub struct Subscription<M> {
    pub period_secs: u64,
    pub message: M,
}

/// Where one step of a state machine leads: the state it leaves behind, what the
/// host has to do, in order, and what is left of the identity source.
pub struct Step<S> {
    pub state: S,
    pub effects: Seq<Effect>,
    pub ids: IdSource,
}

/// What a surface shows.
#[derive(Debug, PartialEq, Eq)]
pub enum Visual {
    /// Nothing at all.
    Blank,
    /// The time of day above the date.
    ClockFace { time: String, date: String },
}

/// A [`Visual`] with its texts as sequences of characters.
pub enum VisualView {
    Blank,
    ClockFace { time: Seq<char>, date: Seq<char> },
}

impl View for Visual {
    type V = VisualView;

    open spec fn view(&self) -> VisualView {
        match *self {
            Visual::Blank => VisualView::Blank,
            Visual::ClockFace { time, date } => VisualView::ClockFace { time: time@, date: date@ },
        }
    }
}

} // verus!
