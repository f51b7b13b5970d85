//! All displays at once: the registry of attached displays and the routing of
//! every incoming message to the display it belongs to.

use std::collections::HashMap;
use vstd::prelude::*;
use crate::clock;
use crate::output::{self, Output};
use crate::platform::{
    creates, destroys, destroys_once, DisplayId, Effect, IdSource, OutputEvent, PointerEvent,
    Subscription, SurfaceHandle, Visual, VisualView,
};
use crate::time::{local_now, ClockTime};

verus! {

/// What the panel is told.
///
/// `WaylandOutputEvent` reports what happened to a display. `MouseEvent`
/// carries a pointer event and the surface it happened on. `Output` addresses
/// the widgets of one display directly; ticks and timers report back this way.
#[derive(Debug, Clone, Copy, PartialEq, Eq, Structural)]
pub enum Message {
    Ignore,
    Output(DisplayId, output::Message),
    WaylandOutputEvent(OutputEvent, DisplayId),
    MouseEvent(PointerEvent, SurfaceHandle),
}

/// The panel as a mathematical value: the widgets of every attached display,
/// keyed by the display's number, and the identity source.
pub struct Registry {
    pub outputs: Map<u64, Output>,
    pub ids: IdSource,
}

/// Where one message leads the panel: the registry it leaves behind and what the
/// host has to do, in order.
pub struct Turn {
    pub registry: Registry,
    pub effects: Seq<Effect>,
}

impl Registry {
    /// The display numbered `display` is attached and has the surface `id`.
    pub open spec fn holds(self, display: u64, id: SurfaceHandle) -> bool {
        self.outputs.contains_key(display) && self.outputs[display].owns(id)
    }

    /// The display that has the surface `id`, if any has.
    pub open spec fn owner(self, id: SurfaceHandle) -> Option<u64> {
        if exists|display: u64| self.holds(display, id) {
            Some(choose|display: u64| self.holds(display, id))
        } else {
            None
        }
    }

    /// Every attached display is filed under its own number, its widgets are
    /// well formed and numbered below the next identity, and no surface belongs
    /// to two displays.
    pub open spec fn wf(self) -> bool {
        &&& forall|display: u64| #[trigger]
            self.outputs.contains_key(display) ==> {
                &&& self.outputs[display].display == DisplayId(display)
                &&& self.outputs[display].wf()
                &&& self.outputs[display].below(self.ids.next)
            }
        &&& forall|first: u64, second: u64, id: SurfaceHandle|
            #![trigger self.holds(first, id), self.holds(second, id)]
            self.holds(first, id) && self.holds(second, id) ==> first == second
    }

    /// Some attached display has the surface `id`.
    pub open spec fn owned(self, id: SurfaceHandle) -> bool {
        exists|display: u64| self.holds(display, id)
    }

    /// Nothing happens.
    pub open spec fn idle(self) -> Turn {
        Turn { registry: self, effects: Seq::empty() }
    }

    /// Where the attaching of `display` leads. A display that is attached
    /// already stays as it is. Otherwise its widgets are made and filed.
    pub open spec fn attach(self, display: DisplayId) -> Turn {
        if self.outputs.contains_key(display.0) {
            self.idle()
        } else {
            Turn {
                registry: Registry {
                    outputs: self.outputs.insert(display.0, Output::created(display, self.ids)),
                    ids: self.ids.advanced(2),
                },
                effects: Output::creation(display, self.ids),
            }
        }
    }

    /// Where the detaching of `display` leads. Its widgets are taken out of the
    /// registry and all their surfaces are taken down. Nothing happens for a
    /// display that is not attached.
    pub open spec fn detach(self, display: DisplayId) -> Turn {
        if self.outputs.contains_key(display.0) {
            Turn {
                registry: Registry { outputs: self.outputs.remove(display.0), ids: self.ids },
                effects: self.outputs[display.0].teardown(),
            }
        } else {
            self.idle()
        }
    }

    /// Where a message to the widgets of `display` leads. Nothing happens for a
    /// display that is not attached.
    pub open spec fn tell(self, display: DisplayId, message: output::Message, now: ClockTime)
        -> Turn {
        if self.outputs.contains_key(display.0) {
            let told = self.outputs[display.0].step(message, self.ids, now);
            Turn {
                registry: Registry {
                    outputs: self.outputs.insert(display.0, told.state),
                    ids: told.ids,
                },
                effects: told.effects,
            }
        } else {
            self.idle()
        }
    }

    /// Where a pointer event on the surface `id` leads: to the display that has
    /// the surface. Nothing happens when no display has it.
    pub open spec fn pointer(self, event: PointerEvent, id: SurfaceHandle, now: ClockTime)
        -> Turn {
        match self.owner(id) {
            Some(display) => self.tell(
                DisplayId(display),
                output::Message::MouseEvent(event, id),
                now,
            ),
            None => self.idle(),
        }
    }

    /// Where `message` leads at the moment `now`.
    pub open spec fn step(self, message: Message, now: ClockTime) -> Turn {
        match message {
            Message::MouseEvent(event, id) => self.pointer(event, id, now),
            Message::WaylandOutputEvent(OutputEvent::Created, display) => self.attach(display),
            Message::WaylandOutputEvent(OutputEvent::Removed, display) => self.detach(display),
            Message::WaylandOutputEvent(OutputEvent::Other, _) => self.idle(),
            Message::Output(display, message) => self.tell(display, message, now),
            Message::Ignore => self.idle(),
        }
    }

    /// What the surface `id` shows: what its display shows on it, and nothing
    /// when no display has it.
    pub open spec fn shown(self, id: SurfaceHandle) -> VisualView {
        match self.owner(id) {
            Some(display) => self.outputs[display].shown(id),
            None => VisualView::Blank,
        }
    }

    /// The tick that keeps the clock of the display numbered `display` up to date.
    pub open spec fn tick(display: u64) -> Subscription<Message> {
        Subscription {
            period_secs: clock::REFRESH_SECS,
            message: Message::Output(
                DisplayId(display),
                output::Message::Clock(clock::Message::Update),
            ),
        }
    }

    /// The display numbered `display` is attached and shows its clock.
    pub open spec fn ticking(self, display: u64) -> bool {
        self.outputs.contains_key(display) && self.outputs[display].clock is Some
    }

    /// `tick` keeps the clock of an attached display up to date.
    pub open spec fn wants(self, tick: Subscription<Message>) -> bool {
        exists|display: u64| self.ticking(display) && tick == Registry::tick(display)
    }

    /// In a well-formed registry a surface has one owner at most, so whoever
    /// has it is its owner.
    pub proof fn owner_is_unique(self, display: u64, id: SurfaceHandle)
        requires
            self.wf(),
            self.holds(display, id),
        ensures
            self.owner(id) == Some(display),
    {
    }

    /// A surface that no attached display has is without an owner.
    pub proof fn owner_is_missing(self, id: SurfaceHandle)
        requires
            forall|display: u64| !self.holds(display, id),
        ensures
            self.owner(id) is None,
    {
    }
}

/// The panel: the widgets of every attached display, keyed by the display's
/// number, and the source of the identities of their surfaces and timers.
///
/// A panel is well formed at all times: see [`Registry::wf`].
#[derive(Debug)]
pub struct App {
    outputs: HashMap<u64, Output>,
    ids: IdSource,
}

impl App {
    /// The panel as a mathematical value.
    pub closed spec fn model(&self) -> Registry {
        Registry { outputs: self.outputs@, ids: self.ids }
    }

    #[verifier::type_invariant]
    spec fn well_formed(&self) -> bool {
        self.model().wf()
    }

    /// A panel without displays.
    pub fn new() -> (app: App)
        ensures
            app.model() == (Registry { outputs: Map::empty(), ids: IdSource { next: 1 } }),
            app.model().wf(),
    {
        App { outputs: HashMap::new(), ids: IdSource::new() }
    }

    /// The number of attached displays.
    pub fn len(&self) -> (count: usize)
        ensures
            count == self.model().outputs.len(),
            self.model().wf(),
    {
        broadcast use vstd::std_specs::hash::group_hash_axioms;

        proof {
            use_type_invariant(self);
        }
        self.outputs.len()
    }

    /// The widgets of `display`, if it is attached.
    pub fn output(&self, display: DisplayId) -> (found: Option<&Output>)
        ensures
            match found {
                Some(output) => self.model().outputs.contains_key(display.0)
                    && self.model().outputs[display.0] == *output,
                None => !self.model().outputs.contains_key(display.0),
            },
            self.model().wf(),
    {
        broadcast use vstd::std_specs::hash::group_hash_axioms;

        proof {
            use_type_invariant(self);
        }
        self.outputs.get(&display.0)
    }

    /// The source of the identities of surfaces and timers.
    pub fn ids(&self) -> (ids: IdSource)
        ensures
            ids == self.model().ids,
            self.model().wf(),
    {
        proof {
            use_type_invariant(self);
        }
        self.ids
    }

    /// Finds the display that has the surface `id`.
    pub fn owner_of(&self, id: SurfaceHandle) -> (found: Option<u64>)
        ensures
            found == self.model().owner(id),
            self.model().wf(),
    {
        broadcast use vstd::std_specs::hash::group_hash_axioms;

        proof {
            use_type_invariant(self);
        }
        for (display, output) in it: self.outputs.iter()
            invariant
                self.model().wf(),
                forall|i: int| 0 <= i < it.index() ==> !(#[trigger] it.seq()[i]).1.owns(id),
        {
            if output.has(id) {
                proof {
                    self.model().owner_is_unique(*display, id);
                }
                return Some(*display);
            }
        }
        proof {
            self.model().owner_is_missing(id);
        }
        None
    }

    /// What the surface `id` shows.
    pub fn view(&self, id: SurfaceHandle) -> (shown: Visual)
        ensures
            shown@ == self.model().shown(id),
            self.model().wf(),
    {
        broadcast use vstd::std_specs::hash::group_hash_axioms;

        match self.owner_of(id) {
            Some(display) => match self.outputs.get(&display) {
                Some(output) => output.view(id),
                None => Visual::Blank,
            },
            None => Visual::Blank,
        }
    }

    /// The ticks the host has to deliver: one for every display that shows its
    /// clock, in no particular order.
    pub fn subscription(&self) -> (ticks: Vec<Subscription<Message>>)
        ensures
            forall|i: int| 0 <= i < ticks@.len() ==> self.model().wants(#[trigger] ticks@[i]),
            forall|display: u64|
                self.model().ticking(display) ==> ticks@.contains(#[trigger] Registry::tick(display)),
            ticks@.no_duplicates(),
    {
        broadcast use vstd::std_specs::hash::group_hash_axioms;

        let mut ticks: Vec<Subscription<Message>> = Vec::new();
        let ghost mut picked: Seq<u64> = Seq::empty();
        let ghost mut places: Seq<int> = Seq::empty();
        for (display, output) in it: self.outputs.iter()
            invariant
                it.seq().no_duplicates(),
                forall|j: int|
                    0 <= j < it.seq().len() ==> self.outputs@.contains_key(
                        *(#[trigger] it.seq()[j]).0,
                    ) && self.outputs@[*it.seq()[j].0] == *it.seq()[j].1,
                forall|display: u64| #[trigger]
                    self.outputs@.contains_key(display) ==> it.seq().contains(
                        (&display, &self.outputs@[display]),
                    ),
                ticks@.len() == picked.len(),
                places.len() == picked.len(),
                forall|i: int|
                    0 <= i < picked.len() ==> #[trigger] ticks@[i] == Registry::tick(picked[i]),
                forall|i: int|
                    0 <= i < picked.len() ==> 0 <= #[trigger] places[i] < it.index()
                        && *it.seq()[places[i]].0 == picked[i] && it.seq()[places[i]].1.clock
                        is Some,
                forall|j: int|
                    0 <= j < it.index() && (#[trigger] it.seq()[j]).1.clock is Some
                        ==> picked.contains(*it.seq()[j].0),
                picked.no_duplicates(),
        {
            let ghost here = it.index();
            let ghost before = picked;
            if let Some(tick) = output.subscription() {
                proof {
                    assert forall|i: int| 0 <= i < picked.len() implies picked[i] != *display by {
                        if picked[i] == *display {
                            assert(it.seq()[places[i]] == it.seq()[here]);
                        }
                    }
                    picked = picked.push(*display);
                    places = places.push(here);
                    assert(picked[picked.len() - 1] == *display);
                }
                ticks.push(
                    Subscription {
                        period_secs: tick.period_secs,
                        message: Message::Output(DisplayId(*display), tick.message),
                    },
                );
            }
            proof {
                assert forall|j: int|
                    0 <= j < here + 1 && (#[trigger] it.seq()[j]).1.clock is Some implies picked.contains(
                    *it.seq()[j].0,
                ) by {
                    if j < here {
                        let i = choose|i: int| 0 <= i < before.len() && before[i] == *it.seq()[j].0;
                        assert(picked[i] == *it.seq()[j].0);
                    }
                }
            }
        }
        proof {
            assert forall|i: int| 0 <= i < ticks@.len() implies self.model().wants(
                #[trigger] ticks@[i],
            ) by {
                assert(0 <= places[i]);
            }
            assert forall|display: u64| self.model().ticking(display) implies ticks@.contains(
                #[trigger] Registry::tick(display),
            ) by {
                let i = choose|i: int| 0 <= i < picked.len() && picked[i] == display;
                assert(ticks@[i] == Registry::tick(display));
            }
        }
        ticks
    }

    /// Takes the widgets of all displays out of the panel, to be put back once
    /// they have been changed: the panel itself is well formed in between.
    fn take_outputs(&mut self) -> (outputs: HashMap<u64, Output>)
        ensures
            outputs@ == old(self).model().outputs,
            final(self).model() == (Registry { outputs: Map::empty(), ids: old(self).model().ids }),
    {
        let mut outputs: HashMap<u64, Output> = HashMap::new();
        core::mem::swap(&mut outputs, &mut self.outputs);
        outputs
    }

    /// Feeds `message` to the widgets of `display` at the moment `now`.
    fn tell(&mut self, display: DisplayId, message: output::Message, now: ClockTime) -> (effects:
        Vec<Effect>)
        requires
            old(self).model().ids.can_supply(1),
        ensures
            (Turn { registry: final(self).model(), effects: effects@ }) == old(self).model().tell(
                display,
                message,
                now,
            ),
    {
        broadcast use vstd::std_specs::hash::group_hash_axioms;

        proof {
            use_type_invariant(&*self);
            tell_keeps_wf(self.model(), display, message, now);
        }
        match self.outputs.get(&display.0) {
            Some(output) => {
                let mut output = *output;
                let mut ids = self.ids;
                let effects = output.update(message, &mut ids, now);
                let mut outputs = self.take_outputs();
                outputs.insert(display.0, output);
                *self = App { outputs, ids };
                effects
            },
            None => Vec::new(),
        }
    }

    /// Tells whether the panel has the two identities to spare that a message
    /// may take.
    pub fn can_update(&self) -> (spare: bool)
        ensures
            spare == self.model().ids.can_supply(2),
    {
        self.ids.has_spare(2)
    }

    /// Feeds `message` to the panel at the moment `now` and returns what the
    /// host has to do, in order.
    pub fn update_at(&mut self, message: Message, now: ClockTime) -> (effects: Vec<Effect>)
        requires
            old(self).model().ids.can_supply(2),
        ensures
            (Turn { registry: final(self).model(), effects: effects@ }) == old(self).model().step(
                message,
                now,
            ),
            old(self).model().wf(),
            final(self).model().wf(),
    {
        broadcast use vstd::std_specs::hash::group_hash_axioms;

        proof {
            use_type_invariant(&*self);
            step_keeps_wf(self.model(), message, now);
        }
        match message {
            Message::MouseEvent(event, id) => {
                match self.owner_of(id) {
                    Some(display) => self.tell(
                        DisplayId(display),
                        output::Message::MouseEvent(event, id),
                        now,
                    ),
                    None => Vec::new(),
                }
            },
            Message::WaylandOutputEvent(event, display) => {
                match event {
                    OutputEvent::Created => {
                        if self.outputs.contains_key(&display.0) {
                            return Vec::new();
                        }
                        let mut ids = self.ids;
                        let (output, effects) = Output::new(display, &mut ids);
                        let mut outputs = self.take_outputs();
                        outputs.insert(display.0, output);
                        *self = App { outputs, ids };
                        effects
                    },
                    OutputEvent::Removed => {
                        if !self.outputs.contains_key(&display.0) {
                            return Vec::new();
                        }
                        let ids = self.ids;
                        let mut outputs = self.take_outputs();
                        let removed = outputs.remove(&display.0);
                        *self = App { outputs, ids };
                        match removed {
                            Some(output) => output.destroy(),
                            None => Vec::new(),
                        }
                    },
                    OutputEvent::Other => Vec::new(),
                }
            },
            Message::Output(display, message) => self.tell(display, message, now),
            Message::Ignore => Vec::new(),
        }
    }

    /// Feeds `message` to the panel at the moment the local wall clock shows and
    /// returns what the host has to do, in order.
    pub fn update(&mut self, message: Message) -> (effects: Vec<Effect>)
        requires
            old(self).model().ids.can_supply(2),
        ensures
            exists|now: ClockTime|
                (Turn { registry: final(self).model(), effects: effects@ })
                    == #[trigger] old(self).model().step(message, now),
            old(self).model().wf(),
            final(self).model().wf(),
    {
        let now = local_now();
        self.update_at(message, now)
    }
}

/// The message by which a close timer of the clock on `output` reports that it
/// is done: a close request if it ran out, a no-op if it was cancelled first.
pub fn timer_report(output: DisplayId, cancelled: bool) -> (message: Message)
    ensures
        message == Message::Output(output, output::Message::Clock(clock::outcome_of(cancelled))),
{
    Message::Output(output, output::Message::Clock(clock::timer_outcome(cancelled)))
}

/// A well-formed registry stays well formed, whatever it is told.
pub proof fn step_keeps_wf(registry: Registry, message: Message, now: ClockTime)
    requires
        registry.wf(),
        registry.ids.can_supply(2),
    ensures
        registry.step(message, now).registry.wf(),
{
    let next = registry.step(message, now).registry;
    match message {
        Message::MouseEvent(event, id) => {
            match registry.owner(id) {
                Some(display) => {
                    tell_keeps_wf(
                        registry,
                        DisplayId(display),
                        output::Message::MouseEvent(event, id),
                        now,
                    );
                },
                None => {},
            }
        },
        Message::WaylandOutputEvent(OutputEvent::Created, display) => {
            if !registry.outputs.contains_key(display.0) {
                assert forall|first: u64, second: u64, id: SurfaceHandle|
                    next.holds(first, id) && next.holds(second, id) implies first == second by {
                    if first != display.0 {
                        assert(registry.holds(first, id));
                    }
                    if second != display.0 {
                        assert(registry.holds(second, id));
                    }
                }
            }
        },
        Message::WaylandOutputEvent(OutputEvent::Removed, display) => {
            assert forall|first: u64, second: u64, id: SurfaceHandle|
                next.holds(first, id) && next.holds(second, id) implies first == second by {
                assert(registry.holds(first, id));
                assert(registry.holds(second, id));
            }
        },
        Message::WaylandOutputEvent(OutputEvent::Other, _) => {},
        Message::Output(display, message) => {
            tell_keeps_wf(registry, display, message, now);
        },
        Message::Ignore => {},
    }
}

/// A well-formed registry stays well formed when the widgets of one display are
/// told something.
proof fn tell_keeps_wf(
    registry: Registry,
    display: DisplayId,
    message: output::Message,
    now: ClockTime,
)
    requires
        registry.wf(),
        registry.ids.can_supply(1),
    ensures
        registry.tell(display, message, now).registry.wf(),
{
    let next = registry.tell(display, message, now).registry;
    if registry.outputs.contains_key(display.0) {
        let before = registry.outputs[display.0];
        output::step_keeps_wf(before, message, registry.ids, now);
        assert forall|first: u64, second: u64, id: SurfaceHandle|
            next.holds(first, id) && next.holds(second, id) implies first == second by {
            if first != display.0 {
                assert(registry.holds(first, id));
            }
            if second != display.0 {
                assert(registry.holds(second, id));
            }
            if before.owns(id) {
                assert(registry.holds(display.0, id));
            }
        }
    }
}

/// Attaching a display twice in a row is attaching it once: the display is
/// attached after the first time, and the second time changes nothing and asks
/// for nothing. A display that was not attached before gets its two sensor
/// strips from the first time, so two surfaces are asked for in all.
pub proof fn attach_is_idempotent(registry: Registry, display: DisplayId, now: ClockTime)
    ensures
        ({
            let attached = Message::WaylandOutputEvent(OutputEvent::Created, display);
            let once = registry.step(attached, now);
            let twice = once.registry.step(attached, now);
            &&& once.registry.outputs.contains_key(display.0)
            &&& twice == once.registry.idle()
            &&& !registry.outputs.contains_key(display.0) ==> {
                &&& once.effects + twice.effects == Output::creation(display, registry.ids)
                &&& (once.effects + twice.effects).len() == 2
                &&& forall|i: int|
                    0 <= i < 2 ==> (#[trigger] (once.effects + twice.effects)[i]) is CreateSurface
            }
        }),
{
}

/// Detaching a display that shows its clock takes down exactly its three
/// surfaces, the two sensor strips and the clock, and leaves nothing of the
/// display behind: it is not attached any more, and none of its surfaces has an
/// owner.
pub proof fn detach_leaves_no_trace(registry: Registry, display: DisplayId, now: ClockTime)
    requires
        registry.wf(),
        registry.outputs.contains_key(display.0),
        registry.outputs[display.0].clock is Some,
    ensures
        ({
            let gone = registry.outputs[display.0];
            let detached = registry.step(
                Message::WaylandOutputEvent(OutputEvent::Removed, display),
                now,
            );
            &&& detached.effects == seq![
                Effect::DestroySurface(gone.border_top.id),
                Effect::DestroySurface(gone.border_bottom.id),
                Effect::DestroySurface(gone.clock->0.id),
            ]
            &&& !detached.registry.outputs.contains_key(display.0)
            &&& forall|id: SurfaceHandle| #[trigger]
                gone.owns(id) ==> detached.registry.owner(id) is None
            &&& forall|other: u64|
                other != display.0 && #[trigger] registry.outputs.contains_key(other)
                    ==> detached.registry.outputs.contains_key(other)
                    && detached.registry.outputs[other] == registry.outputs[other]
        }),
{
    let gone = registry.outputs[display.0];
    let detached = registry.step(Message::WaylandOutputEvent(OutputEvent::Removed, display), now);
    assert(detached.effects =~= seq![
        Effect::DestroySurface(gone.border_top.id),
        Effect::DestroySurface(gone.border_bottom.id),
        Effect::DestroySurface(gone.clock->0.id),
    ]);
    assert forall|id: SurfaceHandle| #[trigger] gone.owns(id) implies detached.registry.owner(id)
        is None by {
        assert(registry.holds(display.0, id));
        assert forall|other: u64| !detached.registry.holds(other, id) by {
            if detached.registry.holds(other, id) {
                assert(registry.holds(other, id));
            }
        }
    }
}

/// Whatever is told about one display or happens on one of its surfaces leaves
/// the widgets of every other attached display as they are.
pub proof fn displays_are_isolated(
    registry: Registry,
    message: Message,
    target: u64,
    other: u64,
    now: ClockTime,
)
    requires
        registry.wf(),
        registry.outputs.contains_key(other),
        target != other,
        match message {
            Message::MouseEvent(_, id) => registry.holds(target, id),
            Message::Output(display, _) => display.0 == target,
            Message::WaylandOutputEvent(_, display) => display.0 == target,
            Message::Ignore => true,
        },
    ensures
        registry.step(message, now).registry.outputs.contains_key(other),
        registry.step(message, now).registry.outputs[other] == registry.outputs[other],
{
    if let Message::MouseEvent(_, id) = message {
        registry.owner_is_unique(target, id);
    }
}

/// A pointer event on a surface that no attached display has changes nothing and
/// asks for nothing.
pub proof fn stray_pointer_event_is_dropped(
    registry: Registry,
    event: PointerEvent,
    id: SurfaceHandle,
    now: ClockTime,
)
    requires
        forall|display: u64| !registry.holds(display, id),
    ensures
        registry.step(Message::MouseEvent(event, id), now) == registry.idle(),
{
}

/// The surfaces that the panel has are the surfaces that were asked for and not
/// yet taken down. Whatever the panel is told, it asks only for a surface that
/// is new and is had afterwards, it takes down only a surface that was had and
/// is gone afterwards, never the same one twice, and every other surface is had
/// afterwards exactly if it was had before. As identities only grow, a surface
/// that is gone never comes back: it is taken down exactly once.
pub proof fn step_accounts_for_surfaces(
    registry: Registry,
    message: Message,
    now: ClockTime,
    id: SurfaceHandle,
)
    requires
        registry.wf(),
        registry.ids.can_supply(2),
    ensures
        ({
            let turn = registry.step(message, now);
            &&& creates(turn.effects, id) ==> id.0 >= registry.ids.next && !registry.owned(id)
                && turn.registry.owned(id)
            &&& destroys(turn.effects, id) ==> registry.owned(id) && !turn.registry.owned(id)
            &&& !creates(turn.effects, id) && !destroys(turn.effects, id) ==> (
            turn.registry.owned(id) <==> registry.owned(id))
            &&& turn.registry.ids.next >= registry.ids.next
            &&& destroys_once(turn.effects)
        }),
{
    let turn = registry.step(message, now);
    match message {
        Message::MouseEvent(event, handle) => {
            match registry.owner(handle) {
                Some(display) => {
                    tell_accounts_for_surfaces(
                        registry,
                        DisplayId(display),
                        output::Message::MouseEvent(event, handle),
                        now,
                        id,
                    );
                },
                None => {},
            }
        },
        Message::WaylandOutputEvent(OutputEvent::Created, display) => {
            if !registry.outputs.contains_key(display.0) {
                if creates(turn.effects, id) {
                    assert(turn.registry.holds(display.0, id));
                }
                if turn.registry.owned(id) && !registry.owned(id) {
                    let at = choose|at: u64| turn.registry.holds(at, id);
                    if at != display.0 {
                        assert(registry.holds(at, id));
                    }
                }
                if registry.owned(id) {
                    let at = choose|at: u64| registry.holds(at, id);
                    assert(turn.registry.holds(at, id));
                }
            }
        },
        Message::WaylandOutputEvent(OutputEvent::Removed, display) => {
            if registry.outputs.contains_key(display.0) {
                let gone = registry.outputs[display.0];
                if destroys(turn.effects, id) {
                    assert(registry.holds(display.0, id));
                }
                if registry.owned(id) && !turn.registry.owned(id) {
                    let at = choose|at: u64| registry.holds(at, id);
                    if at != display.0 {
                        assert(turn.registry.holds(at, id));
                    }
                    assert(turn.effects[1] == Effect::DestroySurface(gone.border_bottom.id));
                    if gone.clock is Some {
                        assert(turn.effects[2] == Effect::DestroySurface(gone.clock->0.id));
                    }
                }
                if turn.registry.owned(id) {
                    let at = choose|at: u64| turn.registry.holds(at, id);
                    assert(registry.holds(at, id));
                }
            }
        },
        Message::WaylandOutputEvent(OutputEvent::Other, _) => {},
        Message::Output(display, message) => {
            tell_accounts_for_surfaces(registry, display, message, now, id);
        },
        Message::Ignore => {},
    }
}

/// Telling the widgets of one display something keeps the account of surfaces.
proof fn tell_accounts_for_surfaces(
    registry: Registry,
    display: DisplayId,
    message: output::Message,
    now: ClockTime,
    id: SurfaceHandle,
)
    requires
        registry.wf(),
        registry.ids.can_supply(1),
    ensures
        ({
            let turn = registry.tell(display, message, now);
            &&& creates(turn.effects, id) ==> id.0 >= registry.ids.next && !registry.owned(id)
                && turn.registry.owned(id)
            &&& destroys(turn.effects, id) ==> registry.owned(id) && !turn.registry.owned(id)
            &&& !creates(turn.effects, id) && !destroys(turn.effects, id) ==> (
            turn.registry.owned(id) <==> registry.owned(id))
            &&& turn.registry.ids.next >= registry.ids.next
            &&& destroys_once(turn.effects)
        }),
{
    let turn = registry.tell(display, message, now);
    if registry.outputs.contains_key(display.0) {
        let before = registry.outputs[display.0];
        let after = turn.registry.outputs[display.0];
        output::step_accounts_for_surfaces(before, message, registry.ids, now, id);
        output::step_keeps_wf(before, message, registry.ids, now);
        if registry.owned(id) {
            let at = choose|at: u64| registry.holds(at, id);
            if at != display.0 {
                assert(turn.registry.holds(at, id));
            }
        }
        if turn.registry.owned(id) {
            let at = choose|at: u64| turn.registry.holds(at, id);
            if at != display.0 {
                assert(registry.holds(at, id));
            }
        }
        if after.owns(id) {
            assert(turn.registry.holds(display.0, id));
        }
        if before.owns(id) {
            assert(registry.holds(display.0, id));
        }
    }
}

} // verus!
