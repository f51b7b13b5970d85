use peek::border;
use peek::border::Position;
use peek::clock;
use peek::clock::Clock;
use peek::output::{Message, Output};
use peek::platform::{
    DisplayId, Effect, IdSource, PointerEvent, Subscription, SurfaceHandle, TimerHandle, Visual,
};
use peek::time::ClockTime;

const NOON: ClockTime = ClockTime { secs: 43_200, offset: 0 };

const TOP: SurfaceHandle = SurfaceHandle(1);

const BOTTOM: SurfaceHandle = SurfaceHandle(2);

fn enter(id: SurfaceHandle) -> Message {
    Message::MouseEvent(PointerEvent::CursorEntered, id)
}

fn leave(id: SurfaceHandle) -> Message {
    Message::MouseEvent(PointerEvent::CursorLeft, id)
}

/// The widgets of display 9, with the first entry on each sensor already
/// swallowed.
fn settled() -> (Output, IdSource) {
    let mut ids = IdSource::new();
    let (mut output, _) = Output::new(DisplayId(9), &mut ids);
    assert!(output.update(enter(TOP), &mut ids, NOON).is_empty());
    assert!(output.update(enter(BOTTOM), &mut ids, NOON).is_empty());
    assert_eq!(output.clock, None);
    (output, ids)
}

#[test]
fn new_output_asks_for_both_strips() {
    let mut ids = IdSource::new();
    let (output, effects) = Output::new(DisplayId(9), &mut ids);
    assert_eq!(output.display, DisplayId(9));
    assert_eq!(output.border_top.id, TOP);
    assert_eq!(output.border_top.position, Position::Top);
    assert_eq!(output.border_bottom.id, BOTTOM);
    assert_eq!(output.border_bottom.position, Position::Bottom);
    assert_eq!(output.clock, None);
    assert_eq!(ids.next, 3);
    assert_eq!(effects.len(), 2);
    match (effects[0], effects[1]) {
        (Effect::CreateSurface(top), Effect::CreateSurface(bottom)) => {
            assert_eq!((top.id, top.output), (TOP, DisplayId(9)));
            assert!(top.anchor.top && !top.anchor.bottom);
            assert_eq!((bottom.id, bottom.output), (BOTTOM, DisplayId(9)));
            assert!(bottom.anchor.bottom && !bottom.anchor.top);
        }
        other => panic!("unexpected effects {:?}", other),
    }
}

#[test]
fn output_has_the_surfaces_of_all_its_widgets() {
    let (mut output, mut ids) = settled();
    assert!(output.has(TOP));
    assert!(output.has(BOTTOM));
    assert!(!output.has(SurfaceHandle(3)));
    output.update(enter(BOTTOM), &mut ids, NOON);
    assert!(output.has(SurfaceHandle(3)));
    assert!(!output.has(SurfaceHandle(4)));
}

#[test]
fn first_pointer_entry_on_the_bottom_strip_shows_nothing() {
    let mut ids = IdSource::new();
    let (mut output, _) = Output::new(DisplayId(9), &mut ids);
    assert!(output.update(enter(BOTTOM), &mut ids, NOON).is_empty());
    assert_eq!(output.clock, None);
    assert_eq!(ids.next, 3);
}

#[test]
fn entering_the_bottom_strip_shows_the_clock() {
    let (mut output, mut ids) = settled();
    let effects = output.update(enter(BOTTOM), &mut ids, NOON);
    assert_eq!(effects.len(), 1);
    match effects[0] {
        Effect::CreateSurface(settings) => {
            assert_eq!(settings.id, SurfaceHandle(3));
            assert_eq!(settings.output, DisplayId(9));
            assert_eq!((settings.width, settings.height), (Some(200), Some(120)));
        }
        other => panic!("unexpected effect {:?}", other),
    }
    assert_eq!(
        output.clock,
        Some(Clock { id: SurfaceHandle(3), output: DisplayId(9), date: NOON, close_timer: None })
    );
    assert_eq!(ids.next, 4);
}

#[test]
fn leaving_the_bottom_strip_starts_the_close_timer() {
    let (mut output, mut ids) = settled();
    output.update(enter(BOTTOM), &mut ids, NOON);
    let effects = output.update(leave(BOTTOM), &mut ids, NOON);
    assert_eq!(effects, vec![Effect::StartTimer { timer: TimerHandle(4), millis: 200, output: DisplayId(9) }]);
    assert_eq!(output.clock.unwrap().close_timer, Some(TimerHandle(4)));
}

#[test]
fn leaving_the_bottom_strip_without_a_clock_does_nothing() {
    let (mut output, mut ids) = settled();
    output.update(enter(BOTTOM), &mut ids, NOON);
    output.update(Message::Clock(clock::Message::Close), &mut ids, NOON);
    assert_eq!(output.clock, None);
    let effects = output.update(leave(BOTTOM), &mut ids, NOON);
    assert!(effects.is_empty());
    assert_eq!(output.clock, None);
}

#[test]
fn reentry_within_the_delay_cancels_the_close_timer() {
    let (mut output, mut ids) = settled();
    output.update(enter(BOTTOM), &mut ids, NOON);
    output.update(leave(BOTTOM), &mut ids, NOON);
    let effects = output.update(enter(BOTTOM), &mut ids, NOON);
    assert_eq!(effects, vec![Effect::CancelTimer(TimerHandle(4))]);
    let clock = output.clock.expect("the clock stays");
    assert_eq!(clock.id, SurfaceHandle(3));
    assert_eq!(clock.close_timer, None);

    // The cancelled timer reports back as a no-op.
    let report = Message::Clock(clock::timer_outcome(true));
    let before = output;
    assert!(output.update(report, &mut ids, NOON).is_empty());
    assert_eq!(output, before);
}

#[test]
fn expired_close_timer_takes_the_clock_away() {
    let (mut output, mut ids) = settled();
    let mut destroyed = 0;
    let mut all = output.update(enter(BOTTOM), &mut ids, NOON);
    all.extend(output.update(leave(BOTTOM), &mut ids, NOON));
    let report = Message::Clock(clock::timer_outcome(false));
    let last = output.update(report, &mut ids, NOON);
    assert_eq!(last, vec![Effect::DestroySurface(SurfaceHandle(3))]);
    all.extend(last);
    for effect in all {
        if let Effect::DestroySurface(id) = effect {
            assert_eq!(id, SurfaceHandle(3));
            destroyed += 1;
        }
    }
    assert_eq!(destroyed, 1);
    assert_eq!(output.clock, None);
    assert!(!output.has(SurfaceHandle(3)));
}

#[test]
fn clock_comes_back_under_a_new_surface() {
    let (mut output, mut ids) = settled();
    output.update(enter(BOTTOM), &mut ids, NOON);
    output.update(leave(BOTTOM), &mut ids, NOON);
    output.update(Message::Clock(clock::Message::Close), &mut ids, NOON);
    let later = ClockTime { secs: 50_000, offset: 0 };
    let effects = output.update(enter(BOTTOM), &mut ids, later);
    assert_eq!(effects.len(), 1);
    assert_eq!(
        output.clock,
        Some(Clock { id: SurfaceHandle(5), output: DisplayId(9), date: later, close_timer: None })
    );
}

#[test]
fn top_strip_moves_nothing_but_itself() {
    let (mut output, mut ids) = settled();
    assert!(output.update(enter(TOP), &mut ids, NOON).is_empty());
    assert!(output.border_top.active);
    assert_eq!(output.clock, None);
    assert!(output.update(leave(TOP), &mut ids, NOON).is_empty());
    assert_eq!(output.clock, None);
    assert_eq!(ids.next, 3);
}

#[test]
fn pointer_event_on_a_foreign_surface_is_dropped() {
    let (mut output, mut ids) = settled();
    let before = output;
    assert!(output.update(enter(SurfaceHandle(99)), &mut ids, NOON).is_empty());
    assert_eq!(output, before);
}

#[test]
fn pointer_event_on_the_clock_is_dropped() {
    let (mut output, mut ids) = settled();
    output.update(enter(BOTTOM), &mut ids, NOON);
    let before = output;
    assert!(output.update(enter(SurfaceHandle(3)), &mut ids, NOON).is_empty());
    assert!(output.update(leave(SurfaceHandle(3)), &mut ids, NOON).is_empty());
    assert_eq!(output, before);
}

#[test]
fn other_pointer_events_are_dropped() {
    let (mut output, mut ids) = settled();
    let before = output;
    let moved = Message::MouseEvent(PointerEvent::Other, BOTTOM);
    assert!(output.update(moved, &mut ids, NOON).is_empty());
    assert_eq!(output, before);
}

#[test]
fn show_clock_makes_a_clock_once() {
    let (mut output, mut ids) = settled();
    assert_eq!(output.update(Message::ShowClock, &mut ids, NOON).len(), 1);
    assert!(output.clock.is_some());
    assert!(output.update(Message::ShowClock, &mut ids, NOON).is_empty());
    assert_eq!(output.clock.unwrap().id, SurfaceHandle(3));
    assert_eq!(ids.next, 4);
}

#[test]
fn border_messages_reach_the_named_sensor() {
    let (mut output, mut ids) = settled();
    let entered = border::Message::MouseEvent(PointerEvent::CursorEntered);
    assert!(output.update(Message::Border(Position::Top, entered), &mut ids, NOON).is_empty());
    assert!(output.border_top.active);
    assert!(!output.border_bottom.active);
    assert_eq!(output.update(Message::Border(Position::Bottom, entered), &mut ids, NOON).len(), 1);
    assert!(output.border_bottom.active);
    assert!(output.clock.is_some());
}

#[test]
fn reported_entry_and_leave_act_on_the_clock() {
    let (mut output, mut ids) = settled();
    let shown = output.update(
        Message::Border(Position::Bottom, border::Message::Entered),
        &mut ids,
        NOON,
    );
    assert_eq!(shown.len(), 1);
    assert!(output.clock.is_some());
    let left = output.update(
        Message::Border(Position::Bottom, border::Message::Left),
        &mut ids,
        NOON,
    );
    assert_eq!(left, vec![Effect::StartTimer { timer: TimerHandle(4), millis: 200, output: DisplayId(9) }]);
    let top = output.update(
        Message::Border(Position::Top, border::Message::Left),
        &mut ids,
        NOON,
    );
    assert!(top.is_empty());
}

#[test]
fn clock_messages_without_a_clock_are_dropped() {
    let (mut output, mut ids) = settled();
    let before = output;
    for message in [
        clock::Message::Ignore,
        clock::Message::StartCloseTimer,
        clock::Message::StopCloseTimer,
        clock::Message::Close,
        clock::Message::Update,
    ] {
        assert!(output.update(Message::Clock(message), &mut ids, NOON).is_empty());
    }
    assert_eq!(output, before);
    assert_eq!(ids.next, 3);
}

#[test]
fn tick_refreshes_the_clock() {
    let (mut output, mut ids) = settled();
    output.update(enter(BOTTOM), &mut ids, NOON);
    let later = ClockTime { secs: 43_205, offset: 0 };
    let effects = output.update(Message::Clock(clock::Message::Update), &mut ids, later);
    assert!(effects.is_empty());
    assert_eq!(output.clock.unwrap().date, later);
}

#[test]
fn ignore_leaves_the_output_alone() {
    let (mut output, mut ids) = settled();
    let before = output;
    assert!(output.update(Message::Ignore, &mut ids, NOON).is_empty());
    assert_eq!(output, before);
}

#[test]
fn output_ticks_only_while_the_clock_is_there() {
    let (mut output, mut ids) = settled();
    assert_eq!(output.subscription(), None);
    output.update(enter(BOTTOM), &mut ids, NOON);
    assert_eq!(
        output.subscription(),
        Some(Subscription {
            period_secs: 5,
            message: Message::Clock(clock::Message::Update),
        })
    );
    output.update(Message::Clock(clock::Message::Close), &mut ids, NOON);
    assert_eq!(output.subscription(), None);
}

#[test]
fn output_shows_blank_strips_and_the_clock_face() {
    let (mut output, mut ids) = settled();
    assert_eq!(output.view(TOP), Visual::Blank);
    assert_eq!(output.view(BOTTOM), Visual::Blank);
    assert_eq!(output.view(SurfaceHandle(3)), Visual::Blank);
    output.update(enter(BOTTOM), &mut ids, NOON);
    assert_eq!(output.view(TOP), Visual::Blank);
    assert_eq!(output.view(BOTTOM), Visual::Blank);
    let face = Visual::ClockFace {
        time: String::from("12:00"),
        date: String::from("Thu,  1 Jan 1970"),
    };
    assert_eq!(output.view(SurfaceHandle(3)), face);
    assert_eq!(output.view(SurfaceHandle(99)), face);
}

#[test]
fn destroying_an_output_takes_every_surface_down() {
    let (mut output, mut ids) = settled();
    assert_eq!(
        output.destroy(),
        vec![Effect::DestroySurface(TOP), Effect::DestroySurface(BOTTOM)]
    );
    output.update(enter(BOTTOM), &mut ids, NOON);
    assert_eq!(
        output.destroy(),
        vec![
            Effect::DestroySurface(TOP),
            Effect::DestroySurface(BOTTOM),
            Effect::DestroySurface(SurfaceHandle(3)),
        ]
    );
}
