use peek::border::{Border, Message, Position, THICKNESS};
use peek::platform::{
    Anchor, DisplayId, Effect, IdSource, KeyboardInteractivity, PointerEvent, SurfaceHandle,
    SurfaceSettings, Visual,
};

fn sensor(position: Position) -> Border {
    let mut ids = IdSource::new();
    Border::new(DisplayId(7), position, &mut ids).0
}

#[test]
fn id_source_starts_at_one_and_counts_up() {
    let mut ids = IdSource::new();
    assert_eq!(ids.next, 1);
    assert_eq!(ids.fresh(), 1);
    assert_eq!(ids.fresh(), 2);
    assert_eq!(ids.next, 3);
}

#[test]
fn id_source_knows_when_it_runs_dry() {
    let ids = IdSource { next: u64::MAX - 1 };
    assert!(ids.has_spare(0));
    assert!(ids.has_spare(1));
    assert!(!ids.has_spare(2));
    let full = IdSource { next: u64::MAX };
    assert!(full.has_spare(0));
    assert!(!full.has_spare(1));
}

#[test]
fn new_top_sensor_asks_for_a_strip_along_the_top() {
    let mut ids = IdSource { next: 41 };
    let (border, effect) = Border::new(DisplayId(7), Position::Top, &mut ids);
    assert_eq!(
        border,
        Border {
            id: SurfaceHandle(41),
            position: Position::Top,
            initial_entered: false,
            active: false,
        }
    );
    assert_eq!(
        effect,
        Effect::CreateSurface(SurfaceSettings {
            id: SurfaceHandle(41),
            output: DisplayId(7),
            anchor: Anchor { top: true, bottom: false, left: true, right: true },
            width: None,
            height: Some(10),
            margin_bottom: 0,
            pointer_interactivity: true,
            keyboard_interactivity: KeyboardInteractivity::OnDemand,
        })
    );
    assert_eq!(ids.next, 42);
    assert_eq!(THICKNESS, 10);
}

#[test]
fn new_bottom_sensor_asks_for_a_strip_along_the_bottom() {
    let mut ids = IdSource::new();
    let (border, effect) = Border::new(DisplayId(3), Position::Bottom, &mut ids);
    assert_eq!(border.position, Position::Bottom);
    match effect {
        Effect::CreateSurface(settings) => {
            assert_eq!(settings.id, border.id);
            assert_eq!(settings.output, DisplayId(3));
            assert_eq!(
                settings.anchor,
                Anchor { top: false, bottom: true, left: true, right: true }
            );
            assert_eq!(settings.height, Some(10));
            assert_eq!(settings.width, None);
        }
        other => panic!("unexpected effect {:?}", other),
    }
}

#[test]
fn sensor_has_only_its_own_surface() {
    let border = sensor(Position::Top);
    assert!(border.has(border.id));
    assert!(!border.has(SurfaceHandle(border.id.0 + 1)));
}

#[test]
fn first_entry_is_swallowed_and_second_is_reported() {
    let mut border = sensor(Position::Bottom);
    let entered = Message::MouseEvent(PointerEvent::CursorEntered);
    assert_eq!(border.update(entered), None);
    assert!(border.initial_entered);
    assert!(!border.active);
    assert_eq!(border.update(entered), Some(Message::Entered));
    assert!(border.active);
}

#[test]
fn second_entry_is_reported_after_an_unmatched_leave() {
    let mut border = sensor(Position::Bottom);
    assert_eq!(border.update(Message::MouseEvent(PointerEvent::CursorEntered)), None);
    assert_eq!(border.update(Message::MouseEvent(PointerEvent::CursorLeft)), None);
    assert_eq!(border.update(Message::MouseEvent(PointerEvent::Other)), None);
    assert_eq!(
        border.update(Message::MouseEvent(PointerEvent::CursorEntered)),
        Some(Message::Entered)
    );
}

#[test]
fn leave_without_entry_is_ignored() {
    let mut border = sensor(Position::Top);
    let before = border;
    assert_eq!(border.update(Message::MouseEvent(PointerEvent::CursorLeft)), None);
    assert_eq!(border, before);
}

#[test]
fn leave_after_entry_is_reported_every_time() {
    let mut border = sensor(Position::Bottom);
    border.update(Message::MouseEvent(PointerEvent::CursorEntered));
    border.update(Message::MouseEvent(PointerEvent::CursorEntered));
    let left = Message::MouseEvent(PointerEvent::CursorLeft);
    assert_eq!(border.update(left), Some(Message::Left));
    assert!(border.active);
    assert_eq!(border.update(left), Some(Message::Left));
}

#[test]
fn other_messages_leave_the_sensor_alone() {
    let mut border = sensor(Position::Bottom);
    border.update(Message::MouseEvent(PointerEvent::CursorEntered));
    border.update(Message::MouseEvent(PointerEvent::CursorEntered));
    let before = border;
    assert_eq!(border.update(Message::MouseEvent(PointerEvent::Other)), None);
    assert_eq!(border.update(Message::Entered), None);
    assert_eq!(border.update(Message::Left), None);
    assert_eq!(border, before);
}

#[test]
fn sensor_shows_nothing() {
    assert_eq!(sensor(Position::Top).view(), Visual::Blank);
}

#[test]
fn destroying_a_sensor_takes_its_strip_down() {
    let border = sensor(Position::Top);
    assert_eq!(border.destroy(), Effect::DestroySurface(border.id));
}
