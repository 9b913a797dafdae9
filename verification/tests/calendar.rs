use twitch_notifications::calendar::{
    calendar_step, event_sync_step, CalendarAction, CalendarEvent, CalendarPhase, EventSyncAction,
    EventSyncAnswer, EventSyncPhase, first_future_segment, group_event_id, needs_discord_event, plan_segments,
    scheduled_event_for_group, scheduled_event_for_segment, stale_rows,
};
use twitch_notifications::models::SyncedCalendarEvent;
use twitch_notifications::twitch::{ScheduleCategory, ScheduleSegment};

fn seg(id: &str, title: &str, recurring: bool, canceled: bool) -> ScheduleSegment {
    ScheduleSegment {
        id: id.to_string(),
        start_time: "2030-01-01T10:00:00Z".to_string(),
        end_time: Some("2030-01-01T12:00:00Z".to_string()),
        title: title.to_string(),
        canceled_until: if canceled { Some("2030-01-02T00:00:00Z".to_string()) } else { None },
        category: Some(ScheduleCategory { id: "1".to_string(), name: "Chess".to_string() }),
        is_recurring: recurring,
    }
}

fn row(segment_id: &str, event: Option<&str>) -> SyncedCalendarEvent {
    SyncedCalendarEvent {
        id: format!("row-{}", segment_id),
        user_id: "u".to_string(),
        twitch_segment_id: segment_id.to_string(),
        discord_integration_id: Some("i".to_string()),
        discord_event_id: event.map(|e| e.to_string()),
        title: "T".to_string(),
        start_time: 0,
        end_time: None,
        category_name: Some("Chess".to_string()),
        is_recurring: false,
        last_synced_at: 0,
        created_at: 0,
        updated_at: 0,
    }
}

#[test]
fn schedule_plan_splits_segments() {
    let segs = vec![
        seg("a", "Weekly", true, false),
        seg("b", "One", false, false),
        seg("c", "Weekly", true, false),
        seg("d", "Gone", false, true),
        seg("e", "Daily", true, false),
    ];
    let p = plan_segments(&segs);
    assert_eq!(p.segment_ids, vec!["a", "b", "c", "d", "e"]);
    assert_eq!(p.canceled, vec![3]);
    assert_eq!(p.single, vec![1]);
    assert_eq!(
        p.recurring_groups,
        vec![("Weekly".to_string(), vec![0, 2]), ("Daily".to_string(), vec![4])]
    );
}

#[test]
fn first_future_occurrence() {
    assert_eq!(first_future_segment(&vec![Some(5), None, Some(20), Some(12), Some(12)], 10), Some(3));
    assert_eq!(first_future_segment(&vec![Some(5), None], 10), None);
    assert_eq!(first_future_segment(&vec![Some(10)], 10), Some(0));
    assert!(needs_discord_event(10, 10));
    assert!(!needs_discord_event(9, 10));
}

#[test]
fn discord_events_for_segments() {
    let s = seg("a", "Weekly", true, false);
    let g = scheduled_event_for_group("Weekly", &s, "guild", "hafmc", Some("ev".to_string()));
    assert_eq!(g.description, Some("Chess (Recurring event)".to_string()));
    assert_eq!(g.id, Some("ev".to_string()));
    assert_eq!(g.entity_metadata.unwrap().location, Some("https://twitch.tv/hafmc".to_string()));
    assert_eq!((g.privacy_level, g.entity_type), (2, 3));
    let r = row("b", None);
    let e = scheduled_event_for_segment(&r, &seg("b", "One", false, false), "guild", "x");
    assert_eq!(e.name, "T");
    assert_eq!(e.description, Some("Chess".to_string()));
    assert_eq!(e.id, None);
}

#[test]
fn rows_and_group_events() {
    let rows = vec![row("a", None), row("x", Some("e1")), row("c", Some("e2"))];
    assert_eq!(stale_rows(&rows, &vec!["a".to_string(), "c".to_string()]), vec![1]);
    assert_eq!(group_event_id(&rows), Some("e1".to_string()));
    assert_eq!(group_event_id(&vec![row("a", None)]), None);
}

#[test]
fn calendar_sync_without_owner_or_schedule_changes_nothing() {
    let (p, a) = calendar_step(CalendarPhase::Start, CalendarEvent::Begin);
    assert_eq!(a, CalendarAction::LoadOwner);
    let (_, a2) = calendar_step(p.clone(), CalendarEvent::OwnerMissing);
    assert_eq!(a2, CalendarAction::Stop);
    let (p, a) = calendar_step(p, CalendarEvent::OwnerFound { access_token: "t1".into() });
    assert_eq!(a, CalendarAction::FetchSchedule("t1".into()));
    let (p, a) = calendar_step(p, CalendarEvent::FetchFailed);
    assert_eq!(a, CalendarAction::RefreshToken);
    let (_, a2) = calendar_step(p.clone(), CalendarEvent::Refreshed(None));
    assert_eq!(a2, CalendarAction::Stop);
    let (p, a) = calendar_step(p, CalendarEvent::Refreshed(Some("t2".into())));
    assert_eq!(a, CalendarAction::FetchSchedule("t2".into()));
    let (p, a) = calendar_step(p, CalendarEvent::FetchFailed);
    assert_eq!((p, a), (CalendarPhase::Done, CalendarAction::Stop));
}

#[test]
fn calendar_sync_without_schedule_removes_every_row() {
    let p = CalendarPhase::AwaitSchedule { refreshed: false };
    let (p, a) = calendar_step(p, CalendarEvent::ScheduleFetched(None));
    assert_eq!(a, CalendarAction::LoadRows);
    let rows = vec![row("a", Some("e1")), row("b", None)];
    let (p, a) = calendar_step(p, CalendarEvent::RowsLoaded(rows));
    assert_eq!(a, CalendarAction::RemoveRows(vec![0, 1]));
    let (_, a) = calendar_step(p, CalendarEvent::RowsRemoved);
    assert_eq!(a, CalendarAction::Stop);
}

#[test]
fn calendar_sync_removes_canceled_then_unlisted_rows() {
    let segs = vec![seg("a", "A", false, false), seg("b", "B", false, true)];
    let p = CalendarPhase::AwaitSchedule { refreshed: true };
    let (p, a) = calendar_step(p, CalendarEvent::ScheduleFetched(Some(segs)));
    assert_eq!(a, CalendarAction::LoadRows);
    let rows = vec![row("a", None), row("b", Some("e")), row("gone", None)];
    let (p, a) = calendar_step(p, CalendarEvent::RowsLoaded(rows.clone()));
    assert_eq!(a, CalendarAction::RemoveRows(vec![1]));
    let (p, a) = calendar_step(p, CalendarEvent::RowsRemoved);
    match a {
        CalendarAction::Mirror(plan) => {
            assert_eq!(plan.canceled, vec![1]);
            assert_eq!(plan.single, vec![0]);
        }
        other => panic!("expected a mirror step, got {:?}", other),
    }
    let (p, a) = calendar_step(p, CalendarEvent::Mirrored);
    assert_eq!(a, CalendarAction::LoadRows);
    let rows = vec![row("a", None), row("gone", Some("x"))];
    let (_, a) = calendar_step(p, CalendarEvent::RowsLoaded(rows));
    assert_eq!(a, CalendarAction::RemoveRows(vec![1]));
}

#[test]
fn existing_event_is_updated_then_every_row_stamped() {
    let start = EventSyncPhase::Start { existing: Some("e1".into()), rows: 2 };
    let (p, a) = event_sync_step(start, EventSyncAnswer::Begin);
    assert_eq!(a, EventSyncAction::Update("e1".into()));
    let (p, a) = event_sync_step(p, EventSyncAnswer::Updated(true));
    assert_eq!(a, EventSyncAction::Stamp { row: 0, id: "e1".into() });
    let (p, a) = event_sync_step(p, EventSyncAnswer::Stamped);
    assert_eq!(a, EventSyncAction::Stamp { row: 1, id: "e1".into() });
    let (_, a) = event_sync_step(p, EventSyncAnswer::Stamped);
    assert_eq!(a, EventSyncAction::Finish);
    // A failed update stamps nothing.
    let (p, _) = event_sync_step(EventSyncPhase::Start { existing: Some("e1".into()), rows: 1 }, EventSyncAnswer::Begin);
    let (_, a) = event_sync_step(p, EventSyncAnswer::Updated(false));
    assert_eq!(a, EventSyncAction::Finish);
}

#[test]
fn new_event_id_is_stamped_when_discord_gives_one() {
    let (p, a) = event_sync_step(EventSyncPhase::Start { existing: None, rows: 1 }, EventSyncAnswer::Begin);
    assert_eq!(a, EventSyncAction::Create);
    let (_, none) = event_sync_step(p.clone(), EventSyncAnswer::Created(None));
    assert_eq!(none, EventSyncAction::Finish);
    let (p, a) = event_sync_step(p, EventSyncAnswer::Created(Some("n1".into())));
    assert_eq!(a, EventSyncAction::Stamp { row: 0, id: "n1".into() });
    let (_, a) = event_sync_step(p, EventSyncAnswer::Stamped);
    assert_eq!(a, EventSyncAction::Finish);
}
