//! Mirroring a streamer's Twitch schedule into Discord scheduled events: which segments
//! are removed, mirrored one by one, or mirrored as one recurring event per title.
use vstd::prelude::*;

use crate::discord::{EntityMetadata, ScheduledEvent};
use crate::models::{CreateSyncedCalendarEvent, SyncedCalendarEvent};
use crate::text::{concat2, owned, str_equal};
use crate::twitch::ScheduleSegment;
use crate::webhooks::{parse_rfc3339_millis, rfc3339_millis};

verus! {

broadcast use vstd::string::group_string_axioms;

/// The calendar synchronization.
pub struct CalendarSyncManager;

/// Is the segment cancelled?
pub open spec fn canceled(s: ScheduleSegment) -> bool {
    s.canceled_until is Some
}

/// Is the segment a live occurrence of a recurring broadcast?
pub open spec fn live_recurring(s: ScheduleSegment) -> bool {
    !canceled(s) && s.is_recurring
}

/// Is the segment a live one-off broadcast?
pub open spec fn live_single(s: ScheduleSegment) -> bool {
    !canceled(s) && !s.is_recurring
}

/// The positions `i < n` of the segments with property `p`, in order.
pub open spec fn positions_where(
    segs: Seq<ScheduleSegment>,
    p: spec_fn(ScheduleSegment) -> bool,
    n: int,
) -> Seq<usize>
    decreases n,
{
    if n <= 0 {
        Seq::empty()
    } else if p(segs[n - 1]) {
        positions_where(segs, p, n - 1).push((n - 1) as usize)
    } else {
        positions_where(segs, p, n - 1)
    }
}

/// How the segments of a schedule are handled.
#[derive(Debug, Clone, PartialEq, Eq)]
pub struct SegmentPlan {
    /// The ids of all segments (rows of other segments are stale).
    pub segment_ids: Vec<String>,
    /// Cancelled segments: their rows and Discord events are removed.
    pub canceled: Vec<usize>,
    /// One-off segments, mirrored one by one.
    pub single: Vec<usize>,
    /// Recurring segments, one group per title (each mirrored as one event).
    pub recurring_groups: Vec<(String, Vec<usize>)>,
}

/// Are the groups exactly the live recurring segments of `segs` by title: every position
/// in a group is a live recurring segment with the group's title, in increasing order;
/// the titles are distinct; every live recurring segment is in the group of its title.
pub open spec fn groups_by_title(segs: Seq<ScheduleSegment>, groups: Seq<(String, Vec<usize>)>) -> bool {
    &&& forall|g: int, k: int|
        0 <= g < groups.len() && 0 <= k < groups[g].1@.len() ==> {
            let i = #[trigger] groups[g].1@[k];
            &&& i < segs.len()
            &&& live_recurring(segs[i as int])
            &&& segs[i as int].title@ == groups[g].0@
        }
    &&& forall|g: int, a: int, b: int|
        0 <= g < groups.len() && 0 <= a < b < groups[g].1@.len() ==> #[trigger] groups[g].1@[a]
            < #[trigger] groups[g].1@[b]
    &&& forall|g: int, h: int|
        0 <= g < h < groups.len() ==> #[trigger] groups[g].0@ != #[trigger] groups[h].0@
    &&& forall|i: int|
        0 <= i < segs.len() && live_recurring(#[trigger] segs[i]) ==> exists|g: int|
            0 <= g < groups.len() && groups[g].0@ == segs[i].title@ && groups[g].1@.contains(
                i as usize,
            )
}

/// Is `plan` how the segments of `segs` are handled?
pub open spec fn plan_of(segs: Seq<ScheduleSegment>, plan: SegmentPlan) -> bool {
    &&& plan.segment_ids@.len() == segs.len()
    &&& forall|i: int| 0 <= i < segs.len() ==> #[trigger] plan.segment_ids@[i] == segs[i].id
    &&& plan.canceled@ == positions_where(segs, |s: ScheduleSegment| canceled(s), segs.len() as int)
    &&& plan.single@ == positions_where(
        segs,
        |s: ScheduleSegment| live_single(s),
        segs.len() as int,
    )
    &&& groups_by_title(segs, plan.recurring_groups@)
}

/// The position of the group titled `title`, if any.
fn find_group(groups: &Vec<(String, Vec<usize>)>, title: &str) -> (r: Option<usize>)
    ensures
        r matches Some(g) ==> g < groups@.len() && groups@[g as int].0@ == title@,
        r is None ==> forall|g: int| 0 <= g < groups@.len() ==> groups@[g].0@ != title@,
{
    let mut g: usize = 0;
    while g < groups.len()
        invariant
            g <= groups.len(),
            forall|h: int| 0 <= h < g ==> groups@[h].0@ != title@,
        decreases groups.len() - g,
    {
        if str_equal(groups[g].0.as_str(), title) {
            return Some(g);
        }
        g = g + 1;
    }
    None
}

/// How the segments of a schedule are handled: cancelled ones removed, one-off ones
/// mirrored one by one, recurring ones grouped by title.
pub fn plan_segments(segments: &Vec<ScheduleSegment>) -> (r: SegmentPlan)
    ensures
        plan_of(segments@, r),
{
    let ghost segs = segments@;
    let mut ids: Vec<String> = Vec::new();
    let mut canceled_pos: Vec<usize> = Vec::new();
    let mut single: Vec<usize> = Vec::new();
    let mut groups: Vec<(String, Vec<usize>)> = Vec::new();
    let mut i: usize = 0;
    while i < segments.len()
        invariant
            i <= segments.len(),
            segs == segments@,
            ids@.len() == i,
            forall|k: int| 0 <= k < i ==> #[trigger] ids@[k] == segs[k].id,
            canceled_pos@ == positions_where(segs, |s: ScheduleSegment| canceled(s), i as int),
            single@ == positions_where(segs, |s: ScheduleSegment| live_single(s), i as int),
            forall|g: int, k: int|
                0 <= g < groups@.len() && 0 <= k < groups@[g].1@.len() ==> {
                    let j = #[trigger] groups@[g].1@[k];
                    &&& j < i
                    &&& live_recurring(segs[j as int])
                    &&& segs[j as int].title@ == groups@[g].0@
                },
            forall|g: int, a: int, b: int|
                0 <= g < groups@.len() && 0 <= a < b < groups@[g].1@.len()
                    ==> #[trigger] groups@[g].1@[a] < #[trigger] groups@[g].1@[b],
            forall|g: int, h: int|
                0 <= g < h < groups@.len() ==> #[trigger] groups@[g].0@ != #[trigger] groups@[h].0@,
            forall|j: int|
                0 <= j < i && live_recurring(#[trigger] segs[j]) ==> exists|g: int|
                    0 <= g < groups@.len() && groups@[g].0@ == segs[j].title@
                        && groups@[g].1@.contains(j as usize),
        decreases segments.len() - i,
    {
        let seg = &segments[i];
        ids.push(seg.id.clone());
        if seg.canceled_until.is_some() {
            canceled_pos.push(i);
        } else if seg.is_recurring {
            let ghost old_groups = groups@;
            match find_group(&groups, seg.title.as_str()) {
                Some(g) => {
                    let (t, mut members) = groups.remove(g);
                    let ghost old_members = members@;
                    members.push(i);
                    groups.insert(g, (t, members));
                    proof {
                        assert forall|h: int| 0 <= h < groups@.len() && h != g implies groups@[h]
                            == old_groups[h] by {}
                        assert(groups@[g as int].1@ == old_members.push(i));
                        assert(groups@[g as int].0 == old_groups[g as int].0);
                        assert forall|j: int|
                            0 <= j <= i && live_recurring(#[trigger] segs[j]) implies exists|h: int|
                            0 <= h < groups@.len() && groups@[h].0@ == segs[j].title@
                                && groups@[h].1@.contains(j as usize) by {
                            if j == i {
                                assert(groups@[g as int].1@[old_members.len() as int] == i);
                            } else {
                                let h = choose|h: int|
                                    0 <= h < old_groups.len() && old_groups[h].0@ == segs[j].title@
                                        && old_groups[h].1@.contains(j as usize);
                                let w = choose|w: int|
                                    0 <= w < old_groups[h].1@.len() && old_groups[h].1@[w]
                                        == j as usize;
                                if h == g {
                                    assert(groups@[g as int].1@[w] == j as usize);
                                } else {
                                    assert(groups@[h] == old_groups[h]);
                                }
                            }
                        }
                    }
                },
                None => {
                    let mut members: Vec<usize> = Vec::new();
                    members.push(i);
                    groups.push((seg.title.clone(), members));
                    proof {
                        let n = old_groups.len() as int;
                        assert(groups@[n].1@[0] == i);
                        assert forall|j: int|
                            0 <= j <= i && live_recurring(#[trigger] segs[j]) implies exists|h: int|
                            0 <= h < groups@.len() && groups@[h].0@ == segs[j].title@
                                && groups@[h].1@.contains(j as usize) by {
                            if j == i {
                                assert(groups@[n].1@[0] == j as usize);
                            } else {
                                let h = choose|h: int|
                                    0 <= h < old_groups.len() && old_groups[h].0@ == segs[j].title@
                                        && old_groups[h].1@.contains(j as usize);
                                assert(groups@[h] == old_groups[h]);
                            }
                        }
                    }
                },
            }
        } else {
            single.push(i);
        }
        i = i + 1;
    }
    SegmentPlan { segment_ids: ids, canceled: canceled_pos, single, recurring_groups: groups }
}

/// Is position `k` the first occurrence still to come at `now`: its start is known, not
/// before `now`, earliest among those, and first among equal starts?
pub open spec fn first_future(starts: Seq<Option<i64>>, now: i64, k: int) -> bool {
    &&& 0 <= k < starts.len()
    &&& (starts[k] matches Some(t) && t >= now)
    &&& forall|j: int|
        0 <= j < starts.len() ==> match #[trigger] starts[j] {
            Some(u) => u >= now ==> (u >= starts[k]->0 && (j < k ==> u > starts[k]->0)),
            None => true,
        }
}

/// The first occurrence still to come at `now`, among segments starting at `starts`
/// (`None`: the start could not be read).
pub fn first_future_segment(starts: &Vec<Option<i64>>, now: i64) -> (r: Option<usize>)
    ensures
        r matches Some(k) ==> first_future(starts@, now, k as int),
        r is None ==> forall|j: int|
            0 <= j < starts@.len() ==> !(#[trigger] starts@[j] matches Some(u) && u >= now),
{
    let mut best: Option<usize> = None;
    let mut i: usize = 0;
    while i < starts.len()
        invariant
            i <= starts.len(),
            match best {
                Some(k) => k < i && first_future(starts@.take(i as int), now, k as int),
                None => forall|j: int|
                    0 <= j < i ==> !(#[trigger] starts@[j] matches Some(u) && u >= now),
            },
        decreases starts.len() - i,
    {
        match starts[i] {
            Some(t) => {
                if t >= now {
                    match best {
                        Some(k) => {
                            let bt = match starts[k] {
                                Some(b) => b,
                                None => t,
                            };
                            if t < bt {
                                best = Some(i);
                            }
                        },
                        None => {
                            best = Some(i);
                        },
                    }
                }
            },
            None => {},
        }
        proof {
            let a = starts@.take(i as int);
            let b = starts@.take(i + 1);
            assert forall|j: int| 0 <= j < i implies #[trigger] b[j] == a[j] by {}
        }
        i = i + 1;
    }
    assert(starts@.take(i as int) =~= starts@);
    best
}

/// The row mirroring a segment (`start` and `end` read from its times).
pub fn synced_event_for(
    segment: &ScheduleSegment,
    integration_id: &str,
    start: i64,
    end: Option<i64>,
    is_recurring: bool,
) -> (r: CreateSyncedCalendarEvent)
    ensures
        r.twitch_segment_id == segment.id,
        r.discord_integration_id matches Some(d) && d@ == integration_id@,
        r.title == segment.title,
        r.start_time == start,
        r.end_time == end,
        r.category_name == match segment.category {
            Some(c) => Some(c.name),
            None => None,
        },
        r.is_recurring == is_recurring,
{
    CreateSyncedCalendarEvent {
        twitch_segment_id: segment.id.clone(),
        discord_integration_id: Some(owned(integration_id)),
        title: segment.title.clone(),
        start_time: start,
        end_time: end,
        category_name: match &segment.category {
            Some(c) => Some(c.name.clone()),
            None => None,
        },
        is_recurring,
    }
}

/// The instant a schedule time stands for (milliseconds since the epoch), when it reads.
pub open spec fn time_of(text: Seq<char>) -> Option<int> {
    rfc3339_millis(text)
}

/// The start of a segment, when its time reads.
pub fn segment_start(segment: &ScheduleSegment) -> (r: Option<i64>)
    ensures
        match r {
            Some(t) => time_of(segment.start_time@) == Some(t as int),
            None => time_of(segment.start_time@) is None,
        },
{
    parse_rfc3339_millis(segment.start_time.as_str())
}

/// The end of a segment, when it has one and it reads.
pub fn segment_end(segment: &ScheduleSegment) -> (r: Option<i64>)
    ensures
        match segment.end_time {
            Some(e) => match r {
                Some(t) => time_of(e@) == Some(t as int),
                None => time_of(e@) is None,
            },
            None => r is None,
        },
{
    match &segment.end_time {
        Some(e) => parse_rfc3339_millis(e.as_str()),
        None => None,
    }
}

/// The row mirroring a segment for an integration; none when the segment's start does
/// not read (the segment is skipped).
pub fn segment_row(segment: &ScheduleSegment, integration_id: &str) -> (r: Option<
    CreateSyncedCalendarEvent,
>)
    ensures
        time_of(segment.start_time@) is None ==> r is None,
        time_of(segment.start_time@) matches Some(t) ==> (r matches Some(row) && row.start_time == t
            && row.twitch_segment_id == segment.id && row.title == segment.title
            && row.is_recurring == segment.is_recurring && row.category_name == match segment.category {
            Some(c) => Some(c.name),
            None => None,
        } && (row.discord_integration_id matches Some(
            d,
        ) && d@ == integration_id@) && match segment.end_time {
            Some(e) => match time_of(e@) {
                Some(u) => row.end_time == Some(u as i64),
                None => row.end_time is None,
            },
            None => row.end_time is None,
        }),
{
    let start = match segment_start(segment) {
        Some(t) => t,
        None => {
            return None;
        },
    };
    let end = segment_end(segment);
    Some(synced_event_for(segment, integration_id, start, end, segment.is_recurring))
}

/// Does a segment starting at `start` get a Discord event at `now`? (Discord does not
/// take events in the past.)
pub fn needs_discord_event(start: i64, now: i64) -> (r: bool)
    ensures
        r == (start >= now),
{
    start >= now
}

/// The Discord event of a one-off segment: an external event at the channel's address,
/// visible to the guild, named and described after the mirrored row.
pub fn scheduled_event_for_segment(
    record: &SyncedCalendarEvent,
    segment: &ScheduleSegment,
    guild_id: &str,
    twitch_login: &str,
) -> (r: ScheduledEvent)
    ensures
        r.id is None,
        r.guild_id@ == guild_id@,
        r.channel_id is None,
        r.name == record.title,
        r.description == record.category_name,
        r.scheduled_start_time == segment.start_time,
        r.scheduled_end_time == segment.end_time,
        r.privacy_level == 2,
        r.entity_type == 3,
        r.entity_metadata matches Some(m) && (m.location matches Some(l) && l@
            == crate::notifications::stream_link(twitch_login@)),
{
    let location = crate::notifications::stream_url_for(twitch_login);
    ScheduledEvent {
        id: None,
        guild_id: owned(guild_id),
        channel_id: None,
        name: record.title.clone(),
        description: record.category_name.clone(),
        scheduled_start_time: segment.start_time.clone(),
        scheduled_end_time: segment.end_time.clone(),
        privacy_level: 2,
        entity_type: 3,
        entity_metadata: Some(EntityMetadata { location: Some(location) }),
    }
}

/// The Discord event of a recurring group: named after the title, described by the
/// category of its first occurrence to come, at that occurrence's times.
pub fn scheduled_event_for_group(
    title: &str,
    first: &ScheduleSegment,
    guild_id: &str,
    twitch_login: &str,
    existing_id: Option<String>,
) -> (r: ScheduledEvent)
    ensures
        r.id == existing_id,
        r.guild_id@ == guild_id@,
        r.channel_id is None,
        r.name@ == title@,
        r.description matches Some(d) && d@ == match first.category {
            Some(c) => c.name@,
            None => Seq::<char>::empty(),
        } + " (Recurring event)"@,
        r.scheduled_start_time == first.start_time,
        r.scheduled_end_time == first.end_time,
        r.privacy_level == 2,
        r.entity_type == 3,
        r.entity_metadata matches Some(m) && (m.location matches Some(l) && l@
            == crate::notifications::stream_link(twitch_login@)),
{
    let location = crate::notifications::stream_url_for(twitch_login);
    let category: &str = match &first.category {
        Some(c) => c.name.as_str(),
        None => "",
    };
    proof {
        reveal_strlit("");
    }
    let description = concat2(category, " (Recurring event)");
    ScheduledEvent {
        id: existing_id,
        guild_id: owned(guild_id),
        channel_id: None,
        name: owned(title),
        description: Some(description),
        scheduled_start_time: first.start_time.clone(),
        scheduled_end_time: first.end_time.clone(),
        privacy_level: 2,
        entity_type: 3,
        entity_metadata: Some(EntityMetadata { location: Some(location) }),
    }
}

/// The Discord event already made for a recurring group: the first one recorded on its rows.
pub fn group_event_id(records: &Vec<SyncedCalendarEvent>) -> (r: Option<String>)
    ensures
        r matches Some(id) ==> exists|k: int|
            0 <= k < records@.len() && records@[k].discord_event_id == Some(id) && forall|j: int|
                0 <= j < k ==> records@[j].discord_event_id is None,
        r is None ==> forall|j: int|
            0 <= j < records@.len() ==> records@[j].discord_event_id is None,
{
    let mut i: usize = 0;
    while i < records.len()
        invariant
            i <= records.len(),
            forall|j: int| 0 <= j < i ==> records@[j].discord_event_id is None,
        decreases records.len() - i,
    {
        match &records[i].discord_event_id {
            Some(id) => {
                return Some(id.clone());
            },
            None => {},
        }
        i = i + 1;
    }
    None
}

/// Is `id` among `ids`?
pub open spec fn listed(ids: Seq<String>, id: Seq<char>) -> bool {
    exists|k: int| 0 <= k < ids.len() && ids[k]@ == id
}

/// The rows whose segment is no longer in the schedule, in order.
pub open spec fn stale_rows_spec(rows: Seq<SyncedCalendarEvent>, ids: Seq<String>, n: int) -> Seq<
    usize,
>
    decreases n,
{
    if n <= 0 {
        Seq::empty()
    } else if !listed(ids, rows[n - 1].twitch_segment_id@) {
        stale_rows_spec(rows, ids, n - 1).push((n - 1) as usize)
    } else {
        stale_rows_spec(rows, ids, n - 1)
    }
}

/// Is `id` among `ids`?
fn is_listed(ids: &Vec<String>, id: &str) -> (r: bool)
    ensures
        r == listed(ids@, id@),
{
    let mut k: usize = 0;
    while k < ids.len()
        invariant
            k <= ids.len(),
            forall|j: int| 0 <= j < k ==> ids@[j]@ != id@,
        decreases ids.len() - k,
    {
        if str_equal(ids[k].as_str(), id) {
            return true;
        }
        k = k + 1;
    }
    false
}

/// The rows (and their Discord events) to remove: those whose segment is no longer in
/// the schedule.
pub fn stale_rows(rows: &Vec<SyncedCalendarEvent>, segment_ids: &Vec<String>) -> (r: Vec<usize>)
    ensures
        r@ == stale_rows_spec(rows@, segment_ids@, rows@.len() as int),
{
    let mut r: Vec<usize> = Vec::new();
    let mut i: usize = 0;
    while i < rows.len()
        invariant
            i <= rows.len(),
            r@ == stale_rows_spec(rows@, segment_ids@, i as int),
        decreases rows.len() - i,
    {
        if !is_listed(segment_ids, rows[i].twitch_segment_id.as_str()) {
            r.push(i);
        }
        i = i + 1;
    }
    r
}

/// Is `r` the row of a cancelled segment of the schedule?
pub open spec fn row_of_canceled(r: SyncedCalendarEvent, segs: Seq<ScheduleSegment>) -> bool {
    exists|k: int| 0 <= k < segs.len() && canceled(segs[k]) && segs[k].id@ == r.twitch_segment_id@
}

/// The rows of cancelled segments, in order.
pub open spec fn canceled_rows_spec(
    rows: Seq<SyncedCalendarEvent>,
    segs: Seq<ScheduleSegment>,
    n: int,
) -> Seq<usize>
    decreases n,
{
    if n <= 0 {
        Seq::empty()
    } else if row_of_canceled(rows[n - 1], segs) {
        canceled_rows_spec(rows, segs, n - 1).push((n - 1) as usize)
    } else {
        canceled_rows_spec(rows, segs, n - 1)
    }
}

/// Does the schedule hold a cancelled segment with this id?
fn has_canceled_segment(segs: &Vec<ScheduleSegment>, id: &str) -> (r: bool)
    ensures
        r == exists|k: int| 0 <= k < segs@.len() && canceled(segs@[k]) && segs@[k].id@ == id@,
{
    let mut k: usize = 0;
    while k < segs.len()
        invariant
            k <= segs.len(),
            forall|j: int| 0 <= j < k ==> !(canceled(segs@[j]) && segs@[j].id@ == id@),
        decreases segs.len() - k,
    {
        if segs[k].canceled_until.is_some() && str_equal(segs[k].id.as_str(), id) {
            return true;
        }
        k = k + 1;
    }
    false
}

/// The rows (and their Discord events) of the schedule's cancelled segments.
pub fn canceled_rows(rows: &Vec<SyncedCalendarEvent>, segments: &Vec<ScheduleSegment>) -> (r: Vec<
    usize,
>)
    ensures
        r@ == canceled_rows_spec(rows@, segments@, rows@.len() as int),
{
    let mut r: Vec<usize> = Vec::new();
    let mut i: usize = 0;
    while i < rows.len()
        invariant
            i <= rows.len(),
            r@ == canceled_rows_spec(rows@, segments@, i as int),
        decreases rows.len() - i,
    {
        if has_canceled_segment(segments, rows[i].twitch_segment_id.as_str()) {
            r.push(i);
        }
        i = i + 1;
    }
    r
}

/// Does the schedule hold a segment with this id?
pub open spec fn scheduled(segs: Seq<ScheduleSegment>, id: Seq<char>) -> bool {
    exists|k: int| 0 <= k < segs.len() && segs[k].id@ == id
}

/// The rows whose segment is not in the schedule, in order.
pub open spec fn unscheduled_rows_spec(
    rows: Seq<SyncedCalendarEvent>,
    segs: Seq<ScheduleSegment>,
    n: int,
) -> Seq<usize>
    decreases n,
{
    if n <= 0 {
        Seq::empty()
    } else if !scheduled(segs, rows[n - 1].twitch_segment_id@) {
        unscheduled_rows_spec(rows, segs, n - 1).push((n - 1) as usize)
    } else {
        unscheduled_rows_spec(rows, segs, n - 1)
    }
}

fn has_segment(segs: &Vec<ScheduleSegment>, id: &str) -> (r: bool)
    ensures
        r == scheduled(segs@, id@),
{
    let mut k: usize = 0;
    while k < segs.len()
        invariant
            k <= segs.len(),
            forall|j: int| 0 <= j < k ==> segs@[j].id@ != id@,
        decreases segs.len() - k,
    {
        if str_equal(segs[k].id.as_str(), id) {
            return true;
        }
        k = k + 1;
    }
    false
}

/// The rows (and their Discord events) whose segment is not in the schedule.
pub fn unscheduled_rows(rows: &Vec<SyncedCalendarEvent>, segments: &Vec<ScheduleSegment>) -> (r: Vec<
    usize,
>)
    ensures
        r@ == unscheduled_rows_spec(rows@, segments@, rows@.len() as int),
{
    let mut r: Vec<usize> = Vec::new();
    let mut i: usize = 0;
    while i < rows.len()
        invariant
            i <= rows.len(),
            r@ == unscheduled_rows_spec(rows@, segments@, i as int),
        decreases rows.len() - i,
    {
        if !has_segment(segments, rows[i].twitch_segment_id.as_str()) {
            r.push(i);
        }
        i = i + 1;
    }
    r
}

/// The positions `0..n`, in order.
pub open spec fn all_positions(n: nat) -> Seq<usize> {
    Seq::new(n, |i: int| i as usize)
}

/// Where the calendar synchronization of one integration stands.
#[derive(Debug, Clone, PartialEq, Eq)]
pub enum CalendarPhase {
    Start,
    AwaitOwner,
    /// The schedule was asked for (`refreshed`: with a token just refreshed).
    AwaitSchedule { refreshed: bool },
    AwaitRefresh,
    /// The rows were asked for, there being no schedule.
    AwaitRowsUnscheduled,
    /// The rows were asked for, to remove those of cancelled segments.
    AwaitRows(Vec<ScheduleSegment>),
    /// The cancelled segments' rows are being removed.
    AwaitCanceledRemoved(Vec<ScheduleSegment>),
    /// The schedule's segments are being mirrored.
    AwaitMirrored(Vec<ScheduleSegment>),
    /// The rows were asked for again, to remove those whose segment is not in the schedule.
    AwaitFinalRows(Vec<ScheduleSegment>),
    /// The last rows are being removed.
    AwaitFinalRemoved,
    Done,
}

/// What the synchronization asks for next.
#[derive(Debug, Clone, PartialEq, Eq)]
pub enum CalendarAction {
    /// Load the integration's owner (answer `OwnerFound` or `OwnerMissing`).
    LoadOwner,
    /// Fetch the owner's schedule with this access token (answer `ScheduleFetched` or
    /// `FetchFailed`).
    FetchSchedule(String),
    /// Refresh and store the owner's tokens (answer `Refreshed`).
    RefreshToken,
    /// Load the integration's rows (answer `RowsLoaded`).
    LoadRows,
    /// Remove the rows at these positions of the rows last loaded, each with its Discord
    /// event (answer `RowsRemoved`).
    RemoveRows(Vec<usize>),
    /// Mirror the segments as planned (answer `Mirrored`).
    Mirror(SegmentPlan),
    /// The synchronization is over.
    Stop,
}

/// What happened after the last action.
#[derive(Debug, Clone, PartialEq, Eq)]
pub enum CalendarEvent {
    Begin,
    OwnerFound { access_token: String },
    OwnerMissing,
    /// The schedule (`None`: the broadcaster has none).
    ScheduleFetched(Option<Vec<ScheduleSegment>>),
    FetchFailed,
    /// The new access token, when refreshing it succeeded.
    Refreshed(Option<String>),
    RowsLoaded(Vec<SyncedCalendarEvent>),
    RowsRemoved,
    Mirrored,
}

/// Is `r` the next phase and action of the synchronization after `event` in `phase`?
/// A missing owner or a schedule that cannot be fetched (after one refresh) ends it with
/// nothing changed; without a schedule every row goes; with one, the cancelled segments'
/// rows go, the others are mirrored, and then the rows of segments no longer listed go.
pub open spec fn calendar_step_is(
    phase: CalendarPhase,
    event: CalendarEvent,
    r: (CalendarPhase, CalendarAction),
) -> bool {
    match (phase, event) {
        (CalendarPhase::Start, CalendarEvent::Begin) => r == (
            CalendarPhase::AwaitOwner,
            CalendarAction::LoadOwner,
        ),
        (CalendarPhase::AwaitOwner, CalendarEvent::OwnerMissing) => r == (
            CalendarPhase::Done,
            CalendarAction::Stop,
        ),
        (CalendarPhase::AwaitOwner, CalendarEvent::OwnerFound { access_token }) => r == (
            CalendarPhase::AwaitSchedule { refreshed: false },
            CalendarAction::FetchSchedule(access_token),
        ),
        (CalendarPhase::AwaitSchedule { refreshed }, CalendarEvent::FetchFailed) => if refreshed {
            r == (CalendarPhase::Done, CalendarAction::Stop)
        } else {
            r == (CalendarPhase::AwaitRefresh, CalendarAction::RefreshToken)
        },
        (CalendarPhase::AwaitRefresh, CalendarEvent::Refreshed(token)) => match token {
            Some(t) => r == (
                CalendarPhase::AwaitSchedule { refreshed: true },
                CalendarAction::FetchSchedule(t),
            ),
            None => r == (CalendarPhase::Done, CalendarAction::Stop),
        },
        (CalendarPhase::AwaitSchedule { .. }, CalendarEvent::ScheduleFetched(schedule)) => match schedule {
            None => r == (CalendarPhase::AwaitRowsUnscheduled, CalendarAction::LoadRows),
            Some(segs) => r == (CalendarPhase::AwaitRows(segs), CalendarAction::LoadRows),
        },
        (CalendarPhase::AwaitRowsUnscheduled, CalendarEvent::RowsLoaded(rows)) => r.0
            == CalendarPhase::AwaitFinalRemoved && (r.1 matches CalendarAction::RemoveRows(ps)
            && ps@ == all_positions(rows@.len())),
        (CalendarPhase::AwaitRows(segs), CalendarEvent::RowsLoaded(rows)) => r.0
            == CalendarPhase::AwaitCanceledRemoved(segs) && (r.1 matches CalendarAction::RemoveRows(
            ps,
        ) && ps@ == canceled_rows_spec(rows@, segs@, rows@.len() as int)),
        (CalendarPhase::AwaitCanceledRemoved(segs), CalendarEvent::RowsRemoved) => r.1 matches CalendarAction::Mirror(
            plan,
        ) && plan_of(segs@, plan) && r.0 == CalendarPhase::AwaitMirrored(segs),
        (CalendarPhase::AwaitMirrored(segs), CalendarEvent::Mirrored) => r == (
            CalendarPhase::AwaitFinalRows(segs),
            CalendarAction::LoadRows,
        ),
        (CalendarPhase::AwaitFinalRows(segs), CalendarEvent::RowsLoaded(rows)) => r.0
            == CalendarPhase::AwaitFinalRemoved && (r.1 matches CalendarAction::RemoveRows(ps)
            && ps@ == unscheduled_rows_spec(rows@, segs@, rows@.len() as int)),
        _ => r == (CalendarPhase::Done, CalendarAction::Stop),
    }
}

/// The positions of all the rows.
fn every_position(n: usize) -> (r: Vec<usize>)
    ensures
        r@ == all_positions(n as nat),
{
    let mut r: Vec<usize> = Vec::new();
    let mut i: usize = 0;
    while i < n
        invariant
            i <= n,
            r@ == all_positions(i as nat),
        decreases n - i,
    {
        r.push(i);
        i = i + 1;
        assert(r@ =~= all_positions(i as nat));
    }
    r
}

/// The synchronization's next phase and action after `event` in `phase` (an event that
/// does not answer the last action ends it).
pub fn calendar_step(phase: CalendarPhase, event: CalendarEvent) -> (r: (CalendarPhase, CalendarAction))
    ensures
        calendar_step_is(phase, event, r),
{
    match (phase, event) {
        (CalendarPhase::Start, CalendarEvent::Begin) => (
            CalendarPhase::AwaitOwner,
            CalendarAction::LoadOwner,
        ),
        (CalendarPhase::AwaitOwner, CalendarEvent::OwnerMissing) => (
            CalendarPhase::Done,
            CalendarAction::Stop,
        ),
        (CalendarPhase::AwaitOwner, CalendarEvent::OwnerFound { access_token }) => (
            CalendarPhase::AwaitSchedule { refreshed: false },
            CalendarAction::FetchSchedule(access_token),
        ),
        (CalendarPhase::AwaitSchedule { refreshed }, CalendarEvent::FetchFailed) => {
            if refreshed {
                (CalendarPhase::Done, CalendarAction::Stop)
            } else {
                (CalendarPhase::AwaitRefresh, CalendarAction::RefreshToken)
            }
        },
        (CalendarPhase::AwaitRefresh, CalendarEvent::Refreshed(token)) => match token {
            Some(t) => (
                CalendarPhase::AwaitSchedule { refreshed: true },
                CalendarAction::FetchSchedule(t),
            ),
            None => (CalendarPhase::Done, CalendarAction::Stop),
        },
        (CalendarPhase::AwaitSchedule { .. }, CalendarEvent::ScheduleFetched(schedule)) => match schedule {
            None => (CalendarPhase::AwaitRowsUnscheduled, CalendarAction::LoadRows),
            Some(segs) => (CalendarPhase::AwaitRows(segs), CalendarAction::LoadRows),
        },
        (CalendarPhase::AwaitRowsUnscheduled, CalendarEvent::RowsLoaded(rows)) => (
            CalendarPhase::AwaitFinalRemoved,
            CalendarAction::RemoveRows(every_position(rows.len())),
        ),
        (CalendarPhase::AwaitRows(segs), CalendarEvent::RowsLoaded(rows)) => {
            let ps = canceled_rows(&rows, &segs);
            (CalendarPhase::AwaitCanceledRemoved(segs), CalendarAction::RemoveRows(ps))
        },
        (CalendarPhase::AwaitCanceledRemoved(segs), CalendarEvent::RowsRemoved) => {
            let plan = plan_segments(&segs);
            (CalendarPhase::AwaitMirrored(segs), CalendarAction::Mirror(plan))
        },
        (CalendarPhase::AwaitMirrored(segs), CalendarEvent::Mirrored) => (
            CalendarPhase::AwaitFinalRows(segs),
            CalendarAction::LoadRows,
        ),
        (CalendarPhase::AwaitFinalRows(segs), CalendarEvent::RowsLoaded(rows)) => {
            let ps = unscheduled_rows(&rows, &segs);
            (CalendarPhase::AwaitFinalRemoved, CalendarAction::RemoveRows(ps))
        },
        _ => (CalendarPhase::Done, CalendarAction::Stop),
    }
}

// ---------------------------------------------------------------------------
// The Discord event of a segment or a recurring group, one outside call at a time
// ---------------------------------------------------------------------------

/// Where creating or updating the Discord event of some stored rows stands; `rows` is
/// how many rows carry the event (positions `0..rows` of the rows just stored).
#[derive(Debug, Clone, PartialEq, Eq)]
pub enum EventSyncPhase {
    /// Nothing asked yet; `existing` is the event the rows already carry, if any.
    Start { existing: Option<String>, rows: usize },
    /// The existing event is being updated.
    AwaitUpdate { id: String, rows: usize },
    /// A new event is being created.
    AwaitCreate { rows: usize },
    /// Row `at` is being stamped with the event's id.
    AwaitStamp { id: String, rows: usize, at: usize },
    /// Nothing is left to do.
    Done,
}

/// What the outside world answered.
#[derive(Debug, Clone, PartialEq, Eq)]
pub enum EventSyncAnswer {
    /// The work starts.
    Begin,
    /// Whether Discord updated the event.
    Updated(bool),
    /// The id of the event Discord created; `None` when creating failed or Discord gave
    /// no id.
    Created(Option<String>),
    /// The row was stamped (or stamping it failed and was logged).
    Stamped,
}

/// What to do next.
#[derive(Debug, Clone, PartialEq, Eq)]
pub enum EventSyncAction {
    /// Update the Discord event with this id.
    Update(String),
    /// Create a Discord event.
    Create,
    /// Record the event's id on the row at this position, and the time of the sync.
    Stamp { row: usize, id: String },
    /// Nothing is left to do.
    Finish,
}

/// Stamping row `k` and the ones after it with `id`, or finishing.
pub open spec fn stamp_next(id: String, rows: usize, k: int, r: (EventSyncPhase, EventSyncAction)) -> bool {
    if k < rows {
        r == (EventSyncPhase::AwaitStamp { id, rows, at: k as usize }, EventSyncAction::Stamp {
            row: k as usize,
            id,
        })
    } else {
        r == (EventSyncPhase::Done, EventSyncAction::Finish)
    }
}

/// One step of keeping the Discord event of stored rows: the event the rows carry is
/// updated, or one is created when they carry none; once Discord updated it or gave
/// the new event's id, every row is stamped with that id, one after the other; when
/// Discord fails, nothing is stamped.
pub open spec fn event_sync_step_is(phase: EventSyncPhase, answer: EventSyncAnswer, r: (EventSyncPhase, EventSyncAction)) -> bool {
    match (phase, answer) {
        (EventSyncPhase::Start { existing, rows }, EventSyncAnswer::Begin) => match existing {
            Some(id) => r == (EventSyncPhase::AwaitUpdate { id, rows }, EventSyncAction::Update(id)),
            None => r == (EventSyncPhase::AwaitCreate { rows }, EventSyncAction::Create),
        },
        (EventSyncPhase::AwaitUpdate { id, rows }, EventSyncAnswer::Updated(ok)) => if ok {
            stamp_next(id, rows, 0, r)
        } else {
            r == (EventSyncPhase::Done, EventSyncAction::Finish)
        },
        (EventSyncPhase::AwaitCreate { rows }, EventSyncAnswer::Created(created)) => match created {
            Some(id) => stamp_next(id, rows, 0, r),
            None => r == (EventSyncPhase::Done, EventSyncAction::Finish),
        },
        (EventSyncPhase::AwaitStamp { id, rows, at }, EventSyncAnswer::Stamped) => stamp_next(id, rows, at + 1, r),
        _ => r == (EventSyncPhase::Done, EventSyncAction::Finish),
    }
}

fn stamp_from(id: String, rows: usize, k: usize) -> (r: (EventSyncPhase, EventSyncAction))
    ensures
        stamp_next(id, rows, k as int, r),
{
    if k < rows {
        let again = id.clone();
        (EventSyncPhase::AwaitStamp { id, rows, at: k }, EventSyncAction::Stamp { row: k, id: again })
    } else {
        (EventSyncPhase::Done, EventSyncAction::Finish)
    }
}

/// One step of keeping the Discord event of stored rows: from where it stands and what
/// the outside world answered to the next phase and the next outside call.
pub fn event_sync_step(phase: EventSyncPhase, answer: EventSyncAnswer) -> (r: (EventSyncPhase, EventSyncAction))
    ensures
        event_sync_step_is(phase, answer, r),
{
    match (phase, answer) {
        (EventSyncPhase::Start { existing, rows }, EventSyncAnswer::Begin) => match existing {
            Some(id) => {
                let again = id.clone();
                (EventSyncPhase::AwaitUpdate { id, rows }, EventSyncAction::Update(again))
            },
            None => (EventSyncPhase::AwaitCreate { rows }, EventSyncAction::Create),
        },
        (EventSyncPhase::AwaitUpdate { id, rows }, EventSyncAnswer::Updated(ok)) => if ok {
            stamp_from(id, rows, 0)
        } else {
            (EventSyncPhase::Done, EventSyncAction::Finish)
        },
        (EventSyncPhase::AwaitCreate { rows }, EventSyncAnswer::Created(created)) => match created {
            Some(id) => stamp_from(id, rows, 0),
            None => (EventSyncPhase::Done, EventSyncAction::Finish),
        },
        (EventSyncPhase::AwaitStamp { id, rows, at }, EventSyncAnswer::Stamped) => if at < rows {
            stamp_from(id, rows, at + 1)
        } else {
            (EventSyncPhase::Done, EventSyncAction::Finish)
        },
        _ => (EventSyncPhase::Done, EventSyncAction::Finish),
    }
}

} // verus!
