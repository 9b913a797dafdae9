//! Start-up helpers and the background workers' decisions: what may be logged of the
//! database address, and when each worker syncs, polls, sleeps or stops.
use vstd::prelude::*;

use crate::config::NotificationRetryConfig;
use crate::encoding::{parse_url_components, url_components};
use crate::text::{chars_of, concat2, decimal_text, find_char, index_of, owned, push_str, string_of, u16_to_text};

verus! {

broadcast use vstd::string::group_string_axioms;

/// What may be logged of a database address: for a URL, its scheme, host, explicit port
/// and path (no user name or password); otherwise what follows the first `@`, or nothing.
pub open spec fn redacted_db_url(db_url: Seq<char>) -> Seq<char> {
    match url_components(db_url) {
        Some((scheme, host, port, path)) => scheme + "://"@ + match host {
            Some(h) => h,
            None => Seq::empty(),
        } + match port {
            Some(p) => ":"@ + decimal_text(p as int),
            None => Seq::empty(),
        } + path,
        None => match index_of(db_url, '@') {
            Some(at) => "(redacted)"@ + db_url.skip(at + 1int),
            None => "(redacted)"@,
        },
    }
}

proof fn lemma_index_of_in_bounds(s: Seq<char>, c: char)
    ensures
        index_of(s, c) matches Some(i) ==> i < s.len(),
    decreases s.len(),
{
    if s.len() > 0 && s[0] != c {
        lemma_index_of_in_bounds(s.skip(1), c);
    }
}

/// Removes credentials from a database address before it is logged.
pub fn redact_db_url(db_url: &str) -> (r: String)
    ensures
        r@ == redacted_db_url(db_url@),
{
    match parse_url_components(db_url) {
        Some((scheme, host, port, path)) => {
            let mut out = concat2(scheme.as_str(), "://");
            match &host {
                Some(h) => push_str(&mut out, h.as_str()),
                None => {},
            }
            match port {
                Some(p) => {
                    push_str(&mut out, ":");
                    let digits = u16_to_text(p);
                    push_str(&mut out, digits.as_str());
                },
                None => {},
            }
            push_str(&mut out, path.as_str());
            proof {
                let h: Seq<char> = match host {
                    Some(h) => h@,
                    None => Seq::empty(),
                };
                let pt: Seq<char> = match port {
                    Some(p) => ":"@ + decimal_text(p as int),
                    None => Seq::empty(),
                };
                assert(out@ =~= scheme@ + "://"@ + h + pt + path@);
            }
            out
        },
        None => {
            let v = chars_of(db_url);
            match find_char(&v, '@') {
                Some(at) => {
                    proof {
                        lemma_index_of_in_bounds(v@, '@');
                        assert(index_of(v@, '@') == Some(at as nat));
                    }
                    assert(at < v.len());
                    let mut rest: Vec<char> = Vec::new();
                    let mut i: usize = at + 1;
                    while i < v.len()
                        invariant
                            at + 1 <= i <= v.len(),
                            rest@ == v@.subrange(at + 1, i as int),
                        decreases v.len() - i,
                    {
                        rest.push(v[i]);
                        i = i + 1;
                        assert(rest@ =~= v@.subrange(at + 1, i as int));
                    }
                    assert(rest@ =~= v@.skip(at + 1));
                    let tail = string_of(rest.as_slice());
                    concat2("(redacted)", tail.as_str())
                },
                None => owned("(redacted)"),
            }
        },
    }
}

/// The file path of a SQLite address: the address without a leading `sqlite://`.
pub open spec fn sqlite_path(db_url: Seq<char>) -> Seq<char> {
    if crate::text::starts_with(db_url, "sqlite://"@) {
        db_url.skip(9)
    } else {
        db_url
    }
}

/// The file path of a SQLite address.
pub fn sqlite_file_path(db_url: &str) -> (r: String)
    ensures
        r@ == sqlite_path(db_url@),
{
    proof {
        reveal_strlit("sqlite://");
    }
    if crate::text::str_starts_with(db_url, "sqlite://") {
        let v = chars_of(db_url);
        let mut rest: Vec<char> = Vec::new();
        let mut i: usize = 9;
        while i < v.len()
            invariant
                9 <= i <= v.len(),
                rest@ == v@.subrange(9, i as int),
            decreases v.len() - i,
        {
            rest.push(v[i]);
            i = i + 1;
            assert(rest@ =~= v@.subrange(9, i as int));
        }
        assert(rest@ =~= v@.skip(9));
        string_of(rest.as_slice())
    } else {
        owned(db_url)
    }
}

// ---------------------------------------------------------------------------
// Background workers
// ---------------------------------------------------------------------------

/// Seconds between two periodic synchronizations (EventSub and calendar).
pub const SYNC_PERIOD_SECONDS: u64 = 3600;

/// Seconds the retry worker waits while retries are switched off.
pub const DISABLED_POLL_SECONDS: u64 = 60;

/// What a periodic worker does next.
#[derive(Debug, Clone, Copy, PartialEq, Eq, Structural)]
pub enum WorkerAction {
    /// Stop for good.
    Stop,
    /// Wait this many seconds (or until shutdown), then decide again.
    Sleep(u64),
    /// Take up to this many due tasks from the queue.
    Fetch(u32),
    /// Run the task at this position of the batch just taken.
    Process(usize),
    /// Synchronize the item at this position of the list just loaded.
    Sync(usize),
}

/// What happened since the last decision of a worker.
#[derive(Debug, Clone, Copy, PartialEq, Eq, Structural)]
pub enum WorkerEvent {
    /// Time to decide (the start, or a sleep ended).
    Tick,
    /// A batch of this many due tasks was taken.
    Fetched(usize),
    /// Taking due tasks failed.
    FetchFailed,
    /// The item (task or user) at a position was handed off.
    Handled(usize),
    /// A list of this many items was loaded.
    Listed(usize),
    /// Loading the list failed.
    ListFailed,
}

/// The retry worker's next action after `event`, when `batch` tasks were taken in this
/// round (`shutdown`: a shutdown was requested): stop on shutdown; while retries are off,
/// wait a minute; otherwise take up to `worker_concurrency` due tasks, run each of them,
/// and wait the poll interval before the next round.
pub fn retry_worker_step(
    cfg: &NotificationRetryConfig,
    shutdown: bool,
    event: WorkerEvent,
    batch: usize,
) -> (r: WorkerAction)
    ensures
        shutdown ==> r == WorkerAction::Stop,
        !shutdown ==> match event {
            WorkerEvent::Tick => if !cfg.enabled {
                r == WorkerAction::Sleep(DISABLED_POLL_SECONDS)
            } else {
                r == WorkerAction::Fetch(cfg.worker_concurrency)
            },
            WorkerEvent::Fetched(n) => if n == 0 {
                r == WorkerAction::Sleep(cfg.poll_interval_seconds)
            } else {
                r == WorkerAction::Process(0)
            },
            WorkerEvent::Handled(i) => if i + 1 < batch {
                r == WorkerAction::Process((i + 1) as usize)
            } else {
                r == WorkerAction::Sleep(cfg.poll_interval_seconds)
            },
            _ => r == WorkerAction::Sleep(cfg.poll_interval_seconds),
        },
{
    if shutdown {
        return WorkerAction::Stop;
    }
    match event {
        WorkerEvent::Tick => {
            if !cfg.enabled {
                WorkerAction::Sleep(DISABLED_POLL_SECONDS)
            } else {
                WorkerAction::Fetch(cfg.worker_concurrency)
            }
        },
        WorkerEvent::Fetched(n) => {
            if n == 0 {
                WorkerAction::Sleep(cfg.poll_interval_seconds)
            } else {
                WorkerAction::Process(0)
            }
        },
        WorkerEvent::Handled(i) => {
            if i < batch && i + 1 < batch {
                WorkerAction::Process(i + 1)
            } else {
                WorkerAction::Sleep(cfg.poll_interval_seconds)
            }
        },
        _ => WorkerAction::Sleep(cfg.poll_interval_seconds),
    }
}

/// The EventSub worker's next action: load all users, synchronize them one after the
/// other (stopping early on shutdown), then wait an hour; a failed listing also waits an
/// hour.
pub fn eventsub_worker_step(shutdown: bool, event: WorkerEvent, users: usize) -> (r:
    WorkerAction)
    ensures
        shutdown ==> r == WorkerAction::Stop,
        !shutdown ==> match event {
            WorkerEvent::Tick => r == WorkerAction::Fetch(0),
            WorkerEvent::Listed(n) => if n == 0 {
                r == WorkerAction::Sleep(SYNC_PERIOD_SECONDS)
            } else {
                r == WorkerAction::Sync(0)
            },
            WorkerEvent::Handled(i) => if i + 1 < users {
                r == WorkerAction::Sync((i + 1) as usize)
            } else {
                r == WorkerAction::Sleep(SYNC_PERIOD_SECONDS)
            },
            _ => r == WorkerAction::Sleep(SYNC_PERIOD_SECONDS),
        },
{
    if shutdown {
        return WorkerAction::Stop;
    }
    match event {
        WorkerEvent::Tick => WorkerAction::Fetch(0),
        WorkerEvent::Listed(n) => {
            if n == 0 {
                WorkerAction::Sleep(SYNC_PERIOD_SECONDS)
            } else {
                WorkerAction::Sync(0)
            }
        },
        WorkerEvent::Handled(i) => {
            if i < users && i + 1 < users {
                WorkerAction::Sync(i + 1)
            } else {
                WorkerAction::Sleep(SYNC_PERIOD_SECONDS)
            }
        },
        _ => WorkerAction::Sleep(SYNC_PERIOD_SECONDS),
    }
}

/// The calendar worker's next action: synchronize everything, then wait an hour.
pub fn calendar_worker_step(shutdown: bool, event: WorkerEvent) -> (r: WorkerAction)
    ensures
        shutdown ==> r == WorkerAction::Stop,
        !shutdown ==> match event {
            WorkerEvent::Tick => r == WorkerAction::Sync(0),
            _ => r == WorkerAction::Sleep(SYNC_PERIOD_SECONDS),
        },
{
    if shutdown {
        return WorkerAction::Stop;
    }
    match event {
        WorkerEvent::Tick => WorkerAction::Sync(0),
        _ => WorkerAction::Sleep(SYNC_PERIOD_SECONDS),
    }
}

} // verus!
