//! Keeping a user's Twitch EventSub subscriptions in line with the event types the
//! service needs: what to delete, what to recreate, what to create.
use vstd::prelude::*;

use crate::models::{CreateEventSubSubscription, EventSubSubscription};
use crate::text::{owned, str_equal};

verus! {

broadcast use vstd::string::group_string_axioms;

/// Keeps a user's EventSub subscriptions in line with what notifications need.
pub struct SubscriptionManager;

/// The event types every user is subscribed to (integrations filter what they want).
pub open spec fn required_types() -> Seq<Seq<char>> {
    seq![
        "stream.online"@,
        "stream.offline"@,
        "channel.update"@,
        "channel.channel_points_custom_reward_redemption.add"@,
    ]
}

/// The status of a subscription that Twitch has confirmed.
pub open spec fn enabled_status() -> Seq<char> {
    "enabled"@
}

/// The status of a subscription whose webhook Twitch has not verified yet.
pub open spec fn pending_status() -> Seq<char> {
    "webhook_callback_verification_pending"@
}

/// How long (milliseconds) a subscription may wait for verification before it is recreated.
pub open spec fn verification_timeout_ms() -> int {
    600_000
}

/// The event types every user is subscribed to.
pub fn required_subscription_types() -> (r: Vec<String>)
    ensures
        r@.len() == required_types().len(),
        forall|i: int| 0 <= i < r@.len() ==> #[trigger] r@[i]@ == required_types()[i],
{
    let mut r: Vec<String> = Vec::new();
    r.push(owned("stream.online"));
    r.push(owned("stream.offline"));
    r.push(owned("channel.update"));
    r.push(owned("channel.channel_points_custom_reward_redemption.add"));
    r
}

/// Is `t` one of the required event types?
pub open spec fn is_required(t: Seq<char>) -> bool {
    required_types().contains(t)
}

/// Is `t` one of the required event types?
pub fn is_required_type(t: &str) -> (r: bool)
    ensures
        r == is_required(t@),
{
    let r = str_equal(t, "stream.online") || str_equal(t, "stream.offline") || str_equal(
        t,
        "channel.update",
    ) || str_equal(t, "channel.channel_points_custom_reward_redemption.add");
    proof {
        let req = required_types();
        assert(req[0] == "stream.online"@);
        assert(req[1] == "stream.offline"@);
        assert(req[2] == "channel.update"@);
        assert(req[3] == "channel.channel_points_custom_reward_redemption.add"@);
        if req.contains(t@) {
            let k = choose|k: int| 0 <= k < req.len() && req[k] == t@;
            assert(k == 0 || k == 1 || k == 2 || k == 3);
        }
    }
    r
}

/// The positions of the recorded subscriptions whose type is no longer required
/// (deleted on Twitch, then from the records).
pub open spec fn stale_positions(subs: Seq<EventSubSubscription>, n: int) -> Seq<usize>
    decreases n,
{
    if n <= 0 {
        Seq::empty()
    } else if !is_required(subs[n - 1].subscription_type@) {
        stale_positions(subs, n - 1).push((n - 1) as usize)
    } else {
        stale_positions(subs, n - 1)
    }
}

/// Has a subscription waited for verification for longer than the timeout at `now`?
pub open spec fn verification_overdue(s: EventSubSubscription, now: i64) -> bool {
    s.status@ == pending_status() && now - s.created_at > verification_timeout_ms()
}

/// The positions of the recorded subscriptions stuck in verification for too long
/// (deleted on Twitch and from the records, to be created again).
pub open spec fn overdue_positions(subs: Seq<EventSubSubscription>, now: i64, n: int) -> Seq<usize>
    decreases n,
{
    if n <= 0 {
        Seq::empty()
    } else if verification_overdue(subs[n - 1], now) {
        overdue_positions(subs, now, n - 1).push((n - 1) as usize)
    } else {
        overdue_positions(subs, now, n - 1)
    }
}

/// The recorded subscriptions to delete because their type is no longer required.
pub fn stale_subscriptions(subs: &Vec<EventSubSubscription>) -> (r: Vec<usize>)
    ensures
        r@ == stale_positions(subs@, subs@.len() as int),
{
    let mut r: Vec<usize> = Vec::new();
    let mut i: usize = 0;
    while i < subs.len()
        invariant
            i <= subs.len(),
            r@ == stale_positions(subs@, i as int),
        decreases subs.len() - i,
    {
        if !is_required_type(subs[i].subscription_type.as_str()) {
            r.push(i);
        }
        i = i + 1;
    }
    r
}

/// Has `s` waited for verification for longer than the timeout at `now`?
pub fn is_verification_overdue(s: &EventSubSubscription, now: i64) -> (r: bool)
    ensures
        r == verification_overdue(*s, now),
{
    str_equal(s.status.as_str(), "webhook_callback_verification_pending") && (now as i128)
        - (s.created_at as i128) > 600_000
}

/// The recorded subscriptions stuck in verification for too long at `now`.
pub fn overdue_subscriptions(subs: &Vec<EventSubSubscription>, now: i64) -> (r: Vec<usize>)
    ensures
        r@ == overdue_positions(subs@, now, subs@.len() as int),
{
    let mut r: Vec<usize> = Vec::new();
    let mut i: usize = 0;
    while i < subs.len()
        invariant
            i <= subs.len(),
            r@ == overdue_positions(subs@, now, i as int),
        decreases subs.len() - i,
    {
        if is_verification_overdue(&subs[i], now) {
            r.push(i);
        }
        i = i + 1;
    }
    r
}

/// What to do about one required event type, given the records left after the cleanup.
#[derive(Debug, Clone, Copy, PartialEq, Eq, Structural)]
pub enum CreationStep {
    /// An enabled subscription of the type is recorded: nothing to do.
    Keep,
    /// A subscription of the type is recorded but not enabled (the one at this position):
    /// delete it on Twitch and from the records, then create the type again.
    Replace(usize),
    /// No subscription of the type is recorded: create it.
    Create,
}

/// Is some recorded subscription of type `t` enabled?
pub open spec fn has_enabled(subs: Seq<EventSubSubscription>, t: Seq<char>) -> bool {
    exists|i: int|
        0 <= i < subs.len() && #[trigger] subs[i].subscription_type@ == t && subs[i].status@
            == enabled_status()
}

/// Is `step` what is done about the required type `t`?
pub open spec fn creation_step_for(
    subs: Seq<EventSubSubscription>,
    t: Seq<char>,
    step: CreationStep,
) -> bool {
    if has_enabled(subs, t) {
        step == CreationStep::Keep
    } else if exists|i: int| 0 <= i < subs.len() && #[trigger] subs[i].subscription_type@ == t {
        step matches CreationStep::Replace(k) && k < subs.len() && subs[k as int].subscription_type@
            == t && forall|j: int| 0 <= j < k ==> subs[j].subscription_type@ != t
    } else {
        step == CreationStep::Create
    }
}

/// What to do about the required type `t`, given the recorded subscriptions.
pub fn creation_step(subs: &Vec<EventSubSubscription>, t: &str) -> (r: CreationStep)
    ensures
        creation_step_for(subs@, t@, r),
{
    let mut i: usize = 0;
    while i < subs.len()
        invariant
            i <= subs.len(),
            forall|j: int|
                0 <= j < i ==> !(#[trigger] subs@[j].subscription_type@ == t@ && subs@[j].status@
                    == enabled_status()),
        decreases subs.len() - i,
    {
        if str_equal(subs[i].subscription_type.as_str(), t) && str_equal(
            subs[i].status.as_str(),
            "enabled",
        ) {
            return CreationStep::Keep;
        }
        i = i + 1;
    }
    let mut k: usize = 0;
    while k < subs.len()
        invariant
            k <= subs.len(),
            !has_enabled(subs@, t@),
            forall|j: int| 0 <= j < k ==> #[trigger] subs@[j].subscription_type@ != t@,
        decreases subs.len() - k,
    {
        if str_equal(subs[k].subscription_type.as_str(), t) {
            return CreationStep::Replace(k);
        }
        k = k + 1;
    }
    CreationStep::Create
}

/// The plan for every required type, in the order of `required_types()`.
pub fn creation_plan(subs: &Vec<EventSubSubscription>) -> (r: Vec<CreationStep>)
    ensures
        r@.len() == required_types().len(),
        forall|i: int|
            0 <= i < r@.len() ==> creation_step_for(subs@, required_types()[i], #[trigger] r@[i]),
{
    let req = required_subscription_types();
    let mut r: Vec<CreationStep> = Vec::new();
    let mut i: usize = 0;
    while i < req.len()
        invariant
            i <= req.len(),
            req@.len() == required_types().len(),
            forall|j: int| 0 <= j < req@.len() ==> #[trigger] req@[j]@ == required_types()[j],
            r@.len() == i,
            forall|j: int|
                0 <= j < i ==> creation_step_for(subs@, required_types()[j], #[trigger] r@[j]),
        decreases req.len() - i,
    {
        let step = creation_step(subs, req[i].as_str());
        r.push(step);
        i = i + 1;
    }
    r
}

/// Synchronizing again changes nothing: when every required type has an enabled
/// subscription recorded, the step planned for each required type keeps it.
pub proof fn law_synced_user_keeps_subscriptions(
    subs: Seq<EventSubSubscription>,
    i: int,
    step: CreationStep,
)
    requires
        forall|t: Seq<char>| required_types().contains(t) ==> has_enabled(subs, t),
        0 <= i < required_types().len(),
        creation_step_for(subs, required_types()[i], step),
    ensures
        step == CreationStep::Keep,
{
    assert(required_types().contains(required_types()[i]));
}

/// The condition of a subscription listed by Twitch, as far as matching a broadcaster
/// needs it: for an object, the string value of `broadcaster_user_id` (if it is a
/// string); for a bare string, that string.
#[derive(Debug, Clone, PartialEq, Eq)]
pub enum EventSubCondition {
    Object { broadcaster_user_id: Option<String> },
    Text(String),
    Other,
}

/// Does the condition target the broadcaster `broadcaster_id`?
pub open spec fn condition_targets(c: EventSubCondition, broadcaster_id: Seq<char>) -> bool {
    match c {
        EventSubCondition::Object { broadcaster_user_id } => match broadcaster_user_id {
            Some(s) => s@ == broadcaster_id,
            None => false,
        },
        EventSubCondition::Text(s) => s@ == broadcaster_id,
        EventSubCondition::Other => false,
    }
}

/// Does the condition target the broadcaster `broadcaster_id`?
pub fn condition_matches_broadcaster(condition: &EventSubCondition, broadcaster_id: &str) -> (r:
    bool)
    ensures
        r == condition_targets(*condition, broadcaster_id@),
{
    match condition {
        EventSubCondition::Object { broadcaster_user_id } => match broadcaster_user_id {
            Some(s) => str_equal(s.as_str(), broadcaster_id),
            None => false,
        },
        EventSubCondition::Text(s) => str_equal(s.as_str(), broadcaster_id),
        EventSubCondition::Other => false,
    }
}

/// A subscription as Twitch lists it.
#[derive(Debug, Clone, PartialEq, Eq)]
pub struct ListedSubscription {
    pub id: String,
    pub subscription_type: String,
    pub status: String,
    pub condition: EventSubCondition,
}

/// The first listed subscription of type `t` for the broadcaster, if any (used when
/// creating a subscription failed because it already exists on Twitch).
pub fn find_listed_subscription(
    listing: &Vec<ListedSubscription>,
    t: &str,
    broadcaster_id: &str,
) -> (r: Option<usize>)
    ensures
        r matches Some(k) ==> k < listing@.len() && listing@[k as int].subscription_type@ == t@
            && condition_targets(listing@[k as int].condition, broadcaster_id@) && forall|j: int|
            0 <= j < k ==> !(#[trigger] listing@[j].subscription_type@ == t@ && condition_targets(
                listing@[j].condition,
                broadcaster_id@,
            )),
        r is None ==> forall|j: int|
            0 <= j < listing@.len() ==> !(#[trigger] listing@[j].subscription_type@ == t@
                && condition_targets(listing@[j].condition, broadcaster_id@)),
{
    let mut i: usize = 0;
    while i < listing.len()
        invariant
            i <= listing.len(),
            forall|j: int|
                0 <= j < i ==> !(#[trigger] listing@[j].subscription_type@ == t@
                    && condition_targets(listing@[j].condition, broadcaster_id@)),
        decreases listing.len() - i,
    {
        if str_equal(listing[i].subscription_type.as_str(), t) && condition_matches_broadcaster(
            &listing[i].condition,
            broadcaster_id,
        ) {
            return Some(i);
        }
        i = i + 1;
    }
    None
}

// ---------------------------------------------------------------------------
// The cleanup before creating, one outside call at a time
// ---------------------------------------------------------------------------

/// A recorded subscription to remove, by its position among the records.
#[derive(Debug, Clone, Copy, PartialEq, Eq, Structural)]
pub enum Removal {
    /// Its type is no longer required: the record goes only once Twitch has deleted
    /// the subscription.
    Unneeded(usize),
    /// It waited too long for verification and is made again: the record goes
    /// whatever Twitch answered.
    Renewed(usize),
}

/// The position a removal is about.
pub open spec fn removal_position(r: Removal) -> usize {
    match r {
        Removal::Unneeded(p) => p,
        Removal::Renewed(p) => p,
    }
}

/// Everything the cleanup removes from `subs` at `now`: the records of types no longer
/// required, then those stuck in verification, each in the order of the records.
pub open spec fn removal_list(subs: Seq<EventSubSubscription>, now: i64) -> Seq<Removal> {
    stale_positions(subs, subs.len() as int).map_values(|p: usize| Removal::Unneeded(p))
        + overdue_positions(subs, now, subs.len() as int).map_values(|p: usize| Removal::Renewed(p))
}

/// Where the cleanup stands.
#[derive(Debug, Clone, PartialEq, Eq)]
pub enum CleanupPhase {
    /// The records are not loaded yet.
    Start,
    /// The subscription of removal `at` is being deleted on Twitch.
    AwaitTwitch { removals: Vec<Removal>, at: usize },
    /// The record of removal `at` is being deleted.
    AwaitRecord { removals: Vec<Removal>, at: usize },
    /// Every removal was handled; the records are loaded again and the missing
    /// subscriptions created.
    Done,
}

/// What the outside world answered.
#[derive(Debug, Clone, PartialEq, Eq)]
pub enum CleanupEvent {
    /// The cleanup starts.
    Begin,
    /// The user's records, read at `now` (milliseconds).
    Loaded { subs: Vec<EventSubSubscription>, now: i64 },
    /// Twitch answered the deletion: `true` when it succeeded.
    TwitchAnswered(bool),
    /// The record was deleted (or its deletion failed and was logged).
    RecordDeleted,
}

/// What to do next.
#[derive(Debug, Clone, Copy, PartialEq, Eq, Structural)]
pub enum CleanupAction {
    /// Read the user's records.
    LoadRecords,
    /// Delete on Twitch the subscription of the record at this position.
    DeleteOnTwitch(usize),
    /// Delete the record at this position.
    DeleteRecord(usize),
    /// The cleanup is over.
    Finish,
}

/// A phase whose removal index is in range.
pub open spec fn cleanup_phase_ok(p: CleanupPhase) -> bool {
    match p {
        CleanupPhase::AwaitTwitch { removals, at } => at < removals@.len(),
        CleanupPhase::AwaitRecord { removals, at } => at < removals@.len(),
        _ => true,
    }
}

/// Going on with removal `at` of `removals`, or finishing when none is left.
pub open spec fn cleanup_next(removals: Vec<Removal>, at: int, r: (CleanupPhase, CleanupAction)) -> bool {
    if at < removals@.len() {
        r.0 == (CleanupPhase::AwaitTwitch { removals, at: at as usize })
            && r.1 == CleanupAction::DeleteOnTwitch(removal_position(removals@[at]))
    } else {
        r == (CleanupPhase::Done, CleanupAction::Finish)
    }
}

/// One step of the cleanup. A record is deleted after Twitch deleted its
/// subscription, and, for a subscription stuck in verification, also when Twitch
/// refused; a record whose type is no longer required stays when Twitch refused.
pub open spec fn cleanup_step_is(phase: CleanupPhase, event: CleanupEvent, r: (CleanupPhase, CleanupAction)) -> bool {
    match (phase, event) {
        (CleanupPhase::Start, CleanupEvent::Begin) => r == (CleanupPhase::Start, CleanupAction::LoadRecords),
        (CleanupPhase::Start, CleanupEvent::Loaded { subs, now }) => exists|removals: Vec<Removal>|
            removals@ == removal_list(subs@, now) && cleanup_next(removals, 0, r),
        (CleanupPhase::AwaitTwitch { removals, at }, CleanupEvent::TwitchAnswered(deleted)) => if deleted
            || removals@[at as int] is Renewed {
            r == (CleanupPhase::AwaitRecord { removals, at }, CleanupAction::DeleteRecord(
                removal_position(removals@[at as int]),
            ))
        } else {
            cleanup_next(removals, at + 1, r)
        },
        (CleanupPhase::AwaitRecord { removals, at }, CleanupEvent::RecordDeleted) => cleanup_next(
            removals,
            at + 1,
            r,
        ),
        _ => r == (CleanupPhase::Done, CleanupAction::Finish),
    }
}

/// One step of a run of the cleanup: the phase it was in, the answer it got, and the
/// phase and action it moved to.
pub type CleanupStepRecord = (CleanupPhase, CleanupEvent, CleanupPhase, CleanupAction);

/// A run of the cleanup as a driver makes it: every step follows `cleanup_step_is`
/// from the phase the previous step left, a deletion on Twitch is answered with
/// Twitch's answer and a record deletion with `RecordDeleted`, and the run stops at the
/// first `Finish`.
#[verifier::opaque]
pub open spec fn cleanup_run_ok(t: Seq<CleanupStepRecord>) -> bool {
    &&& t.len() > 0
    &&& t.last().3 == CleanupAction::Finish
    &&& forall|i: int| 0 <= i < t.len() ==> cleanup_step_is(#[trigger] t[i].0, t[i].1, (t[i].2, t[i].3))
    &&& forall|i: int|
        0 <= i < t.len() - 1 ==> {
            &&& t[i + 1].0 == (#[trigger] t[i]).2
            &&& t[i].3 != CleanupAction::Finish
            &&& (t[i].3 is DeleteOnTwitch ==> t[i + 1].1 is TwitchAnswered)
            &&& (t[i].3 is DeleteRecord ==> t[i + 1].1 == CleanupEvent::RecordDeleted)
        }
}

/// The actions of a run, in order.
pub open spec fn run_actions(t: Seq<CleanupStepRecord>) -> Seq<CleanupAction> {
    t.map_values(|s: CleanupStepRecord| s.3)
}

/// Twitch's answers to the deletions of a run, in order.
pub open spec fn run_answers(t: Seq<CleanupStepRecord>) -> Seq<bool>
    decreases t.len(),
{
    if t.len() == 0 {
        Seq::empty()
    } else {
        let rest = run_answers(t.drop_first());
        match t[0].1 {
            CleanupEvent::TwitchAnswered(deleted) => seq![deleted] + rest,
            _ => rest,
        }
    }
}

/// What the cleanup does from removal `k` on, given Twitch's answers from there: each
/// subscription is deleted on Twitch, in order, and its record deleted when Twitch
/// deleted it or when it is renewed; then the cleanup finishes.
pub open spec fn cleanup_script(removals: Seq<Removal>, k: int, answers: Seq<bool>) -> Seq<CleanupAction>
    decreases removals.len() - k,
{
    if k >= removals.len() || k < 0 {
        seq![CleanupAction::Finish]
    } else {
        seq![CleanupAction::DeleteOnTwitch(removal_position(removals[k]))] + record_script(removals, k, answers)
    }
}

/// What follows Twitch's answer to the deletion of removal `k`.
pub open spec fn record_script(removals: Seq<Removal>, k: int, answers: Seq<bool>) -> Seq<CleanupAction>
    decreases removals.len() - k, 0int,
{
    if k >= removals.len() || k < 0 || answers.len() == 0 {
        Seq::empty()
    } else if answers[0] || removals[k] is Renewed {
        seq![CleanupAction::DeleteRecord(removal_position(removals[k]))] + cleanup_script(
            removals,
            k + 1,
            answers.drop_first(),
        )
    } else {
        cleanup_script(removals, k + 1, answers.drop_first())
    }
}

/// A run has a step.
proof fn lemma_run_nonempty(t: Seq<CleanupStepRecord>)
    requires
        cleanup_run_ok(t),
    ensures
        t.len() > 0,
{
    reveal(cleanup_run_ok);
}

/// What a run says of its step `i`.
proof fn lemma_run_at(t: Seq<CleanupStepRecord>, i: int)
    requires
        cleanup_run_ok(t),
        0 <= i < t.len(),
    ensures
        cleanup_step_is(t[i].0, t[i].1, (t[i].2, t[i].3)),
        i == t.len() - 1 ==> t[i].3 == CleanupAction::Finish,
        i < t.len() - 1 ==> {
            &&& t[i + 1].0 == t[i].2
            &&& t[i].3 != CleanupAction::Finish
            &&& (t[i].3 is DeleteOnTwitch ==> t[i + 1].1 is TwitchAnswered)
            &&& (t[i].3 is DeleteRecord ==> t[i + 1].1 == CleanupEvent::RecordDeleted)
        },
{
    reveal(cleanup_run_ok);
}

proof fn lemma_run_drop_first(t: Seq<CleanupStepRecord>)
    requires
        cleanup_run_ok(t),
        t.len() > 1,
    ensures
        cleanup_run_ok(t.drop_first()),
        run_actions(t) == seq![t[0].3] + run_actions(t.drop_first()),
        t.drop_first()[0] == t[1],
{
    reveal(cleanup_run_ok);
    let u = t.drop_first();
    assert forall|i: int| 0 <= i < u.len() implies cleanup_step_is(#[trigger] u[i].0, u[i].1, (u[i].2, u[i].3)) by {
        assert(u[i] == t[i + 1]);
    }
    assert forall|i: int| 0 <= i < u.len() - 1 implies {
        &&& u[i + 1].0 == (#[trigger] u[i]).2
        &&& u[i].3 != CleanupAction::Finish
        &&& (u[i].3 is DeleteOnTwitch ==> u[i + 1].1 is TwitchAnswered)
        &&& (u[i].3 is DeleteRecord ==> u[i + 1].1 == CleanupEvent::RecordDeleted)
    } by {
        assert(u[i] == t[i + 1]);
        assert(u[i + 1] == t[i + 2]);
        assert(t[i + 1] == t[i + 1]);
    }
    assert(run_actions(t) =~= seq![t[0].3] + run_actions(u));
}

/// The step after Twitch answered the deletion of removal `at`.
proof fn lemma_answer_step(removals: Vec<Removal>, at: int, deleted: bool, r: (CleanupPhase, CleanupAction))
    requires
        cleanup_step_is(
            CleanupPhase::AwaitTwitch { removals, at: at as usize },
            CleanupEvent::TwitchAnswered(deleted),
            r,
        ),
        0 <= at < removals@.len() <= usize::MAX,
    ensures
        if deleted || removals@[at] is Renewed {
            r == (CleanupPhase::AwaitRecord { removals, at: at as usize }, CleanupAction::DeleteRecord(
                removal_position(removals@[at]),
            ))
        } else {
            cleanup_next(removals, at + 1, r)
        },
{
}

/// The step after the record of removal `at` was deleted.
proof fn lemma_record_step(removals: Vec<Removal>, at: int, r: (CleanupPhase, CleanupAction))
    requires
        cleanup_step_is(
            CleanupPhase::AwaitRecord { removals, at: at as usize },
            CleanupEvent::RecordDeleted,
            r,
        ),
        0 <= at < removals@.len() <= usize::MAX,
    ensures
        cleanup_next(removals, at + 1, r),
{
}

/// From Twitch's answer to the deletion of removal `at` on, the run does what
/// `record_script` says.
proof fn lemma_run_after_answer(t: Seq<CleanupStepRecord>, removals: Vec<Removal>, at: int)
    requires
        cleanup_run_ok(t),
        t[0].0 == (CleanupPhase::AwaitTwitch { removals, at: at as usize }),
        t[0].1 is TwitchAnswered,
        0 <= at < removals@.len() <= usize::MAX,
    ensures
        run_actions(t) == record_script(removals@, at, run_answers(t)),
    decreases t.len(), 2int,
{
    let deleted = t[0].1->TwitchAnswered_0;
    assert(t[0].1 == CleanupEvent::TwitchAnswered(deleted));
    lemma_run_nonempty(t);
    lemma_run_at(t, 0);
    lemma_answer_step(removals, at, deleted, (t[0].2, t[0].3));
    let answers = run_answers(t);
    assert(answers == seq![deleted] + run_answers(t.drop_first()));
    assert(answers.drop_first() =~= run_answers(t.drop_first()));
    if deleted || removals@[at] is Renewed {
        assert(t.len() > 1);
        lemma_run_drop_first(t);
        let u = t.drop_first();
        assert(u[0].1 == CleanupEvent::RecordDeleted);
        assert(u[0].0 == (CleanupPhase::AwaitRecord { removals, at: at as usize }));
        lemma_run_at(u, 0);
        lemma_record_step(removals, at, (u[0].2, u[0].3));
        assert(run_answers(u) == run_answers(u.drop_first()));
        lemma_run_from_next(u, removals, at + 1);
    } else {
        lemma_run_from_next(t, removals, at + 1);
    }
}

/// A step that goes on with removal `k` (`cleanup_next`), and the run after it, do what
/// `cleanup_script` says.
proof fn lemma_run_from_next(t: Seq<CleanupStepRecord>, removals: Vec<Removal>, k: int)
    requires
        cleanup_run_ok(t),
        cleanup_next(removals, k, (t[0].2, t[0].3)),
        0 <= k <= removals@.len() <= usize::MAX,
    ensures
        run_actions(t) == cleanup_script(removals@, k, run_answers(t.drop_first())),
    decreases t.len(), 1int,
{
    lemma_run_nonempty(t);
    lemma_run_at(t, 0);
    if k < removals@.len() {
        lemma_run_drop_first(t);
        let u = t.drop_first();
        lemma_run_after_answer(u, removals, k);
    } else {
        assert(run_actions(t) =~= seq![CleanupAction::Finish]);
    }
}

/// Over a whole run of the cleanup, started on the records `subs` read at `now`: every
/// record of a type no longer required and every record stuck in verification is
/// deleted on Twitch, one after the other; the record of a type no longer required is
/// deleted exactly when Twitch deleted its subscription, and the record stuck in
/// verification whatever Twitch answered; nothing else is done. (The removals are held
/// in a vector, so there are at most `usize::MAX` of them.)
pub proof fn law_cleanup_run(subs: Vec<EventSubSubscription>, now: i64, t: Seq<CleanupStepRecord>)
    requires
        removal_list(subs@, now).len() <= usize::MAX,
        cleanup_run_ok(t),
        t[0].0 == CleanupPhase::Start,
        t[0].1 == (CleanupEvent::Loaded { subs, now }),
    ensures
        run_actions(t) == cleanup_script(removal_list(subs@, now), 0, run_answers(t)),
{
    lemma_run_nonempty(t);
    lemma_run_at(t, 0);
    let removals = choose|removals: Vec<Removal>|
        removals@ == removal_list(subs@, now) && cleanup_next(removals, 0, (t[0].2, t[0].3));
    assert(run_answers(t) == run_answers(t.drop_first()));
    lemma_run_from_next(t, removals, 0);
}

/// Everything the cleanup removes from `subs` at `now`.
pub fn removals_of(subs: &Vec<EventSubSubscription>, now: i64) -> (r: Vec<Removal>)
    ensures
        r@ == removal_list(subs@, now),
{
    let stale = stale_subscriptions(subs);
    let overdue = overdue_subscriptions(subs, now);
    let ghost first = stale@.map_values(|p: usize| Removal::Unneeded(p));
    let ghost second = overdue@.map_values(|p: usize| Removal::Renewed(p));
    let mut r: Vec<Removal> = Vec::new();
    let mut i: usize = 0;
    while i < stale.len()
        invariant
            i <= stale.len(),
            first == stale@.map_values(|p: usize| Removal::Unneeded(p)),
            r@ == first.take(i as int),
        decreases stale.len() - i,
    {
        r.push(Removal::Unneeded(stale[i]));
        assert(first.take(i + 1) =~= first.take(i as int).push(first[i as int]));
        i = i + 1;
    }
    assert(first.take(stale.len() as int) =~= first);
    let mut j: usize = 0;
    while j < overdue.len()
        invariant
            j <= overdue.len(),
            second == overdue@.map_values(|p: usize| Removal::Renewed(p)),
            r@ == first + second.take(j as int),
        decreases overdue.len() - j,
    {
        r.push(Removal::Renewed(overdue[j]));
        assert(second.take(j + 1) =~= second.take(j as int).push(second[j as int]));
        j = j + 1;
    }
    assert(second.take(overdue.len() as int) =~= second);
    r
}

fn cleanup_continue(removals: Vec<Removal>, at: usize) -> (r: (CleanupPhase, CleanupAction))
    requires
        at <= removals@.len(),
    ensures
        cleanup_next(removals, at as int, r),
        cleanup_phase_ok(r.0),
{
    if at < removals.len() {
        let p = match removals[at] {
            Removal::Unneeded(p) => p,
            Removal::Renewed(p) => p,
        };
        (CleanupPhase::AwaitTwitch { removals, at }, CleanupAction::DeleteOnTwitch(p))
    } else {
        (CleanupPhase::Done, CleanupAction::Finish)
    }
}

/// One step of the cleanup that comes before the missing subscriptions are created:
/// from where it stands and what the outside world answered to the next phase and
/// the next outside call.
pub fn cleanup_step(phase: CleanupPhase, event: CleanupEvent) -> (r: (CleanupPhase, CleanupAction))
    requires
        cleanup_phase_ok(phase),
    ensures
        cleanup_step_is(phase, event, r),
        cleanup_phase_ok(r.0),
{
    match phase {
        CleanupPhase::Start => match event {
            CleanupEvent::Begin => (CleanupPhase::Start, CleanupAction::LoadRecords),
            CleanupEvent::Loaded { subs, now } => {
                let removals = removals_of(&subs, now);
                cleanup_continue(removals, 0)
            },
            _ => (CleanupPhase::Done, CleanupAction::Finish),
        },
        CleanupPhase::AwaitTwitch { removals, at } => match event {
            CleanupEvent::TwitchAnswered(deleted) if at < removals.len() => {
                let removal = removals[at];
                let renewed = match removal {
                    Removal::Unneeded(_) => false,
                    Removal::Renewed(_) => true,
                };
                if deleted || renewed {
                    let p = match removal {
                        Removal::Unneeded(p) => p,
                        Removal::Renewed(p) => p,
                    };
                    (CleanupPhase::AwaitRecord { removals, at }, CleanupAction::DeleteRecord(p))
                } else {
                    cleanup_continue(removals, at + 1)
                }
            },
            _ => (CleanupPhase::Done, CleanupAction::Finish),
        },
        CleanupPhase::AwaitRecord { removals, at } => match event {
            CleanupEvent::RecordDeleted if at < removals.len() => cleanup_continue(removals, at + 1),
            _ => (CleanupPhase::Done, CleanupAction::Finish),
        },
        CleanupPhase::Done => (CleanupPhase::Done, CleanupAction::Finish),
    }
}

// ---------------------------------------------------------------------------
// Creating what is missing, one outside call at a time
// ---------------------------------------------------------------------------

/// Where the creation of the missing subscriptions stands; `at` is the position of
/// the required type at hand, `plan` the step planned for each required type.
#[derive(Debug, Clone, PartialEq, Eq)]
pub enum ProvisionPhase {
    /// The records are not loaded yet.
    Start { broadcaster_id: String },
    /// The subscription to replace is being deleted on Twitch.
    AwaitTwitch { plan: Vec<CreationStep>, at: usize, broadcaster_id: String },
    /// The record of the subscription to replace is being deleted.
    AwaitRecordDeleted { plan: Vec<CreationStep>, at: usize, broadcaster_id: String },
    /// The subscription is being created on Twitch.
    AwaitCreated { plan: Vec<CreationStep>, at: usize, broadcaster_id: String },
    /// Creating failed; Twitch's list of subscriptions is being read.
    AwaitListing { plan: Vec<CreationStep>, at: usize, broadcaster_id: String },
    /// The new subscription is being recorded.
    AwaitRecorded { plan: Vec<CreationStep>, at: usize, broadcaster_id: String },
    /// Every required type was handled.
    Done,
}

/// What the outside world answered.
#[derive(Debug, Clone, PartialEq, Eq)]
pub enum ProvisionEvent {
    /// The creation starts.
    Begin,
    /// The user's records, after the cleanup.
    Loaded(Vec<EventSubSubscription>),
    /// Twitch answered the deletion (whatever it answered, the record goes).
    TwitchAnswered,
    /// The record was deleted (or its deletion failed and was logged).
    RecordDeleted,
    /// Twitch created the subscription with this id and status, or refused (`None`).
    Created(Option<(String, String)>),
    /// Twitch's list of subscriptions, or `None` when it could not be read.
    Listed(Option<Vec<ListedSubscription>>),
    /// The new subscription was recorded (or recording it failed and was logged).
    Recorded,
}

/// What to do next.
#[derive(Debug, Clone, PartialEq, Eq)]
pub enum ProvisionAction {
    /// Read the user's records.
    LoadRecords,
    /// Delete on Twitch the subscription of the record at this position.
    DeleteOnTwitch(usize),
    /// Delete the record at this position.
    DeleteRecord(usize),
    /// Create a subscription of this type for the broadcaster.
    Create(String),
    /// Read Twitch's list of subscriptions.
    ListSubscriptions,
    /// Record this subscription.
    Record(CreateEventSubSubscription),
    /// Every required type was handled.
    Finish,
}

/// A phase whose plan covers the required types and whose position is in range.
pub open spec fn provision_phase_ok(p: ProvisionPhase) -> bool {
    match p {
        ProvisionPhase::AwaitTwitch { plan, at, .. } => plan@.len() == required_types().len() && at < plan@.len()
            && plan@[at as int] is Replace,
        ProvisionPhase::AwaitRecordDeleted { plan, at, .. } => plan@.len() == required_types().len() && at < plan@.len(),
        ProvisionPhase::AwaitCreated { plan, at, .. } => plan@.len() == required_types().len() && at < plan@.len(),
        ProvisionPhase::AwaitListing { plan, at, .. } => plan@.len() == required_types().len() && at < plan@.len(),
        ProvisionPhase::AwaitRecorded { plan, at, .. } => plan@.len() == required_types().len() && at < plan@.len(),
        _ => true,
    }
}

/// The first position at or after `k` whose step is not `Keep` (the plan's length when
/// there is none).
pub open spec fn first_pending(plan: Seq<CreationStep>, k: int) -> int
    decreases plan.len() - k,
{
    if k >= plan.len() {
        plan.len() as int
    } else if plan[k] == CreationStep::Keep {
        first_pending(plan, k + 1)
    } else {
        k
    }
}

/// Creating the subscription of the required type at `at`.
pub open spec fn creates(plan: Vec<CreationStep>, at: int, broadcaster_id: String, r: (ProvisionPhase, ProvisionAction)) -> bool {
    &&& r.0 == (ProvisionPhase::AwaitCreated { plan, at: at as usize, broadcaster_id })
    &&& r.1 matches ProvisionAction::Create(t) && t@ == required_types()[at]
}

/// Going on with the first type at or after `k` that needs work, or finishing.
pub open spec fn provision_next(plan: Vec<CreationStep>, k: int, broadcaster_id: String, r: (ProvisionPhase, ProvisionAction)) -> bool {
    let j = first_pending(plan@, k);
    if j >= plan@.len() {
        r == (ProvisionPhase::Done, ProvisionAction::Finish)
    } else {
        match plan@[j] {
            CreationStep::Replace(i) => r == (
                ProvisionPhase::AwaitTwitch { plan, at: j as usize, broadcaster_id },
                ProvisionAction::DeleteOnTwitch(i),
            ),
            _ => creates(plan, j, broadcaster_id, r),
        }
    }
}

/// Recording the subscription `(id, status)` of the required type at `at`.
pub open spec fn records(
    plan: Vec<CreationStep>,
    at: int,
    broadcaster_id: String,
    id: Seq<char>,
    status: Seq<char>,
    r: (ProvisionPhase, ProvisionAction),
) -> bool {
    &&& r.0 == (ProvisionPhase::AwaitRecorded { plan, at: at as usize, broadcaster_id })
    &&& r.1 matches ProvisionAction::Record(c) && c.twitch_subscription_id@ == id
        && c.subscription_type@ == required_types()[at] && c.status@ == status
}

/// Is a listed subscription one of type `t` for the broadcaster?
pub open spec fn listed_for(s: ListedSubscription, t: Seq<char>, broadcaster_id: Seq<char>) -> bool {
    s.subscription_type@ == t && condition_targets(s.condition, broadcaster_id)
}

/// One step of creating the missing subscriptions. A subscription to replace is
/// deleted on Twitch and its record deleted whatever Twitch answered; then the type is
/// created; when Twitch refuses, its list is searched for a subscription of the type
/// for the broadcaster; what was created or found is recorded.
pub open spec fn provision_step_is(phase: ProvisionPhase, event: ProvisionEvent, r: (ProvisionPhase, ProvisionAction)) -> bool {
    match (phase, event) {
        (ProvisionPhase::Start { broadcaster_id }, ProvisionEvent::Begin) => r == (
            ProvisionPhase::Start { broadcaster_id },
            ProvisionAction::LoadRecords,
        ),
        (ProvisionPhase::Start { broadcaster_id }, ProvisionEvent::Loaded(subs)) => exists|plan: Vec<CreationStep>|
            plan@.len() == required_types().len() && (forall|i: int|
                0 <= i < plan@.len() ==> creation_step_for(subs@, required_types()[i], #[trigger] plan@[i]))
                && provision_next(plan, 0, broadcaster_id, r),
        (ProvisionPhase::AwaitTwitch { plan, at, broadcaster_id }, ProvisionEvent::TwitchAnswered) => r == (
            ProvisionPhase::AwaitRecordDeleted { plan, at, broadcaster_id },
            ProvisionAction::DeleteRecord(plan@[at as int]->Replace_0),
        ),
        (ProvisionPhase::AwaitRecordDeleted { plan, at, broadcaster_id }, ProvisionEvent::RecordDeleted) => creates(
            plan,
            at as int,
            broadcaster_id,
            r,
        ),
        (ProvisionPhase::AwaitCreated { plan, at, broadcaster_id }, ProvisionEvent::Created(created)) => match created {
            Some((id, status)) => records(plan, at as int, broadcaster_id, id@, status@, r),
            None => r == (
                ProvisionPhase::AwaitListing { plan, at, broadcaster_id },
                ProvisionAction::ListSubscriptions,
            ),
        },
        (ProvisionPhase::AwaitListing { plan, at, broadcaster_id }, ProvisionEvent::Listed(listing)) => match listing {
            Some(list) => if exists|j: int| 0 <= j < list@.len() && listed_for(#[trigger] list@[j], required_types()[at as int], broadcaster_id@) {
                exists|j: int|
                    0 <= j < list@.len() && listed_for(#[trigger] list@[j], required_types()[at as int], broadcaster_id@)
                        && (forall|k: int| 0 <= k < j ==> !listed_for(#[trigger] list@[k], required_types()[at as int], broadcaster_id@))
                        && records(plan, at as int, broadcaster_id, list@[j].id@, list@[j].status@, r)
            } else {
                provision_next(plan, at + 1, broadcaster_id, r)
            },
            None => provision_next(plan, at + 1, broadcaster_id, r),
        },
        (ProvisionPhase::AwaitRecorded { plan, at, broadcaster_id }, ProvisionEvent::Recorded) => provision_next(
            plan,
            at + 1,
            broadcaster_id,
            r,
        ),
        _ => r == (ProvisionPhase::Done, ProvisionAction::Finish),
    }
}

fn provision_create(plan: Vec<CreationStep>, at: usize, broadcaster_id: String) -> (r: (ProvisionPhase, ProvisionAction))
    requires
        plan@.len() == required_types().len(),
        at < plan@.len(),
    ensures
        creates(plan, at as int, broadcaster_id, r),
        provision_phase_ok(r.0),
{
    let types = required_subscription_types();
    let t = types[at].clone();
    (ProvisionPhase::AwaitCreated { plan, at, broadcaster_id }, ProvisionAction::Create(t))
}

fn provision_record(plan: Vec<CreationStep>, at: usize, broadcaster_id: String, id: String, status: String) -> (r: (ProvisionPhase, ProvisionAction))
    requires
        plan@.len() == required_types().len(),
        at < plan@.len(),
    ensures
        records(plan, at as int, broadcaster_id, id@, status@, r),
        provision_phase_ok(r.0),
{
    let types = required_subscription_types();
    let c = CreateEventSubSubscription { twitch_subscription_id: id, subscription_type: types[at].clone(), status };
    (ProvisionPhase::AwaitRecorded { plan, at, broadcaster_id }, ProvisionAction::Record(c))
}

fn provision_continue(plan: Vec<CreationStep>, from: usize, broadcaster_id: String) -> (r: (ProvisionPhase, ProvisionAction))
    requires
        plan@.len() == required_types().len(),
        from <= plan@.len(),
    ensures
        provision_next(plan, from as int, broadcaster_id, r),
        provision_phase_ok(r.0),
{
    let mut k: usize = from;
    while k < plan.len() && plan[k] == CreationStep::Keep
        invariant
            from <= k <= plan@.len(),
            first_pending(plan@, from as int) == first_pending(plan@, k as int),
        decreases plan.len() - k,
    {
        k = k + 1;
    }
    if k >= plan.len() {
        (ProvisionPhase::Done, ProvisionAction::Finish)
    } else {
        match plan[k] {
            CreationStep::Replace(i) => (ProvisionPhase::AwaitTwitch { plan, at: k, broadcaster_id }, ProvisionAction::DeleteOnTwitch(i)),
            _ => provision_create(plan, k, broadcaster_id),
        }
    }
}

/// One step of creating the subscriptions that are missing after the cleanup: from
/// where it stands and what the outside world answered to the next phase and the next
/// outside call.
pub fn provision_step(phase: ProvisionPhase, event: ProvisionEvent) -> (r: (ProvisionPhase, ProvisionAction))
    requires
        provision_phase_ok(phase),
    ensures
        provision_step_is(phase, event, r),
        provision_phase_ok(r.0),
{
    match phase {
        ProvisionPhase::Start { broadcaster_id } => match event {
            ProvisionEvent::Begin => (ProvisionPhase::Start { broadcaster_id }, ProvisionAction::LoadRecords),
            ProvisionEvent::Loaded(subs) => {
                let plan = creation_plan(&subs);
                provision_continue(plan, 0, broadcaster_id)
            },
            _ => (ProvisionPhase::Done, ProvisionAction::Finish),
        },
        ProvisionPhase::AwaitTwitch { plan, at, broadcaster_id } => match event {
            ProvisionEvent::TwitchAnswered => match plan[at] {
                CreationStep::Replace(i) => (
                    ProvisionPhase::AwaitRecordDeleted { plan, at, broadcaster_id },
                    ProvisionAction::DeleteRecord(i),
                ),
                _ => (ProvisionPhase::Done, ProvisionAction::Finish),
            },
            _ => (ProvisionPhase::Done, ProvisionAction::Finish),
        },
        ProvisionPhase::AwaitRecordDeleted { plan, at, broadcaster_id } => match event {
            ProvisionEvent::RecordDeleted => provision_create(plan, at, broadcaster_id),
            _ => (ProvisionPhase::Done, ProvisionAction::Finish),
        },
        ProvisionPhase::AwaitCreated { plan, at, broadcaster_id } => match event {
            ProvisionEvent::Created(Some((id, status))) => provision_record(plan, at, broadcaster_id, id, status),
            ProvisionEvent::Created(None) => (
                ProvisionPhase::AwaitListing { plan, at, broadcaster_id },
                ProvisionAction::ListSubscriptions,
            ),
            _ => (ProvisionPhase::Done, ProvisionAction::Finish),
        },
        ProvisionPhase::AwaitListing { plan, at, broadcaster_id } => match event {
            ProvisionEvent::Listed(Some(list)) => {
                let types = required_subscription_types();
                match find_listed_subscription(&list, types[at].as_str(), broadcaster_id.as_str()) {
                    Some(j) => {
                        let id = list[j].id.clone();
                        let status = list[j].status.clone();
                        provision_record(plan, at, broadcaster_id, id, status)
                    },
                    None => provision_continue(plan, at + 1, broadcaster_id),
                }
            },
            ProvisionEvent::Listed(None) => provision_continue(plan, at + 1, broadcaster_id),
            _ => (ProvisionPhase::Done, ProvisionAction::Finish),
        },
        ProvisionPhase::AwaitRecorded { plan, at, broadcaster_id } => match event {
            ProvisionEvent::Recorded => provision_continue(plan, at + 1, broadcaster_id),
            _ => (ProvisionPhase::Done, ProvisionAction::Finish),
        },
        ProvisionPhase::Done => (ProvisionPhase::Done, ProvisionAction::Finish),
    }
}

} // verus!
