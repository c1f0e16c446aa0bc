//! What holds of every cycle, proved over the transition rules.

use vstd::prelude::*;

use crate::reconciler::{
    accepts, elapsed_ms, first_target, first_target_from, initial, is_target, next, status_of, ActionModel,
    ChangeStatus, ErrorKind, EventModel, Phase, ReconcilerModel, RecordSetModel, POLL_BUDGET_MS,
    POLL_INTERVAL_SECS,
};
use crate::text::{has_trailing_dot, normalized_name};

verus! {

/// Whether the machine, in phase `p`, waits for no event at all.
pub open spec fn is_final(p: Phase) -> bool {
    forall|e: EventModel| !accepts(p, e)
}

/// The states and actions of a run: each event applied in turn.
pub open spec fn run(r: ReconcilerModel, events: Seq<EventModel>) -> (ReconcilerModel, Seq<ActionModel>)
    decreases events.len(),
{
    if events.len() == 0 {
        (r, Seq::empty())
    } else {
        let before = run(r, events.drop_last());
        let after = next(before.0, events.last());
        (after.0, before.1.push(after.1))
    }
}

/// Every answer `PENDING`, and each pause ending one second after the last:
/// `rounds` rounds of poll and pause, from a poll started at `start`.
pub open spec fn pending_events(start: nat, rounds: nat) -> Seq<EventModel>
    decreases rounds,
{
    if rounds == 0 {
        Seq::empty()
    } else {
        pending_events(start, (rounds - 1) as nat).push(
            EventModel::ChangePolled { status: "PENDING"@ },
        ).push(EventModel::Woke { now_ms: start + 1000 * rounds })
    }
}

/// The actions of `rounds` rounds that each end in one more poll.
pub open spec fn polling_actions(id: Seq<char>, rounds: nat) -> Seq<ActionModel>
    decreases rounds,
{
    if rounds == 0 {
        Seq::empty()
    } else {
        polling_actions(id, (rounds - 1) as nat).push(
            ActionModel::Wait { seconds: POLL_INTERVAL_SECS as nat },
        ).push(ActionModel::Poll { change_id: id })
    }
}

/// A finished cycle takes no more events, so it makes no more requests.
pub proof fn lemma_done_is_final()
    ensures
        is_final(Phase::Done),
{
}

/// When the A record already holds the resolved address, the cycle ends with
/// "no update needed" and submits nothing.
pub proof fn lemma_same_address_no_change(r: ReconcilerModel, sets: Seq<RecordSetModel>, i: int)
    requires
        r.phase == Phase::FindingRecord,
        first_target(sets, r.dns_name) == Some(i),
        sets[i].values == Some(seq![r.ip]),
    ensures
        next(r, EventModel::RecordsListed { truncated: false, record_sets: sets }).1
            == (ActionModel::Finish { outcome: Ok(false) }),
        is_final(next(r, EventModel::RecordsListed { truncated: false, record_sets: sets }).0.phase),
{
    assert(seq![r.ip].len() == 1);
}

/// When the A record holds another address, the cycle submits one UPSERT of
/// the A record of the name, holding the resolved address alone, with a
/// time-to-live of 900 seconds.
pub proof fn lemma_other_address_upsert(
    r: ReconcilerModel,
    sets: Seq<RecordSetModel>,
    i: int,
    old_ip: Seq<char>,
)
    requires
        r.phase == Phase::FindingRecord,
        first_target(sets, r.dns_name) == Some(i),
        sets[i].values == Some(seq![old_ip]),
        old_ip != r.ip,
    ensures
        ({
            let (s, a) = next(r, EventModel::RecordsListed { truncated: false, record_sets: sets });
            &&& s.phase == Phase::Submitting
            &&& a matches ActionModel::Submit { request }
            &&& request.action == "UPSERT"@
            &&& request.record_type == "A"@
            &&& request.name == r.dns_name
            &&& request.values == seq![r.ip]
            &&& request.ttl == 900
            &&& request.hosted_zone_id == r.hosted_zone_id
        }),
{
    assert(seq![old_ip].len() == 1);
    assert(seq![old_ip][0] == old_ip);
}

/// Once a change is submitted, no later step submits another: a cycle makes
/// at most one mutating request.
pub proof fn lemma_one_submission(r: ReconcilerModel, e: EventModel)
    requires
        r.phase == Phase::Submitting || r.phase == Phase::Polling || r.phase == Phase::Waiting,
        accepts(r.phase, e),
    ensures
        !(next(r, e).1 is Submit),
        next(r, e).0.phase == Phase::Polling || next(r, e).0.phase == Phase::Waiting
            || next(r, e).0.phase == Phase::Done,
{
}

/// A truncated zone listing fails the cycle with a configuration error, and
/// nothing more is requested.
pub proof fn lemma_truncated_zones(r: ReconcilerModel, zone_ids: Seq<Seq<char>>)
    requires
        r.phase == Phase::FindingZone,
    ensures
        next(r, EventModel::ZonesListed { truncated: true, zone_ids }).1 == (ActionModel::Finish {
            outcome: Err(ErrorKind::Configuration),
        }),
        is_final(next(r, EventModel::ZonesListed { truncated: true, zone_ids }).0.phase),
{
}

/// Without an A record named exactly as the cycle's name, the cycle fails
/// with "not found".
pub proof fn lemma_missing_record(r: ReconcilerModel, sets: Seq<RecordSetModel>)
    requires
        r.phase == Phase::FindingRecord,
        forall|i: int| 0 <= i < sets.len() ==> !is_target(#[trigger] sets[i], r.dns_name),
    ensures
        next(r, EventModel::RecordsListed { truncated: false, record_sets: sets }).1
            == (ActionModel::Finish { outcome: Err(ErrorKind::NotFound) }),
{
    lemma_no_target_from(sets, r.dns_name, 0);
}

proof fn lemma_no_target_from(sets: Seq<RecordSetModel>, name: Seq<char>, i: int)
    requires
        0 <= i,
        forall|j: int| 0 <= j < sets.len() ==> !is_target(#[trigger] sets[j], name),
    ensures
        first_target_from(sets, name, i) is None,
    decreases sets.len() - i,
{
    if i < sets.len() {
        lemma_no_target_from(sets, name, i + 1);
    }
}

/// A change that is in sync as soon as it is submitted ends the cycle with
/// "updated", and no poll is made.
pub proof fn lemma_immediate_insync(r: ReconcilerModel, change_id: Seq<char>, now_ms: nat)
    requires
        r.phase == Phase::Submitting,
    ensures
        next(r, EventModel::ChangeSubmitted { change_id, status: "INSYNC"@, now_ms }).1
            == (ActionModel::Finish { outcome: Ok(true) }),
        is_final(next(r, EventModel::ChangeSubmitted { change_id, status: "INSYNC"@, now_ms }).0.phase),
{
}

/// Once the polling budget is spent, the next wake-up fails the cycle with a
/// timeout instead of polling again.
pub proof fn lemma_budget_spent(r: ReconcilerModel, now_ms: nat)
    requires
        r.phase == Phase::Waiting,
        now_ms >= r.poll_start_ms + POLL_BUDGET_MS,
    ensures
        next(r, EventModel::Woke { now_ms }).1 == (ActionModel::Finish {
            outcome: Err(ErrorKind::Timeout),
        }),
{
}

proof fn lemma_pending_rounds(r: ReconcilerModel, rounds: nat)
    requires
        r.phase == Phase::Polling,
        rounds < 60,
    ensures
        run(r, pending_events(r.poll_start_ms, rounds)) == (r, polling_actions(r.change_id, rounds)),
    decreases rounds,
{
    reveal_strlit("PENDING");
    reveal_strlit("INSYNC");
    if rounds > 0 {
        let prev = pending_events(r.poll_start_ms, (rounds - 1) as nat);
        lemma_pending_rounds(r, (rounds - 1) as nat);
        lemma_two_events(r, prev, rounds);
        let waiting = ReconcilerModel { phase: Phase::Waiting, ..r };
        assert(elapsed_ms(r.poll_start_ms, r.poll_start_ms + 1000 * rounds) == 1000 * rounds);
        assert(next(waiting, EventModel::Woke { now_ms: r.poll_start_ms + 1000 * rounds }).0 == r);
    }
}

/// Unfolds a run over the two events of one more round.
proof fn lemma_two_events(r: ReconcilerModel, prev: Seq<EventModel>, rounds: nat)
    requires
        run(r, prev).0 == r,
        r.phase == Phase::Polling,
        rounds > 0,
        prev == pending_events(r.poll_start_ms, (rounds - 1) as nat),
    ensures
        ({
            let woke = EventModel::Woke { now_ms: r.poll_start_ms + 1000 * rounds };
            let waiting = ReconcilerModel { phase: Phase::Waiting, ..r };
            run(r, pending_events(r.poll_start_ms, rounds)) == (
                next(waiting, woke).0,
                run(r, prev).1.push(ActionModel::Wait { seconds: POLL_INTERVAL_SECS as nat }).push(
                    next(waiting, woke).1,
                ),
            )
        }),
{
    reveal_strlit("PENDING");
    reveal_strlit("INSYNC");
    let polled = EventModel::ChangePolled { status: "PENDING"@ };
    let woke = EventModel::Woke { now_ms: r.poll_start_ms + 1000 * rounds };
    let mid = prev.push(polled);
    let evs = mid.push(woke);
    assert(evs == pending_events(r.poll_start_ms, rounds));
    assert(mid.drop_last() == prev);
    assert(mid.last() == polled);
    assert(evs.drop_last() == mid);
    assert(evs.last() == woke);
    assert("PENDING"@.len() != "INSYNC"@.len());
    assert(status_of("PENDING"@) == ChangeStatus::Pending);
    let waiting = ReconcilerModel { phase: Phase::Waiting, ..r };
    assert(next(r, polled) == (waiting, ActionModel::Wait { seconds: POLL_INTERVAL_SECS as nat }));
    assert(run(r, mid) == (waiting, run(r, prev).1.push(
        ActionModel::Wait { seconds: POLL_INTERVAL_SECS as nat },
    )));
    assert(run(r, evs) == (next(waiting, woke).0, run(r, mid).1.push(next(waiting, woke).1)));
}

/// A change that stays `PENDING` on every poll, with polls one second apart,
/// is polled 60 times in all (the first poll comes with the submission, 59
/// more follow), and the cycle then fails with a timeout.
pub proof fn lemma_pending_times_out(r: ReconcilerModel)
    requires
        r.phase == Phase::Polling,
    ensures
        run(r, pending_events(r.poll_start_ms, 60)) == (
            ReconcilerModel { phase: Phase::Done, ..r },
            polling_actions(r.change_id, 59).push(
                ActionModel::Wait { seconds: POLL_INTERVAL_SECS as nat },
            ).push(ActionModel::Finish { outcome: Err(ErrorKind::Timeout) }),
        ),
        forall|rounds: nat|
            rounds < 60 ==> #[trigger] run(r, pending_events(r.poll_start_ms, rounds)) == (
                r,
                polling_actions(r.change_id, rounds),
            ),
{
    reveal_strlit("PENDING");
    reveal_strlit("INSYNC");
    assert forall|rounds: nat| rounds < 60 implies #[trigger] run(
        r,
        pending_events(r.poll_start_ms, rounds),
    ) == (r, polling_actions(r.change_id, rounds)) by {
        lemma_pending_rounds(r, rounds);
    }
    let prev = pending_events(r.poll_start_ms, 59);
    lemma_pending_rounds(r, 59);
    lemma_two_events(r, prev, 60);
    let waiting = ReconcilerModel { phase: Phase::Waiting, ..r };
    assert(elapsed_ms(r.poll_start_ms, r.poll_start_ms + 60000) == 60000);
}

/// A status other than `PENDING` or `INSYNC`, on submission or on a poll,
/// fails the cycle with a protocol error at once.
pub proof fn lemma_unexpected_status(r: ReconcilerModel, e: EventModel)
    requires
        accepts(r.phase, e),
        match e {
            EventModel::ChangeSubmitted { status, .. } => status_of(status) == ChangeStatus::Other,
            EventModel::ChangePolled { status } => status_of(status) == ChangeStatus::Other,
            _ => false,
        },
    ensures
        next(r, e).1 == (ActionModel::Finish { outcome: Err(ErrorKind::Protocol) }),
        is_final(next(r, e).0.phase),
{
}

/// A name is used with its trailing `.`: a name written with or without it
/// starts the same cycle, normalizing twice changes nothing, and no step of a
/// cycle changes the name.
pub proof fn lemma_trailing_dot(s: Seq<char>, r: ReconcilerModel, e: EventModel)
    requires
        !has_trailing_dot(s),
    ensures
        has_trailing_dot(normalized_name(s)),
        normalized_name(normalized_name(s)) == normalized_name(s),
        initial(s) == initial(s.push('.')),
        next(r, e).0.dns_name == r.dns_name,
{
    assert(has_trailing_dot(s.push('.')));
}

} // verus!
