//! What holds of the session over whole histories of operations.
//!
//! The proofs are about [`SessionView`], the model that the contracts of
//! [`crate::session::SessionState`] are stated over, so each of them holds of
//! every program that drives a session through its methods.

use vstd::prelude::*;
use crate::session::SessionView;

verus! {

/// One operation on a session, with its arguments.
pub enum SessionOp {
    /// An attempt to open the session.
    Unlock { candidate: Seq<u8>, now: nat },
    /// A lock.
    Lock,
    /// A sign of life of the user.
    RecordActivity { now: nat },
    /// A change of the idle timeout.
    SetAutoLockTimeout { timeout: Option<nat> },
    /// A poll of the monitor.
    Tick { now: nat },
    /// An attempt to store the vault's payload.
    StoreVaultPayload { payload: Seq<char> },
}

/// The session `s` after the operation `op`.
pub open spec fn apply(s: SessionView, op: SessionOp) -> SessionView {
    match op {
        SessionOp::Unlock { candidate, now } => s.unlock(candidate, now),
        SessionOp::Lock => s.lock(),
        SessionOp::RecordActivity { now } => s.record_activity(now),
        SessionOp::SetAutoLockTimeout { timeout } => s.set_auto_lock_timeout(timeout),
        SessionOp::Tick { now } => s.tick(now),
        SessionOp::StoreVaultPayload { payload } => s.store_vault_payload(payload),
    }
}

/// The session `s` after the operations `ops`, first to last.
pub open spec fn run(s: SessionView, ops: Seq<SessionOp>) -> SessionView
    decreases ops.len(),
{
    if ops.len() == 0 {
        s
    } else {
        run(apply(s, ops.first()), ops.drop_first())
    }
}

/// Every operation keeps the invariant of the session.
pub proof fn lemma_operation_keeps_invariant(s: SessionView, op: SessionOp)
    requires
        s.well_formed(),
    ensures
        apply(s, op).well_formed(),
{
}

/// Whatever is done to a session from its start, in whatever order, a payload
/// or a last activity is there only while the session is open.
pub proof fn lemma_invariant_after_every_history(secret: Seq<u8>, ops: Seq<SessionOp>)
    ensures
        run(SessionView::initial(secret), ops).well_formed(),
        run(SessionView::initial(secret), ops).vault_payload is Some ==> run(
            SessionView::initial(secret),
            ops,
        ).unlocked,
        run(SessionView::initial(secret), ops).last_activity is Some ==> run(
            SessionView::initial(secret),
            ops,
        ).unlocked,
{
    lemma_history_keeps_invariant(SessionView::initial(secret), ops);
}

/// A history of operations keeps the invariant of the session it starts from.
pub proof fn lemma_history_keeps_invariant(s: SessionView, ops: Seq<SessionOp>)
    requires
        s.well_formed(),
    ensures
        run(s, ops).well_formed(),
    decreases ops.len(),
{
    if ops.len() > 0 {
        lemma_operation_keeps_invariant(s, ops.first());
        lemma_history_keeps_invariant(apply(s, ops.first()), ops.drop_first());
    }
}

/// The right secret opens the session; a wrong one leaves a locked session
/// locked.
pub proof fn lemma_unlock_then_status(s: SessionView, candidate: Seq<u8>, now: nat)
    ensures
        candidate == s.secret ==> s.unlock(candidate, now).unlocked,
        candidate != s.secret && !s.unlocked ==> !s.unlock(candidate, now).unlocked,
{
}

/// Locking twice is locking once: the session is locked after the first lock
/// and after the second, and the second changes nothing.
pub proof fn lemma_lock_idempotent(s: SessionView)
    ensures
        !s.lock().unlocked,
        !s.lock().lock().unlocked,
        s.lock().lock() == s.lock(),
{
}

/// Activity on a locked session changes nothing: it stays locked.
pub proof fn lemma_activity_while_locked_is_noop(s: SessionView, now: nat)
    requires
        !s.unlocked,
    ensures
        s.record_activity(now) == s,
        !s.record_activity(now).unlocked,
{
}

/// Whether each of `ops` is a sign of life or a poll that comes less than
/// `timeout` after the latest sign of life before it, `last` being the latest
/// one before `ops`.
pub open spec fn paced(ops: Seq<SessionOp>, last: nat, timeout: nat) -> bool
    decreases ops.len(),
{
    if ops.len() == 0 {
        true
    } else {
        match ops.first() {
            SessionOp::RecordActivity { now } => last <= now < last + timeout && paced(
                ops.drop_first(),
                now,
                timeout,
            ),
            SessionOp::Tick { now } => last <= now < last + timeout && paced(
                ops.drop_first(),
                last,
                timeout,
            ),
            _ => false,
        }
    }
}

/// While the user shows up again before the timeout has passed, however long
/// that goes on and however often the monitor polls in between, the session
/// stays open and keeps its payload.
pub proof fn lemma_paced_activity_never_locks(
    s: SessionView,
    ops: Seq<SessionOp>,
    last: nat,
    timeout: nat,
)
    requires
        s.unlocked,
        s.last_activity == Some(last),
        s.auto_lock_timeout == Some(timeout),
        paced(ops, last, timeout),
    ensures
        run(s, ops).unlocked,
        run(s, ops).vault_payload == s.vault_payload,
        run(s, ops).auto_lock_timeout == s.auto_lock_timeout,
    decreases ops.len(),
{
    if ops.len() > 0 {
        match ops.first() {
            SessionOp::RecordActivity { now } => {
                lemma_paced_activity_never_locks(apply(s, ops.first()), ops.drop_first(), now, timeout);
            },
            SessionOp::Tick { now } => {
                lemma_paced_activity_never_locks(apply(s, ops.first()), ops.drop_first(), last, timeout);
            },
            _ => {},
        }
    }
}

/// The time of poll number `k` of a monitor that polls first at `first` and
/// then every `interval`.
pub open spec fn poll_time(first: nat, interval: nat, k: nat) -> nat {
    first + k * interval
}

/// Once the user has stopped, the monitor locks the session at the first poll
/// at or after the moment the idle time reaches the timeout, and that poll
/// comes less than one interval after that moment. The polls before it change
/// nothing. The result is the number of that poll, counted from the first poll
/// after the last activity.
pub proof fn lemma_monitor_locks_within_one_poll(
    s: SessionView,
    last: nat,
    timeout: nat,
    first: nat,
    interval: nat,
) -> (k: nat)
    requires
        s.unlocked,
        s.last_activity == Some(last),
        s.auto_lock_timeout == Some(timeout),
        interval > 0,
        last <= first < last + interval,
    ensures
        last + timeout <= poll_time(first, interval, k) < last + timeout + interval,
        s.tick(poll_time(first, interval, k)) == s.lock(),
        !s.tick(poll_time(first, interval, k)).unlocked,
        forall|j: nat| j < k ==> s.tick(#[trigger] poll_time(first, interval, j)) == s,
{
    let k = lemma_first_poll_from(first, interval, last + timeout, 0);
    assert forall|j: nat| j < k implies s.tick(#[trigger] poll_time(first, interval, j)) == s by {
        assert(j * interval <= (k - 1) * interval) by (nonlinear_arith)
            requires
                j <= k - 1,
                interval > 0,
        ;
        assert((k - 1) * interval == k * interval - interval) by (nonlinear_arith);
    }
    k
}

/// The number of the first poll at or after `deadline`, searched from poll
/// number `from` on, which is not later than one interval after `deadline`.
proof fn lemma_first_poll_from(first: nat, interval: nat, deadline: nat, from: nat) -> (k: nat)
    requires
        interval > 0,
        poll_time(first, interval, from) < deadline + interval,
    ensures
        from <= k,
        deadline <= poll_time(first, interval, k) < deadline + interval,
        k > from ==> poll_time(first, interval, (k - 1) as nat) < deadline,
    decreases deadline + interval - poll_time(first, interval, from),
{
    if poll_time(first, interval, from) >= deadline {
        from
    } else {
        assert((from + 1) * interval == from * interval + interval) by (nonlinear_arith);
        lemma_first_poll_from(first, interval, deadline, from + 1)
    }
}

/// Whether each of `ops` is a poll of the monitor.
pub open spec fn only_polls(ops: Seq<SessionOp>) -> bool {
    forall|i: int| 0 <= i < ops.len() ==> ops[i] is Tick
}

/// With the timeout switched off the monitor never locks the session,
/// however long the user has been idle and whatever the timeout was before.
pub proof fn lemma_disabled_timeout_never_locks(s: SessionView, polls: Seq<SessionOp>)
    requires
        only_polls(polls),
    ensures
        run(s.set_auto_lock_timeout(None), polls) == s.set_auto_lock_timeout(None),
        s.unlocked ==> run(s.set_auto_lock_timeout(None), polls).unlocked,
    decreases polls.len(),
{
    if polls.len() > 0 {
        assert(polls[0] is Tick);
        assert(only_polls(polls.drop_first())) by {
            assert forall|i: int| 0 <= i < polls.drop_first().len() implies polls.drop_first()[i] is Tick by {
                assert(polls.drop_first()[i] == polls[i + 1]);
            }
        }
        lemma_disabled_timeout_never_locks(s, polls.drop_first());
    }
}

} // verus!
