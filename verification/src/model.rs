//! The mathematical model of one reactive cell and its notification channel,
//! and the laws of the update/notify protocol.

use vstd::prelude::*;

verus! {

/// The abstract state of a reactive cell: the value its atomic slot holds
/// right now, and the sequence of values published on its channel so far.
#[verifier::ext_equal]
pub struct StateModel {
    pub value: i64,
    pub log: Seq<i64>,
}

/// A silent write: the value is replaced, the publication history is untouched.
pub open spec fn put_step(m: StateModel, v: i64) -> StateModel {
    StateModel { value: v, log: m.log }
}

/// A publication: the value the cell holds at this instant is appended to the
/// publication history; the value itself is untouched.
pub open spec fn update_step(m: StateModel) -> StateModel {
    StateModel { value: m.value, log: m.log.push(m.value) }
}

/// What a subscriber whose token is `token` observes next. The channel keeps
/// the newest publication together with the count of publications so far, so a
/// lagging subscriber is woken once with the newest value and its token jumps
/// past everything published so far; a subscriber that has seen everything
/// observes nothing.
pub open spec fn observe_next(log: Seq<i64>, token: nat) -> Option<(i64, nat)> {
    if token < log.len() {
        Some((log.last(), log.len() as nat))
    } else {
        None
    }
}

/// A run of silent writes, applied in order.
pub open spec fn puts_applied(m: StateModel, vs: Seq<i64>) -> StateModel
    decreases vs.len(),
{
    if vs.len() == 0 {
        m
    } else {
        puts_applied(put_step(m, vs[0]), vs.subrange(1, vs.len() as int))
    }
}

/// However many values are silently written without a publication, the cell
/// holds the most recently written one, the publication history is unchanged,
/// and no subscriber — whatever its token — observes anything it would not
/// have observed before.
pub proof fn lemma_silent_writes_unobserved(m: StateModel, vs: Seq<i64>)
    requires
        vs.len() > 0,
    ensures
        puts_applied(m, vs).value == vs.last(),
        puts_applied(m, vs).log == m.log,
        forall|t: nat| observe_next(puts_applied(m, vs).log, t) == observe_next(m.log, t),
    decreases vs.len(),
{
    let rest = vs.subrange(1, vs.len() as int);
    if vs.len() == 1 {
        assert(rest.len() == 0);
        assert(puts_applied(put_step(m, vs[0]), rest) == put_step(m, vs[0]));
        assert(vs.last() == vs[0]);
    } else {
        lemma_silent_writes_unobserved(put_step(m, vs[0]), rest);
        assert(rest.last() == vs.last());
    }
}

/// One silent write wakes nobody: a subscriber observes after it exactly what
/// it would have observed before it.
pub proof fn lemma_put_step_unobserved(m: StateModel, v: i64, t: nat)
    ensures
        observe_next(put_step(m, v).log, t) == observe_next(m.log, t),
{
}

/// Freshness of publication: after a silent write of `v` followed by a
/// publication, exactly one entry — carrying `v`, the value the cell holds at
/// publication time — is appended, and every subscriber whose token is not
/// already past the new entry observes `v` and lands at the end of the
/// history.
pub proof fn lemma_publish_is_observed(m: StateModel, v: i64, t: nat)
    requires
        t <= m.log.len(),
    ensures
        ({
            let m2 = update_step(put_step(m, v));
            &&& m2.log == m.log.push(v)
            &&& m2.value == v
            &&& observe_next(m2.log, t) == Some((v, m2.log.len() as nat))
        }),
{
}

/// Monotonic freshness: an observation yields the newest published value — an
/// entry of the history at a position no earlier than the subscriber's token —
/// and moves the token strictly forward, never backwards.
pub proof fn lemma_observation_fresh(log: Seq<i64>, t: nat)
    ensures
        observe_next(log, t) matches Some(o) ==> {
            &&& t < log.len()
            &&& o.0 == log[log.len() - 1]
            &&& t <= log.len() - 1
            &&& o.1 == log.len()
            &&& t < o.1
        },
{
}

/// Two subscribers holding the same token observe the same notification:
/// observation is a function of the publication history and the token alone.
pub proof fn lemma_subscribers_agree(log: Seq<i64>, t1: nat, t2: nat)
    requires
        t1 == t2,
    ensures
        observe_next(log, t1) == observe_next(log, t2),
{
}

/// No duplicate delivery: once a subscriber has observed a notification, its
/// advanced token yields nothing more until something new is published.
pub proof fn lemma_no_duplicate_delivery(log: Seq<i64>, t: nat)
    ensures
        observe_next(log, t) matches Some(o) ==> observe_next(log, o.1) is None,
{
}

/// What a subscriber observes across a whole run of polls: `logs` holds the
/// publication history as it stood at each poll, and the token advances as
/// each observation dictates.
pub open spec fn observed_run(logs: Seq<Seq<i64>>, token: nat) -> Seq<Option<i64>>
    decreases logs.len(),
{
    if logs.len() == 0 {
        Seq::empty()
    } else {
        let rest = logs.subrange(1, logs.len() as int);
        match observe_next(logs[0], token) {
            Some(o) => seq![Some(o.0)] + observed_run(rest, o.1),
            None => seq![None::<i64>] + observed_run(rest, token),
        }
    }
}

/// How many polls of a run were woken with a notification.
pub open spec fn notifications_in(run: Seq<Option<i64>>) -> nat
    decreases run.len(),
{
    if run.len() == 0 {
        0
    } else {
        (if run[0] is Some {
            1nat
        } else {
            0nat
        }) + notifications_in(run.subrange(1, run.len() as int))
    }
}

/// Two subscribers present from the same token onward, polled at the same
/// instants, observe identical whole runs — no partial visibility.
pub proof fn lemma_runs_agree(logs: Seq<Seq<i64>>, t1: nat, t2: nat)
    requires
        t1 == t2,
    ensures
        observed_run(logs, t1) == observed_run(logs, t2),
{
}

/// A subscriber that has observed everything published so far is never woken
/// while nothing new is published — no spurious wake-ups.
pub proof fn lemma_quiet_run(logs: Seq<Seq<i64>>, t: nat)
    requires
        forall|i: int| 0 <= i < logs.len() ==> #[trigger] logs[i].len() <= t,
    ensures
        notifications_in(observed_run(logs, t)) == 0,
    decreases logs.len(),
{
    if logs.len() > 0 {
        let rest = logs.subrange(1, logs.len() as int);
        let run = observed_run(logs, t);
        lemma_quiet_run(rest, t);
        assert(run == seq![None::<i64>] + observed_run(rest, t));
        assert(run.subrange(1, run.len() as int) =~= observed_run(rest, t));
    }
}

/// While the history does not change, a subscriber is woken at most once,
/// however often it polls — no duplicate delivery within one stream.
pub proof fn lemma_single_wakeup(logs: Seq<Seq<i64>>, log: Seq<i64>, t: nat)
    requires
        forall|i: int| 0 <= i < logs.len() ==> #[trigger] logs[i] == log,
    ensures
        notifications_in(observed_run(logs, t)) <= 1,
    decreases logs.len(),
{
    if logs.len() > 0 {
        let rest = logs.subrange(1, logs.len() as int);
        let run = observed_run(logs, t);
        assert(logs[0] == log);
        match observe_next(log, t) {
            Some(o) => {
                lemma_quiet_run(rest, o.1);
                assert(run == seq![Some(o.0)] + observed_run(rest, o.1));
                assert(run.subrange(1, run.len() as int) =~= observed_run(rest, o.1));
            },
            None => {
                lemma_single_wakeup(rest, log, t);
                assert(run == seq![None::<i64>] + observed_run(rest, t));
                assert(run.subrange(1, run.len() as int) =~= observed_run(rest, t));
            },
        }
    }
}

/// Coalescing: two silent writes followed by a single publication append
/// exactly one entry, carrying the second value; a subscriber pending across
/// the pair observes that value, and the first write is invisible to it.
pub proof fn lemma_writes_coalesce(m: StateModel, a: i64, b: i64, t: nat)
    requires
        t <= m.log.len(),
    ensures
        ({
            let m2 = update_step(put_step(put_step(m, a), b));
            &&& m2.log == m.log.push(b)
            &&& m2.value == b
            &&& observe_next(m2.log, t) == Some((b, m2.log.len() as nat))
        }),
{
}

} // verus!
