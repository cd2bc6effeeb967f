//! What holds of every probe, whatever the endpoint does.

use crate::probe::{
    model_finished, model_next, model_record, model_run, model_start, model_waited, ProbeStep,
    ProberModel, ReadinessOutcome, TargetModel,
};
use vstd::prelude::*;

verus! {

/// The number of failed attempts at the head of `results`: the position of
/// the first attempt that connected, or the length if none did.
pub open spec fn leading_failures(results: Seq<bool>) -> nat
    decreases results.len(),
{
    if results.len() == 0 || results[0] {
        0
    } else {
        1 + leading_failures(results.drop_first())
    }
}

/// The smaller of two numbers.
pub open spec fn least(a: nat, b: nat) -> nat {
    if a <= b {
        a
    } else {
        b
    }
}

/// `leading_failures` counts exactly the attempts before the first one that
/// connected.
pub proof fn lemma_leading_failures(results: Seq<bool>)
    ensures
        leading_failures(results) <= results.len(),
        forall|i: int| 0 <= i < leading_failures(results) ==> !results[i],
        leading_failures(results) < results.len() ==> results[leading_failures(results) as int],
    decreases results.len(),
{
    if results.len() == 0 || results[0] {
    } else {
        let rest = results.drop_first();
        lemma_leading_failures(rest);
        assert forall|i: int| 0 <= i < leading_failures(results) implies !results[i] by {
            if i > 0 {
                assert(results[i] == rest[i - 1]);
            }
        }
        assert(leading_failures(rest) < rest.len() ==> results[leading_failures(results) as int]
            == rest[leading_failures(rest) as int]);
    }
}

/// Where no attempt connected, every attempt counts as a leading failure.
pub proof fn lemma_all_failures(results: Seq<bool>)
    requires
        forall|i: int| 0 <= i < results.len() ==> !results[i],
    ensures
        leading_failures(results) == results.len(),
    decreases results.len(),
{
    if results.len() > 0 {
        let rest = results.drop_first();
        assert forall|i: int| 0 <= i < rest.len() implies !rest[i] by {
            assert(rest[i] == results[i + 1]);
        }
        lemma_all_failures(rest);
    }
}

/// A probe that is over stays as it is, and owes no further pause.
pub proof fn lemma_finished_is_final(m: ProberModel, results: Seq<bool>)
    requires
        model_finished(m),
    ensures
        model_run(m, results) == m,
        model_waited(m, results) == 0,
    decreases results.len(),
{
    if results.len() > 0 {
        lemma_finished_is_final(m, results.drop_first());
    }
}

/// A probe in progress, fed the attempts in `results`, ends connected after
/// the first attempt that connected if the budget reaches that far, having
/// paused for the backoff after each failure before it and for the settle
/// delay after it. Otherwise it has counted the failures that the budget
/// had room for, and paused for the backoff after each.
pub proof fn lemma_run_from(m: ProberModel, results: Seq<bool>)
    requires
        !m.ready,
        m.attempts <= m.target.max_attempts,
    ensures
        ({
            let room = (m.target.max_attempts - m.attempts) as nat;
            let failures = leading_failures(results);
            if failures < results.len() && failures < room {
                &&& model_run(m, results) == ProberModel {
                    target: m.target,
                    attempts: m.attempts + failures + 1,
                    ready: true,
                }
                &&& model_waited(m, results) == failures * m.target.backoff_ms
                    + m.target.settle_ms
            } else {
                &&& model_run(m, results) == ProberModel {
                    target: m.target,
                    attempts: m.attempts + least(failures, room),
                    ready: false,
                }
                &&& model_waited(m, results) == least(failures, room) * m.target.backoff_ms
            }
        }),
    decreases results.len(),
{
    let room = (m.target.max_attempts - m.attempts) as nat;
    let backoff = m.target.backoff_ms;
    if results.len() == 0 {
        assert(0 * backoff == 0);
    } else if room == 0 {
        lemma_finished_is_final(m, results);
        assert(0 * backoff == 0);
    } else {
        let rest = results.drop_first();
        let after = model_record(m, results[0]);
        if results[0] {
            lemma_finished_is_final(after, rest);
            assert(0 * backoff == 0);
        } else {
            lemma_run_from(after, rest);
            let failures = leading_failures(rest);
            assert((failures + 1) * backoff == failures * backoff + backoff)
                by (nonlinear_arith);
            assert((least(failures, (room - 1) as nat) + 1) * backoff == least(
                failures,
                (room - 1) as nat,
            ) * backoff + backoff) by (nonlinear_arith);
        }
    }
}

/// With a listener in place before the probe begins, the first attempt
/// connects: the probe reports readiness after exactly one attempt, and the
/// only pause taken is the settle delay.
pub proof fn law_first_attempt_connects(target: TargetModel, results: Seq<bool>)
    requires
        target.max_attempts >= 1,
        results.len() >= 1,
        results[0],
    ensures
        model_next(model_run(model_start(target), results)) == ProbeStep::Finish(
            ReadinessOutcome { ready: true, attempts: 1 },
        ),
        model_waited(model_start(target), results) == target.settle_ms,
{
    lemma_run_from(model_start(target), results);
    assert(0 * target.backoff_ms == 0);
}

/// With no listener ever, the probe asks for another attempt until the
/// budget is used up, and only then reports failure, after as many attempts
/// as the budget holds and a backoff pause after each of them.
pub proof fn law_exhaustion(target: TargetModel, results: Seq<bool>)
    requires
        target.max_attempts <= u32::MAX,
        forall|i: int| 0 <= i < results.len() ==> !results[i],
    ensures
        results.len() < target.max_attempts ==> model_next(
            model_run(model_start(target), results),
        ) == ProbeStep::Connect,
        results.len() >= target.max_attempts ==> model_next(
            model_run(model_start(target), results),
        ) == ProbeStep::Finish(
            ReadinessOutcome { ready: false, attempts: target.max_attempts as u32 },
        ),
        results.len() >= target.max_attempts ==> model_waited(model_start(target), results)
            == target.max_attempts * target.backoff_ms,
{
    lemma_all_failures(results);
    lemma_run_from(model_start(target), results);
}

/// A probe reports readiness exactly when one of the attempts that the
/// budget allows connected, and the attempts it reports are those up to and
/// including the first that did.
pub proof fn law_ready_iff_connected_in_budget(target: TargetModel, results: Seq<bool>)
    ensures
        model_run(model_start(target), results).ready <==> exists|i: int|
            0 <= i < results.len() && i < target.max_attempts && results[i],
        model_run(model_start(target), results).ready ==> model_run(
            model_start(target),
            results,
        ).attempts == leading_failures(results) + 1,
        model_run(model_start(target), results).attempts <= target.max_attempts,
        model_run(model_start(target), results).attempts <= results.len(),
{
    lemma_run_from(model_start(target), results);
    lemma_leading_failures(results);
    let failures = leading_failures(results);
    if failures < results.len() && failures < target.max_attempts {
        assert(0 <= failures < results.len() && failures < target.max_attempts
            && results[failures as int]);
    }
}

} // verus!
