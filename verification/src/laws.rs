//! Laws of a whole run of the session machine.
//!
//! A run is a fold of `spec_step` over the outcomes the driving loop
//! reports. `spec_run_outputs` collects everything printed along the way,
//! and `spec_describe_calls` records the task identifier of every describe
//! call that was answered. The proof functions here state the workflow
//! guarantees: no tasks means no output and a success exit; `n` task
//! identifiers mean exactly `n` describe calls and `n` printed blocks, in
//! order, one per identifier; a failed list call means no describe call at
//! all and a failure exit.

use vstd::prelude::*;
use crate::model::TaskDesc;
use crate::region::{spec_cli_region, spec_default_region, spec_resolve_region};
use crate::render::spec_task_block;
use crate::session::{
    spec_action, spec_step, spec_step_output, ModelState, Phase, SpecAction, SpecEvent,
};

verus! {

/// The state after folding the outcomes `es` over `s`.
pub open spec fn spec_run(s: ModelState, es: Seq<SpecEvent>) -> ModelState
    decreases es.len(),
{
    if es.len() == 0 {
        s
    } else {
        spec_run(spec_step(s, es[0]), es.drop_first())
    }
}

/// Everything printed while folding the outcomes `es` over `s`.
pub open spec fn spec_run_outputs(s: ModelState, es: Seq<SpecEvent>) -> Seq<char>
    decreases es.len(),
{
    if es.len() == 0 {
        Seq::empty()
    } else {
        spec_step_output(s, es[0]) + spec_run_outputs(spec_step(s, es[0]), es.drop_first())
    }
}

/// An outcome answers the action pending in `s`: list outcomes answer a
/// pending list call, describe outcomes a pending describe call.
pub open spec fn event_answers(s: ModelState, e: SpecEvent) -> bool {
    match e {
        SpecEvent::ListOk(_) => spec_action(s) is CallList,
        SpecEvent::ListErr => spec_action(s) is CallList,
        SpecEvent::DescribeOk(_) => spec_action(s) is CallDescribe,
        SpecEvent::DescribeErr => spec_action(s) is CallDescribe,
    }
}

/// Every outcome in `es` answers the action pending when it arrives. This is
/// how the driving loop behaves: it performs exactly the call the session
/// asks for and reports that call's outcome.
pub open spec fn valid_trace(s: ModelState, es: Seq<SpecEvent>) -> bool
    decreases es.len(),
{
    es.len() == 0 || (event_answers(s, es[0]) && valid_trace(spec_step(s, es[0]), es.drop_first()))
}

/// The task identifier of every describe call answered along the run, in
/// order.
pub open spec fn spec_describe_calls(s: ModelState, es: Seq<SpecEvent>) -> Seq<Seq<char>>
    decreases es.len(),
{
    if es.len() == 0 {
        Seq::empty()
    } else {
        let here = match (spec_action(s), es[0]) {
            (SpecAction::CallDescribe(arn), SpecEvent::DescribeOk(_)) => seq![arn],
            (SpecAction::CallDescribe(arn), SpecEvent::DescribeErr) => seq![arn],
            _ => Seq::<Seq<char>>::empty(),
        };
        here + spec_describe_calls(spec_step(s, es[0]), es.drop_first())
    }
}

/// The outcomes of a run in which every remote call succeeds: one list
/// outcome carrying the task identifiers, then one describe outcome per
/// identifier.
pub open spec fn all_ok_trace(arns: Seq<Seq<char>>, descs: Seq<Seq<TaskDesc>>) -> Seq<SpecEvent> {
    seq![SpecEvent::ListOk(arns)] + Seq::new(descs.len(), |i: int| SpecEvent::DescribeOk(descs[i]))
}

/// The blocks printed for the tasks from `k` on: the `i`-th is the block for
/// the `i`-th identifier, built from the `i`-th describe result.
pub open spec fn spec_blocks(
    region: Seq<char>,
    cluster: Seq<char>,
    container: Seq<char>,
    arns: Seq<Seq<char>>,
    descs: Seq<Seq<TaskDesc>>,
    k: int,
) -> Seq<char>
    decreases arns.len() - k,
{
    if k < 0 || k >= arns.len() {
        Seq::empty()
    } else {
        spec_task_block(region, cluster, container, arns[k], descs[k]) + spec_blocks(
            region,
            cluster,
            container,
            arns,
            descs,
            k + 1,
        )
    }
}

/// A failed session stays failed: no further outcome moves it, nothing more
/// is printed, no describe call is ever answered, and the pending action is
/// the failure exit.
pub proof fn lemma_failed_is_final(s: ModelState, es: Seq<SpecEvent>)
    requires
        s.phase is Failed,
    ensures
        spec_run(s, es) == s,
        spec_run_outputs(s, es) == Seq::<char>::empty(),
        spec_describe_calls(s, es) == Seq::<Seq<char>>::empty(),
        spec_action(s) is ExitErr,
    decreases es.len(),
{
    if es.len() > 0 {
        assert(spec_step(s, es[0]) == s);
        lemma_failed_is_final(s, es.drop_first());
        assert(spec_run_outputs(s, es) =~= Seq::<char>::empty());
        assert(spec_describe_calls(s, es) =~= Seq::<Seq<char>>::empty());
    }
}

/// If the list call fails, the run is over at once: the failure outcome is a
/// valid answer to the pending list call, nothing is printed then or later,
/// no describe call ever happens, and the session exits with failure.
pub proof fn lemma_list_failure_no_describe(s0: ModelState, es: Seq<SpecEvent>)
    requires
        s0.phase is BeforeList,
    ensures
        event_answers(s0, SpecEvent::ListErr),
        valid_trace(s0, seq![SpecEvent::ListErr]),
        spec_run_outputs(s0, seq![SpecEvent::ListErr] + es) == Seq::<char>::empty(),
        spec_describe_calls(s0, seq![SpecEvent::ListErr] + es) == Seq::<Seq<char>>::empty(),
        spec_action(spec_run(s0, seq![SpecEvent::ListErr] + es)) is ExitErr,
{
    let full = seq![SpecEvent::ListErr] + es;
    assert(full[0] == SpecEvent::ListErr);
    assert(full.drop_first() =~= es);
    let single = seq![SpecEvent::ListErr];
    assert(single[0] == SpecEvent::ListErr);
    assert(single.drop_first().len() == 0);
    assert(valid_trace(spec_step(s0, single[0]), single.drop_first()));
    let s1 = spec_step(s0, SpecEvent::ListErr);
    assert(s1.phase is Failed);
    lemma_failed_is_final(s1, es);
    assert(spec_run_outputs(s0, full) =~= Seq::<char>::empty());
    assert(spec_describe_calls(s0, full) =~= Seq::<Seq<char>>::empty());
}

/// From a state that has `arns` listed and the first `k` already described,
/// a describe outcome per remaining identifier is a valid trace that answers
/// one describe call per remaining identifier, in order, prints one block
/// per remaining identifier, and leaves the session asking for the success
/// exit.
proof fn lemma_describing_runs_out(s: ModelState, descs: Seq<Seq<TaskDesc>>, k: int)
    requires
        s.phase is Listed,
        0 <= k <= s.arns.len(),
        s.next == k,
        descs.len() == s.arns.len(),
    ensures
        ({
            let es = Seq::new((s.arns.len() - k) as nat, |i: int| SpecEvent::DescribeOk(descs[k + i]));
            &&& valid_trace(s, es)
            &&& spec_describe_calls(s, es) == s.arns.skip(k)
            &&& spec_run_outputs(s, es) == spec_blocks(
                s.region,
                s.cluster,
                s.container,
                s.arns,
                descs,
                k,
            )
            &&& spec_action(spec_run(s, es)) is ExitOk
        }),
    decreases s.arns.len() - k,
{
    let es = Seq::new((s.arns.len() - k) as nat, |i: int| SpecEvent::DescribeOk(descs[k + i]));
    if k == s.arns.len() {
        assert(es.len() == 0);
        assert(spec_describe_calls(s, es) =~= s.arns.skip(k));
        assert(spec_run(s, es) == s);
    } else {
        assert(es[0] == SpecEvent::DescribeOk(descs[k]));
        let s1 = spec_step(s, es[0]);
        assert(s1 == (ModelState { next: (k + 1) as nat, ..s }));
        lemma_describing_runs_out(s1, descs, k + 1);
        let es1 = Seq::new((s.arns.len() - (k + 1)) as nat, |i: int| SpecEvent::DescribeOk(descs[k + 1 + i]));
        assert(es.drop_first() =~= es1);
        assert(spec_describe_calls(s, es) =~= s.arns.skip(k)) by {
            assert(spec_describe_calls(s1, es1) == s.arns.skip(k + 1));
            assert(seq![s.arns[k]] + s.arns.skip(k + 1) =~= s.arns.skip(k));
        }
        assert(spec_run_outputs(s, es) =~= spec_blocks(
            s.region,
            s.cluster,
            s.container,
            s.arns,
            descs,
            k,
        ));
    }
}

/// Given `n` task identifiers from a successful list call and a successful
/// describe result for each, the whole run is a valid trace that answers
/// exactly `n` describe calls — the `i`-th for the `i`-th identifier —
/// prints exactly the `n` blocks, the `i`-th being the block for the `i`-th
/// identifier, and leaves the session asking for the success exit.
pub proof fn lemma_all_ok_run(
    s0: ModelState,
    arns: Seq<Seq<char>>,
    descs: Seq<Seq<TaskDesc>>,
)
    requires
        s0.phase is BeforeList,
        descs.len() == arns.len(),
    ensures
        valid_trace(s0, all_ok_trace(arns, descs)),
        spec_describe_calls(s0, all_ok_trace(arns, descs)) == arns,
        spec_run_outputs(s0, all_ok_trace(arns, descs)) == spec_blocks(
            s0.region,
            s0.cluster,
            s0.container,
            arns,
            descs,
            0,
        ),
        spec_action(spec_run(s0, all_ok_trace(arns, descs))) is ExitOk,
{
    let es = all_ok_trace(arns, descs);
    assert(es[0] == SpecEvent::ListOk(arns));
    let s1 = spec_step(s0, es[0]);
    assert(s1 == (ModelState { arns, next: 0, phase: Phase::Listed, ..s0 }));
    lemma_describing_runs_out(s1, descs, 0);
    let es1 = Seq::new((arns.len() - 0) as nat, |i: int| SpecEvent::DescribeOk(descs[0 + i]));
    assert(es.drop_first() =~= es1);
    assert(spec_describe_calls(s1, es1) == arns.skip(0));
    assert(arns.skip(0) =~= arns);
    assert(spec_describe_calls(s0, es) =~= arns);
    assert(spec_run_outputs(s0, es) =~= spec_blocks(
        s0.region,
        s0.cluster,
        s0.container,
        arns,
        descs,
        0,
    ));
}

/// With zero task identifiers the run prints nothing, answers no describe
/// call, and exits with success.
pub proof fn lemma_no_tasks_no_output(s0: ModelState, descs: Seq<Seq<TaskDesc>>)
    requires
        s0.phase is BeforeList,
        descs.len() == 0,
    ensures
        spec_run_outputs(s0, all_ok_trace(Seq::empty(), descs)) == Seq::<char>::empty(),
        spec_describe_calls(s0, all_ok_trace(Seq::empty(), descs)) == Seq::<Seq<char>>::empty(),
        spec_action(spec_run(s0, all_ok_trace(Seq::empty(), descs))) is ExitOk,
{
    lemma_all_ok_run(s0, Seq::empty(), descs);
}

/// When the region argument is omitted, the effective region is the fixed
/// fallback, whatever the provider chain would have produced: the argument
/// layer supplies the fallback as the explicit region, and an explicit
/// region always wins.
pub proof fn lemma_omitted_region_is_default(provider: Option<Seq<char>>)
    ensures
        spec_resolve_region(Option::Some(spec_cli_region(Option::None)), provider)
            == spec_default_region(),
{
}

} // verus!
