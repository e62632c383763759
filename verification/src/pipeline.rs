//! The transformation pipeline: an ordered list of stages, each a function
//! from the whole record collection to a new one.

use vstd::prelude::*;
use vstd::string::*;
use crate::record::Record;
use crate::text::{decimal, decimal_text};

verus! {

/// The failure of one stage: its place in the pipeline, counted from one,
/// the number of stages, and the stage's reason.
#[derive(Debug)]
pub struct StageFailure {
    pub index: usize,
    pub total: usize,
    pub reason: String,
}

impl StageFailure {
    /// The failure in words: which stage of how many, and its reason.
    pub fn describe(&self) -> (out: String)
        ensures
            out@ == "stage "@ + decimal(self.index as nat) + " of "@ + decimal(self.total as nat)
                + " failed: "@ + self.reason@,
    {
        let mut out = String::from_str("stage ");
        let index = decimal_text(self.index);
        out.append(index.as_str());
        out.append(" of ");
        let total = decimal_text(self.total);
        out.append(total.as_str());
        out.append(" failed: ");
        out.append(self.reason.as_str());
        out
    }
}

/// The failure of the stage at `at`, counted from zero, among `total`.
pub open spec fn failure_at(at: int, total: nat, reason: String) -> StageFailure {
    StageFailure { index: (at + 1) as usize, total: total as usize, reason }
}

/// Whether `stage` may turn `input` into the collection `output`.
pub open spec fn stage_gives<F: Fn(Vec<Record>) -> Result<Vec<Record>, String>>(
    stage: F,
    input: Vec<Record>,
    output: Vec<Record>,
) -> bool {
    stage.ensures((input,), Ok::<Vec<Record>, String>(output))
}

/// Whether `stage` may fail on `input` with `reason`.
pub open spec fn stage_fails<F: Fn(Vec<Record>) -> Result<Vec<Record>, String>>(
    stage: F,
    input: Vec<Record>,
    reason: String,
) -> bool {
    stage.ensures((input,), Err::<Vec<Record>, String>(reason))
}

/// Whether the stages from `at` on, run in their order and each on what the
/// one before it made, may end in `result` when the stage at `at` is given
/// `input`. A stage that fails ends the run with its number; where no stage
/// is left, the run ends well with the collection as it stands.
pub open spec fn may_yield<F: Fn(Vec<Record>) -> Result<Vec<Record>, String>>(
    stages: Seq<F>,
    at: int,
    input: Vec<Record>,
    result: Result<Vec<Record>, StageFailure>,
) -> bool
    decreases stages.len() - at,
{
    if at < 0 || at >= stages.len() {
        result == Ok::<Vec<Record>, StageFailure>(input)
    } else {
        ||| exists|next: Vec<Record>| #[trigger]
            stage_gives(stages[at], input, next) && may_yield(stages, at + 1, next, result)
        ||| exists|reason: String| #[trigger]
            stage_fails(stages[at], input, reason) && result == Err::<Vec<Record>, StageFailure>(
                failure_at(at, stages.len(), reason),
            )
    }
}

/// Whether the whole pipeline may end in `result` on `input`.
pub open spec fn pipeline_yields<F: Fn(Vec<Record>) -> Result<Vec<Record>, String>>(
    stages: Seq<F>,
    input: Vec<Record>,
    result: Result<Vec<Record>, StageFailure>,
) -> bool {
    may_yield(stages, 0, input, result)
}

/// Runs the stages in their order over the whole collection: each stage is
/// given what the one before it returned. A stage that fails ends the run,
/// and no later stage is called. The stages must accept every collection.
pub fn execute_pipeline<F: Fn(Vec<Record>) -> Result<Vec<Record>, String>>(
    data: Vec<Record>,
    stages: &Vec<F>,
) -> (r: Result<Vec<Record>, StageFailure>)
    requires
        forall|i: int, input: Vec<Record>|
            0 <= i < stages@.len() ==> #[trigger] stages@[i].requires((input,)),
    ensures
        pipeline_yields(stages@, data, r),
        stages@.len() == 0 ==> r == Ok::<Vec<Record>, StageFailure>(data),
{
    let ghost start = data;
    let mut current = data;
    let mut i: usize = 0;
    while i < stages.len()
        invariant
            i <= stages.len(),
            start == data,
            forall|k: int, input: Vec<Record>|
                0 <= k < stages@.len() ==> #[trigger] stages@[k].requires((input,)),
            forall|r: Result<Vec<Record>, StageFailure>| #[trigger]
                may_yield(stages@, i as int, current, r) ==> may_yield(stages@, 0, start, r),
        decreases stages.len() - i,
    {
        let ghost before = current;
        let stage = &stages[i];
        match stage(current) {
            Ok(next) => {
                proof {
                    assert(stage_gives(stages@[i as int], before, next));
                    assert forall|r: Result<Vec<Record>, StageFailure>| #[trigger]
                        may_yield(stages@, i + 1, next, r) implies may_yield(
                        stages@,
                        0,
                        start,
                        r,
                    ) by {
                        assert(may_yield(stages@, i as int, before, r));
                    }
                }
                current = next;
            },
            Err(reason) => {
                let failure = StageFailure { index: i + 1, total: stages.len(), reason };
                proof {
                    assert(stage_fails(stages@[i as int], before, reason));
                    assert(failure == failure_at(i as int, stages@.len(), reason));
                    assert(may_yield(
                        stages@,
                        i as int,
                        before,
                        Err::<Vec<Record>, StageFailure>(failure),
                    ));
                }
                return Err(failure);
            },
        }
        i += 1;
    }
    proof {
        assert(may_yield(stages@, i as int, current, Ok::<Vec<Record>, StageFailure>(current)));
    }
    Ok(current)
}

/// A pipeline without stages returns the collection it was given, and
/// nothing else.
pub proof fn law_no_stage_is_identity<F: Fn(Vec<Record>) -> Result<Vec<Record>, String>>(
    input: Vec<Record>,
    result: Result<Vec<Record>, StageFailure>,
)
    ensures
        pipeline_yields(Seq::<F>::empty(), input, result) <==> result == Ok::<
            Vec<Record>,
            StageFailure,
        >(input),
{
}

/// A pipeline of two stages ends well exactly with what the second stage
/// makes of what the first stage made of the input.
pub proof fn law_two_stages_compose<F: Fn(Vec<Record>) -> Result<Vec<Record>, String>>(
    first: F,
    second: F,
    input: Vec<Record>,
    output: Vec<Record>,
)
    ensures
        pipeline_yields(seq![first, second], input, Ok::<Vec<Record>, StageFailure>(output))
            <==> exists|between: Vec<Record>| #[trigger]
            stage_gives(first, input, between) && stage_gives(second, between, output),
{
    let stages = seq![first, second];
    let result = Ok::<Vec<Record>, StageFailure>(output);
    assert(stages.len() == 2 && stages[0] == first && stages[1] == second);
    if pipeline_yields(stages, input, result) {
        let between = choose|next: Vec<Record>| #[trigger]
            stage_gives(stages[0], input, next) && may_yield(stages, 1, next, result);
        assert(may_yield(stages, 1, between, result));
        let last = choose|next: Vec<Record>| #[trigger]
            stage_gives(stages[1], between, next) && may_yield(stages, 2, next, result);
        assert(may_yield(stages, 2, last, result));
        assert(last == output);
        assert(stage_gives(first, input, between) && stage_gives(second, between, output));
    }
    if exists|between: Vec<Record>| #[trigger]
        stage_gives(first, input, between) && stage_gives(second, between, output) {
        let between = choose|between: Vec<Record>| #[trigger]
            stage_gives(first, input, between) && stage_gives(second, between, output);
        assert(may_yield(stages, 2, output, result));
        assert(stage_gives(stages[1], between, output));
        assert(may_yield(stages, 1, between, result));
        assert(stage_gives(stages[0], input, between));
        assert(may_yield(stages, 0, input, result));
    }
}

/// A pipeline with one more stage at its end ends well exactly with what
/// that stage makes of what the pipeline before it made: the last stage
/// sees the work of all the others, and nothing else.
pub proof fn law_last_stage_sees_the_rest<F: Fn(Vec<Record>) -> Result<Vec<Record>, String>>(
    stages: Seq<F>,
    last: F,
    input: Vec<Record>,
    output: Vec<Record>,
)
    ensures
        pipeline_yields(stages.push(last), input, Ok::<Vec<Record>, StageFailure>(output))
            <==> exists|between: Vec<Record>| #[trigger]
            stage_gives(last, between, output) && pipeline_yields(
                stages,
                input,
                Ok::<Vec<Record>, StageFailure>(between),
            ),
{
    lemma_one_more_stage(stages, last, 0, input, output);
}

proof fn lemma_one_more_stage<F: Fn(Vec<Record>) -> Result<Vec<Record>, String>>(
    stages: Seq<F>,
    last: F,
    at: int,
    input: Vec<Record>,
    output: Vec<Record>,
)
    requires
        0 <= at <= stages.len(),
    ensures
        may_yield(stages.push(last), at, input, Ok::<Vec<Record>, StageFailure>(output))
            <==> exists|between: Vec<Record>| #[trigger]
            stage_gives(last, between, output) && may_yield(
                stages,
                at,
                input,
                Ok::<Vec<Record>, StageFailure>(between),
            ),
    decreases stages.len() - at,
{
    let longer = stages.push(last);
    let result = Ok::<Vec<Record>, StageFailure>(output);
    if at == stages.len() {
        assert(longer[at] == last);
        if may_yield(longer, at, input, result) {
            let next = choose|next: Vec<Record>| #[trigger]
                stage_gives(longer[at], input, next) && may_yield(longer, at + 1, next, result);
            assert(may_yield(longer, at + 1, next, result));
            assert(next == output);
            assert(stage_gives(last, input, output) && may_yield(
                stages,
                at,
                input,
                Ok::<Vec<Record>, StageFailure>(input),
            ));
        }
        if exists|between: Vec<Record>| #[trigger]
            stage_gives(last, between, output) && may_yield(
                stages,
                at,
                input,
                Ok::<Vec<Record>, StageFailure>(between),
            ) {
            let between = choose|between: Vec<Record>| #[trigger]
                stage_gives(last, between, output) && may_yield(
                    stages,
                    at,
                    input,
                    Ok::<Vec<Record>, StageFailure>(between),
                );
            assert(between == input);
            assert(may_yield(longer, at + 1, output, result));
            assert(stage_gives(longer[at], input, output));
        }
    } else {
        assert(longer[at] == stages[at]);
        if may_yield(longer, at, input, result) {
            let next = choose|next: Vec<Record>| #[trigger]
                stage_gives(longer[at], input, next) && may_yield(longer, at + 1, next, result);
            assert(may_yield(longer, at + 1, next, result));
            lemma_one_more_stage(stages, last, at + 1, next, output);
            let between = choose|between: Vec<Record>| #[trigger]
                stage_gives(last, between, output) && may_yield(
                    stages,
                    at + 1,
                    next,
                    Ok::<Vec<Record>, StageFailure>(between),
                );
            assert(stage_gives(stages[at], input, next));
            assert(may_yield(stages, at, input, Ok::<Vec<Record>, StageFailure>(between)));
            assert(stage_gives(last, between, output));
        }
        if exists|between: Vec<Record>| #[trigger]
            stage_gives(last, between, output) && may_yield(
                stages,
                at,
                input,
                Ok::<Vec<Record>, StageFailure>(between),
            ) {
            let between = choose|between: Vec<Record>| #[trigger]
                stage_gives(last, between, output) && may_yield(
                    stages,
                    at,
                    input,
                    Ok::<Vec<Record>, StageFailure>(between),
                );
            let partial = Ok::<Vec<Record>, StageFailure>(between);
            let next = choose|next: Vec<Record>| #[trigger]
                stage_gives(stages[at], input, next) && may_yield(stages, at + 1, next, partial);
            assert(may_yield(stages, at + 1, next, partial));
            lemma_one_more_stage(stages, last, at + 1, next, output);
            assert(may_yield(longer, at + 1, next, result));
            assert(stage_gives(longer[at], input, next));
        }
    }
}

/// A pipeline of two stages fails exactly where the first stage fails on
/// the input, or the second on what the first made; the failure carries the
/// number of the stage that failed and its reason.
pub proof fn law_failing_stage_ends_the_run<F: Fn(Vec<Record>) -> Result<Vec<Record>, String>>(
    first: F,
    second: F,
    input: Vec<Record>,
    failure: StageFailure,
)
    ensures
        pipeline_yields(seq![first, second], input, Err::<Vec<Record>, StageFailure>(failure))
            <==> (exists|reason: String| #[trigger]
            stage_fails(first, input, reason) && failure == failure_at(0, 2, reason)) || (exists|
            between: Vec<Record>,
            reason: String,
        |
            stage_gives(first, input, between) && #[trigger] stage_fails(second, between, reason)
                && failure == failure_at(1, 2, reason)),
{
    let stages = seq![first, second];
    let result = Err::<Vec<Record>, StageFailure>(failure);
    assert(stages.len() == 2 && stages[0] == first && stages[1] == second);
    if pipeline_yields(stages, input, result) {
        if exists|reason: String| #[trigger]
            stage_fails(stages[0], input, reason) && result == Err::<Vec<Record>, StageFailure>(
                failure_at(0, stages.len(), reason),
            ) {
        } else {
            let between = choose|next: Vec<Record>| #[trigger]
                stage_gives(stages[0], input, next) && may_yield(stages, 1, next, result);
            assert(may_yield(stages, 1, between, result));
            if exists|next: Vec<Record>| #[trigger]
                stage_gives(stages[1], between, next) && may_yield(stages, 2, next, result) {
                let last = choose|next: Vec<Record>| #[trigger]
                    stage_gives(stages[1], between, next) && may_yield(stages, 2, next, result);
                assert(may_yield(stages, 2, last, result));
                assert(false);
            }
            let reason = choose|reason: String| #[trigger]
                stage_fails(stages[1], between, reason) && result == Err::<
                    Vec<Record>,
                    StageFailure,
                >(failure_at(1, stages.len(), reason));
            assert(stage_gives(first, input, between) && stage_fails(second, between, reason)
                && failure == failure_at(1, 2, reason));
        }
    }
    if exists|reason: String| #[trigger]
        stage_fails(first, input, reason) && failure == failure_at(0, 2, reason) {
        let reason = choose|reason: String| #[trigger]
            stage_fails(first, input, reason) && failure == failure_at(0, 2, reason);
        assert(stage_fails(stages[0], input, reason));
        assert(may_yield(stages, 0, input, result));
    }
    if exists|between: Vec<Record>, reason: String|
        stage_gives(first, input, between) && #[trigger] stage_fails(second, between, reason)
            && failure == failure_at(1, 2, reason) {
        let (between, reason) = choose|between: Vec<Record>, reason: String|
            stage_gives(first, input, between) && #[trigger] stage_fails(second, between, reason)
                && failure == failure_at(1, 2, reason);
        assert(stage_fails(stages[1], between, reason));
        assert(may_yield(stages, 1, between, result));
        assert(stage_gives(stages[0], input, between));
        assert(may_yield(stages, 0, input, result));
    }
}

} // verus!
