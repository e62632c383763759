//! Serialization: every record becomes an artifact, a flattened name with
//! the rendered JSON text, and the outcomes of the writes become one verdict.

use vstd::prelude::*;
use crate::json::{pretty_document, pretty_text, text_view};
use crate::naming::{artifact_path, path_to_record};
use crate::record::{Record, RecordView};
use crate::select::{
    count_picked, lemma_picked_contains, lemma_picked_len, lemma_picked_origin, lemma_picked_take,
    picked,
};

verus! {

/// What is to be written for one record: the place of the file, and the
/// text, or the reason for which the content could not be rendered.
#[derive(Debug)]
pub struct Artifact {
    pub name: String,
    pub body: Result<String, String>,
}

/// An `Artifact` as contracts speak of it.
pub struct ArtifactView {
    pub name: Seq<char>,
    pub body: Result<Seq<char>, Seq<char>>,
}

impl View for Artifact {
    type V = ArtifactView;

    open spec fn view(&self) -> ArtifactView {
        ArtifactView { name: self.name@, body: text_view(self.body) }
    }
}

/// The artifact of a record: its flattened place in `out_dir`, and its
/// content as pretty-printed JSON.
pub open spec fn artifact_of(record: RecordView, depth: nat, out_dir: Seq<char>) -> ArtifactView {
    ArtifactView {
        name: artifact_path(record.meta.source_path, depth, out_dir),
        body: pretty_document(record.content),
    }
}

/// How the write of one artifact ended: well, or with an error.
#[derive(Debug)]
pub struct WriteOutcome {
    pub name: String,
    pub error: Option<String>,
}

/// A `WriteOutcome` as contracts speak of it.
pub struct WriteOutcomeView {
    pub name: Seq<char>,
    pub error: Option<Seq<char>>,
}

impl View for WriteOutcome {
    type V = WriteOutcomeView;

    open spec fn view(&self) -> WriteOutcomeView {
        WriteOutcomeView {
            name: self.name@,
            error: match self.error {
                Some(e) => Some(e@),
                None => None,
            },
        }
    }
}

/// The outcomes as contracts speak of them.
pub open spec fn outcomes_view(outcomes: Seq<WriteOutcome>) -> Seq<WriteOutcomeView> {
    Seq::new(outcomes.len(), |i: int| outcomes[i]@)
}

/// One artifact that was not written: its name and the error.
#[derive(Debug)]
pub struct WriteFailure {
    pub name: String,
    pub error: String,
}

/// A `WriteFailure` as contracts speak of it.
pub struct WriteFailureView {
    pub name: Seq<char>,
    pub error: Seq<char>,
}

impl View for WriteFailure {
    type V = WriteFailureView;

    open spec fn view(&self) -> WriteFailureView {
        WriteFailureView { name: self.name@, error: self.error@ }
    }
}

/// The failures as contracts speak of them.
pub open spec fn failures_view(failures: Seq<WriteFailure>) -> Seq<WriteFailureView> {
    Seq::new(failures.len(), |i: int| failures[i]@)
}

/// The failure that an outcome reports, if it reports one.
pub open spec fn failure_in(outcome: WriteOutcomeView) -> Option<WriteFailureView> {
    match outcome.error {
        Some(error) => Some(WriteFailureView { name: outcome.name, error }),
        None => None,
    }
}

/// The rule by which failures are picked out of the outcomes.
pub open spec fn failure_pick() -> spec_fn(WriteOutcomeView) -> Option<WriteFailureView> {
    |outcome: WriteOutcomeView| failure_in(outcome)
}

/// The failures among the outcomes, in the order of the outcomes.
pub open spec fn failures_of(outcomes: Seq<WriteOutcomeView>) -> Seq<WriteFailureView> {
    picked(outcomes, failure_pick())
}

/// The number of outcomes that report an error.
pub open spec fn failed_count(outcomes: Seq<WriteOutcomeView>) -> nat {
    count_picked(outcomes, failure_pick())
}

/// The verdict over all writes, as contracts speak of it.
pub open spec fn verdict_view(r: Result<(), Vec<WriteFailure>>) -> Result<
    (),
    Seq<WriteFailureView>,
> {
    match r {
        Ok(()) => Ok(()),
        Err(failures) => Err(failures_view(failures@)),
    }
}

/// The verdict that the outcomes call for: success where none reports an
/// error, else every failure.
pub open spec fn verdict_of(outcomes: Seq<WriteOutcomeView>) -> Result<(), Seq<WriteFailureView>> {
    if failures_of(outcomes).len() == 0 {
        Ok(())
    } else {
        Err(failures_of(outcomes))
    }
}

/// Renders the content of a record as pretty-printed JSON: one object with
/// the record's top-level entries. The entries are rendered as the
/// printer's map holds them: in the order of their keys, and where a key
/// occurs more than once, which only a record without distinct keys allows,
/// with the last entry under that key alone.
pub fn serialize(record: &Record) -> (r: Result<String, String>)
    ensures
        text_view(r) == pretty_document(record@.content),
{
    pretty_text(&record.content)
}

/// Makes the artifact of every record, in the order of the records. A
/// record whose content cannot be rendered still has its artifact, which
/// carries the error in place of the text.
pub fn serialize_sources(data: &Vec<Record>, depth: usize, out_dir: &str) -> (artifacts: Vec<
    Artifact,
>)
    ensures
        artifacts@.len() == data@.len(),
        forall|i: int|
            0 <= i < data@.len() ==> (#[trigger] artifacts@[i])@ == artifact_of(
                data@[i]@,
                depth as nat,
                out_dir@,
            ),
{
    let mut artifacts: Vec<Artifact> = Vec::new();
    let mut i: usize = 0;
    while i < data.len()
        invariant
            i <= data.len(),
            artifacts@.len() == i,
            forall|k: int|
                0 <= k < i ==> (#[trigger] artifacts@[k])@ == artifact_of(
                    data@[k]@,
                    depth as nat,
                    out_dir@,
                ),
        decreases data.len() - i,
    {
        let name = path_to_record(&data[i].meta.source_path, depth, out_dir);
        let body = serialize(&data[i]);
        artifacts.push(Artifact { name, body });
        i += 1;
    }
    artifacts
}

/// Concludes the writes once every one of them has ended: success where
/// none failed, else all the failures, each under the name of its artifact
/// and in the order of the outcomes.
pub fn conclude_writes(outcomes: &Vec<WriteOutcome>) -> (r: Result<(), Vec<WriteFailure>>)
    ensures
        verdict_view(r) == verdict_of(outcomes_view(outcomes@)),
{
    let mut failures: Vec<WriteFailure> = Vec::new();
    let mut i: usize = 0;
    while i < outcomes.len()
        invariant
            i <= outcomes.len(),
            failures_view(failures@) == failures_of(outcomes_view(outcomes@).take(i as int)),
        decreases outcomes.len() - i,
    {
        proof {
            lemma_picked_take(outcomes_view(outcomes@), i as int, failure_pick());
        }
        let ghost before = failures_view(failures@);
        match &outcomes[i].error {
            Some(error) => {
                failures.push(WriteFailure { name: outcomes[i].name.clone(), error: error.clone() });
                proof {
                    assert(failures_view(failures@) =~= before.push(
                        failure_in(outcomes@[i as int]@)->0,
                    ));
                }
            },
            None => {},
        }
        i += 1;
    }
    proof {
        assert(outcomes_view(outcomes@).take(outcomes@.len() as int) =~= outcomes_view(outcomes@));
    }
    if failures.len() == 0 {
        Ok(())
    } else {
        Err(failures)
    }
}

/// Of any outcomes of the writes: the run fails exactly where one of them
/// reports an error; then the failures are as many as the outcomes that
/// report one, each of those is among them under its own name, and each of
/// them comes from such an outcome.
pub proof fn law_every_failure_is_reported(outcomes: Seq<WriteOutcomeView>)
    ensures
        verdict_of(outcomes) is Err <==> failed_count(outcomes) > 0,
        failures_of(outcomes).len() == failed_count(outcomes),
        forall|i: int|
            0 <= i < outcomes.len() && (#[trigger] outcomes[i]).error is Some
                ==> failures_of(outcomes).contains(
                WriteFailureView { name: outcomes[i].name, error: outcomes[i].error->0 },
            ),
        forall|k: int|
            0 <= k < failures_of(outcomes).len() ==> exists|i: int|
                0 <= i < outcomes.len() && failure_in(#[trigger] outcomes[i]) == Some(
                    #[trigger] failures_of(outcomes)[k],
                ),
{
    lemma_picked_len(outcomes, failure_pick());
    assert forall|i: int|
        0 <= i < outcomes.len() && (#[trigger] outcomes[i]).error is Some implies failures_of(
        outcomes,
    ).contains(WriteFailureView { name: outcomes[i].name, error: outcomes[i].error->0 }) by {
        lemma_picked_contains(outcomes, i, failure_pick());
    }
    assert forall|k: int| 0 <= k < failures_of(outcomes).len() implies exists|i: int|
        0 <= i < outcomes.len() && failure_in(#[trigger] outcomes[i]) == Some(
            #[trigger] failures_of(outcomes)[k],
        ) by {
        lemma_picked_origin(outcomes, k, failure_pick());
        let i = choose|i: int|
            0 <= i < outcomes.len() && failure_pick()(#[trigger] outcomes[i]) == Some(
                failures_of(outcomes)[k],
            );
        assert(failure_in(outcomes[i]) == Some(failures_of(outcomes)[k]));
    }
}

} // verus!
