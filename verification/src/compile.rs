//! The whole run up to the writing: ingestion, then the pipeline, then the
//! artifacts, each phase only once the one before it has ended well.

use vstd::prelude::*;
use crate::ingest::{
    deserialize_sources, files_view, ingest_failures_view, ingestion_of, IngestFailure, SourceFile,
};
use crate::pipeline::{execute_pipeline, pipeline_yields, StageFailure};
use crate::record::{records_view, Record};
use crate::serialize::{artifact_of, serialize_sources, Artifact};

verus! {

/// Why a run produced no artifacts.
#[derive(Debug)]
pub enum CompileFailure {
    /// Some files gave no record; no stage was run.
    Ingestion(Vec<IngestFailure>),
    /// A stage failed; nothing was rendered.
    Stage(StageFailure),
}

/// Whether `artifacts` are the artifacts of `records`, one for each and in
/// their order.
pub open spec fn artifacts_of(
    artifacts: Vec<Artifact>,
    records: Vec<Record>,
    depth: nat,
    out_dir: Seq<char>,
) -> bool {
    &&& artifacts@.len() == records@.len()
    &&& forall|i: int|
        0 <= i < records@.len() ==> (#[trigger] artifacts@[i])@ == artifact_of(
            records@[i]@,
            depth,
            out_dir,
        )
}

/// Whether a run over `loaded`, the records that ingestion gave, may end in
/// `result`: where the pipeline fails, with that failure; else with the
/// artifacts of what the pipeline made.
pub open spec fn run_yields<F: Fn(Vec<Record>) -> Result<Vec<Record>, String>>(
    stages: Seq<F>,
    loaded: Vec<Record>,
    staged: Result<Vec<Record>, StageFailure>,
    depth: nat,
    out_dir: Seq<char>,
    result: Result<Vec<Artifact>, CompileFailure>,
) -> bool {
    &&& pipeline_yields(stages, loaded, staged)
    &&& match staged {
        Err(failure) => result == Err::<Vec<Artifact>, CompileFailure>(
            CompileFailure::Stage(failure),
        ),
        Ok(records) => result matches Ok(artifacts) && artifacts_of(
            artifacts,
            records,
            depth,
            out_dir,
        ),
    }
}

/// Compiles the files into artifacts: ingests them all, runs the stages
/// over the records, and renders every record that is left under its
/// flattened name. Where any file fails, no stage is run; where a stage
/// fails, nothing is rendered.
pub fn compile_sources<F: Fn(Vec<Record>) -> Result<Vec<Record>, String>>(
    files: &Vec<SourceFile>,
    stages: &Vec<F>,
    depth: usize,
    out_dir: &str,
) -> (r: Result<Vec<Artifact>, CompileFailure>)
    requires
        forall|i: int, input: Vec<Record>|
            0 <= i < stages@.len() ==> #[trigger] stages@[i].requires((input,)),
    ensures
        match ingestion_of(files_view(files@)) {
            Err(failures) => r matches Err(CompileFailure::Ingestion(found))
                && ingest_failures_view(found@) == failures,
            Ok(records) => exists|loaded: Vec<Record>, staged: Result<Vec<Record>, StageFailure>|
                records_view(loaded@) == records && #[trigger] run_yields(
                    stages@,
                    loaded,
                    staged,
                    depth as nat,
                    out_dir@,
                    r,
                ),
        },
{
    match deserialize_sources(files) {
        Err(failures) => Err(CompileFailure::Ingestion(failures)),
        Ok(loaded) => {
            let ghost before = loaded;
            match execute_pipeline(loaded, stages) {
                Err(failure) => {
                    let r = Err(CompileFailure::Stage(failure));
                    proof {
                        assert(run_yields(
                            stages@,
                            before,
                            Err::<Vec<Record>, StageFailure>(failure),
                            depth as nat,
                            out_dir@,
                            r,
                        ));
                    }
                    r
                },
                Ok(records) => {
                    let r = Ok(serialize_sources(&records, depth, out_dir));
                    proof {
                        assert(run_yields(
                            stages@,
                            before,
                            Ok::<Vec<Record>, StageFailure>(records),
                            depth as nat,
                            out_dir@,
                            r,
                        ));
                    }
                    r
                },
            }
        },
    }
}

} // verus!
