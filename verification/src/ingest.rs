//! Ingestion: every eligible source file is parsed and validated on its own,
//! and the run succeeds only where none of them failed. Documents are read
//! here from strict JSON; a file in the relaxed syntax is decoded by the
//! caller and comes as strict JSON too.

use vstd::prelude::*;
use vstd::string::*;
use crate::json::{parse_strict, parse_view, strict_document};
use crate::record::{record_of, records_view, Record, RecordFault, RecordView};
use crate::select::{lemma_picked_reordered, lemma_picked_take, picked};
use crate::text::{extension, extension_of, join, joined, lemma_path_view_push, path_view};

verus! {

/// The two syntaxes in which a source file may be written.
#[derive(Clone, Copy, Debug, PartialEq, Eq, Structural)]
pub enum Format {
    /// Strict JSON, in files that end in `.json`.
    Strict,
    /// Hjson, the relaxed syntax, in files that end in `.hjson`. The caller
    /// decodes such a file and hands its document over as strict JSON.
    Relaxed,
}

/// The format that a file's name announces; `None` for a file that is not
/// read.
pub open spec fn format_of_name(name: Seq<char>) -> Option<Format> {
    if extension(name) == "json"@ {
        Some(Format::Strict)
    } else if extension(name) == "hjson"@ {
        Some(Format::Relaxed)
    } else {
        None
    }
}

/// A file of the content tree: the components of its path, and its
/// document as a text in strict JSON, or the reason for which there is
/// none. The text of a file in strict JSON is the file's own; the text of a
/// file in the relaxed syntax is what the caller's decoder made of it,
/// written as strict JSON. Where the file could not be read or decoded, the
/// caller says which.
#[derive(Debug)]
pub struct SourceFile {
    pub path: Vec<String>,
    pub contents: Result<String, IngestFault>,
}

/// A `SourceFile` as contracts speak of it.
pub struct SourceFileView {
    pub path: Seq<Seq<char>>,
    pub contents: Result<Seq<char>, IngestFaultView>,
}

impl View for SourceFile {
    type V = SourceFileView;

    open spec fn view(&self) -> SourceFileView {
        SourceFileView {
            path: path_view(self.path@),
            contents: match self.contents {
                Ok(text) => Ok(text@),
                Err(fault) => Err(fault@),
            },
        }
    }
}

/// The files as contracts speak of them.
pub open spec fn files_view(files: Seq<SourceFile>) -> Seq<SourceFileView> {
    Seq::new(files.len(), |i: int| files[i]@)
}

/// Why a file gave no record.
#[derive(Debug)]
pub enum IngestFault {
    /// The file could not be read.
    Unreadable(String),
    /// The file's text is no valid document: the caller's decoder of the
    /// relaxed syntax refused it, or it is no strict JSON object.
    Parse(String),
    /// The document is valid but cannot be a record.
    Structure(RecordFault),
}

/// An `IngestFault` as contracts speak of it.
pub enum IngestFaultView {
    Unreadable(Seq<char>),
    Parse(Seq<char>),
    Structure(RecordFault),
}

impl View for IngestFault {
    type V = IngestFaultView;

    open spec fn view(&self) -> IngestFaultView {
        match *self {
            IngestFault::Unreadable(reason) => IngestFaultView::Unreadable(reason@),
            IngestFault::Parse(reason) => IngestFaultView::Parse(reason@),
            IngestFault::Structure(fault) => IngestFaultView::Structure(fault),
        }
    }
}

/// One file that gave no record, with the reason.
#[derive(Debug)]
pub struct IngestFailure {
    pub path: Vec<String>,
    pub fault: IngestFault,
}

/// An `IngestFailure` as contracts speak of it.
pub struct IngestFailureView {
    pub path: Seq<Seq<char>>,
    pub fault: IngestFaultView,
}

impl View for IngestFailure {
    type V = IngestFailureView;

    open spec fn view(&self) -> IngestFailureView {
        IngestFailureView { path: path_view(self.path@), fault: self.fault@ }
    }
}

/// The failures as contracts speak of them.
pub open spec fn ingest_failures_view(failures: Seq<IngestFailure>) -> Seq<IngestFailureView> {
    Seq::new(failures.len(), |i: int| failures[i]@)
}

/// What became of one file.
#[derive(Debug)]
pub enum FileOutcome {
    /// The file is in neither format and was passed over.
    Skipped,
    /// The file gave a record.
    Loaded(Record),
    /// The file should have given a record and did not.
    Failed(IngestFailure),
}

/// A `FileOutcome` as contracts speak of it.
pub enum FileOutcomeView {
    Skipped,
    Loaded(RecordView),
    Failed(IngestFailureView),
}

impl View for FileOutcome {
    type V = FileOutcomeView;

    open spec fn view(&self) -> FileOutcomeView {
        match *self {
            FileOutcome::Skipped => FileOutcomeView::Skipped,
            FileOutcome::Loaded(record) => FileOutcomeView::Loaded(record@),
            FileOutcome::Failed(failure) => FileOutcomeView::Failed(failure@),
        }
    }
}

/// What becomes of a file once its text has been parsed: a record where the
/// document is well formed, else a failure under the file's path.
pub open spec fn outcome_after_parse(
    path: Seq<Seq<char>>,
    document: Result<Seq<(Seq<char>, serde_json::Value)>, Seq<char>>,
) -> FileOutcomeView {
    match document {
        Err(reason) => FileOutcomeView::Failed(
            IngestFailureView { path, fault: IngestFaultView::Parse(reason) },
        ),
        Ok(entries) => match record_of(path, entries) {
            Ok(record) => FileOutcomeView::Loaded(record),
            Err(e) => FileOutcomeView::Failed(
                IngestFailureView { path, fault: IngestFaultView::Structure(e.fault) },
            ),
        },
    }
}

/// What becomes of a file: passed over where its name announces neither
/// format; failed with the caller's fault where it comes without a text;
/// failed where its text is no strict JSON object or its document is
/// malformed; else loaded.
pub open spec fn outcome_of(file: SourceFileView) -> FileOutcomeView {
    if file.path.len() == 0 {
        FileOutcomeView::Skipped
    } else {
        match format_of_name(file.path.last()) {
            None => FileOutcomeView::Skipped,
            Some(_) => match file.contents {
                Err(fault) => FileOutcomeView::Failed(IngestFailureView { path: file.path, fault }),
                Ok(text) => outcome_after_parse(file.path, strict_document(text)),
            },
        }
    }
}

/// The record that a file gives, if it gives one.
pub open spec fn record_in(file: SourceFileView) -> Option<RecordView> {
    match outcome_of(file) {
        FileOutcomeView::Loaded(record) => Some(record),
        _ => None,
    }
}

/// The failure that a file gives, if it gives one.
pub open spec fn failure_in(file: SourceFileView) -> Option<IngestFailureView> {
    match outcome_of(file) {
        FileOutcomeView::Failed(failure) => Some(failure),
        _ => None,
    }
}

/// The rule by which records are picked out of the files.
pub open spec fn record_pick() -> spec_fn(SourceFileView) -> Option<RecordView> {
    |file: SourceFileView| record_in(file)
}

/// The rule by which failures are picked out of the files.
pub open spec fn failure_pick() -> spec_fn(SourceFileView) -> Option<IngestFailureView> {
    |file: SourceFileView| failure_in(file)
}

/// The records that the files give, in the order of the files.
pub open spec fn loaded(files: Seq<SourceFileView>) -> Seq<RecordView> {
    picked(files, record_pick())
}

/// The failures that the files give, in the order of the files.
pub open spec fn failed(files: Seq<SourceFileView>) -> Seq<IngestFailureView> {
    picked(files, failure_pick())
}

/// What ingestion returns for the files: all the records where no file
/// failed, else all the failures.
pub open spec fn ingestion_of(files: Seq<SourceFileView>) -> Result<
    Seq<RecordView>,
    Seq<IngestFailureView>,
> {
    if failed(files).len() == 0 {
        Ok(loaded(files))
    } else {
        Err(failed(files))
    }
}

/// What ingestion returned, as contracts speak of it.
pub open spec fn ingestion_view(r: Result<Vec<Record>, Vec<IngestFailure>>) -> Result<
    Seq<RecordView>,
    Seq<IngestFailureView>,
> {
    match r {
        Ok(records) => Ok(records_view(records@)),
        Err(failures) => Err(ingest_failures_view(failures@)),
    }
}

/// Tells the format of a file by the extension of its name.
pub fn format_of(name: &str) -> (format: Option<Format>)
    ensures
        format == format_of_name(name@),
{
    let ext = extension_of(name);
    if ext == String::from_str("json") {
        Some(Format::Strict)
    } else if ext == String::from_str("hjson") {
        Some(Format::Relaxed)
    } else {
        None
    }
}

/// Copies a path, component by component.
pub fn clone_path(path: &Vec<String>) -> (copy: Vec<String>)
    ensures
        path_view(copy@) == path_view(path@),
{
    let mut copy: Vec<String> = Vec::new();
    let mut i: usize = 0;
    while i < path.len()
        invariant
            i <= path.len(),
            path_view(copy@) == path_view(path@).take(i as int),
        decreases path.len() - i,
    {
        proof {
            lemma_path_view_push(copy@, path@[i as int]);
            assert(path_view(path@).take(i + 1) =~= path_view(path@).take(i as int).push(
                path@[i as int]@,
            ));
        }
        copy.push(path[i].clone());
        i += 1;
    }
    proof {
        assert(path_view(path@).take(path@.len() as int) =~= path_view(path@));
    }
    copy
}

impl IngestFault {
    /// Copies the fault.
    pub fn duplicate(&self) -> (copy: IngestFault)
        ensures
            copy@ == self@,
    {
        match self {
            IngestFault::Unreadable(reason) => IngestFault::Unreadable(reason.clone()),
            IngestFault::Parse(reason) => IngestFault::Parse(reason.clone()),
            IngestFault::Structure(fault) => IngestFault::Structure(*fault),
        }
    }
}

/// Decides what becomes of a file once its text has been parsed.
pub fn ingest_parsed(
    path: Vec<String>,
    document: Result<Vec<(String, serde_json::Value)>, String>,
) -> (outcome: FileOutcome)
    ensures
        outcome@ == outcome_after_parse(path_view(path@), parse_view(document)),
        outcome matches FileOutcome::Loaded(record) ==> record.well_formed(),
{
    match document {
        Err(reason) => FileOutcome::Failed(IngestFailure { path, fault: IngestFault::Parse(reason) }),
        Ok(entries) => match Record::new(path, entries) {
            Ok(record) => FileOutcome::Loaded(record),
            Err(e) => FileOutcome::Failed(
                IngestFailure { path: e.origin, fault: IngestFault::Structure(e.fault) },
            ),
        },
    }
}

/// Ingests one file: passes it over where its name announces neither
/// format, else parses its text as strict JSON and validates the document.
pub fn ingest_file(file: &SourceFile) -> (outcome: FileOutcome)
    ensures
        outcome@ == outcome_of(file@),
        outcome matches FileOutcome::Loaded(record) ==> record.well_formed(),
{
    if file.path.len() == 0 {
        return FileOutcome::Skipped;
    }
    let last: usize = file.path.len() - 1;
    proof {
        assert(path_view(file.path@).last() == file.path@[last as int]@);
    }
    match format_of(file.path[last].as_str()) {
        None => FileOutcome::Skipped,
        Some(_) => {
            let path = clone_path(&file.path);
            match &file.contents {
                Err(fault) => FileOutcome::Failed(IngestFailure { path, fault: fault.duplicate() }),
                Ok(text) => ingest_parsed(path, parse_strict(text.as_str())),
            }
        },
    }
}

/// Ingests every file, whatever becomes of the others, and returns all the
/// records where no file failed, else all the failures. Files in neither
/// format count for nothing.
pub fn deserialize_sources(files: &Vec<SourceFile>) -> (r: Result<Vec<Record>, Vec<IngestFailure>>)
    ensures
        ingestion_view(r) == ingestion_of(files_view(files@)),
        r matches Ok(records) ==> forall|i: int|
            0 <= i < records@.len() ==> (#[trigger] records@[i]).well_formed(),
{
    let mut records: Vec<Record> = Vec::new();
    let mut failures: Vec<IngestFailure> = Vec::new();
    let mut i: usize = 0;
    while i < files.len()
        invariant
            i <= files.len(),
            records_view(records@) == loaded(files_view(files@).take(i as int)),
            ingest_failures_view(failures@) == failed(files_view(files@).take(i as int)),
            forall|k: int| 0 <= k < records@.len() ==> (#[trigger] records@[k]).well_formed(),
        decreases files.len() - i,
    {
        proof {
            lemma_picked_take(files_view(files@), i as int, record_pick());
            lemma_picked_take(files_view(files@), i as int, failure_pick());
        }
        let ghost records_before = records_view(records@);
        let ghost failures_before = ingest_failures_view(failures@);
        match ingest_file(&files[i]) {
            FileOutcome::Skipped => {},
            FileOutcome::Loaded(record) => {
                records.push(record);
                proof {
                    assert(records_view(records@) =~= records_before.push(record@));
                }
            },
            FileOutcome::Failed(failure) => {
                failures.push(failure);
                proof {
                    assert(ingest_failures_view(failures@) =~= failures_before.push(failure@));
                }
            },
        }
        i += 1;
    }
    proof {
        assert(files_view(files@).take(files@.len() as int) =~= files_view(files@));
    }
    if failures.len() == 0 {
        Ok(records)
    } else {
        Err(failures)
    }
}

impl IngestFailure {
    /// The path of the file and the reason, for a diagnostic.
    pub fn describe(&self) -> (out: String)
        ensures
            out@ == joined(self@.path, "/"@) + ": "@ + match self@.fault {
                IngestFaultView::Unreadable(reason) => "cannot read: "@ + reason,
                IngestFaultView::Parse(reason) => "cannot parse: "@ + reason,
                IngestFaultView::Structure(RecordFault::NoTopLevelKey) => "no top-level key"@,
                IngestFaultView::Structure(RecordFault::MultipleTopLevelKeys) =>
                    "multiple top-level keys"@,
                IngestFaultView::Structure(RecordFault::RootNotList) => "root is not a list"@,
            },
    {
        let mut out = join(&self.path, "/");
        out.append(": ");
        match &self.fault {
            IngestFault::Unreadable(reason) => {
                out.append("cannot read: ");
                out.append(reason.as_str());
                proof {
                    assert(joined(self@.path, "/"@) + ": "@ + "cannot read: "@ + reason@ =~= joined(
                        self@.path,
                        "/"@,
                    ) + ": "@ + ("cannot read: "@ + reason@));
                }
            },
            IngestFault::Parse(reason) => {
                out.append("cannot parse: ");
                out.append(reason.as_str());
                proof {
                    assert(joined(self@.path, "/"@) + ": "@ + "cannot parse: "@ + reason@
                        =~= joined(self@.path, "/"@) + ": "@ + ("cannot parse: "@ + reason@));
                }
            },
            IngestFault::Structure(fault) => {
                let words = fault.describe();
                out.append(words.as_str());
            },
        }
        out
    }
}

/// Ingestion does not depend on the order in which the files are found:
/// two walks that find the same files give the same records and the same
/// failures, each as often, and succeed or fail together.
pub proof fn law_ingestion_ignores_order(a: Seq<SourceFileView>, b: Seq<SourceFileView>)
    requires
        a.to_multiset() == b.to_multiset(),
    ensures
        loaded(a).to_multiset() == loaded(b).to_multiset(),
        failed(a).to_multiset() == failed(b).to_multiset(),
        ingestion_of(a) is Ok <==> ingestion_of(b) is Ok,
        ingestion_of(a) matches Ok(left) ==> ingestion_of(b) matches Ok(right)
            && left.to_multiset() == right.to_multiset(),
        ingestion_of(a) matches Err(left) ==> ingestion_of(b) matches Err(right)
            && left.to_multiset() == right.to_multiset(),
{
    lemma_picked_reordered(a, b, record_pick());
    lemma_picked_reordered(a, b, failure_pick());
    failed(a).to_multiset_ensures();
    failed(b).to_multiset_ensures();
}

/// Every record that ingestion loads has exactly one top-level key, its
/// declared type, over a list of as many elements as its metadata counts.
pub proof fn law_loaded_record_is_consistent(file: SourceFileView)
    requires
        outcome_of(file) is Loaded,
    ensures
        outcome_of(file)->Loaded_0.consistent(),
        outcome_of(file)->Loaded_0.meta.source_path == file.path,
{
}

} // verus!
