//! The record: one source document with what was learned of it at ingestion.

use vstd::prelude::*;
use vstd::string::*;
use crate::json::{entries_view, json_array_len};
use crate::text::{join, joined, path_view};

verus! {

/// Why a document cannot be a record.
#[derive(Clone, Copy, Debug, PartialEq, Eq, Structural)]
pub enum RecordFault {
    /// The document has no top-level key.
    NoTopLevelKey,
    /// The document has two or more top-level keys.
    MultipleTopLevelKeys,
    /// The value under the one top-level key is no list.
    RootNotList,
}

/// A refused document: the file it came from, and why.
#[derive(Debug)]
pub struct RecordError {
    pub origin: Vec<String>,
    pub fault: RecordFault,
}

/// A `RecordError` as contracts speak of it.
pub struct RecordErrorView {
    pub origin: Seq<Seq<char>>,
    pub fault: RecordFault,
}

impl View for RecordError {
    type V = RecordErrorView;

    open spec fn view(&self) -> RecordErrorView {
        RecordErrorView { origin: path_view(self.origin@), fault: self.fault }
    }
}

/// What ingestion learned of a source file.
#[derive(Clone, Debug)]
pub struct RecordMeta {
    /// The components of the source file's path, as it was walked.
    pub source_path: Vec<String>,
    /// The declared type of the file: its one top-level key.
    pub soft_type: String,
    /// The number of elements in the list under that key.
    pub elements: usize,
}

/// A `RecordMeta` as contracts speak of it.
pub struct RecordMetaView {
    pub source_path: Seq<Seq<char>>,
    pub soft_type: Seq<char>,
    pub elements: nat,
}

impl View for RecordMeta {
    type V = RecordMetaView;

    open spec fn view(&self) -> RecordMetaView {
        RecordMetaView {
            source_path: path_view(self.source_path@),
            soft_type: self.soft_type@,
            elements: self.elements as nat,
        }
    }
}

/// One compiled unit: a document and its metadata.
#[derive(Debug)]
pub struct Record {
    pub meta: RecordMeta,
    /// The top-level entries of the document.
    pub content: Vec<(String, serde_json::Value)>,
}

/// A `Record` as contracts speak of it.
pub struct RecordView {
    pub meta: RecordMetaView,
    pub content: Seq<(Seq<char>, serde_json::Value)>,
}

impl View for Record {
    type V = RecordView;

    open spec fn view(&self) -> RecordView {
        RecordView { meta: self.meta@, content: entries_view(self.content@) }
    }
}

/// A collection of records as contracts speak of it.
pub open spec fn records_view(records: Seq<Record>) -> Seq<RecordView> {
    Seq::new(records.len(), |i: int| records[i]@)
}

/// Whether no key occurs twice among the entries.
pub open spec fn distinct_keys(content: Seq<(Seq<char>, serde_json::Value)>) -> bool {
    forall|i: int, j: int| 0 <= i < j < content.len() ==> content[i].0 != content[j].0
}

impl RecordView {
    /// Whether the metadata and the content agree: the content has exactly
    /// one top-level key, which is the declared type, and under it a list of
    /// as many elements as the metadata counts.
    pub open spec fn consistent(&self) -> bool {
        &&& self.content.len() == 1
        &&& self.content[0].0 == self.meta.soft_type
        &&& json_array_len(self.content[0].1) == Some(self.meta.elements)
    }
}

/// Why a document with these top-level entries is refused, if it is.
pub open spec fn fault_of(content: Seq<(Seq<char>, serde_json::Value)>) -> Option<RecordFault> {
    if content.len() == 0 {
        Some(RecordFault::NoTopLevelKey)
    } else if content.len() >= 2 {
        Some(RecordFault::MultipleTopLevelKeys)
    } else if json_array_len(content[0].1) is None {
        Some(RecordFault::RootNotList)
    } else {
        None
    }
}

/// The metadata of a document, or the reason for which it has none.
pub open spec fn meta_of(
    origin: Seq<Seq<char>>,
    content: Seq<(Seq<char>, serde_json::Value)>,
) -> Result<RecordMetaView, RecordErrorView> {
    match fault_of(content) {
        Some(fault) => Err(RecordErrorView { origin, fault }),
        None => Ok(
            RecordMetaView {
                source_path: origin,
                soft_type: content[0].0,
                elements: json_array_len(content[0].1)->0,
            },
        ),
    }
}

/// The record of a document, or the reason for which it has none.
pub open spec fn record_of(
    origin: Seq<Seq<char>>,
    content: Seq<(Seq<char>, serde_json::Value)>,
) -> Result<RecordView, RecordErrorView> {
    match meta_of(origin, content) {
        Ok(meta) => Ok(RecordView { meta, content }),
        Err(e) => Err(e),
    }
}

/// What construction returned, as contracts speak of it.
pub open spec fn meta_result_view(r: Result<RecordMeta, RecordError>) -> Result<
    RecordMetaView,
    RecordErrorView,
> {
    match r {
        Ok(meta) => Ok(meta@),
        Err(e) => Err(e@),
    }
}

/// What construction returned, as contracts speak of it.
pub open spec fn record_result_view(r: Result<Record, RecordError>) -> Result<
    RecordView,
    RecordErrorView,
> {
    match r {
        Ok(record) => Ok(record@),
        Err(e) => Err(e@),
    }
}

/// A document that is accepted has exactly one top-level key, which becomes
/// the declared type of its record, and under it a list whose length
/// becomes the count of elements.
pub proof fn law_accepted_record_is_consistent(
    origin: Seq<Seq<char>>,
    content: Seq<(Seq<char>, serde_json::Value)>,
)
    requires
        record_of(origin, content) is Ok,
    ensures
        record_of(origin, content)->Ok_0.consistent(),
        record_of(origin, content)->Ok_0.content == content,
        record_of(origin, content)->Ok_0.meta.source_path == origin,
{
}

/// A record whose metadata and content agree holds no key twice.
pub proof fn law_consistent_record_has_distinct_keys(record: RecordView)
    requires
        record.consistent(),
    ensures
        distinct_keys(record.content),
{
}

/// A document is refused exactly where it has no top-level key, or more
/// than one, or where the value under its one key is no list; each of the
/// three has a fault of its own, and the refusal names the file.
pub proof fn law_malformed_document_is_refused(
    origin: Seq<Seq<char>>,
    content: Seq<(Seq<char>, serde_json::Value)>,
)
    ensures
        content.len() == 0 <==> record_of(origin, content) == Err::<RecordView, RecordErrorView>(
            RecordErrorView { origin, fault: RecordFault::NoTopLevelKey },
        ),
        content.len() >= 2 <==> record_of(origin, content) == Err::<RecordView, RecordErrorView>(
            RecordErrorView { origin, fault: RecordFault::MultipleTopLevelKeys },
        ),
        content.len() == 1 && json_array_len(content[0].1) is None <==> record_of(origin, content)
            == Err::<RecordView, RecordErrorView>(
            RecordErrorView { origin, fault: RecordFault::RootNotList },
        ),
        record_of(origin, content) is Ok <==> content.len() == 1 && json_array_len(
            content[0].1,
        ) is Some,
{
}

impl RecordFault {
    /// The fault in words.
    pub fn describe(&self) -> (out: String)
        ensures
            out@ == match *self {
                RecordFault::NoTopLevelKey => "no top-level key"@,
                RecordFault::MultipleTopLevelKeys => "multiple top-level keys"@,
                RecordFault::RootNotList => "root is not a list"@,
            },
    {
        match self {
            RecordFault::NoTopLevelKey => String::from_str("no top-level key"),
            RecordFault::MultipleTopLevelKeys => String::from_str("multiple top-level keys"),
            RecordFault::RootNotList => String::from_str("root is not a list"),
        }
    }
}

impl RecordError {
    /// The offending file and the fault, for a diagnostic.
    pub fn describe(&self) -> (out: String)
        ensures
            out@ == joined(self@.origin, "/"@) + ": "@ + match self.fault {
                RecordFault::NoTopLevelKey => "no top-level key"@,
                RecordFault::MultipleTopLevelKeys => "multiple top-level keys"@,
                RecordFault::RootNotList => "root is not a list"@,
            },
    {
        let mut out = join(&self.origin, "/");
        out.append(": ");
        let fault = self.fault.describe();
        out.append(fault.as_str());
        out
    }
}

impl RecordMeta {
    /// Derives the metadata of a document from its top-level entries. The
    /// document must have exactly one top-level key, and a list under it.
    pub fn new(origin: Vec<String>, data: &Vec<(String, serde_json::Value)>) -> (r: Result<
        RecordMeta,
        RecordError,
    >)
        ensures
            meta_result_view(r) == meta_of(path_view(origin@), entries_view(data@)),
    {
        if data.len() == 0 {
            return Err(RecordError { origin, fault: RecordFault::NoTopLevelKey });
        }
        if data.len() >= 2 {
            return Err(RecordError { origin, fault: RecordFault::MultipleTopLevelKeys });
        }
        match data[0].1.as_array() {
            None => Err(RecordError { origin, fault: RecordFault::RootNotList }),
            Some(items) => Ok(
                RecordMeta {
                    source_path: origin,
                    soft_type: data[0].0.clone(),
                    elements: items.len(),
                },
            ),
        }
    }

    /// The declared type and the source path, for a diagnostic.
    pub fn describe(&self) -> (out: String)
        ensures
            out@ == "RecordMeta{path: '"@ + joined(self@.source_path, "/"@) + "', type: '"@
                + self@.soft_type + "'}"@,
    {
        let mut out = String::from_str("RecordMeta{path: '");
        let path = join(&self.source_path, "/");
        out.append(path.as_str());
        out.append("', type: '");
        out.append(self.soft_type.as_str());
        out.append("'}");
        out
    }
}

impl Record {
    /// Whether the metadata and the content agree: the content has exactly
    /// one top-level key, the declared type, over a list of as many elements
    /// as the metadata counts.
    pub open spec fn well_formed(&self) -> bool {
        self@.consistent()
    }

    /// Whether no top-level key occurs twice in the content. A well-formed
    /// record has one key; a record that a stage made may have any entries.
    pub open spec fn has_distinct_keys(&self) -> bool {
        distinct_keys(self@.content)
    }

    /// Makes the record of a document, or says why it is refused.
    pub fn new(origin: Vec<String>, content: Vec<(String, serde_json::Value)>) -> (r: Result<
        Record,
        RecordError,
    >)
        ensures
            record_result_view(r) == record_of(path_view(origin@), entries_view(content@)),
            r is Ok ==> r->Ok_0.well_formed(),
            r is Ok ==> r->Ok_0.has_distinct_keys(),
    {
        match RecordMeta::new(origin, &content) {
            Ok(meta) => Ok(Record { meta, content }),
            Err(e) => Err(e),
        }
    }
}

} // verus!
