use laidlaw::ingest::{
    clone_path, deserialize_sources, format_of, ingest_file, ingest_parsed, FileOutcome, Format,
    IngestFailure, IngestFault, SourceFile,
};
use laidlaw::record::RecordFault;
use serde_json::Value;

fn path(parts: &[&str]) -> Vec<String> {
    parts.iter().map(|p| p.to_string()).collect()
}

fn contents(parts: &[&str], text: &str) -> Result<String, IngestFault> {
    if parts.last().map_or(false, |name| name.ends_with(".hjson")) {
        let document = deser_hjson::from_str::<serde_json::Map<String, Value>>(text)
            .map_err(|e| IngestFault::Parse(e.to_string()))?;
        serde_json::to_string(&document).map_err(|e| IngestFault::Parse(e.to_string()))
    } else {
        Ok(text.to_string())
    }
}

fn file(parts: &[&str], text: &str) -> SourceFile {
    SourceFile { path: path(parts), contents: contents(parts, text) }
}

fn value(text: &str) -> Value {
    serde_json::from_str(text).unwrap()
}

const RELAXED: &str = "{\n  # the second thing\n  things: [\n    {\n      id: 2\n    }\n  ]\n}\n";

#[test]
fn format_follows_the_extension() {
    assert_eq!(format_of("b.json"), Some(Format::Strict));
    assert_eq!(format_of("c.hjson"), Some(Format::Relaxed));
    assert_eq!(format_of("a.b.hjson"), Some(Format::Relaxed));
    assert_eq!(format_of("notes.txt"), None);
    assert_eq!(format_of("json"), None);
    assert_eq!(format_of(".json"), None);
    assert_eq!(format_of("b.JSON"), None);
    assert_eq!(format_of("b.json.bak"), None);
    assert_eq!(format_of(""), None);
}

#[test]
fn strict_file_is_loaded() {
    match ingest_file(&file(&["a", "b.json"], "{\"things\":[{\"id\":1}]}")) {
        FileOutcome::Loaded(record) => {
            assert_eq!(record.meta.soft_type, "things");
            assert_eq!(record.meta.elements, 1);
            assert_eq!(record.meta.source_path, path(&["a", "b.json"]));
            assert_eq!(record.content, vec![("things".to_string(), value("[{\"id\":1}]"))]);
        }
        other => panic!("not loaded: {:?}", other),
    }
}

#[test]
fn relaxed_file_is_loaded_in_the_same_shape() {
    match ingest_file(&file(&["a", "c.hjson"], RELAXED)) {
        FileOutcome::Loaded(record) => {
            assert_eq!(record.meta.soft_type, "things");
            assert_eq!(record.meta.elements, 1);
            assert_eq!(record.content, vec![("things".to_string(), value("[{\"id\":2}]"))]);
        }
        other => panic!("not loaded: {:?}", other),
    }
}

#[test]
fn relaxed_syntax_is_no_strict_json() {
    match ingest_file(&file(&["a", "c.json"], RELAXED)) {
        FileOutcome::Failed(IngestFailure { path: p, fault: IngestFault::Parse(reason) }) => {
            assert_eq!(p, path(&["a", "c.json"]));
            assert!(!reason.is_empty());
        }
        other => panic!("not a parse failure: {:?}", other),
    }
}

#[test]
fn other_files_are_passed_over() {
    assert!(matches!(ingest_file(&file(&["a", "notes.txt"], "{{{{")), FileOutcome::Skipped));
    assert!(matches!(ingest_file(&file(&["a", "README"], "")), FileOutcome::Skipped));
    assert!(matches!(ingest_file(&file(&[], "{\"a\":[]}")), FileOutcome::Skipped));
    let unread = SourceFile { path: path(&["x.png"]), contents: Err(IngestFault::Unreadable("denied".to_string())) };
    assert!(matches!(ingest_file(&unread), FileOutcome::Skipped));
}

#[test]
fn unreadable_file_fails() {
    let unread = SourceFile { path: path(&["a", "x.json"]), contents: Err(IngestFault::Unreadable("denied".to_string())) };
    match ingest_file(&unread) {
        FileOutcome::Failed(failure) => {
            assert_eq!(failure.path, path(&["a", "x.json"]));
            assert!(matches!(&failure.fault, IngestFault::Unreadable(r) if r == "denied"));
            assert_eq!(failure.describe(), "a/x.json: cannot read: denied");
        }
        other => panic!("not failed: {:?}", other),
    }
}

#[test]
fn malformed_documents_fail_with_their_fault() {
    let cases = [
        ("{}", RecordFault::NoTopLevelKey, "a/m.json: no top-level key"),
        ("{\"a\":[],\"b\":[]}", RecordFault::MultipleTopLevelKeys, "a/m.json: multiple top-level keys"),
        ("{\"a\":{\"b\":[]}}", RecordFault::RootNotList, "a/m.json: root is not a list"),
    ];
    for (text, fault, words) in cases {
        match ingest_file(&file(&["a", "m.json"], text)) {
            FileOutcome::Failed(failure) => {
                assert!(matches!(&failure.fault, IngestFault::Structure(f) if *f == fault));
                assert_eq!(failure.describe(), words);
            }
            other => panic!("not failed: {:?}", other),
        }
    }
}

#[test]
fn a_document_that_is_no_object_fails_to_parse() {
    for text in ["[1,2]", "", "{\"a\":", "nonsense"] {
        let outcome = ingest_file(&file(&["a", "m.json"], text));
        assert!(matches!(
            outcome,
            FileOutcome::Failed(IngestFailure { fault: IngestFault::Parse(_), .. })
        ));
    }
}

#[test]
fn parsed_document_decides_the_outcome() {
    let loaded = ingest_parsed(path(&["p.json"]), Ok(vec![("k".to_string(), value("[1,2]"))]));
    assert!(matches!(&loaded, FileOutcome::Loaded(r) if r.meta.elements == 2 && r.meta.soft_type == "k"));
    let failed = ingest_parsed(path(&["p.json"]), Err("line 1".to_string()));
    match failed {
        FileOutcome::Failed(failure) => {
            assert_eq!(failure.describe(), "p.json: cannot parse: line 1");
        }
        other => panic!("not failed: {:?}", other),
    }
    let refused = ingest_parsed(path(&["p.json"]), Ok(Vec::new()));
    assert!(matches!(
        refused,
        FileOutcome::Failed(IngestFailure {
            fault: IngestFault::Structure(RecordFault::NoTopLevelKey),
            ..
        })
    ));
}

#[test]
fn all_files_loaded_gives_all_records() {
    let files = vec![
        file(&["a", "b.json"], "{\"things\":[{\"id\":1}]}"),
        file(&["a", "notes.txt"], "not read"),
        file(&["a", "c.hjson"], RELAXED),
    ];
    let records = deserialize_sources(&files).unwrap();
    assert_eq!(records.len(), 2);
    assert_eq!(records[0].meta.source_path, path(&["a", "b.json"]));
    assert_eq!(records[1].meta.source_path, path(&["a", "c.hjson"]));
    assert_eq!(records[1].content, vec![("things".to_string(), value("[{\"id\":2}]"))]);
}

#[test]
fn no_file_gives_no_record() {
    assert!(deserialize_sources(&Vec::new()).unwrap().is_empty());
    assert!(deserialize_sources(&vec![file(&["x.txt"], "")]).unwrap().is_empty());
}

#[test]
fn every_failure_is_reported_and_the_run_fails() {
    let files = vec![
        file(&["a", "good.json"], "{\"things\":[]}"),
        file(&["a", "bad.json"], "{\"things\":"),
        file(&["b", "worse.hjson"], "{ a: [], b: [] }"),
        file(&["b", "fine.hjson"], "{ a: [] }"),
    ];
    let failures = deserialize_sources(&files).unwrap_err();
    assert_eq!(failures.len(), 2);
    assert_eq!(failures[0].path, path(&["a", "bad.json"]));
    assert!(matches!(failures[0].fault, IngestFault::Parse(_)));
    assert_eq!(failures[1].path, path(&["b", "worse.hjson"]));
    assert!(matches!(
        failures[1].fault,
        IngestFault::Structure(RecordFault::MultipleTopLevelKeys)
    ));
}

#[test]
fn the_order_of_the_walk_does_not_change_the_records() {
    let texts = [
        (["a", "b.json"], "{\"things\":[{\"id\":1}]}"),
        (["a", "c.hjson"], RELAXED),
        (["z", "d.json"], "{\"cards\":[1,2,3]}"),
        (["z", "e.txt"], "skip me"),
    ];
    let orders: [[usize; 4]; 4] = [[0, 1, 2, 3], [3, 2, 1, 0], [1, 3, 0, 2], [2, 0, 3, 1]];
    let mut seen: Vec<Vec<(Vec<String>, String, usize, Vec<(String, Value)>)>> = Vec::new();
    for order in orders {
        let files: Vec<SourceFile> = order.iter().map(|&i| file(&texts[i].0, texts[i].1)).collect();
        let mut records: Vec<_> = deserialize_sources(&files)
            .unwrap()
            .into_iter()
            .map(|r| (r.meta.source_path, r.meta.soft_type, r.meta.elements, r.content))
            .collect();
        records.sort_by(|l, r| l.0.cmp(&r.0));
        seen.push(records);
    }
    assert_eq!(seen[0].len(), 3);
    for other in &seen[1..] {
        assert_eq!(&seen[0], other);
    }
}

#[test]
fn the_order_of_the_walk_does_not_change_the_failures() {
    let one = vec![file(&["a.json"], "{}"), file(&["b.json"], "{\"k\":[]}"), file(&["c.json"], "[")];
    let two = vec![file(&["c.json"], "["), file(&["a.json"], "{}"), file(&["b.json"], "{\"k\":[]}")];
    let mut left: Vec<String> = deserialize_sources(&one).unwrap_err().iter().map(|f| f.describe()).collect();
    let mut right: Vec<String> = deserialize_sources(&two).unwrap_err().iter().map(|f| f.describe()).collect();
    left.sort();
    right.sort();
    assert_eq!(left.len(), 2);
    assert_eq!(left, right);
}

#[test]
fn path_is_copied_whole() {
    assert_eq!(clone_path(&path(&["a", "b", "c.json"])), path(&["a", "b", "c.json"]));
    assert!(clone_path(&path(&[])).is_empty());
}

#[test]
fn relaxed_text_that_was_not_decoded_fails_to_parse() {
    let raw = SourceFile { path: path(&["a", "c.hjson"]), contents: Ok(RELAXED.to_string()) };
    match ingest_file(&raw) {
        FileOutcome::Failed(failure) => {
            assert_eq!(failure.path, path(&["a", "c.hjson"]));
            assert!(matches!(failure.fault, IngestFault::Parse(_)));
        }
        other => panic!("not failed: {:?}", other),
    }
    assert_eq!(deserialize_sources(&vec![raw]).unwrap_err().len(), 1);
}

#[test]
fn the_fault_that_the_caller_found_is_reported_as_it_is() {
    let refused = SourceFile {
        path: path(&["a", "c.hjson"]),
        contents: Err(IngestFault::Parse("line 3".to_string())),
    };
    match ingest_file(&refused) {
        FileOutcome::Failed(failure) => {
            assert_eq!(failure.describe(), "a/c.hjson: cannot parse: line 3");
        }
        other => panic!("not failed: {:?}", other),
    }
    let broken = file(&["a", "d.hjson"], "{ things: [ ");
    assert!(matches!(broken.contents, Err(IngestFault::Parse(_))));
    assert!(matches!(ingest_file(&broken), FileOutcome::Failed(_)));
}

#[test]
fn fault_is_copied_whole() {
    let faults = [
        IngestFault::Unreadable("denied".to_string()),
        IngestFault::Parse("line 1".to_string()),
        IngestFault::Structure(RecordFault::RootNotList),
    ];
    for fault in faults {
        let copy = fault.duplicate();
        let left = IngestFailure { path: path(&["f.json"]), fault };
        let right = IngestFailure { path: path(&["f.json"]), fault: copy };
        assert_eq!(left.describe(), right.describe());
    }
}
