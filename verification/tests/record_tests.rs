use laidlaw::record::{Record, RecordFault, RecordMeta};
use serde_json::Value;

fn path(parts: &[&str]) -> Vec<String> {
    parts.iter().map(|p| p.to_string()).collect()
}

fn value(text: &str) -> Value {
    serde_json::from_str(text).unwrap()
}

fn entry(key: &str, text: &str) -> (String, Value) {
    (key.to_string(), value(text))
}

#[test]
fn meta_of_a_document_with_one_list() {
    let data = vec![entry("things", "[{\"id\":1},{\"id\":2}]")];
    let meta = RecordMeta::new(path(&["a", "b.json"]), &data).unwrap();
    assert_eq!(meta.soft_type, "things");
    assert_eq!(meta.elements, 2);
    assert_eq!(meta.source_path, path(&["a", "b.json"]));
}

#[test]
fn meta_counts_the_elements_of_the_list() {
    let empty = vec![entry("cards", "[]")];
    assert_eq!(RecordMeta::new(path(&["x.json"]), &empty).unwrap().elements, 0);
    let three = vec![entry("cards", "[1, \"two\", [3, 4, 5, 6]]")];
    assert_eq!(RecordMeta::new(path(&["x.json"]), &three).unwrap().elements, 3);
}

#[test]
fn document_without_a_key_is_refused() {
    let data: Vec<(String, Value)> = Vec::new();
    let e = RecordMeta::new(path(&["a", "empty.json"]), &data).unwrap_err();
    assert_eq!(e.fault, RecordFault::NoTopLevelKey);
    assert_eq!(e.origin, path(&["a", "empty.json"]));
    assert_eq!(e.describe(), "a/empty.json: no top-level key");
}

#[test]
fn document_with_two_keys_is_refused() {
    let data = vec![entry("things", "[1]"), entry("others", "[2]")];
    let e = RecordMeta::new(path(&["two.json"]), &data).unwrap_err();
    assert_eq!(e.fault, RecordFault::MultipleTopLevelKeys);
    assert_eq!(e.origin, path(&["two.json"]));
    assert_eq!(e.describe(), "two.json: multiple top-level keys");
}

#[test]
fn document_whose_root_is_no_list_is_refused() {
    for text in ["{\"id\":1}", "3", "\"text\"", "null", "true"] {
        let data = vec![entry("things", text)];
        let e = RecordMeta::new(path(&["a", "b", "c.hjson"]), &data).unwrap_err();
        assert_eq!(e.fault, RecordFault::RootNotList);
        assert_eq!(e.describe(), "a/b/c.hjson: root is not a list");
    }
}

#[test]
fn the_three_faults_differ() {
    assert_ne!(RecordFault::NoTopLevelKey, RecordFault::MultipleTopLevelKeys);
    assert_ne!(RecordFault::NoTopLevelKey, RecordFault::RootNotList);
    assert_ne!(RecordFault::MultipleTopLevelKeys, RecordFault::RootNotList);
    assert_eq!(RecordFault::NoTopLevelKey.describe(), "no top-level key");
    assert_eq!(RecordFault::MultipleTopLevelKeys.describe(), "multiple top-level keys");
    assert_eq!(RecordFault::RootNotList.describe(), "root is not a list");
}

#[test]
fn record_keeps_the_content_it_was_made_of() {
    let content = vec![entry("things", "[{\"id\":1}]")];
    let record = Record::new(path(&["a", "b.json"]), content.clone()).unwrap();
    assert_eq!(record.content, content);
    assert_eq!(record.content.len(), 1);
    assert_eq!(record.content[0].0, record.meta.soft_type);
    assert_eq!(record.meta.elements, record.content[0].1.as_array().unwrap().len());
}

#[test]
fn record_is_refused_as_its_metadata_is() {
    let none = Record::new(path(&["n.json"]), Vec::new()).unwrap_err();
    assert_eq!(none.fault, RecordFault::NoTopLevelKey);
    let two = Record::new(path(&["t.json"]), vec![entry("a", "[]"), entry("b", "[]")]).unwrap_err();
    assert_eq!(two.fault, RecordFault::MultipleTopLevelKeys);
    let scalar = Record::new(path(&["s.json"]), vec![entry("a", "{}")]).unwrap_err();
    assert_eq!(scalar.fault, RecordFault::RootNotList);
    assert_eq!(scalar.origin, path(&["s.json"]));
}

#[test]
fn metadata_describes_itself() {
    let data = vec![entry("elements", "[]")];
    let meta = RecordMeta::new(path(&[".", "src", "content", "card", "edge.hjson"]), &data).unwrap();
    assert_eq!(
        meta.describe(),
        "RecordMeta{path: './src/content/card/edge.hjson', type: 'elements'}"
    );
}
