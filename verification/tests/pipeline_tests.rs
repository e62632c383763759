use laidlaw::pipeline::{execute_pipeline, StageFailure};
use laidlaw::record::Record;
use serde_json::Value;
use std::cell::Cell;
use std::rc::Rc;

type Stage = Box<dyn Fn(Vec<Record>) -> Result<Vec<Record>, String>>;

fn path(parts: &[&str]) -> Vec<String> {
    parts.iter().map(|p| p.to_string()).collect()
}

fn record(name: &str, key: &str, list: &str) -> Record {
    let value: Value = serde_json::from_str(list).unwrap();
    Record::new(path(&["a", name]), vec![(key.to_string(), value)]).unwrap()
}

fn sample() -> Vec<Record> {
    vec![
        record("b.json", "things", "[{\"id\":1}]"),
        record("c.hjson", "things", "[]"),
        record("d.json", "cards", "[1,2,3]"),
    ]
}

fn names(records: &[Record]) -> Vec<String> {
    records.iter().map(|r| r.meta.source_path.join("/")).collect()
}

fn keep(data: Vec<Record>) -> Result<Vec<Record>, String> {
    Ok(data)
}

fn drop_empty(data: Vec<Record>) -> Result<Vec<Record>, String> {
    Ok(data.into_iter().filter(|r| r.meta.elements > 0).collect())
}

fn twice(data: Vec<Record>) -> Result<Vec<Record>, String> {
    let mut out = Vec::new();
    for r in data {
        let copy = Record { meta: r.meta.clone(), content: r.content.clone() };
        out.push(r);
        out.push(copy);
    }
    Ok(out)
}

fn fail(reason: &str) -> Stage {
    let reason = reason.to_string();
    Box::new(move |_| Err(reason.clone()))
}

fn counting(calls: Rc<Cell<usize>>) -> Stage {
    Box::new(move |data| {
        calls.set(calls.get() + 1);
        Ok(data)
    })
}

#[test]
fn pipeline_without_stages_returns_its_input() {
    let stages: Vec<Stage> = Vec::new();
    let out = execute_pipeline(sample(), &stages).unwrap();
    let expected = sample();
    assert_eq!(out.len(), 3);
    for (got, want) in out.iter().zip(expected.iter()) {
        assert_eq!(got.meta.source_path, want.meta.source_path);
        assert_eq!(got.meta.soft_type, want.meta.soft_type);
        assert_eq!(got.meta.elements, want.meta.elements);
        assert_eq!(got.content, want.content);
    }
    let none = execute_pipeline(Vec::new(), &stages).unwrap();
    assert!(none.is_empty());
}

#[test]
fn a_stage_that_keeps_everything_changes_nothing() {
    let stages: Vec<Stage> = vec![Box::new(keep), Box::new(keep)];
    let out = execute_pipeline(sample(), &stages).unwrap();
    assert_eq!(names(&out), names(&sample()));
}

#[test]
fn two_stages_run_one_after_the_other() {
    let stages: Vec<Stage> = vec![Box::new(drop_empty), Box::new(twice)];
    let piped = execute_pipeline(sample(), &stages).unwrap();
    let by_hand = twice(drop_empty(sample()).unwrap()).unwrap();
    assert_eq!(names(&piped), names(&by_hand));
    assert_eq!(names(&piped), vec!["a/b.json", "a/b.json", "a/d.json", "a/d.json"]);
}

#[test]
fn the_order_of_the_stages_counts() {
    let stages: Vec<Stage> = vec![Box::new(twice), Box::new(drop_empty), Box::new(twice)];
    let out = execute_pipeline(sample(), &stages).unwrap();
    assert_eq!(out.len(), 8);
    assert!(out.iter().all(|r| r.meta.elements > 0));
}

#[test]
fn a_failing_stage_ends_the_run() {
    let before = Rc::new(Cell::new(0));
    let after = Rc::new(Cell::new(0));
    let stages = vec![counting(before.clone()), fail("no such card"), counting(after.clone())];
    let failure = execute_pipeline(sample(), &stages).unwrap_err();
    assert_eq!(failure.index, 2);
    assert_eq!(failure.total, 3);
    assert_eq!(failure.reason, "no such card");
    assert_eq!(failure.describe(), "stage 2 of 3 failed: no such card");
    assert_eq!(before.get(), 1);
    assert_eq!(after.get(), 0);
}

#[test]
fn the_first_stage_may_fail() {
    let failure = execute_pipeline(sample(), &vec![fail("early")]).unwrap_err();
    assert_eq!((failure.index, failure.total), (1, 1));
    assert_eq!(failure.describe(), "stage 1 of 1 failed: early");
}

#[test]
fn stage_failure_is_put_in_words() {
    let failure = StageFailure { index: 12, total: 100, reason: "duplicate id".to_string() };
    assert_eq!(failure.describe(), "stage 12 of 100 failed: duplicate id");
}
