use moon_task_builder::id_map::IdMap;
use moon_task_builder::merge::{merge_map, merge_vec, TaskMergeStrategy};

fn strings(items: &[&str]) -> Vec<String> {
    items.iter().map(|s| s.to_string()).collect()
}

fn env(pairs: &[(&str, &str)]) -> IdMap<String> {
    let mut m = IdMap::new();
    for (k, v) in pairs {
        m.insert(k.to_string(), v.to_string());
    }
    m
}

fn lookup(m: &IdMap<String>, k: &str) -> Option<String> {
    m.get(&k.to_string()).cloned()
}

#[test]
fn append_dedupes_next_only() {
    let r = merge_vec(strings(&["a", "b", "a"]), strings(&["b", "c", "c"]), TaskMergeStrategy::Append, true);
    assert_eq!(r, strings(&["a", "b", "a", "c"]));
}

#[test]
fn append_without_dedupe_concatenates() {
    let r = merge_vec(strings(&["a", "b"]), strings(&["b", "c"]), TaskMergeStrategy::Append, false);
    assert_eq!(r, strings(&["a", "b", "b", "c"]));
}

#[test]
fn prepend_puts_next_first() {
    let r = merge_vec(strings(&["a", "b"]), strings(&["c", "a"]), TaskMergeStrategy::Prepend, true);
    assert_eq!(r, strings(&["c", "a", "b"]));
}

#[test]
fn replace_takes_next() {
    let r = merge_vec(strings(&["a", "b"]), strings(&["c"]), TaskMergeStrategy::Replace, true);
    assert_eq!(r, strings(&["c"]));
    let r = merge_vec(strings(&["a"]), Vec::new(), TaskMergeStrategy::Replace, true);
    assert!(r.is_empty());
}

#[test]
fn merging_nothing_keeps_base() {
    let r = merge_vec(strings(&["a", "a"]), Vec::new(), TaskMergeStrategy::Append, true);
    assert_eq!(r, strings(&["a", "a"]));
    let r = merge_vec(strings(&["a", "a"]), Vec::new(), TaskMergeStrategy::Prepend, true);
    assert_eq!(r, strings(&["a", "a"]));
}

#[test]
fn merge_map_append_lets_next_win() {
    let r = merge_map(env(&[("A", "1"), ("B", "2")]), env(&[("B", "3"), ("C", "4")]), TaskMergeStrategy::Append);
    assert_eq!(lookup(&r, "A").as_deref(), Some("1"));
    assert_eq!(lookup(&r, "B").as_deref(), Some("3"));
    assert_eq!(lookup(&r, "C").as_deref(), Some("4"));
}

#[test]
fn merge_map_prepend_lets_base_win() {
    let r = merge_map(env(&[("A", "1"), ("B", "2")]), env(&[("B", "3"), ("C", "4")]), TaskMergeStrategy::Prepend);
    assert_eq!(lookup(&r, "A").as_deref(), Some("1"));
    assert_eq!(lookup(&r, "B").as_deref(), Some("2"));
    assert_eq!(lookup(&r, "C").as_deref(), Some("4"));
}

#[test]
fn merge_map_replace_takes_next() {
    let r = merge_map(env(&[("A", "1")]), env(&[("C", "4")]), TaskMergeStrategy::Replace);
    assert_eq!(lookup(&r, "A"), None);
    assert_eq!(lookup(&r, "C").as_deref(), Some("4"));
}

#[test]
fn id_map_later_entry_overrides() {
    let m = env(&[("K", "1"), ("K", "2")]);
    assert_eq!(lookup(&m, "K").as_deref(), Some("2"));
    assert!(m.contains_key(&"K".to_string()));
    assert!(!m.contains_key(&"X".to_string()));
    assert!(IdMap::<String>::new().is_empty());
}
