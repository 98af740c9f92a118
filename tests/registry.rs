use kaenguru::{Action, Registry};

fn sorted(mut v: Vec<i64>) -> Vec<i64> {
    v.sort();
    v
}

#[test]
fn add_reports_new_members_only() {
    let mut r = Registry::new();
    assert!(r.add(7));
    assert!(!r.add(7));
    assert_eq!(r.len(), 1);
    assert!(r.contains(7));
    assert!(!r.contains(8));
}

#[test]
fn remove_reports_present_members_only() {
    let mut r = Registry::new();
    r.add(1);
    r.add(2);
    assert!(r.remove(1));
    assert!(!r.remove(1));
    assert!(!r.remove(99));
    assert_eq!(r.snapshot(), vec![2]);
}

#[test]
fn apply_says_whether_to_save() {
    let mut r = Registry::new();
    assert!(r.apply(Action::Add(-100123)));
    assert!(!r.apply(Action::Add(-100123)));
    assert!(r.apply(Action::Remove(-100123)));
    assert!(!r.apply(Action::Remove(-100123)));
    assert_eq!(r.len(), 0);
}

#[test]
fn replaying_actions_gives_the_set() {
    let mut r = Registry::new();
    let ops = vec![
        Action::Add(1),
        Action::Add(2),
        Action::Add(1),
        Action::Remove(3),
        Action::Remove(2),
        Action::Add(4),
        Action::Add(2),
        Action::Remove(1),
    ];
    r.apply_all(&ops);
    assert_eq!(sorted(r.snapshot()), vec![2, 4]);
}

#[test]
fn from_ids_collapses_repetitions() {
    let r = Registry::from_ids(&vec![5, 3, 5, 3, 1]);
    assert_eq!(r.len(), 3);
    assert_eq!(sorted(r.snapshot()), vec![1, 3, 5]);
}

#[test]
fn saved_form_is_a_json_array() {
    let mut r = Registry::new();
    r.add(12);
    r.add(-34);
    assert_eq!(r.to_json(), "[12,-34]");
    assert_eq!(Registry::new().to_json(), "[]");
}

#[test]
fn saved_form_reads_back() {
    let r = Registry::from_json("[12, -34, 12]").unwrap();
    assert_eq!(sorted(r.snapshot()), vec![-34, 12]);
    let mut again = Registry::new();
    again.add(9);
    again.add(10);
    let back = Registry::from_json(&again.to_json()).unwrap();
    assert_eq!(sorted(back.snapshot()), vec![9, 10]);
}

#[test]
fn malformed_saved_form_is_refused() {
    assert!(Registry::from_json("").is_none());
    assert!(Registry::from_json("{\"a\": 1}").is_none());
    assert!(Registry::from_json("[1, \"x\"]").is_none());
    assert_eq!(Registry::from_json("[]").unwrap().len(), 0);
}

#[test]
fn empty_inputs_give_empty_registry() {
    assert_eq!(Registry::from_ids(&Vec::new()).len(), 0);
    let mut r = Registry::new();
    r.apply_all(&Vec::new());
    assert!(r.snapshot().is_empty());
}
