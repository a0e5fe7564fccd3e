use edgeql_parser::table::{Action, Reduce, Spec};
use edgeql_parser::tokens::Kind;

fn table() -> Spec {
    Spec {
        actions: vec![vec![
            (Kind::Add, Action::Shift(4)),
            (Kind::Sub, Action::Reduce(Reduce { production_id: 7, non_term: "E".to_string(), cnt: 2 })),
            (Kind::Add, Action::Shift(9)),
        ]],
        goto: vec![vec![("E".to_string(), 3), ("T".to_string(), 5), ("E".to_string(), 8)]],
        start: "E".to_string(),
        inlines: vec![(4, 1), (6, 0), (4, 2)],
    }
}

#[test]
fn first_action_for_a_kind_counts() {
    let spec = table();
    assert!(matches!(spec.find_action(0, Kind::Add), Some(Action::Shift(4))));
    match spec.find_action(0, Kind::Sub) {
        Some(Action::Reduce(r)) => {
            assert_eq!(r.production_id, 7);
            assert_eq!(r.non_term, "E");
            assert_eq!(r.cnt, 2);
        }
        _ => panic!("expected a reduction"),
    }
    assert!(spec.find_action(0, Kind::Mul).is_none());
    assert!(spec.find_action(1, Kind::Add).is_none());
}

#[test]
fn goto_and_inline_lookups() {
    let spec = table();
    assert_eq!(spec.find_goto(0, &"E".to_string()), Some(3));
    assert_eq!(spec.find_goto(0, &"T".to_string()), Some(5));
    assert_eq!(spec.find_goto(0, &"X".to_string()), None);
    assert_eq!(spec.find_goto(2, &"E".to_string()), None);
    assert_eq!(spec.find_inline(4), Some(1));
    assert_eq!(spec.find_inline(6), Some(0));
    assert_eq!(spec.find_inline(5), None);
}
