use edgeql_parser::cst::{CSTNode, Production};
use edgeql_parser::error::{error_cost, Error, Repair, ERROR_COST_MAX, ERROR_COST_SKIP};
use edgeql_parser::parser::parse;
use edgeql_parser::table::{Action, Reduce, Spec};
use edgeql_parser::tokens::{Kind, Span, Terminal};

// E -> E '+' T (production 1), E -> T (production 2), T -> INT (production 3).
fn reduce(production_id: usize, non_term: &str, cnt: usize) -> Action {
    Action::Reduce(Reduce { production_id, non_term: non_term.to_string(), cnt })
}

fn both(production_id: usize, non_term: &str, cnt: usize) -> Vec<(Kind, Action)> {
    vec![
        (Kind::Add, reduce(production_id, non_term, cnt)),
        (Kind::EOI, reduce(production_id, non_term, cnt)),
    ]
}

fn sum_spec(inlines: Vec<(usize, u8)>) -> Spec {
    Spec {
        actions: vec![
            vec![(Kind::IntConst, Action::Shift(3))],
            vec![(Kind::EOI, Action::Shift(4)), (Kind::Add, Action::Shift(5))],
            both(2, "E", 1),
            both(3, "T", 1),
            vec![],
            vec![(Kind::IntConst, Action::Shift(3))],
            both(1, "E", 3),
        ],
        goto: vec![
            vec![("E".to_string(), 1), ("T".to_string(), 2)],
            vec![],
            vec![],
            vec![],
            vec![],
            vec![("T".to_string(), 6)],
            vec![],
        ],
        start: "E".to_string(),
        inlines,
    }
}

fn token(kind: Kind, text: &str, start: u64) -> Terminal {
    Terminal {
        kind,
        text: text.to_string(),
        value: None,
        span: Span { start, end: start + text.len() as u64 },
    }
}

fn num(text: &str, start: u64) -> Terminal {
    token(Kind::IntConst, text, start)
}

fn plus(start: u64) -> Terminal {
    token(Kind::Add, "+", start)
}

fn term(t: &Terminal) -> CSTNode {
    CSTNode::Terminal(t.clone())
}

fn prod(id: usize, args: Vec<CSTNode>) -> CSTNode {
    CSTNode::Production(Production { id, args })
}

fn total(errors: &[Error]) -> u16 {
    errors
        .iter()
        .map(|e| match e.repair {
            Repair::Missing(kind) => error_cost(&kind),
            Repair::Unexpected(_) => ERROR_COST_SKIP,
        })
        .sum()
}

fn contains_production(node: &CSTNode, id: usize) -> bool {
    match node {
        CSTNode::Production(p) => p.id == id || p.args.iter().any(|a| contains_production(a, id)),
        _ => false,
    }
}

#[test]
fn well_formed_sum_is_accepted() {
    let spec = sum_spec(vec![]);
    let a = num("1", 0);
    let b = num("2", 4);
    let (node, errors) = parse(&spec, vec![a.clone(), plus(2), b.clone()]);
    assert!(errors.is_empty());
    let expected = prod(
        1,
        vec![prod(2, vec![prod(3, vec![term(&a)])]), term(&plus(2)), prod(3, vec![term(&b)])],
    );
    assert_eq!(node, Some(expected));
}

#[test]
fn parsing_twice_gives_the_same_tree() {
    let spec = sum_spec(vec![]);
    let input = vec![num("1", 0), plus(2), num("2", 4)];
    let first = parse(&spec, input.clone());
    let second = parse(&spec, input);
    assert!(first.0.is_some());
    assert_eq!(first, second);
}

#[test]
fn duplicated_operator_is_skipped() {
    let spec = sum_spec(vec![]);
    let a = num("1", 0);
    let b = num("2", 6);
    let (node, errors) = parse(&spec, vec![a.clone(), plus(2), plus(4), b.clone()]);
    assert_eq!(errors.len(), 1);
    assert_eq!(errors[0].message, "Unexpected token: +");
    assert_eq!(errors[0].span, Span { start: 4, end: 5 });
    assert_eq!(errors[0].repair, Repair::Unexpected(Kind::Add));
    let clean = parse(&spec, vec![a, plus(2), b]).0;
    assert_eq!(node, clean);
}

#[test]
fn missing_operand_is_injected() {
    let spec = sum_spec(vec![]);
    let a = num("1", 0);
    let (node, errors) = parse(&spec, vec![a.clone(), plus(2)]);
    assert_eq!(errors.len(), 1);
    assert!(errors[0].message.starts_with("Missing"));
    assert_eq!(errors[0].repair, Repair::Missing(Kind::IntConst));
    // The end of input sits right after the last token.
    assert_eq!(errors[0].span, Span { start: 3, end: 3 });
    let injected = Terminal {
        kind: Kind::IntConst,
        text: String::new(),
        value: None,
        span: Span::default(),
    };
    let expected = prod(
        1,
        vec![prod(2, vec![prod(3, vec![term(&a)])]), term(&plus(2)), prod(3, vec![term(&injected)])],
    );
    assert_eq!(node, Some(expected));
}

#[test]
fn inlined_production_leaves_no_wrapper() {
    let spec = sum_spec(vec![(3, 0)]);
    let a = num("1", 0);
    let b = num("2", 4);
    let (node, errors) = parse(&spec, vec![a.clone(), plus(2), b.clone()]);
    assert!(errors.is_empty());
    let node = node.unwrap();
    assert!(!contains_production(&node, 3));
    assert_eq!(node, prod(1, vec![prod(2, vec![term(&a)]), term(&plus(2)), term(&b)]));
}

#[test]
fn repair_costs_add_up_within_budget() {
    let spec = sum_spec(vec![]);
    let inputs = vec![
        vec![num("1", 0), plus(2), plus(4), num("2", 6)],
        vec![num("1", 0), plus(2)],
        vec![plus(0), num("1", 2)],
        vec![num("1", 0), num("2", 2)],
    ];
    for input in inputs {
        let (node, errors) = parse(&spec, input);
        assert!(total(&errors) <= ERROR_COST_MAX);
        if node.is_none() {
            assert!(errors.is_empty());
        }
    }
}

#[test]
fn too_many_unexpected_tokens_leave_no_clean_parse() {
    let spec = sum_spec(vec![]);
    let mut input = vec![num("1", 0)];
    for i in 0..9u64 {
        input.push(plus(2 + 2 * i));
    }
    input.push(num("2", 30));
    let (node, errors) = parse(&spec, input);
    assert!(node.is_none() || !errors.is_empty());
    assert!(total(&errors) <= ERROR_COST_MAX);
}

#[test]
fn cheapest_repair_wins() {
    let spec = sum_spec(vec![]);
    // A leading operator can only be skipped (cost 2); putting in a number
    // before it would cost 8.
    let (node, errors) = parse(&spec, vec![plus(0), num("1", 2)]);
    assert!(node.is_some());
    assert_eq!(total(&errors), ERROR_COST_SKIP);
}

#[test]
fn empty_input_needs_a_number() {
    let spec = sum_spec(vec![]);
    let (node, errors) = parse(&spec, vec![]);
    assert!(node.is_some());
    assert_eq!(errors.len(), 1);
    assert_eq!(errors[0].repair, Repair::Missing(Kind::IntConst));
    assert_eq!(errors[0].span, Span { start: 0, end: 0 });
}

#[test]
fn table_without_actions_gives_no_tree() {
    let spec = Spec { actions: vec![], goto: vec![], start: "E".to_string(), inlines: vec![] };
    let (node, errors) = parse(&spec, vec![num("1", 0)]);
    assert!(node.is_none());
    assert!(errors.is_empty());
}

#[test]
fn endless_reductions_are_cut_off() {
    // An empty production reduced to a state that reduces it again never shifts.
    let spec = Spec {
        actions: vec![vec![(Kind::IntConst, reduce(9, "E", 0))]],
        goto: vec![vec![("E".to_string(), 0)]],
        start: "E".to_string(),
        inlines: vec![],
    };
    let (node, errors) = parse(&spec, vec![num("1", 0)]);
    assert!(node.is_none());
    assert!(errors.is_empty());
}
