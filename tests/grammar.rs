use edgeql_parser::cst::{CSTNode, Production};
use edgeql_parser::grammar::definitions::{
    AbortMigrationStmt, AccessKind, AccessKindList, EdgeQLGrammar, SetLiteral, WithDeclListInner,
};
use edgeql_parser::grammar::{cst_to_ast, iter_children, FromId};

#[test]
fn production_ids_pick_alternatives() {
    assert_eq!(AbortMigrationStmt::from_id(0), AbortMigrationStmt::ABORT_MIGRATION);
    assert_eq!(AbortMigrationStmt::from_id(1), AbortMigrationStmt::ABORT_MIGRATION_REWRITE);
    assert_eq!(AccessKind::from_id(2), AccessKind::ALL);
    assert_eq!(AccessKind::from_id(5), AccessKind::SELECT);
    assert_eq!(AccessKind::from_id(8), AccessKind::UPDATE_WRITE);
    assert_eq!(AccessKindList::from_id(10), AccessKindList::AccessKindList_COMMA_AccessKind);
    assert_eq!(SetLiteral::from_id(1808), SetLiteral::LBRACE_OptExprList_RBRACE);
    assert_eq!(WithDeclListInner::from_id(2067), WithDeclListInner::WithDeclListInner_COMMA_WithDecl);
}

#[test]
fn root_production_names_the_entry_point() {
    let root = CSTNode::Production(Production { id: 1180, args: vec![] });
    assert_eq!(cst_to_ast(&root), Some(EdgeQLGrammar::STARTFRAGMENT_ExprStmt_EOI));
    let first = CSTNode::Production(Production { id: 1178, args: vec![] });
    assert_eq!(cst_to_ast(&first), Some(EdgeQLGrammar::STARTBLOCK_EdgeQLBlock_EOI));
    let other = CSTNode::Production(Production { id: 3, args: vec![] });
    assert_eq!(cst_to_ast(&other), None);
    assert_eq!(cst_to_ast(&CSTNode::Empty), None);
}

fn children(name: &str) -> Vec<(usize, String, bool)> {
    iter_children(name)
}

#[test]
fn production_names_split_into_terms() {
    assert_eq!(
        children("AccessKindList_COMMA_AccessKind"),
        vec![
            (0, "AccessKindList".to_string(), false),
            (1, "COMMA".to_string(), true),
            (2, "AccessKind".to_string(), false),
        ]
    );
    assert_eq!(
        children("ABORT_MIGRATION"),
        vec![(0, "ABORT".to_string(), true), (1, "MIGRATION".to_string(), true)]
    );
}

#[test]
fn epsilon_stands_for_no_child() {
    assert_eq!(children("epsilon"), vec![]);
    assert_eq!(
        children("LBRACE_epsilon_RBRACE"),
        vec![(0, "LBRACE".to_string(), true), (2, "RBRACE".to_string(), true)]
    );
}

#[test]
fn empty_parts_are_terminals() {
    assert_eq!(children(""), vec![(0, String::new(), true)]);
    assert_eq!(
        children("A__b"),
        vec![(0, "A".to_string(), true), (1, String::new(), true), (2, "b".to_string(), false)]
    );
}
