use edgeql_parser::error::{
    error_cost, missing_error, quote_name, unexpected_error, Repair, ERROR_COST_MAX,
    ERROR_COST_SKIP,
};
use edgeql_parser::handshake::ConnectionSslRequirement;
use edgeql_parser::protocol::{MetaRelation, ParseError};
use edgeql_parser::tokens::{Keyword, Kind, Span, Terminal};

#[test]
fn injection_costs_follow_the_table() {
    assert_eq!(error_cost(&Kind::CloseParen), 1);
    assert_eq!(error_cost(&Kind::Semicolon), 5);
    assert_eq!(error_cost(&Kind::OpenBrace), 5);
    assert_eq!(error_cost(&Kind::IntConst), 8);
    assert_eq!(error_cost(&Kind::Substitution), 8);
    assert_eq!(error_cost(&Kind::Ident), 10);
    assert_eq!(error_cost(&Kind::Keyword(Keyword(3))), 10);
    assert_eq!(error_cost(&Kind::Arrow), 10);
    assert_eq!(error_cost(&Kind::Str), 100);
    assert_eq!(error_cost(&Kind::EOI), 100);
    assert!(error_cost(&Kind::Str) > ERROR_COST_MAX);
    assert_eq!(ERROR_COST_SKIP, 2);
}

#[test]
fn plain_names_stay_as_they_are() {
    assert_eq!(quote_name("user_name"), "user_name");
    assert_eq!(quote_name("_x1"), "_x1");
}

#[test]
fn other_names_are_quoted() {
    assert_eq!(quote_name("1abc"), "`1abc`");
    assert_eq!(quote_name("a b"), "`a b`");
    assert_eq!(quote_name("a`b"), "`a``b`");
    assert_eq!(quote_name(""), "``");
}

#[test]
fn protocol_errors_have_messages() {
    assert_eq!(ParseError::TooShort.message(), "Buffer is too short");
    assert_eq!(ParseError::InvalidData.message(), "Invalid data");
    assert_ne!(ParseError::TooShort, ParseError::InvalidData);
    assert_eq!(MetaRelation::Field("len"), MetaRelation::Field("len"));
    assert_ne!(MetaRelation::Parent, MetaRelation::Length);
}

#[test]
fn ssl_is_disabled_by_default() {
    assert_eq!(ConnectionSslRequirement::default(), ConnectionSslRequirement::Disable);
}

#[test]
fn repair_messages_name_the_token() {
    let ident = Terminal { kind: Kind::Ident, text: String::new(), value: None, span: Span::default() };
    let at = Span { start: 7, end: 9 };
    let missing = missing_error(&ident, at);
    assert_eq!(missing.message, "Missing ``");
    assert_eq!(missing.span, at);
    assert_eq!(missing.repair, Repair::Missing(Kind::Ident));
    let name = Terminal { kind: Kind::Ident, text: "foo".to_string(), value: None, span: at };
    assert_eq!(unexpected_error(&name).message, "Unexpected foo");
    let end = Terminal { kind: Kind::EOF, text: String::new(), value: None, span: at };
    assert_eq!(unexpected_error(&end).message, "Unexpected end of line");
    let comma = Terminal { kind: Kind::Comma, text: ",".to_string(), value: None, span: at };
    let skipped = unexpected_error(&comma);
    assert_eq!(skipped.message, "Unexpected token: ,");
    assert_eq!(skipped.repair, Repair::Unexpected(Kind::Comma));
}
