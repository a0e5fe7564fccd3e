//! Syntax errors, what repairing them costs, and how they are reported.

use vstd::prelude::*;
use vstd::string::{StrSliceExecFns, StringExecFns};

use crate::tokens::{Kind, Span, Terminal, TerminalView};

verus! {

/// The most that repairs may cost one parse attempt before it is given up.
pub const ERROR_COST_MAX: u16 = 15;

/// The cost of discarding one input token.
pub const ERROR_COST_SKIP: u16 = 2;

/// The cost of imagining a missing token of kind `kind`.
pub open spec fn injection_cost(kind: Kind) -> u16 {
    match kind {
        Kind::Ident => 10,
        Kind::Substitution => 8,
        Kind::Keyword(_) => 10,
        Kind::Dot | Kind::BackwardLink => 5,
        Kind::OpenBrace | Kind::OpenBracket | Kind::OpenParen => 5,
        Kind::CloseBrace | Kind::CloseBracket | Kind::CloseParen => 1,
        Kind::Namespace => 10,
        Kind::Colon | Kind::Semicolon | Kind::Comma | Kind::Eq => 5,
        Kind::At => 5,
        Kind::IntConst => 8,
        Kind::Assign | Kind::AddAssign | Kind::SubAssign | Kind::Arrow => 10,
        _ => 100,
    }
}

/// The cost of imagining a missing token of kind `kind`; kinds that are never
/// missing cost more than any parse attempt may spend.
pub fn error_cost(kind: &Kind) -> (r: u16)
    ensures
        r == injection_cost(*kind),
        1 <= r <= 100,
{
    match kind {
        Kind::Ident => 10,
        Kind::Substitution => 8,
        Kind::Keyword(_) => 10,
        Kind::Dot | Kind::BackwardLink => 5,
        Kind::OpenBrace | Kind::OpenBracket | Kind::OpenParen => 5,
        Kind::CloseBrace | Kind::CloseBracket | Kind::CloseParen => 1,
        Kind::Namespace => 10,
        Kind::Colon | Kind::Semicolon | Kind::Comma | Kind::Eq => 5,
        Kind::At => 5,
        Kind::IntConst => 8,
        Kind::Assign | Kind::AddAssign | Kind::SubAssign | Kind::Arrow => 10,
        _ => 100,
    }
}

/// How the input was repaired at the place of an error.
#[derive(Clone, Copy, Debug, PartialEq, Eq, Structural)]
pub enum Repair {
    /// A token of this kind was assumed missing and put in.
    Missing(Kind),
    /// The input token, of this kind, was discarded.
    Unexpected(Kind),
}

/// A syntax error that parsing recovered from.
#[derive(Debug, PartialEq, Eq)]
pub struct Error {
    pub message: String,
    pub span: Span,
    pub repair: Repair,
}

impl Clone for Error {
    fn clone(&self) -> (r: Error)
        ensures
            r == *self,
    {
        Error { message: self.message.clone(), span: self.span, repair: self.repair }
    }
}

/// An error as plain mathematical values.
pub struct ErrorView {
    pub message: Seq<char>,
    pub span: Span,
    pub repair: Repair,
}

impl View for Error {
    type V = ErrorView;

    open spec fn view(&self) -> ErrorView {
        ErrorView { message: self.message@, span: self.span, repair: self.repair }
    }
}

/// The views of a sequence of errors.
pub open spec fn errors_view(errors: Seq<Error>) -> Seq<ErrorView> {
    errors.map_values(|e: Error| e@)
}

/// The total cost of the repairs behind a list of error views.
pub open spec fn view_cost(errors: Seq<ErrorView>) -> nat
    decreases errors.len(),
{
    if errors.len() == 0 {
        0
    } else {
        view_cost(errors.drop_last()) + repair_cost(errors.last().repair)
    }
}

/// Errors cost what their views cost.
pub proof fn lemma_view_cost(errors: Seq<Error>)
    ensures
        view_cost(errors_view(errors)) == total_cost(errors),
    decreases errors.len(),
{
    if errors.len() > 0 {
        lemma_view_cost(errors.drop_last());
        assert(errors_view(errors).drop_last() =~= errors_view(errors.drop_last()));
    }
}

/// The cost of a repair.
pub open spec fn repair_cost(r: Repair) -> nat {
    match r {
        Repair::Missing(kind) => injection_cost(kind) as nat,
        Repair::Unexpected(_) => ERROR_COST_SKIP as nat,
    }
}

/// The total cost of the repairs behind a list of errors.
pub open spec fn total_cost(errors: Seq<Error>) -> nat
    decreases errors.len(),
{
    if errors.len() == 0 {
        0
    } else {
        total_cost(errors.drop_last()) + repair_cost(errors.last().repair)
    }
}

/// Each repair costs at least 1, so the repairs cost at least as much as there are errors.
pub proof fn lemma_cost_counts_errors(errors: Seq<Error>)
    ensures
        total_cost(errors) >= errors.len(),
    decreases errors.len(),
{
    if errors.len() > 0 {
        lemma_cost_counts_errors(errors.drop_last());
    }
}

/// Whether `c` may stand in a name that needs no quoting.
pub open spec fn is_name_char(c: char) -> bool {
    ('a' <= c && c <= 'z') || ('A' <= c && c <= 'Z') || ('0' <= c && c <= '9') || c == '_'
}

/// Whether `s` reads as a name as it stands.
pub open spec fn is_plain_name(s: Seq<char>) -> bool {
    &&& s.len() > 0
    &&& !('0' <= s[0] && s[0] <= '9')
    &&& forall|i: int| 0 <= i < s.len() ==> is_name_char(#[trigger] s[i])
}

/// `s` with each backquote doubled.
pub open spec fn escape_backquotes(s: Seq<char>) -> Seq<char>
    decreases s.len(),
{
    if s.len() == 0 {
        Seq::empty()
    } else if s.last() == '`' {
        escape_backquotes(s.drop_last()) + seq!['`', '`']
    } else {
        escape_backquotes(s.drop_last()).push(s.last())
    }
}

/// A name as it is shown to the user: as it stands, or between backquotes.
pub open spec fn quoted_name(s: Seq<char>) -> Seq<char> {
    if is_plain_name(s) {
        s
    } else {
        seq!['`'] + escape_backquotes(s) + seq!['`']
    }
}

/// How a token is named in a message.
pub open spec fn token_text(t: TerminalView) -> Seq<char> {
    match t.kind {
        Kind::EOF => "end of line"@,
        Kind::Ident => quoted_name(t.text),
        _ => "token: "@ + t.text,
    }
}

/// Shows a name as it stands where it reads as one, else between backquotes.
pub fn quote_name(s: &str) -> (r: String)
    ensures
        r@ == quoted_name(s@),
{
    let n = s.unicode_len();
    let mut plain = n > 0;
    let mut escaped = String::new();
    let mut i: usize = 0;
    while i < n
        invariant
            n == s@.len(),
            i <= n,
            escaped@ == escape_backquotes(s@.subrange(0, i as int)),
            plain == (n > 0 && (forall|j: int| 0 <= j < i ==> is_name_char(#[trigger] s@[j])) && (
            i > 0 ==> !('0' <= s@[0] && s@[0] <= '9'))),
        decreases n - i,
    {
        let c = s.get_char(i);
        assert(s@.subrange(0, i + 1).drop_last() =~= s@.subrange(0, i as int));
        if c == '`' {
            escaped.append("``");
        } else {
            escaped.append(s.substring_char(i, i + 1));
        }
        proof {
            reveal_strlit("``");
        }
        assert(escaped@ =~= escape_backquotes(s@.subrange(0, i + 1)));
        let is_name = ('a' <= c && c <= 'z') || ('A' <= c && c <= 'Z') || ('0' <= c && c <= '9')
            || c == '_';
        if !is_name || (i == 0 && '0' <= c && c <= '9') {
            plain = false;
        }
        i = i + 1;
    }
    assert(s@.subrange(0, n as int) =~= s@);
    if plain {
        String::from_str(s)
    } else {
        let mut r = String::from_str("`");
        r.append(escaped.as_str());
        r.append("`");
        proof {
            reveal_strlit("`");
        }
        assert(r@ =~= seq!['`'] + escape_backquotes(s@) + seq!['`']);
        r
    }
}

/// Names a token for a message.
pub fn describe(t: &Terminal) -> (r: String)
    ensures
        r@ == token_text(t@),
{
    match t.kind {
        Kind::EOF => String::from_str("end of line"),
        Kind::Ident => quote_name(t.text.as_str()),
        _ => {
            let r = String::from_str("token: ").concat(t.text.as_str());
            r
        },
    }
}

/// The message for a token that was assumed missing.
pub open spec fn missing_message(t: TerminalView) -> Seq<char> {
    "Missing "@ + token_text(t)
}

/// The message for an input token that was discarded.
pub open spec fn unexpected_message(t: TerminalView) -> Seq<char> {
    "Unexpected "@ + token_text(t)
}

/// The error for a token of `injected`'s kind assumed missing before the input token at `span`.
pub fn missing_error(injected: &Terminal, span: Span) -> (r: Error)
    ensures
        r.message@ == missing_message(injected@),
        r.span == span,
        r.repair == Repair::Missing(injected.kind),
{
    let message = String::from_str("Missing ").concat(describe(injected).as_str());
    Error { message, span, repair: Repair::Missing(injected.kind) }
}

/// The error for the input token `token`, discarded.
pub fn unexpected_error(token: &Terminal) -> (r: Error)
    ensures
        r.message@ == unexpected_message(token@),
        r.span == token.span,
        r.repair == Repair::Unexpected(token.kind),
{
    let message = String::from_str("Unexpected ").concat(describe(token).as_str());
    Error { message, span: token.span, repair: Repair::Unexpected(token.kind) }
}

} // verus!
