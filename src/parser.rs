//! The automaton and the search for the cheapest repaired parse.

use bumpalo::Bump;
use vstd::prelude::*;

use crate::cst::{CSTNode, Production, Tree};
use crate::error::{
    error_cost, errors_view, lemma_view_cost, missing_error, missing_message, repair_cost,
    total_cost, unexpected_error, unexpected_message, view_cost, Error, ErrorView, Repair,
    ERROR_COST_MAX, ERROR_COST_SKIP,
};
use crate::table::{Action, Reduce, Spec};
use crate::tokens::{Kind, Span, Terminal, TerminalView};

verus! {

/// bumpalo's arena, which owns the frames of one parse; nothing inside it is looked at.
#[verifier::external_type_specification]
#[verifier::external_body]
pub struct ExBump<const MIN_ALIGN: usize>(Bump<MIN_ALIGN>);

/// Relies on bumpalo::Bump::new to make an empty arena; nothing is claimed of it.
pub assume_specification[ Bump::<1>::new ]() -> Bump<1>;

/// Relies on bumpalo::Bump::alloc: the frame is moved into the arena, which hands back a
/// reference to it that lives as long as the arena.
#[verifier::external_body]
fn alloc_frame<'s>(arena: &'s Bump, frame: StackNode<'s>) -> (r: &'s StackNode<'s>)
    ensures
        *r == frame,
{
    arena.alloc(frame)
}

/// The most reductions that one token may trigger before the automaton gives up on it.
pub const REDUCTIONS_PER_TOKEN_MAX: usize = 100000;

/// A frame of a parse stack. Frames live in an arena and are never changed, so that
/// parse attempts can share the frames below their tops.
pub struct StackNode<'p> {
    pub parent: Option<&'p StackNode<'p>>,
    pub state: usize,
    pub value: CSTNode,
}

/// A parse stack as the sequence of its frames, bottom first: each frame's state and tree.
pub type Stack = Seq<(usize, Tree)>;

/// The frames of the stack whose top is `node`.
pub open spec fn frames<'p>(node: StackNode<'p>) -> Stack
    decreases node,
{
    match node.parent {
        Some(p) => frames(*p).push((node.state, node.value@)),
        None => seq![(node.state, node.value@)],
    }
}

/// The stack that parsing starts from: one frame, in state 0, holding nothing.
pub open spec fn initial_stack() -> Stack {
    seq![(0usize, Tree::Empty)]
}

/// The stack after reducing by `r`, if the table allows it: the top `r.cnt` frames make
/// the children of a new production, which the goto table places in its next state, or
/// which one child replaces where the production is inlined. The bottom frame stays.
pub open spec fn reduced(spec: &Spec, stack: Stack, r: Reduce) -> Option<Stack> {
    let n = stack.len();
    if r.cnt >= n {
        None
    } else {
        let rest = stack.subrange(0, n - r.cnt);
        let args = stack.subrange(n - r.cnt, n as int).map_values(|f: (usize, Tree)| f.1);
        match spec.goto_state(rest.last().0, r.non_term@) {
            None => None,
            Some(next) => match spec.inline_position(r.production_id) {
                Some(pos) => if (pos as int) < args.len() {
                    Some(rest.push((next, args[pos as int])))
                } else {
                    None
                },
                None => Some(rest.push((next, Tree::Production(r.production_id, args)))),
            },
        }
    }
}

/// The stack after the automaton takes `token`: reductions until the token is shifted, or
/// `None` where the table has no action for it (or gives up after `fuel` reductions).
pub open spec fn acted(spec: &Spec, stack: Stack, token: TerminalView, fuel: nat) -> Option<Stack>
    decreases fuel,
{
    if stack.len() == 0 {
        None
    } else {
        match spec.action(stack.last().0, token.kind) {
            None => None,
            Some(Action::Shift(next)) => Some(stack.push((next, Tree::Terminal(token)))),
            Some(Action::Reduce(r)) => if fuel == 0 {
                None
            } else {
                match reduced(spec, stack, r) {
                    Some(s) => acted(spec, s, token, (fuel - 1) as nat),
                    None => None,
                }
            },
        }
    }
}

/// The stack after the automaton takes `tokens` in turn from `stack`, with no repair.
pub open spec fn run(spec: &Spec, stack: Stack, tokens: Seq<TerminalView>) -> Option<Stack>
    decreases tokens.len(),
{
    if tokens.len() == 0 {
        Some(stack)
    } else {
        match run(spec, stack, tokens.drop_last()) {
            Some(s) => acted(spec, s, tokens.last(), REDUCTIONS_PER_TOKEN_MAX as nat),
            None => None,
        }
    }
}

/// The views of a sequence of tokens.
pub open spec fn token_views(s: Seq<Terminal>) -> Seq<TerminalView> {
    s.map_values(|t: Terminal| t@)
}

/// Where the input ends: after its last token, or at 0 where it is empty.
pub open spec fn input_end(input: Seq<TerminalView>) -> u64 {
    if input.len() == 0 {
        0
    } else {
        input.last().span.end
    }
}

/// The end-of-input token, of zero width where the input ends.
pub open spec fn end_token(input: Seq<TerminalView>) -> TerminalView {
    TerminalView {
        kind: Kind::EOI,
        text: Seq::empty(),
        value: None,
        span: Span { start: input_end(input), end: input_end(input) },
    }
}

/// The input with the end-of-input token appended.
pub open spec fn with_end(input: Seq<TerminalView>) -> Seq<TerminalView> {
    input.push(end_token(input))
}

/// The tree of a well-formed input: the automaton takes every token and the end of input
/// with no repair; the tree is what stands below the end-of-input token.
pub open spec fn accepted(spec: &Spec, input: Seq<TerminalView>) -> Option<Tree> {
    match run(spec, initial_stack(), with_end(input)) {
        Some(s) => if s.len() >= 2 {
            Some(s[s.len() - 2].1)
        } else {
            None
        },
        None => None,
    }
}

/// Whether no production of `t` is one that the table inlines.
pub open spec fn inline_free(spec: &Spec, t: Tree) -> bool
    decreases t,
{
    match t {
        Tree::Production(id, args) => spec.inline_position(id) is None && forall|i: int|
            0 <= i < args.len() ==> inline_free(spec, #[trigger] args[i]),
        _ => true,
    }
}

/// Whether every tree on a stack is inline-free.
pub open spec fn stack_inline_free(spec: &Spec, s: Stack) -> bool {
    forall|i: int| 0 <= i < s.len() ==> inline_free(spec, #[trigger] s[i].1)
}

/// What one parse needs besides its stacks: the table, and the arena that holds the frames.
pub struct Context<'s> {
    pub spec: &'s Spec,
    pub arena: &'s Bump,
}

impl<'s> Context<'s> {
    pub fn new(spec: &'s Spec, arena: &'s Bump) -> (r: Self)
        ensures
            r.spec == spec,
            r.arena == arena,
    {
        Context { spec, arena }
    }
}

/// One parse attempt: its stack, and the errors it recovered from with what they cost.
pub struct Parser<'s> {
    pub stack_top: &'s StackNode<'s>,
    pub error_cost: u16,
    pub errors: Vec<Error>,
    /// The tokens that the automaton took, the repaired ones included.
    pub consumed: Ghost<Seq<TerminalView>>,
}

impl<'s> Clone for Parser<'s> {
    fn clone(&self) -> (r: Self)
        ensures
            r.stack_top == self.stack_top,
            r.error_cost == self.error_cost,
            r.errors@ == self.errors@,
            r.consumed == self.consumed,
    {
        let mut errors: Vec<Error> = Vec::new();
        let mut i: usize = 0;
        while i < self.errors.len()
            invariant
                i <= self.errors@.len(),
                errors@ == self.errors@.subrange(0, i as int),
            decreases self.errors@.len() - i,
        {
            errors.push(self.errors[i].clone());
            i = i + 1;
            assert(errors@ =~= self.errors@.subrange(0, i as int));
        }
        assert(self.errors@.subrange(0, i as int) =~= self.errors@);
        Parser {
            stack_top: self.stack_top,
            error_cost: self.error_cost,
            errors,
            consumed: self.consumed,
        }
    }
}

/// The attempt that a parser stands for.
pub open spec fn attempt_of<'s>(p: Parser<'s>) -> Attempt {
    Attempt { stack: frames(*p.stack_top), errors: errors_view(p.errors@) }
}

/// The attempts that parsers stand for.
pub open spec fn attempts_of<'s>(ps: Seq<Parser<'s>>) -> Seq<Attempt> {
    ps.map_values(|p: Parser<'s>| attempt_of(p))
}

impl<'s> Parser<'s> {
    /// The attempt's cost is what its repairs cost, within the budget; its stack is what the
    /// automaton builds from the tokens it took, and holds no inlined production.
    pub open spec fn wf(&self, spec: &Spec) -> bool {
        &&& self.error_cost as nat == total_cost(self.errors@)
        &&& run(spec, initial_stack(), self.consumed@) == Some(frames(*self.stack_top))
        &&& self.error_cost <= ERROR_COST_MAX
        &&& stack_inline_free(spec, frames(*self.stack_top))
    }

    /// Reduces by `reduce`. Where the table or the stack does not allow it, nothing changes
    /// and the result is false.
    fn reduce(&mut self, ctx: &Context<'s>, reduce: &Reduce) -> (r: bool)
        requires
            stack_inline_free(ctx.spec, frames(*old(self).stack_top)),
        ensures
            final(self).error_cost == old(self).error_cost,
            final(self).errors == old(self).errors,
            final(self).consumed == old(self).consumed,
            stack_inline_free(ctx.spec, frames(*final(self).stack_top)),
            match reduced(ctx.spec, frames(*old(self).stack_top), *reduce) {
                Some(s) => r && frames(*final(self).stack_top) == s,
                None => !r && final(self).stack_top == old(self).stack_top,
            },
    {
        let ghost f = frames(*self.stack_top);
        let ghost n = f.len();
        let ghost spec = ctx.spec;
        let mut popped: Vec<CSTNode> = Vec::new();
        let mut top = self.stack_top;
        let mut k: usize = 0;
        while k < reduce.cnt
            invariant
                f == frames(*self.stack_top),
                spec == ctx.spec,
                stack_inline_free(spec, f),
                n == f.len(),
                k <= reduce.cnt,
                k < n,
                frames(*top) == f.subrange(0, n - k),
                popped@.len() == k,
                forall|j: int| 0 <= j < k ==> (#[trigger] popped@[j])@ == f[n - 1 - j].1,
            decreases reduce.cnt - k,
        {
            match top.parent {
                Some(p) => {
                    assert(frames(*top).last() == f[n - 1 - k]);
                    popped.push(top.value.clone());
                    assert(frames(*p) =~= f.subrange(0, n - k - 1));
                    top = p;
                },
                None => {
                    assert(frames(*top).len() == 1);
                    return false;
                },
            }
            k = k + 1;
        }
        let cnt = reduce.cnt;
        let ghost rest = f.subrange(0, n - cnt);
        let ghost args_t = f.subrange(n - cnt, n as int).map_values(|fr: (usize, Tree)| fr.1);
        let mut args: Vec<CSTNode> = Vec::new();
        let mut j: usize = 0;
        while j < cnt
            invariant
                cnt == reduce.cnt,
                n == f.len(),
                cnt < n,
                popped@.len() == cnt,
                forall|i: int| 0 <= i < cnt ==> (#[trigger] popped@[i])@ == f[n - 1 - i].1,
                args_t == f.subrange(n - cnt, n as int).map_values(|fr: (usize, Tree)| fr.1),
                j <= cnt,
                args@.len() == j,
                forall|i: int| 0 <= i < j ==> (#[trigger] args@[i])@ == args_t[i],
            decreases cnt - j,
        {
            assert(args_t[j as int] == f[n - cnt + j].1);
            let c = popped[cnt - 1 - j].clone();
            args.push(c);
            j = j + 1;
        }
        assert(frames(*top).last().0 == top.state);
        assert(rest.last() == frames(*top).last());
        let next = match ctx.spec.find_goto(top.state, &reduce.non_term) {
            Some(next) => next,
            None => return false,
        };
        assert forall|i: int| 0 <= i < args_t.len() implies inline_free(spec, #[trigger] args_t[i]) by {
            assert(args_t[i] == f[n - cnt + i].1);
        }
        let value = match ctx.spec.find_inline(reduce.production_id) {
            Some(pos) => {
                if (pos as usize) < args.len() {
                    args.swap_remove(pos as usize)
                } else {
                    return false;
                }
            },
            None => {
                let v = CSTNode::Production(Production { id: reduce.production_id, args });
                assert(v@->Production_1 =~= args_t);
                v
            },
        };
        let node = alloc_frame(ctx.arena, StackNode { parent: Some(top), state: next, value });
        self.stack_top = node;
        assert(frames(*node) =~= rest.push((next, value@)));
        proof {
            let s = frames(*node);
            assert forall|i: int| 0 <= i < s.len() implies inline_free(spec, #[trigger] s[i].1) by {
                if i < s.len() - 1 {
                    assert(s[i] == f[i]);
                }
            }
        }
        true
    }

    /// Takes one token: reductions until it is shifted. Where the table has no action for
    /// it on the way, the attempt is left as it was and the result is an error.
    pub fn act(&mut self, ctx: &Context<'s>, token: &Terminal) -> (r: Result<(), ()>)
        requires
            old(self).wf(ctx.spec),
        ensures
            final(self).wf(ctx.spec),
            final(self).error_cost == old(self).error_cost,
            final(self).errors == old(self).errors,
            r is Ok ==> final(self).consumed@ == old(self).consumed@.push(token@),
            r is Ok ==> final(self).stack_top.value@ == Tree::Terminal(token@),
            r is Err ==> final(self).consumed == old(self).consumed,
            match acted(
                ctx.spec,
                frames(*old(self).stack_top),
                token@,
                REDUCTIONS_PER_TOKEN_MAX as nat,
            ) {
                Some(s) => r is Ok && frames(*final(self).stack_top) == s
                    && final(self).stack_top.parent is Some,
                None => r is Err && final(self).stack_top == old(self).stack_top,
            },
    {
        let start = self.stack_top;
        let mut fuel: usize = REDUCTIONS_PER_TOKEN_MAX;
        loop
            invariant
                self.error_cost == old(self).error_cost,
                self.errors == old(self).errors,
                self.consumed == old(self).consumed,
                old(self).wf(ctx.spec),
                start == old(self).stack_top,
                stack_inline_free(ctx.spec, frames(*start)),
                fuel <= REDUCTIONS_PER_TOKEN_MAX,
                stack_inline_free(ctx.spec, frames(*self.stack_top)),
                acted(ctx.spec, frames(*start), token@, REDUCTIONS_PER_TOKEN_MAX as nat) == acted(
                    ctx.spec,
                    frames(*self.stack_top),
                    token@,
                    fuel as nat,
                ),
            decreases fuel,
        {
            let state = self.stack_top.state;
            assert(frames(*self.stack_top).last().0 == state);
            match ctx.spec.find_action(state, token.kind) {
                None => {
                    self.stack_top = start;
                    return Err(());
                },
                Some(Action::Shift(next)) => {
                    let node = alloc_frame(
                        ctx.arena,
                        StackNode {
                            parent: Some(self.stack_top),
                            state: *next,
                            value: CSTNode::Terminal(token.clone()),
                        },
                    );
                    proof {
                        let s = frames(*self.stack_top);
                        assert(frames(*node) =~= s.push((*next, Tree::Terminal(token@))));
                        let s2 = frames(*node);
                        assert forall|i: int| 0 <= i < s2.len() implies inline_free(
                            ctx.spec,
                            #[trigger] s2[i].1,
                        ) by {
                            if i < s2.len() - 1 {
                                assert(s2[i] == s[i]);
                            }
                        }
                    }
                    self.stack_top = node;
                    proof {
                        let c = self.consumed@;
                        assert(c.push(token@).drop_last() =~= c);
                    }
                    self.consumed = Ghost(self.consumed@.push(token@));
                    return Ok(());
                },
                Some(Action::Reduce(reduce)) => {
                    if fuel == 0 {
                        self.stack_top = start;
                        return Err(());
                    }
                    if !self.reduce(ctx, reduce) {
                        self.stack_top = start;
                        return Err(());
                    }
                    fuel = fuel - 1;
                },
            }
        }
    }

    /// Drops the end-of-input token from the top of the stack.
    pub fn finish(&mut self)
        requires
            old(self).stack_top.parent is Some,
            old(self).stack_top.value is Terminal,
            old(self).stack_top.value->Terminal_0.kind == Kind::EOI,
        ensures
            Some(final(self).stack_top) == old(self).stack_top.parent,
            final(self).error_cost == old(self).error_cost,
            final(self).errors == old(self).errors,
    {
        match self.stack_top.parent {
            Some(p) => {
                self.stack_top = p;
            },
            None => {},
        }
    }

    /// Records `error` at cost `cost`; true if the attempt stays within the budget.
    fn try_push_error(&mut self, error: Error, cost: u16) -> (r: bool)
        requires
            old(self).error_cost <= ERROR_COST_MAX,
            cost <= 100,
            cost as nat == repair_cost(error.repair),
        ensures
            final(self).stack_top == old(self).stack_top,
            final(self).consumed == old(self).consumed,
            final(self).errors@ == old(self).errors@.push(error),
            final(self).error_cost == old(self).error_cost + cost,
            r == (final(self).error_cost <= ERROR_COST_MAX),
    {
        self.errors.push(error);
        self.error_cost = self.error_cost + cost;
        self.error_cost <= ERROR_COST_MAX
    }
}

/// A token put in by a repair: of zero width, with no text and no value.
pub open spec fn injected(kind: Kind) -> TerminalView {
    TerminalView { kind, text: Seq::empty(), value: None, span: Span { start: 0, end: 0 } }
}

/// Whether `out` is `input` with tokens put in and left out as `errors` record them, in
/// order: each token put in by a `Missing` error of its kind that names it, each input
/// token left out by an `Unexpected` error of its kind, at its span, that names it.
pub open spec fn edited(input: Seq<TerminalView>, out: Seq<TerminalView>, errors: Seq<Error>) -> bool
    decreases input.len() + out.len(),
{
    if input.len() == 0 && out.len() == 0 {
        errors.len() == 0
    } else {
        ||| out.len() > 0 && errors.len() > 0 && out.last() == injected(out.last().kind)
            && errors.last().repair == Repair::Missing(out.last().kind)
            && errors.last().message@ == missing_message(out.last()) && edited(
            input,
            out.drop_last(),
            errors.drop_last(),
        )
        ||| input.len() > 0 && errors.len() > 0 && errors.last().repair == Repair::Unexpected(
            input.last().kind,
        ) && errors.last().span == input.last().span && errors.last().message@
            == unexpected_message(input.last()) && edited(
            input.drop_last(),
            out,
            errors.drop_last(),
        )
        ||| input.len() > 0 && out.len() > 0 && input.last() == out.last() && edited(
            input.drop_last(),
            out.drop_last(),
            errors,
        )
    }
}

/// Whether `t` is the tree that the automaton builds from `tokens`, the last of which it
/// shifts: what stands below that last token.
pub open spec fn parses_to(spec: &Spec, tokens: Seq<TerminalView>, t: Tree) -> bool {
    run(spec, initial_stack(), tokens) matches Some(s) && s.len() >= 2 && s[s.len() - 2].1 == t
}

/// A parse attempt as plain values: its stack, and the errors it repaired, in order.
pub struct Attempt {
    pub stack: Stack,
    pub errors: Seq<ErrorView>,
}

/// What an attempt's repairs cost.
pub open spec fn attempt_cost(a: Attempt) -> nat {
    view_cost(a.errors)
}

/// The tree of an attempt that took the end of input: what stands below that token.
pub open spec fn attempt_tree(a: Attempt) -> Tree {
    a.stack[a.stack.len() - 2].1
}

/// The error that records a token of kind `kind` put in before the input token at `at`.
pub open spec fn missing_view(kind: Kind, at: Span) -> ErrorView {
    ErrorView { message: missing_message(injected(kind)), span: at, repair: Repair::Missing(kind) }
}

/// The error that records the input token `t` left out.
pub open spec fn unexpected_view(t: TerminalView) -> ErrorView {
    ErrorView { message: unexpected_message(t), span: t.span, repair: Repair::Unexpected(t.kind) }
}

/// The actions of the state on top of an attempt's stack; a state without a row has none.
pub open spec fn state_row(spec: &Spec, a: Attempt) -> Seq<(Kind, Action)> {
    let state = a.stack.last().0;
    if state < spec.actions@.len() {
        spec.actions@[state as int]@
    } else {
        Seq::empty()
    }
}

/// The attempts that retry `t` after a token of each kind of `row`, in order, is put in
/// before it: those within the budget whose automaton takes the token put in.
pub open spec fn injections(spec: &Spec, a: Attempt, t: TerminalView, row: Seq<(Kind, Action)>) -> Seq<
    Attempt,
>
    decreases row.len(),
{
    if row.len() == 0 {
        Seq::empty()
    } else {
        let before = injections(spec, a, t, row.drop_last());
        let kind = row.last().0;
        let errors = a.errors.push(missing_view(kind, t.span));
        if view_cost(errors) <= ERROR_COST_MAX {
            match acted(spec, a.stack, injected(kind), REDUCTIONS_PER_TOKEN_MAX as nat) {
                Some(s) => before.push(Attempt { stack: s, errors }),
                None => before,
            }
        } else {
            before
        }
    }
}

/// The attempt that goes on without `t`, if `t` is not the end of input and the budget
/// allows it.
pub open spec fn skips(a: Attempt, t: TerminalView) -> Seq<Attempt> {
    let errors = a.errors.push(unexpected_view(t));
    if t.kind != Kind::EOI && view_cost(errors) <= ERROR_COST_MAX {
        seq![Attempt { stack: a.stack, errors }]
    } else {
        Seq::empty()
    }
}

/// What becomes of attempt `a` on token `t`: the attempts that are done with `t`, and
/// those that try `t` again after a token was put in.
pub open spec fn step(spec: &Spec, a: Attempt, t: TerminalView) -> (Seq<Attempt>, Seq<Attempt>) {
    match acted(spec, a.stack, t, REDUCTIONS_PER_TOKEN_MAX as nat) {
        Some(s) => (seq![Attempt { stack: s, errors: a.errors }], Seq::empty()),
        None => (skips(a, t), injections(spec, a, t, state_row(spec, a))),
    }
}

/// One round over the attempts `ps` on token `t`, taken last first: those done with `t`,
/// and those to try it again.
pub open spec fn one_round(spec: &Spec, ps: Seq<Attempt>, t: TerminalView) -> (Seq<Attempt>, Seq<Attempt>)
    decreases ps.len(),
{
    if ps.len() == 0 {
        (Seq::empty(), Seq::empty())
    } else {
        let here = step(spec, ps.last(), t);
        let rest = one_round(spec, ps.drop_last(), t);
        (here.0 + rest.0, here.1 + rest.1)
    }
}

/// Rounds on token `t` until no attempt is left to try it again, at most `fuel` of them.
pub open spec fn rounds(spec: &Spec, ps: Seq<Attempt>, t: TerminalView, fuel: nat) -> Seq<Attempt>
    decreases fuel,
{
    if ps.len() == 0 || fuel == 0 {
        Seq::empty()
    } else {
        let r = one_round(spec, ps, t);
        r.0 + rounds(spec, r.1, t, (fuel - 1) as nat)
    }
}

/// The attempts that are done with token `t`, from the attempts `ps`. Each round costs
/// more than the last, so the budget bounds the rounds.
pub open spec fn advanced(spec: &Spec, ps: Seq<Attempt>, t: TerminalView) -> Seq<Attempt> {
    rounds(spec, ps, t, (ERROR_COST_MAX + 1) as nat)
}

/// The attempts alive after the tokens `tokens`, in the order the search keeps them.
pub open spec fn frontier(spec: &Spec, tokens: Seq<TerminalView>) -> Seq<Attempt>
    decreases tokens.len(),
{
    if tokens.len() == 0 {
        seq![Attempt { stack: initial_stack(), errors: Seq::empty() }]
    } else {
        advanced(spec, frontier(spec, tokens.drop_last()), tokens.last())
    }
}

/// Whether `b` is the first of the cheapest attempts of `f`.
pub open spec fn is_first_cheapest(f: Seq<Attempt>, b: int) -> bool {
    &&& 0 <= b < f.len()
    &&& forall|j: int| 0 <= j < f.len() ==> attempt_cost(f[b]) <= attempt_cost(#[trigger] f[j])
    &&& forall|j: int| 0 <= j < b ==> attempt_cost(f[b]) < attempt_cost(#[trigger] f[j])
}

/// Whether every error stands at one of `spans` and no error discards the end of input.
pub open spec fn errors_placed(errors: Seq<Error>, spans: Set<Span>) -> bool {
    forall|e: int|
        0 <= e < errors.len() ==> spans.contains(#[trigger] errors[e].span)
            && errors[e].repair != Repair::Unexpected(Kind::EOI)
}

/// Whether `p` is a repaired attempt, within the budget, that costs at least `floor`.
pub open spec fn repaired<'s>(
    spec: &Spec,
    p: Parser<'s>,
    floor: nat,
    spans: Set<Span>,
    done: Seq<TerminalView>,
) -> bool {
    &&& p.wf(spec)
    &&& edited(done, p.consumed@, p.errors@)
    &&& errors_placed(p.errors@, spans)
    &&& p.errors@.len() > 0
    &&& p.error_cost >= floor
}

/// Appends to `retry` a copy of `parser` for each token kind that its state has an action
/// for, with that token put in before `token`, where that stays within the budget and the
/// automaton takes the token.
fn inject<'s>(
    ctx: &Context<'s>,
    parser: &Parser<'s>,
    token: &Terminal,
    retry: &mut Vec<Parser<'s>>,
    Ghost(floor): Ghost<nat>,
    Ghost(spans): Ghost<Set<Span>>,
    Ghost(done): Ghost<Seq<TerminalView>>,
)
    requires
        parser.wf(ctx.spec),
        edited(done, parser.consumed@, parser.errors@),
        errors_placed(parser.errors@, spans),
        spans.contains(token.span),
        parser.error_cost >= floor,
        forall|j: int|
            0 <= j < old(retry)@.len() ==> repaired(ctx.spec, #[trigger] old(retry)@[j], floor + 1, spans, done),
    ensures
        forall|j: int|
            0 <= j < final(retry)@.len() ==> repaired(
                ctx.spec,
                #[trigger] final(retry)@[j],
                floor + 1,
                spans,
                done,
            ),
        attempts_of(final(retry)@) == attempts_of(old(retry)@) + injections(
            ctx.spec,
            attempt_of(*parser),
            token@,
            state_row(ctx.spec, attempt_of(*parser)),
        ),
{
    let ghost a = attempt_of(*parser);
    let ghost start = attempts_of(retry@);
    assert(frames(*parser.stack_top).last().0 == parser.stack_top.state);
    let state = parser.stack_top.state;
    if state >= ctx.spec.actions.len() {
        assert(attempts_of(retry@) =~= start + Seq::empty());
        return ;
    }
    let row = &ctx.spec.actions[state];
    let mut k: usize = 0;
    assert(row@.subrange(0, 0) =~= Seq::<(Kind, Action)>::empty());
    assert(attempts_of(retry@) =~= start + Seq::empty());
    while k < row.len()
        invariant
            a == attempt_of(*parser),
            row@ == state_row(ctx.spec, a),
            k <= row@.len(),
            attempts_of(retry@) == start + injections(
                ctx.spec,
                a,
                token@,
                row@.subrange(0, k as int),
            ),
            parser.wf(ctx.spec),
            edited(done, parser.consumed@, parser.errors@),
            errors_placed(parser.errors@, spans),
            spans.contains(token.span),
            parser.error_cost >= floor,
            forall|j: int|
                0 <= j < retry@.len() ==> repaired(ctx.spec, #[trigger] retry@[j], floor + 1, spans, done),
        decreases row@.len() - k,
    {
        let kind = row[k].0;
        let ghost old_retry = retry@;
        proof {
            assert(row@.subrange(0, k + 1).drop_last() =~= row@.subrange(0, k as int));
            assert(row@.subrange(0, k + 1).last() == row@[k as int]);
            lemma_view_cost(parser.errors@);
            assert(a.errors.push(missing_view(kind, token.span)).drop_last() =~= a.errors);
        }
        let mut attempt = parser.clone();
        let injection = Terminal { kind, text: String::new(), value: None, span: Span::default() };
        let cost = error_cost(&kind);
        let error = missing_error(&injection, token.span);
        let ghost errs = attempt.errors@;
        if attempt.try_push_error(error, cost) {
            assert(attempt.errors@.drop_last() =~= errs);
            let ghost c = attempt.consumed@;
            assert(injection@ == injected(kind));
            assert(errors_view(attempt.errors@) =~= a.errors.push(missing_view(kind, token.span)));
            proof {
                lemma_view_cost(attempt.errors@);
            }
            if attempt.act(ctx, &injection).is_ok() {
                assert(attempt.consumed@.drop_last() =~= c);
                retry.push(attempt);
                assert(attempts_of(retry@) =~= attempts_of(old_retry).push(attempt_of(attempt)));
            }
        } else {
            proof {
                assert(errors_view(attempt.errors@) =~= a.errors.push(missing_view(kind, token.span)));
                lemma_view_cost(attempt.errors@);
            }
        }
        k = k + 1;
    }
    assert(row@.subrange(0, row@.len() as int) =~= row@);
}

/// Takes `token` in every attempt. An attempt whose automaton has no action for it is
/// repaired: copies of it with a token put in before `token` try again, and it goes on
/// without `token` where that is not the end of input. Attempts over the budget are dropped.
fn advance<'s>(
    ctx: &Context<'s>,
    parsers: Vec<Parser<'s>>,
    token: &Terminal,
    Ghost(before): Ghost<Stack>,
    Ghost(spans): Ghost<Set<Span>>,
    Ghost(done): Ghost<Seq<TerminalView>>,
) -> (r: Vec<Parser<'s>>)
    requires
        spans.contains(token.span),
        forall|k: int|
            0 <= k < parsers@.len() ==> edited(
                done,
                (#[trigger] parsers@[k]).consumed@,
                parsers@[k].errors@,
            ),
        forall|k: int|
            0 <= k < parsers@.len() ==> (#[trigger] parsers@[k]).wf(ctx.spec) && errors_placed(
                parsers@[k].errors@,
                spans,
            ),
        forall|k: int|
            0 <= k < parsers@.len() && (#[trigger] parsers@[k]).errors@.len() == 0 ==> frames(
                *parsers@[k].stack_top,
            ) == before,
    ensures
        forall|j: int|
            0 <= j < r@.len() ==> (#[trigger] r@[j]).wf(ctx.spec) && errors_placed(
                r@[j].errors@,
                spans,
            ) && edited(done.push(token@), r@[j].consumed@, r@[j].errors@),
        forall|j: int|
            0 <= j < r@.len() && (#[trigger] r@[j]).errors@.len() == 0 ==> acted(
                ctx.spec,
                before,
                token@,
                REDUCTIONS_PER_TOKEN_MAX as nat,
            ) == Some(frames(*r@[j].stack_top)),
        (exists|k: int| 0 <= k < parsers@.len() && (#[trigger] parsers@[k]).errors@.len() == 0)
            && acted(ctx.spec, before, token@, REDUCTIONS_PER_TOKEN_MAX as nat) is Some ==> exists|
            j: int,
        | 0 <= j < r@.len() && (#[trigger] r@[j]).errors@.len() == 0,
        token.kind == Kind::EOI ==> forall|j: int|
            0 <= j < r@.len() ==> (#[trigger] r@[j]).stack_top.parent is Some
                && r@[j].stack_top.value@ == Tree::Terminal(token@),
        attempts_of(r@) == advanced(ctx.spec, attempts_of(parsers@), token@),
{
    let ghost init = attempts_of(parsers@);
    let ghost spec = ctx.spec;
    let ghost after = acted(spec, before, token@, REDUCTIONS_PER_TOKEN_MAX as nat);
    let ghost clean_before = exists|k: int|
        0 <= k < parsers@.len() && (#[trigger] parsers@[k]).errors@.len() == 0;
    let mut new_parsers: Vec<Parser<'s>> = Vec::new();
    let mut pending = parsers;
    let mut round: u16 = 0;
    assert(attempts_of(new_parsers@) + rounds(spec, init, token@, (ERROR_COST_MAX + 1) as nat) =~= advanced(spec, init, token@));
    while pending.len() > 0
        invariant
            spec == ctx.spec,
            after == acted(spec, before, token@, REDUCTIONS_PER_TOKEN_MAX as nat),
            round <= ERROR_COST_MAX + 1,
            spans.contains(token.span),
            forall|j: int|
                0 <= j < pending@.len() ==> (#[trigger] pending@[j]).wf(spec)
                    && pending@[j].error_cost >= round && errors_placed(pending@[j].errors@, spans)
                    && edited(done, pending@[j].consumed@, pending@[j].errors@),
            forall|j: int|
                0 <= j < pending@.len() && (#[trigger] pending@[j]).errors@.len() == 0 ==> frames(
                    *pending@[j].stack_top,
                ) == before,
            forall|j: int|
                0 <= j < new_parsers@.len() ==> (#[trigger] new_parsers@[j]).wf(spec)
                    && errors_placed(new_parsers@[j].errors@, spans) && edited(
                    done.push(token@),
                    new_parsers@[j].consumed@,
                    new_parsers@[j].errors@,
                ),
            forall|j: int|
                0 <= j < new_parsers@.len() && (#[trigger] new_parsers@[j]).errors@.len() == 0
                    ==> after == Some(frames(*new_parsers@[j].stack_top)),
            token.kind == Kind::EOI ==> forall|j: int|
                0 <= j < new_parsers@.len() ==> (#[trigger] new_parsers@[j]).stack_top.parent is Some
                    && new_parsers@[j].stack_top.value@ == Tree::Terminal(token@),
            clean_before && after is Some ==> (exists|j: int|
                0 <= j < pending@.len() && (#[trigger] pending@[j]).errors@.len() == 0) || (exists|
                j: int,
            | 0 <= j < new_parsers@.len() && (#[trigger] new_parsers@[j]).errors@.len() == 0),
            attempts_of(new_parsers@) + rounds(
                spec,
                attempts_of(pending@),
                token@,
                (ERROR_COST_MAX + 1 - round) as nat,
            ) == advanced(spec, init, token@),
        decreases ERROR_COST_MAX + 1 - round,
    {
        assert(pending@[0].error_cost >= round);
        let ghost floor = round as nat;
        let mut retry: Vec<Parser<'s>> = Vec::new();
        let ghost p0 = attempts_of(pending@);
        let ghost n0 = attempts_of(new_parsers@);
        let ghost fuel = (ERROR_COST_MAX + 1 - round) as nat;
        assert(attempts_of(retry@) + one_round(spec, p0, token@).1 =~= one_round(spec, p0, token@).1);
        while pending.len() > 0
            invariant
                p0.len() > 0,
                fuel == (ERROR_COST_MAX + 1 - round) as nat,
                n0 + rounds(spec, p0, token@, fuel) == advanced(spec, init, token@),
                attempts_of(new_parsers@) + one_round(spec, attempts_of(pending@), token@).0 == n0
                    + one_round(spec, p0, token@).0,
                attempts_of(retry@) + one_round(spec, attempts_of(pending@), token@).1 == one_round(
                    spec,
                    p0,
                    token@,
                ).1,
                spec == ctx.spec,
                after == acted(spec, before, token@, REDUCTIONS_PER_TOKEN_MAX as nat),
                round <= ERROR_COST_MAX,
                floor == round,
                spans.contains(token.span),
                forall|j: int|
                    0 <= j < pending@.len() ==> (#[trigger] pending@[j]).wf(spec)
                        && pending@[j].error_cost >= round && errors_placed(
                        pending@[j].errors@,
                        spans,
                    ) && edited(done, pending@[j].consumed@, pending@[j].errors@),
                forall|j: int|
                    0 <= j < pending@.len() && (#[trigger] pending@[j]).errors@.len() == 0 ==> frames(
                        *pending@[j].stack_top,
                    ) == before,
                forall|j: int|
                    0 <= j < retry@.len() ==> repaired(spec, #[trigger] retry@[j], floor + 1, spans, done),
                forall|j: int|
                    0 <= j < new_parsers@.len() ==> (#[trigger] new_parsers@[j]).wf(spec)
                        && errors_placed(new_parsers@[j].errors@, spans) && edited(
                        done.push(token@),
                        new_parsers@[j].consumed@,
                        new_parsers@[j].errors@,
                    ),
                forall|j: int|
                    0 <= j < new_parsers@.len() && (#[trigger] new_parsers@[j]).errors@.len() == 0
                        ==> after == Some(frames(*new_parsers@[j].stack_top)),
                token.kind == Kind::EOI ==> forall|j: int|
                    0 <= j < new_parsers@.len() ==> (#[trigger] new_parsers@[j]).stack_top.parent is Some
                    && new_parsers@[j].stack_top.value@ == Tree::Terminal(token@),
                clean_before && after is Some ==> (exists|j: int|
                    0 <= j < pending@.len() && (#[trigger] pending@[j]).errors@.len() == 0) || (exists|
                    j: int,
                | 0 <= j < new_parsers@.len() && (#[trigger] new_parsers@[j]).errors@.len() == 0),
            decreases pending@.len(),
        {
            let ghost old_pending = pending@;
            let ghost old_new = new_parsers@;
            let ghost om = attempts_of(old_new);
            let ghost orr = attempts_of(retry@);
            let mut parser = pending.pop().unwrap();
            assert(parser == old_pending[old_pending.len() - 1]);
            assert(forall|j: int|
                0 <= j < pending@.len() ==> #[trigger] pending@[j] == old_pending[j]);
            let ghost pa = attempt_of(parser);
            let ghost rest = attempts_of(pending@);
            assert(attempts_of(old_pending).drop_last() =~= rest);
            assert(attempts_of(old_pending).last() == pa);
            assert(frames(*parser.stack_top).last().0 == parser.stack_top.state);
            let ghost clean = parser.errors@.len() == 0;
            let ghost c = parser.consumed@;
            let res = parser.act(ctx, token);
            if res.is_ok() {
                assert(parser.consumed@.drop_last() =~= c);
                assert(done.push(token@).drop_last() =~= done);
                new_parsers.push(parser);
                assert(new_parsers@[new_parsers@.len() - 1] == parser);
                assert(forall|j: int|
                    0 <= j < old_new.len() ==> #[trigger] new_parsers@[j] == old_new[j]);
                proof {
                    if clean && after is Some {
                        assert(new_parsers@[new_parsers@.len() - 1].errors@.len() == 0);
                    }
                    assert(attempts_of(new_parsers@) =~= om + step(spec, pa, token@).0);
                    assert(attempts_of(retry@) =~= orr + step(spec, pa, token@).1);
                }
            } else {
                inject(ctx, &parser, token, &mut retry, Ghost(floor), Ghost(spans), Ghost(done));
                assert(attempts_of(retry@) =~= orr + step(spec, pa, token@).1);
                if token.kind != Kind::EOI {
                    let error = unexpected_error(token);
                    let ghost errs = parser.errors@;
                    proof {
                        lemma_view_cost(errs);
                        assert(pa.errors.push(unexpected_view(token@)).drop_last() =~= pa.errors);
                        assert(error@ == unexpected_view(token@));
                    }
                    if parser.try_push_error(error, ERROR_COST_SKIP) {
                        assert(parser.errors@.drop_last() =~= errs);
                        assert(done.push(token@).drop_last() =~= done);
                        assert(errors_view(parser.errors@) =~= pa.errors.push(unexpected_view(token@)));
                        new_parsers.push(parser);
                        assert(forall|j: int|
                            0 <= j < old_new.len() ==> #[trigger] new_parsers@[j] == old_new[j]);
                        assert(new_parsers@[new_parsers@.len() - 1] == parser);
                        assert(attempts_of(new_parsers@) =~= om + step(spec, pa, token@).0);
                    } else {
                        assert(attempts_of(new_parsers@) =~= om + step(spec, pa, token@).0);
                    }
                } else {
                    assert(attempts_of(new_parsers@) =~= om + step(spec, pa, token@).0);
                }
            }
            proof {
                let here = step(spec, pa, token@);
                assert(one_round(spec, attempts_of(old_pending), token@) == (
                    here.0 + one_round(spec, rest, token@).0,
                    here.1 + one_round(spec, rest, token@).1,
                ));
                assert(attempts_of(new_parsers@) + one_round(spec, rest, token@).0 =~= om + one_round(
                    spec,
                    attempts_of(old_pending),
                    token@,
                ).0);
                assert(attempts_of(retry@) + one_round(spec, rest, token@).1 =~= orr + one_round(
                    spec,
                    attempts_of(old_pending),
                    token@,
                ).1);
                assert(forall|j: int|
                    0 <= j < old_new.len() ==> #[trigger] new_parsers@[j] == old_new[j]);
                if clean_before && after is Some {
                    if exists|j: int| 0 <= j < old_new.len() && (#[trigger] old_new[j]).errors@.len() == 0 {
                        let j = choose|j: int| 0 <= j < old_new.len() && (#[trigger] old_new[j]).errors@.len() == 0;
                        assert(new_parsers@[j] == old_new[j]);
                    } else {
                        let j = choose|j: int| 0 <= j < old_pending.len() && (#[trigger] old_pending[j]).errors@.len() == 0;
                        if j < old_pending.len() - 1 {
                            assert(pending@[j] == old_pending[j]);
                        } else {
                            assert(new_parsers@[new_parsers@.len() - 1].errors@.len() == 0);
                        }
                    }
                }
            }
        }
        proof {
            if clean_before && after is Some {
                let j = choose|j: int| 0 <= j < new_parsers@.len() && (#[trigger] new_parsers@[j]).errors@.len() == 0;
                assert(new_parsers@[j].errors@.len() == 0);
            }
            assert(attempts_of(pending@) =~= Seq::<Attempt>::empty());
            let r = one_round(spec, p0, token@);
            assert(attempts_of(new_parsers@) =~= n0 + r.0);
            assert(attempts_of(retry@) =~= r.1);
            assert(rounds(spec, p0, token@, fuel) == r.0 + rounds(spec, r.1, token@, (fuel - 1) as nat));
            assert(attempts_of(new_parsers@) + rounds(spec, attempts_of(retry@), token@, (fuel - 1) as nat)
                =~= n0 + rounds(spec, p0, token@, fuel));
        }
        pending = retry;
        round = round + 1;
    }
    assert(attempts_of(new_parsers@) =~= attempts_of(new_parsers@) + rounds(
        spec,
        attempts_of(pending@),
        token@,
        (ERROR_COST_MAX + 1 - round) as nat,
    ));
    new_parsers
}

impl<'s> Parser<'s> {
    /// The position of the cheapest attempt; of several equally cheap, the first.
    pub fn cheapest(parsers: &Vec<Parser<'s>>) -> (r: usize)
        requires
            parsers@.len() > 0,
        ensures
            r < parsers@.len(),
            forall|j: int|
                0 <= j < parsers@.len() ==> parsers@[r as int].error_cost <= (
                #[trigger] parsers@[j]).error_cost,
            forall|j: int|
                0 <= j < r ==> parsers@[r as int].error_cost < (#[trigger] parsers@[j]).error_cost,
    {
        let mut best: usize = 0;
        let mut i: usize = 1;
        while i < parsers.len()
            invariant
                best < i <= parsers@.len(),
                forall|j: int|
                    0 <= j < i ==> parsers@[best as int].error_cost <= (
                    #[trigger] parsers@[j]).error_cost,
                forall|j: int|
                    0 <= j < best ==> parsers@[best as int].error_cost < (
                    #[trigger] parsers@[j]).error_cost,
            decreases parsers@.len() - i,
        {
            if parsers[i].error_cost < parsers[best].error_cost {
                best = i;
            }
            i = i + 1;
        }
        best
    }
}

/// The spans of a sequence of tokens.
pub open spec fn spans_of(tokens: Seq<TerminalView>) -> Set<Span> {
    Set::new(|sp: Span| exists|k: int| 0 <= k < tokens.len() && (#[trigger] tokens[k]).span == sp)
}

/// What `parse` promises of its result `r` on `input`: there is a tree exactly when some
/// attempt of the search takes the end of input, and then the result is the first of the
/// cheapest such attempts, its tree and its errors; the repairs stay within the budget;
/// each error stands at the span of an input token or of the end of input, which is never
/// discarded; a tree is what the automaton builds from the input as the errors repair it;
/// there are errors only along with a tree; the tree holds no inlined production; a
/// well-formed input gives its tree and no error; and a tree comes with no error only for a
/// well-formed input.
pub open spec fn parse_outcome(
    spec: &Spec,
    input: Seq<TerminalView>,
    r: (Option<CSTNode>, Vec<Error>),
) -> bool {
    &&& total_cost(r.1@) <= ERROR_COST_MAX
    &&& errors_placed(r.1@, spans_of(with_end(input)))
    &&& r.0 is None ==> r.1@.len() == 0
    &&& (r.0 is None) == (frontier(spec, with_end(input)).len() == 0)
    &&& r.0 is Some ==> exists|b: int|
        #[trigger] is_first_cheapest(frontier(spec, with_end(input)), b) && errors_view(r.1@)
            == frontier(spec, with_end(input))[b].errors && r.0->0@ == attempt_tree(
            frontier(spec, with_end(input))[b],
        )
    &&& r.0 matches Some(n) ==> inline_free(spec, n@)
    &&& r.0 matches Some(n) ==> exists|repaired: Seq<TerminalView>|
        edited(with_end(input), repaired, r.1@) && parses_to(spec, repaired, #[trigger] n@)
    &&& accepted(spec, input) matches Some(t) ==> r.0 matches Some(n) && n@ == t && r.1@.len() == 0
    &&& r.0 is Some && r.1@.len() == 0 ==> accepted(spec, input) == Some(r.0->0@)
}

/// Parses `input` by the table `spec`, repairing syntax errors on the way.
///
/// The end-of-input token is appended to the input. Every attempt takes the tokens in
/// turn; where one has no action for a token it forks repaired attempts (a token put in
/// before it, or the token discarded), each within the error budget. Of the attempts that
/// take the end of input, the cheapest is chosen: its tree, and the errors it repaired.
/// Where none is left, there is no tree and no error.
///
/// Attempts are tried in rounds: those that need a token put in try the same token again
/// in the next round, each round dearer than the last, so the rounds end within the
/// budget. A table that gives no goto state after a reduction, asks to pop the bottom
/// frame, or inlines a child that a production lacks rejects the token at that point, as
/// does a token that triggers more than `REDUCTIONS_PER_TOKEN_MAX` reductions.
pub fn parse(spec: &Spec, input: Vec<Terminal>) -> (r: (Option<CSTNode>, Vec<Error>))
    ensures
        parse_outcome(spec, token_views(input@), r),
{
    let arena = Bump::new();
    let bottom = alloc_frame(&arena, StackNode { parent: None, state: 0, value: CSTNode::Empty });
    let ctx = Context::new(spec, &arena);
    let end: u64 = if input.len() > 0 {
        input[input.len() - 1].span.end
    } else {
        0
    };
    let eoi = Terminal {
        kind: Kind::EOI,
        text: String::new(),
        value: None,
        span: Span { start: end, end },
    };
    let ghost in_views = token_views(input@);
    let mut tokens = input;
    tokens.push(eoi);
    let ghost toks = token_views(tokens@);
    assert(toks =~= with_end(in_views));
    let mut parsers: Vec<Parser> = Vec::new();
    parsers.push(
        Parser { stack_top: bottom, error_cost: 0, errors: Vec::new(), consumed: Ghost(Seq::empty()) },
    );
    proof {
        assert(frames(*bottom) =~= initial_stack());
        assert(toks.subrange(0, 0) =~= Seq::<TerminalView>::empty());
        assert(parsers@[0].errors@.len() == 0);
        assert(edited(toks.subrange(0, 0), parsers@[0].consumed@, parsers@[0].errors@));
        assert(errors_view(parsers@[0].errors@) =~= Seq::<ErrorView>::empty());
        assert(attempt_of(parsers@[0]) == Attempt { stack: initial_stack(), errors: Seq::empty() });
        assert(attempts_of(parsers@) =~= frontier(spec, toks.subrange(0, 0)));
    }
    let ghost spans = spans_of(toks);
    let mut i: usize = 0;
    while i < tokens.len()
        invariant
            ctx.spec == spec,
            spans == spans_of(toks),
            attempts_of(parsers@) == frontier(spec, toks.subrange(0, i as int)),
            forall|j: int|
                0 <= j < parsers@.len() ==> edited(
                    toks.subrange(0, i as int),
                    (#[trigger] parsers@[j]).consumed@,
                    parsers@[j].errors@,
                ),
            forall|j: int| 0 <= j < parsers@.len() ==> errors_placed((#[trigger] parsers@[j]).errors@, spans),
            toks == token_views(tokens@),
            toks == with_end(in_views),
            i <= tokens@.len(),
            forall|j: int| 0 <= j < parsers@.len() ==> (#[trigger] parsers@[j]).wf(spec),
            forall|j: int|
                0 <= j < parsers@.len() && (#[trigger] parsers@[j]).errors@.len() == 0 ==> run(
                    spec,
                    initial_stack(),
                    toks.subrange(0, i as int),
                ) == Some(frames(*parsers@[j].stack_top)),
            run(spec, initial_stack(), toks.subrange(0, i as int)) is Some ==> exists|j: int|
                0 <= j < parsers@.len() && (#[trigger] parsers@[j]).errors@.len() == 0,
            i > 0 && toks[i - 1].kind == Kind::EOI ==> forall|j: int|
                0 <= j < parsers@.len() ==> (#[trigger] parsers@[j]).stack_top.parent is Some
                    && parsers@[j].stack_top.value@ == Tree::Terminal(toks[i - 1]),
        decreases tokens@.len() - i,
    {
        let ghost prefix = toks.subrange(0, i as int);
        let ghost before = match run(spec, initial_stack(), prefix) {
            Some(s) => s,
            None => Seq::empty(),
        };
        let token = &tokens[i];
        assert(toks[i as int] == token@);
        let ghost old_parsers = parsers@;
        assert(spans.contains(token.span));
        parsers = advance(&ctx, parsers, token, Ghost(before), Ghost(spans), Ghost(prefix));
        proof {
            let next = toks.subrange(0, i + 1);
            assert(next =~= prefix.push(token@));
            assert(next.drop_last() =~= prefix);
            assert(next.last() == token@);
            assert(frontier(spec, next) == advanced(spec, frontier(spec, prefix), token@));
            if exists|k: int| 0 <= k < old_parsers.len() && (#[trigger] old_parsers[k]).errors@.len() == 0 {
            } else {
                assert(run(spec, initial_stack(), prefix) is None);
            }
        }
        i = i + 1;
    }
    if parsers.len() == 0 {
        proof {
            assert(toks.subrange(0, toks.len() as int) =~= toks);
            assert(attempts_of(parsers@).len() == 0);
        }
        return (None, Vec::new());
    }
    let best = Parser::cheapest(&parsers);
    let ghost chosen = parsers@[best as int];
    let ghost all = parsers@;
    let mut parser = parsers.swap_remove(best);
    assert(parser == chosen);
    assert(toks[toks.len() - 1].kind == Kind::EOI);
    let ghost top = *parser.stack_top;
    proof {
        assert(toks.subrange(0, toks.len() as int) =~= toks);
        assert(top.value@ == Tree::Terminal(toks[toks.len() - 1]));
        match top.value {
            CSTNode::Terminal(t) => {
                assert(t@ == toks[toks.len() - 1]);
            },
            CSTNode::Empty => {
                assert(false);
            },
            CSTNode::Production(_) => {
                assert(false);
            },
        }
    }
    parser.finish();
    let node = parser.stack_top.value.clone();
    proof {
        assert(toks.subrange(0, toks.len() as int) =~= toks);
        crate::error::lemma_cost_counts_errors(parser.errors@);
        let below = *parser.stack_top;
        assert(frames(top) == frames(below).push((top.state, top.value@)));
        assert(frames(below).last() == (below.state, below.value@));
        assert(frames(top)[frames(top).len() - 2] == frames(below).last());
        assert(inline_free(spec, frames(top)[frames(top).len() - 2].1));
        assert(edited(toks, chosen.consumed@, parser.errors@));
        assert(parses_to(spec, chosen.consumed@, node@));
        let f = frontier(spec, toks);
        assert(f == attempts_of(all));
        assert forall|j: int| 0 <= j < all.len() implies attempt_cost(f[j]) == (
        #[trigger] all[j]).error_cost by {
            lemma_view_cost(all[j].errors@);
        }
        assert(is_first_cheapest(f, best as int));
        assert(errors_view(parser.errors@) == f[best as int].errors);
        assert(node@ == attempt_tree(f[best as int]));
        if accepted(spec, in_views) is Some {
            let k = choose|k: int| 0 <= k < all.len() && (#[trigger] all[k]).errors@.len() == 0;
            assert(all[k].error_cost == 0);
            assert(chosen.error_cost == 0);
        }
    }
    (Some(node), parser.errors)
}

/// Parsing a well-formed input twice gives the same tree both times, and no error.
pub proof fn lemma_valid_parse_deterministic(
    spec: &Spec,
    input: Seq<TerminalView>,
    r1: (Option<CSTNode>, Vec<Error>),
    r2: (Option<CSTNode>, Vec<Error>),
)
    requires
        accepted(spec, input) is Some,
        parse_outcome(spec, input, r1),
        parse_outcome(spec, input, r2),
    ensures
        r1.0 is Some && r2.0 is Some,
        r1.0->0@ == r2.0->0@,
        r1.1@.len() == 0 && r2.1@.len() == 0,
{
}

/// The number of errors that discarded an input token.
pub open spec fn skipped_count(errors: Seq<Error>) -> nat
    decreases errors.len(),
{
    if errors.len() == 0 {
        0
    } else {
        skipped_count(errors.drop_last()) + if errors.last().repair is Unexpected {
            1nat
        } else {
            0nat
        }
    }
}

proof fn lemma_skips_cost(errors: Seq<Error>)
    ensures
        total_cost(errors) >= ERROR_COST_SKIP * skipped_count(errors),
    decreases errors.len(),
{
    if errors.len() > 0 {
        lemma_skips_cost(errors.drop_last());
    }
}

/// A parse repairs at most as many errors as the budget allows, and discards at most
/// `ERROR_COST_MAX / ERROR_COST_SKIP` input tokens; an input that needs more cannot come
/// back with a tree and no error.
pub proof fn lemma_repairs_within_budget(
    spec: &Spec,
    input: Seq<TerminalView>,
    r: (Option<CSTNode>, Vec<Error>),
)
    requires
        parse_outcome(spec, input, r),
    ensures
        r.1@.len() <= ERROR_COST_MAX,
        skipped_count(r.1@) <= ERROR_COST_MAX / ERROR_COST_SKIP,
        r.0 is Some && accepted(spec, input) is None ==> r.1@.len() > 0,
{
    crate::error::lemma_cost_counts_errors(r.1@);
    lemma_skips_cost(r.1@);
}

/// An edit that records no error changes nothing: the tokens taken are the input.
pub proof fn lemma_no_errors_no_edits(input: Seq<TerminalView>, out: Seq<TerminalView>)
    requires
        edited(input, out, Seq::empty()),
    ensures
        out == input,
    decreases input.len() + out.len(),
{
    if input.len() > 0 && out.len() > 0 {
        lemma_no_errors_no_edits(input.drop_last(), out.drop_last());
        assert(input =~= input.drop_last().push(input.last()));
        assert(out =~= out.drop_last().push(out.last()));
    }
}

} // verus!
