//! The grammar table that drives the automaton.

use vstd::prelude::*;

use crate::tokens::Kind;

verus! {

/// The grammar table of a deterministic shift/reduce automaton.
///
/// Each row is an association list; where a key occurs twice, the first entry decides the
/// action or the state. Repairs try putting in a token once for each entry of the state's
/// action row, so a repeated kind is tried twice; both tries make the same attempt, and
/// `parser::frontier` states the search with such rows as it is.
pub struct Spec {
    /// For each state, the action on each token kind.
    pub actions: Vec<Vec<(Kind, Action)>>,
    /// For each state, the state entered after reducing to each non-terminal.
    pub goto: Vec<Vec<(String, usize)>>,
    /// The start symbol.
    pub start: String,
    /// Productions replaced in the tree by one of their children, with its position.
    pub inlines: Vec<(usize, u8)>,
}

#[derive(Debug)]
pub enum Action {
    Shift(usize),
    Reduce(Reduce),
}

#[derive(Debug)]
pub struct Reduce {
    /// Index of the production in the associated production array
    pub production_id: usize,
    pub non_term: String,
    /// Number of arguments
    pub cnt: usize,
}

/// The value of the first entry with key `key`, if there is one.
pub open spec fn lookup<K, V>(row: Seq<(K, V)>, key: K) -> Option<V>
    decreases row.len(),
{
    if row.len() == 0 {
        None
    } else if row[0].0 == key {
        Some(row[0].1)
    } else {
        lookup(row.drop_first(), key)
    }
}

/// A goto row with its non-terminal names as character sequences.
pub open spec fn goto_row(row: Seq<(String, usize)>) -> Seq<(Seq<char>, usize)> {
    row.map_values(|e: (String, usize)| (e.0@, e.1))
}

impl Spec {
    /// The action of `state` on a token of kind `kind`; a state without a row has none.
    pub open spec fn action(&self, state: usize, kind: Kind) -> Option<Action> {
        if state < self.actions@.len() {
            lookup(self.actions@[state as int]@, kind)
        } else {
            None
        }
    }

    /// The state entered from `state` after a reduction to the non-terminal `name`.
    pub open spec fn goto_state(&self, state: usize, name: Seq<char>) -> Option<usize> {
        if state < self.goto@.len() {
            lookup(goto_row(self.goto@[state as int]@), name)
        } else {
            None
        }
    }

    /// The position of the child that replaces production `id` in the tree, if it is inlined.
    pub open spec fn inline_position(&self, id: usize) -> Option<u8> {
        lookup(self.inlines@, id)
    }

    pub fn find_action(&self, state: usize, kind: Kind) -> (r: Option<&Action>)
        ensures
            r matches Some(a) ==> self.action(state, kind) == Some(*a),
            r is None ==> self.action(state, kind) is None,
    {
        if state >= self.actions.len() {
            return None;
        }
        let row = &self.actions[state];
        let mut i: usize = 0;
        assert(row@.subrange(0, row@.len() as int) =~= row@);
        while i < row.len()
            invariant
                state < self.actions@.len(),
                row@ == self.actions@[state as int]@,
                i <= row@.len(),
                lookup(row@, kind) == lookup(row@.subrange(i as int, row@.len() as int), kind),
            decreases row@.len() - i,
        {
            assert(row@.subrange(i as int, row@.len() as int).drop_first() =~= row@.subrange(
                i + 1,
                row@.len() as int,
            ));
            assert(row@.subrange(i as int, row@.len() as int)[0] == row@[i as int]);
            if row[i].0 == kind {
                return Some(&row[i].1);
            }
            i = i + 1;
        }
        None
    }

    pub fn find_goto(&self, state: usize, name: &String) -> (r: Option<usize>)
        ensures
            r == self.goto_state(state, name@),
    {
        if state >= self.goto.len() {
            return None;
        }
        let row = &self.goto[state];
        let ghost g = goto_row(row@);
        let mut i: usize = 0;
        assert(g.subrange(0, g.len() as int) =~= g);
        while i < row.len()
            invariant
                state < self.goto@.len(),
                row@ == self.goto@[state as int]@,
                i <= row@.len(),
                g == goto_row(row@),
                lookup(g, name@) == lookup(g.subrange(i as int, g.len() as int), name@),
            decreases row@.len() - i,
        {
            assert(g.subrange(i as int, g.len() as int).drop_first() =~= g.subrange(
                i + 1,
                g.len() as int,
            ));
            assert(g.subrange(i as int, g.len() as int)[0] == g[i as int]);
            assert(g[i as int] == (row@[i as int].0@, row@[i as int].1));
            if row[i].0 == *name {
                assert(lookup(g.subrange(i as int, g.len() as int), name@) == Some(row@[i as int].1));
                return Some(row[i].1);
            }
            i = i + 1;
        }
        None
    }

    pub fn find_inline(&self, id: usize) -> (r: Option<u8>)
        ensures
            r == self.inline_position(id),
    {
        let row = &self.inlines;
        let mut i: usize = 0;
        assert(row@.subrange(0, row@.len() as int) =~= row@);
        while i < row.len()
            invariant
                row@ == self.inlines@,
                i <= row@.len(),
                lookup(row@, id) == lookup(row@.subrange(i as int, row@.len() as int), id),
            decreases row@.len() - i,
        {
            assert(row@.subrange(i as int, row@.len() as int).drop_first() =~= row@.subrange(
                i + 1,
                row@.len() as int,
            ));
            assert(row@.subrange(i as int, row@.len() as int)[0] == row@[i as int]);
            if row[i].0 == id {
                assert(lookup(row@.subrange(i as int, row@.len() as int), id) == Some(row@[i as int].1));
                return Some(row[i].1);
            }
            i = i + 1;
        }
        None
    }
}

} // verus!
