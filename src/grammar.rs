//! The non-terminals of the query grammar, and the naming of their productions.

use vstd::prelude::*;
use vstd::string::{StrSliceExecFns, StringExecFns};

use crate::cst::{CSTNode, Tree};

pub mod definitions;
pub mod from_id;

use definitions::EdgeQLGrammar;

verus! {

/// A non-terminal of the grammar, whose alternatives are numbered by production.
pub trait FromId: Sized {
    /// Whether production `id` is one of this non-terminal's alternatives.
    spec fn has_production(id: usize) -> bool;

    /// The number of the production that an alternative stands for.
    spec fn production_id(self) -> usize;

    /// The alternative that production `id` stands for.
    fn from_id(id: usize) -> (r: Self)
        requires
            Self::has_production(id),
        ensures
            r.production_id() == id,
    ;
}

/// A node of the abstract syntax tree that is not built yet.
#[derive(Debug)]
pub struct TodoAst;

/// The entry point of the grammar that a tree was parsed as: where the root is a
/// production of the start symbol, the alternative it stands for.
///
/// Any other node is no tree of the grammar's start symbol; it gives `None` rather than
/// stopping the program, so that a caller holding an arbitrary tree can test it.
pub fn cst_to_ast(node: &CSTNode) -> (r: Option<EdgeQLGrammar>)
    ensures
        match node@ {
            Tree::Production(id, _) => if EdgeQLGrammar::has_production(id) {
                r matches Some(g) && g.production_id() == id
            } else {
                r is None
            },
            _ => r is None,
        },
{
    match node {
        CSTNode::Production(p) => {
            if 1178 <= p.id && p.id <= 1183 {
                Some(EdgeQLGrammar::from_id(p.id))
            } else {
                None
            }
        },
        _ => None,
    }
}

/// The parts of a production name, split at each underscore.
pub open spec fn name_parts(s: Seq<char>) -> Seq<Seq<char>>
    decreases s.len(),
{
    if s.len() == 0 {
        seq![Seq::empty()]
    } else {
        let parts = name_parts(s.drop_last());
        if s.last() == '_' {
            parts.push(Seq::empty())
        } else {
            parts.update(parts.len() - 1, parts.last().push(s.last()))
        }
    }
}

/// Whether a part names a terminal: it has no lower-case letter.
pub open spec fn names_terminal(part: Seq<char>) -> bool {
    forall|i: int| 0 <= i < part.len() ==> !('a' <= #[trigger] part[i] && part[i] <= 'z')
}

/// The children that the parts of a production name stand for: each part's position,
/// the part, and whether it is a terminal. The part `epsilon` stands for no child.
pub open spec fn children_of(parts: Seq<Seq<char>>) -> Seq<(usize, Seq<char>, bool)>
    decreases parts.len(),
{
    if parts.len() == 0 {
        Seq::empty()
    } else {
        let before = children_of(parts.drop_last());
        let part = parts.last();
        if part == "epsilon"@ {
            before
        } else {
            before.push(((parts.len() - 1) as usize, part, names_terminal(part)))
        }
    }
}

proof fn lemma_name_parts_nonempty(s: Seq<char>)
    ensures
        name_parts(s).len() >= 1,
    decreases s.len(),
{
    if s.len() > 0 {
        lemma_name_parts_nonempty(s.drop_last());
    }
}

/// Appends the last part of `parts` to `out`, as `children_of` takes it.
fn close_part(
    out: &mut Vec<(usize, String, bool)>,
    part: &String,
    terminal: bool,
    index: usize,
    epsilon: &String,
    Ghost(parts): Ghost<Seq<Seq<char>>>,
)
    requires
        parts.len() >= 1,
        index + 1 == parts.len(),
        part@ == parts.last(),
        terminal == names_terminal(part@),
        epsilon@ == "epsilon"@,
        old(out)@.map_values(|c: (usize, String, bool)| (c.0, c.1@, c.2)) == children_of(
            parts.drop_last(),
        ),
    ensures
        final(out)@.map_values(|c: (usize, String, bool)| (c.0, c.1@, c.2)) == children_of(parts),
{
    let ghost mapped = out@.map_values(|c: (usize, String, bool)| (c.0, c.1@, c.2));
    if !(*part == *epsilon) {
        out.push((index, part.clone(), terminal));
        assert(out@.map_values(|c: (usize, String, bool)| (c.0, c.1@, c.2)) =~= mapped.push(
            (index, parts.last(), names_terminal(parts.last())),
        ));
    }
}

/// Reads a production name as the terms of its right-hand side, delimited by `_`:
/// each term's position, its name, and whether it is a terminal (written in capitals).
pub fn iter_children(variant_name: &str) -> (r: Vec<(usize, String, bool)>)
    ensures
        r@.map_values(|c: (usize, String, bool)| (c.0, c.1@, c.2)) == children_of(
            name_parts(variant_name@),
        ),
{
    let ghost s = variant_name@;
    let n = variant_name.unicode_len();
    let mut out: Vec<(usize, String, bool)> = Vec::new();
    let mut part = String::new();
    let mut terminal = true;
    let mut index: usize = 0;
    let mut i: usize = 0;
    let epsilon = String::from_str("epsilon");
    proof {
        reveal_strlit("epsilon");
        assert(s.subrange(0, 0) =~= Seq::<char>::empty());
        assert(out@.map_values(|c: (usize, String, bool)| (c.0, c.1@, c.2)) =~= Seq::empty());
        assert(part@ =~= Seq::<char>::empty());
    }
    while i < n
        invariant
            n == s.len(),
            s == variant_name@,
            epsilon@ == "epsilon"@,
            i <= n,
            index <= i,
            index + 1 == name_parts(s.subrange(0, i as int)).len(),
            part@ == name_parts(s.subrange(0, i as int)).last(),
            terminal == names_terminal(part@),
            out@.map_values(|c: (usize, String, bool)| (c.0, c.1@, c.2)) == children_of(
                name_parts(s.subrange(0, i as int)).drop_last(),
            ),
        decreases n - i,
    {
        let ghost parts = name_parts(s.subrange(0, i as int));
        let ghost next = s.subrange(0, i + 1);
        proof {
            lemma_name_parts_nonempty(s.subrange(0, i as int));
            assert(next.drop_last() =~= s.subrange(0, i as int));
        }
        let c = variant_name.get_char(i);
        if c == '_' {
            close_part(&mut out, &part, terminal, index, &epsilon, Ghost(parts));
            part = String::new();
            terminal = true;
            index = index + 1;
            proof {
                assert(name_parts(next).drop_last() =~= parts);
                assert(part@ =~= Seq::<char>::empty());
            }
        } else {
            part.append(variant_name.substring_char(i, i + 1));
            if 'a' <= c && c <= 'z' {
                terminal = false;
            }
            proof {
                let was = parts.last();
                let now = part@;
                assert(now =~= was.push(c));
                assert(name_parts(next).drop_last() =~= parts.drop_last());
                assert(forall|k: int| 0 <= k < was.len() ==> now[k] == #[trigger] was[k]);
                assert(now[was.len() as int] == c);
                if !names_terminal(was) {
                    let k = choose|k: int| 0 <= k < was.len() && ('a' <= #[trigger] was[k] && was[k] <= 'z');
                    assert(now[k] == was[k]);
                }
            }
        }
        i = i + 1;
    }
    proof {
        assert(s.subrange(0, n as int) =~= s);
        lemma_name_parts_nonempty(s);
    }
    close_part(&mut out, &part, terminal, index, &epsilon, Ghost(name_parts(s)));
    out
}

} // verus!
