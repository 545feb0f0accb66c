//! Lowering of literal constants.
use vstd::prelude::*;
use vstd::string::StringExecFns;
use crate::ast::Constant;
use crate::ir::{Tree, Node, nodes_upto, lemma_nodes_upto};

verus! {

/// The text of a string literal: `s` between double quotes.
pub open spec fn quoted(s: Seq<char>) -> Seq<char> {
    seq!['"'] + s + seq!['"']
}

/// The text of a boolean literal.
pub open spec fn bool_text(b: bool) -> Seq<char> {
    if b {
        "true"@
    } else {
        "false"@
    }
}

/// The literal node for a constant.
pub open spec fn constant_node(c: Constant) -> Node
    decreases c,
{
    match c {
        Constant::Null => Node::Unit,
        Constant::Bool(b) => Node::Bool(bool_text(b)),
        Constant::Str(s) => Node::Str(quoted(s@)),
        Constant::Bytes(b) => Node::Bytes(b@),
        Constant::Int(t) => Node::Int(t@),
        Constant::Tuple(cs) => Node::Tuple(constant_nodes_upto(cs@, cs@.len())),
        Constant::Float(t) => Node::Float(t@),
        Constant::Complex { real: re, imag: im } => Node::Complex(re@, im@),
        Constant::Ellipsis => Node::Ellipsis,
    }
}

/// The literal nodes for the first `n` constants of `s`.
pub open spec fn constant_nodes_upto(s: Seq<Constant>, n: nat) -> Seq<Node>
    decreases s, n,
{
    if n == 0 || n > s.len() {
        Seq::empty()
    } else {
        constant_nodes_upto(s, (n - 1) as nat).push(constant_node(s[n - 1]))
    }
}

/// `constant_nodes_upto` lists the literal nodes of a prefix, one by one.
pub proof fn lemma_constant_nodes_upto(s: Seq<Constant>, n: nat)
    requires
        n <= s.len(),
    ensures
        constant_nodes_upto(s, n).len() == n,
        forall|j: int| 0 <= j < n ==> #[trigger] constant_nodes_upto(s, n)[j] == constant_node(s[j]),
    decreases n,
{
    if n > 0 {
        lemma_constant_nodes_upto(s, (n - 1) as nat);
    }
}

/// A copy of a byte vector, element by element.
fn copy_bytes(b: &Vec<u8>) -> (r: Vec<u8>)
    ensures
        r@ == b@,
{
    let mut r: Vec<u8> = Vec::new();
    let mut i: usize = 0;
    while i < b.len()
        invariant
            i <= b.len(),
            r@ == b@.subrange(0, i as int),
        decreases b.len() - i,
    {
        r.push(b[i]);
        i = i + 1;
    }
    assert(r@ =~= b@);
    r
}

/// Lowers a constant to its literal node: `None` to Unit, a string to its
/// quoted text, a tuple element by element.
pub fn extract_constant(value: &Constant) -> (r: Tree)
    ensures
        r.node() == constant_node(*value),
    decreases value,
{
    match value {
        Constant::Null => Tree::Unit,
        Constant::Bool(b) => {
            let text = if *b {
                String::from_str("true")
            } else {
                String::from_str("false")
            };
            Tree::Bool { value: text }
        },
        Constant::Str(s) => {
            let mut text = String::from_str("\"");
            text.append(s.as_str());
            text.append("\"");
            proof {
                reveal_strlit("\"");
            }
            assert(text@ =~= quoted(s@));
            Tree::Str { value: text }
        },
        Constant::Bytes(b) => Tree::Bytes { elems: copy_bytes(b) },
        Constant::Int(t) => Tree::Int { value: t.clone() },
        Constant::Tuple(cs) => {
            let mut elems: Vec<Tree> = Vec::new();
            let mut i: usize = 0;
            while i < cs.len()
                invariant
                    *value is Tuple,
                    value->Tuple_0 == *cs,
                    i <= cs.len(),
                    elems@.len() == i,
                    forall|j: int| 0 <= j < i ==> #[trigger] elems@[j].node() == constant_node(cs@[j]),
                decreases cs.len() - i,
            {
                proof {
                    assert(decreases_to!(cs@ => cs@[i as int]));
                    assert(decreases_to!(*value => value->Tuple_0));
                }
                let t = extract_constant(&cs[i]);
                elems.push(t);
                i = i + 1;
            }
            proof {
                lemma_nodes_upto(elems@, elems@.len());
                lemma_constant_nodes_upto(cs@, cs@.len());
                assert(nodes_upto(elems@, elems@.len()) =~= constant_nodes_upto(cs@, cs@.len()));
            }
            Tree::Tuple { elems }
        },
        Constant::Float(t) => Tree::Float { value: t.clone() },
        Constant::Complex { real: re, imag: im } => Tree::Complex { real: re.clone(), imag: im.clone() },
        Constant::Ellipsis => Tree::Ellipsis,
    }
}

} // verus!
