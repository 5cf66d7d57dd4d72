//! AST representation of a parsed YARA hex string.

use vstd::prelude::*;

verus! {

/// Representation of one element of a YARA hex string: a byte, a wildcard,
/// a jump, or an alternation of sequences.
#[derive(Debug, PartialEq, Eq, Hash)]
pub enum HexAtom {
    /// A fully specified byte, e.g. `a5`.
    Byte(u8),
    /// Represents a `??` byte.
    Wildcard,
    /// A byte with one wildcarded nibble, `?5` or `a?`. The wildcarded
    /// nibble is [`None`].
    NibbleWildcard {
        /// The high nibble
        high: Option<u8>,
        /// The low nibble
        low: Option<u8>,
    },
    /// A YARA jump: `[4]` is exactly four bytes, `[4-]` at least four,
    /// `[-]` any number. A bound that is not given is [`None`]; for an exact
    /// jump both bounds are the number.
    Jump {
        /// Minimum size of jump
        min: Option<u32>,
        /// Maximum size of jump
        max: Option<u32>,
    },
    /// An alternation of sequences, `( AA | BB )`; branches may nest.
    Alternation(Vec<Vec<HexAtom>>),
}

/// Represents a string of YARA hexadecimal values as a vector of
/// [`HexAtom`]s.
#[derive(Debug, PartialEq, Eq, Hash)]
pub struct HexExprNode {
    /// The "string" of hex values
    pub atoms: Vec<HexAtom>,
}

/// A hex string: the parsed atoms, and the original text between the braces.
#[derive(Debug, PartialEq, Eq, Hash)]
pub struct HexNode {
    /// AST representation of the original hex string
    pub expression: HexExprNode,
    /// The original hex string from the YARA rule
    pub original_string: String,
}

/// The mathematical value of a [`HexAtom`].
pub enum HexAtomView {
    Byte(u8),
    Wildcard,
    NibbleWildcard { high: Option<u8>, low: Option<u8> },
    Jump { min: Option<u32>, max: Option<u32> },
    Alternation(Seq<Seq<HexAtomView>>),
}

/// The view of a hex atom.
pub open spec fn hex_atom_view(a: HexAtom) -> HexAtomView
    decreases a,
{
    match a {
        HexAtom::Byte(b) => HexAtomView::Byte(b),
        HexAtom::Wildcard => HexAtomView::Wildcard,
        HexAtom::NibbleWildcard { high, low } => HexAtomView::NibbleWildcard { high, low },
        HexAtom::Jump { min, max } => HexAtomView::Jump { min, max },
        HexAtom::Alternation(branches) => HexAtomView::Alternation(hex_branches_view(branches@)),
    }
}

/// The view of a sequence of hex atoms, element by element.
pub open spec fn hex_atoms_view(s: Seq<HexAtom>) -> Seq<HexAtomView>
    decreases s,
{
    if s.len() == 0 {
        Seq::empty()
    } else {
        hex_atoms_view(s.drop_last()).push(hex_atom_view(s.last()))
    }
}

/// The view of the branches of an alternation, branch by branch.
pub open spec fn hex_branches_view(s: Seq<Vec<HexAtom>>) -> Seq<Seq<HexAtomView>>
    decreases s,
{
    if s.len() == 0 {
        Seq::empty()
    } else {
        hex_branches_view(s.drop_last()).push(hex_atoms_view(s.last()@))
    }
}

impl View for HexAtom {
    type V = HexAtomView;

    open spec fn view(&self) -> HexAtomView {
        hex_atom_view(*self)
    }
}

/// The mathematical value of a [`HexNode`].
pub struct HexNodeView {
    pub atoms: Seq<HexAtomView>,
    pub original_string: Seq<char>,
}

impl View for HexNode {
    type V = HexNodeView;

    open spec fn view(&self) -> HexNodeView {
        HexNodeView {
            atoms: hex_atoms_view(self.expression.atoms@),
            original_string: self.original_string@,
        }
    }
}

} // verus!
