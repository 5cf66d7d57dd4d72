//! String declarations contained within a YARA rule.

use vstd::prelude::*;

use crate::parser::syntax::hex::{HexNode, HexNodeView};

verus! {

/// Represents a string definition within a YARA rule's `strings` section.
///
/// A string definition consists of an identifier, a value, and zero or more
/// modifiers that influence how the string is matched.
#[derive(Debug)]
pub struct StringNode {
    /// String identifier, e.g. `$s1`.
    pub identifier: String,
    /// String value, e.g. `"cmd.exe"`.
    pub value: StringType,
    /// Modifiers applied to the string, e.g. `ascii`, `wide`, `fullword`.
    pub modifiers: Vec<StringModifier>,
}

/// Modifiers that alter how a YARA string is interpreted and matched.
#[derive(Debug, Clone, Copy, Eq, Hash, PartialEq, Ord, PartialOrd, Structural)]
pub enum StringModifier {
    /// Match the string as ASCII text.
    Ascii,
    /// Match the string as UTF-16 little-endian text.
    Wide,
    /// Require matches to occur on word boundaries.
    Fullword,
    /// Perform case-insensitive matching.
    Nocase,
    /// Match XOR-encoded variants of the string.
    Xor,
    /// Match the Base64-encoded representation of the string.
    Base64,
    /// Match the UTF-16 representation of the Base64-encoded string.
    Base64Wide,
}

/// The three kinds of string values in a YARA rule.
#[derive(Debug, Eq, Hash, PartialEq)]
pub enum StringType {
    /// Text value, e.g. `"foo.exe"`.
    Text(String),
    /// Hex value, e.g. `{ a6 f8 ?d 82 }`.
    Hex(HexNode),
    /// Regular expression, e.g. `/md5: [0-9a-fA-F]{32}/`.
    RegEx(String),
}

/// The mathematical value of a [`StringType`].
pub enum StringTypeView {
    Text(Seq<char>),
    Hex(HexNodeView),
    RegEx(Seq<char>),
}

impl View for StringType {
    type V = StringTypeView;

    open spec fn view(&self) -> StringTypeView {
        match self {
            StringType::Text(s) => StringTypeView::Text(s@),
            StringType::Hex(h) => StringTypeView::Hex(h@),
            StringType::RegEx(s) => StringTypeView::RegEx(s@),
        }
    }
}

/// The mathematical value of a [`StringNode`].
pub struct StringNodeView {
    pub identifier: Seq<char>,
    pub value: StringTypeView,
    pub modifiers: Seq<StringModifier>,
}

impl View for StringNode {
    type V = StringNodeView;

    open spec fn view(&self) -> StringNodeView {
        StringNodeView {
            identifier: self.identifier@,
            value: self.value@,
            modifiers: self.modifiers@,
        }
    }
}

} // verus!
