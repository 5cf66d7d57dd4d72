//! Metadata entries contained within a YARA rule.

use vstd::prelude::*;

verus! {

/// Node representing a single entry within a YARA rule's `meta` section.
///
/// A metadata entry consists of a key and an associated value. Values may
/// be strings, numbers, or boolean literals.
#[derive(Debug, Clone)]
pub struct MetaEntryNode {
    /// Metadata key.
    pub key: String,
    /// Metadata value.
    pub value: MetaValue,
}

/// Represents the possible value types for a YARA metadata entry.
#[derive(Debug, Clone)]
pub enum MetaValue {
    /// String value, e.g. `"DeTraced Security"`.
    String(String),
    /// Numeric value, e.g. `2025`.
    Number(String),
    /// Boolean value, `true` or `false`.
    Boolean(bool),
}

/// The mathematical value of a [`MetaValue`].
pub enum MetaValueView {
    String(Seq<char>),
    Number(Seq<char>),
    Boolean(bool),
}

/// The mathematical value of a [`MetaEntryNode`].
pub struct MetaEntryView {
    pub key: Seq<char>,
    pub value: MetaValueView,
}

impl View for MetaValue {
    type V = MetaValueView;

    open spec fn view(&self) -> MetaValueView {
        match self {
            MetaValue::String(s) => MetaValueView::String(s@),
            MetaValue::Number(s) => MetaValueView::Number(s@),
            MetaValue::Boolean(b) => MetaValueView::Boolean(*b),
        }
    }
}

impl View for MetaEntryNode {
    type V = MetaEntryView;

    open spec fn view(&self) -> MetaEntryView {
        MetaEntryView { key: self.key@, value: self.value@ }
    }
}

} // verus!
