//! YARA rule representation.
//!
//! This module contains structures and constants used to represent
//! parsed YARA rules.

use std::collections::HashMap;

use vstd::prelude::*;

verus! {

/// Reserved keywords recognized by the YARA language.
///
/// These keywords are used by the lexer to distinguish language
/// constructs from ordinary identifiers.
pub const KEYWORDS: [&'static str; 51] = [
    "all",
    "and",
    "any",
    "ascii",
    "at",
    "base64",
    "base64wide",
    "condition",
    "contains",
    "endswith",
    "entrypoint",
    "false",
    "filesize",
    "for",
    "fullword",
    "global",
    "import",
    "icontains",
    "iendswith",
    "iequals",
    "in",
    "include",
    "int16",
    "int16be",
    "int32",
    "int32be",
    "int8",
    "int8be",
    "istartswith",
    "matches",
    "meta",
    "nocase",
    "none",
    "not",
    "of",
    "or",
    "private",
    "rule",
    "startswith",
    "strings",
    "them",
    "true",
    "uint16",
    "uint16be",
    "uint32",
    "uint32be",
    "uint8",
    "uint8be",
    "wide",
    "xor",
    "defined",
];

/// Represents a parsed YARA rule.
///
/// This structure stores the rule name and the contents of the
/// `meta` and `strings` sections.
pub struct YaraRule {
    /// The name of the YARA rule.
    pub name: String,
    /// The path to the source file containing the rule.
    pub path: String,
    /// Metadata entries defined in the rule's `meta` section, by key.
    pub meta: HashMap<String, String>,
    /// String definitions defined in the rule's `strings` section, by
    /// string identifier (for example `$a`).
    pub strings: HashMap<String, String>,
}

impl YaraRule {
    /// Creates a new empty YARA rule: the supplied name, an empty path,
    /// and empty `meta` and `strings` collections.
    pub fn new(name: String) -> (r: Self)
        ensures
            r.name@ == name@,
            r.path@ == Seq::<char>::empty(),
            r.meta@ == Map::<String, String>::empty(),
            r.strings@ == Map::<String, String>::empty(),
    {
        Self { name, path: String::new(), meta: HashMap::new(), strings: HashMap::new() }
    }
}

} // verus!
