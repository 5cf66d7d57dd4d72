//! Lint cop trait.

use vstd::prelude::*;

use crate::linter::{context::LintContext, finding::{Finding, FindingView, findings_view}};
use crate::parser::syntax::rule_file::RuleFileNode;
use crate::text::{owned, str_eq};

verus! {

/// The family a cop belongs to. Mirrors the folder structure under
/// `linter/cops/` (e.g. `Category::Performance` -> `cops/performance/`).
#[derive(Debug, Clone, Copy, PartialEq, Eq, Structural, Hash, PartialOrd, Ord)]
pub enum Category {
    /// Lint Category
    Lint,
    /// Logic Category
    Logic,
    /// Naming Category
    Naming,
    /// Performance Category
    Performance,
    /// Style Category
    Style,
}

/// The name of a category, as it is displayed and as selectors spell it.
pub open spec fn category_name(c: Category) -> Seq<char> {
    match c {
        Category::Lint => "Lint"@,
        Category::Logic => "Logic"@,
        Category::Naming => "Naming"@,
        Category::Performance => "Performance"@,
        Category::Style => "Style"@,
    }
}

/// The category whose name is `s`, if any.
pub open spec fn spec_parse_category(s: Seq<char>) -> Option<Category> {
    if s == "Lint"@ {
        Some(Category::Lint)
    } else if s == "Logic"@ {
        Some(Category::Logic)
    } else if s == "Naming"@ {
        Some(Category::Naming)
    } else if s == "Performance"@ {
        Some(Category::Performance)
    } else if s == "Style"@ {
        Some(Category::Style)
    } else {
        None
    }
}

impl Category {
    /// The category's display name, e.g. `"Performance"`.
    pub fn as_str(&self) -> (r: &'static str)
        ensures
            r@ == category_name(*self),
    {
        match self {
            Category::Lint => "Lint",
            Category::Logic => "Logic",
            Category::Naming => "Naming",
            Category::Performance => "Performance",
            Category::Style => "Style",
        }
    }

    /// The category named `s`: one of `Lint`, `Logic`, `Naming`,
    /// `Performance`, `Style`, matched exactly.
    pub fn parse(s: &str) -> (r: Option<Category>)
        ensures
            r == spec_parse_category(s@),
    {
        if str_eq(s, "Lint") {
            Some(Category::Lint)
        } else if str_eq(s, "Logic") {
            Some(Category::Logic)
        } else if str_eq(s, "Naming") {
            Some(Category::Naming)
        } else if str_eq(s, "Performance") {
            Some(Category::Performance)
        } else if str_eq(s, "Style") {
            Some(Category::Style)
        } else {
            None
        }
    }
}

/// The fully qualified name of a cop: `Category/Name`.
pub open spec fn qualified(category: Category, name: Seq<char>) -> Seq<char> {
    category_name(category) + "/"@ + name
}

/// Trait implemented by all lint cops.
pub trait Cop {
    /// The cop's bare name.
    spec fn spec_name(&self) -> Seq<char>;

    /// The cop's category.
    spec fn spec_category(&self) -> Category;

    /// The findings the cop reports on a file.
    spec fn spec_check(&self, file: &RuleFileNode) -> Seq<FindingView>;

    /// The cop's bare name, without its category prefix, e.g.
    /// `"DuplicateString"` for the cop in `lint/duplicate_string.rs`.
    fn name(&self) -> (r: &'static str)
        ensures
            r@ == self.spec_name(),
    ;

    /// The cop's category. Should match the folder the cop's implementation
    /// file lives in under `linter/cops/`.
    fn category(&self) -> (c: Category)
        ensures
            c == self.spec_category(),
    ;

    /// The fully qualified id, e.g. `"Performance/WideStringWithoutAscii"`.
    fn qualified_name(&self) -> (r: String)
        ensures
            r@ == qualified(self.spec_category(), self.spec_name()),
    {
        let c = self.category();
        let mut s = owned(c.as_str());
        s.append("/");
        s.append(self.name());
        s
    }

    /// Executes the cop: appends to `findings` a finding for each place in
    /// the file that does not comply with the cop.
    fn check(&self, context: &LintContext, findings: &mut Vec<Finding>)
        ensures
            findings_view(final(findings)@) == findings_view(old(findings)@) + self.spec_check(
                context.file,
            ),
    ;
}

} // verus!
