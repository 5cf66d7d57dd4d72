//! Selector is in charge of deciding which cops run in a scan.

use vstd::prelude::*;

use crate::linter::cop::{Category, Cop, qualified, spec_parse_category};
use crate::linter::cops::naming::rule_name::contains_char;
use crate::text::{owned, str_eq};

verus! {

/// A selector naming either a whole category or one specific cop,
/// as accepted by --only / --except.
#[derive(Debug, Clone, PartialEq, Eq)]
pub enum CopSelector {
    /// Cop Category
    Category(Category),
    /// Singular fully qualified cop name
    Cop(String),
}

/// The mathematical value of a [`CopSelector`].
pub enum CopSelectorView {
    /// A whole category.
    Category(Category),
    /// One cop, by its fully qualified name.
    Cop(Seq<char>),
}

impl View for CopSelector {
    type V = CopSelectorView;

    open spec fn view(&self) -> CopSelectorView {
        match self {
            CopSelector::Category(c) => CopSelectorView::Category(*c),
            CopSelector::Cop(name) => CopSelectorView::Cop(name@),
        }
    }
}

/// The message for text that names neither a category nor a cop.
pub open spec fn selector_error_message(s: Seq<char>) -> Seq<char> {
    "'"@ + s + "' is not a known category or a fully qualified cop name (expected Category/CopName)"@
}

/// The selector that `s` spells: a category by its exact name, otherwise a
/// cop if `s` holds a `/`; any other text is refused.
pub open spec fn spec_parse_selector(s: Seq<char>) -> Result<CopSelectorView, Seq<char>> {
    match spec_parse_category(s) {
        Some(c) => Ok(CopSelectorView::Category(c)),
        None => if s.contains('/') {
            Ok(CopSelectorView::Cop(s))
        } else {
            Err(selector_error_message(s))
        },
    }
}

impl CopSelector {
    /// Reads a selector from its text, as `--only` and `--except` accept
    /// it: a category name (e.g. `Naming`) or a fully qualified cop name
    /// (e.g. `Naming/RuleName`).
    pub fn parse(s: &str) -> (r: Result<CopSelector, String>)
        ensures
            match spec_parse_selector(s@) {
                Ok(v) => r matches Ok(x) && x@ == v,
                Err(m) => r matches Err(x) && x@ == m,
            },
    {
        match Category::parse(s) {
            Some(category) => Ok(CopSelector::Category(category)),
            None => {
                if contains_char(s, '/') {
                    Ok(CopSelector::Cop(owned(s)))
                } else {
                    let mut m = owned("'");
                    m.append(s);
                    m.append(
                        "' is not a known category or a fully qualified cop name (expected Category/CopName)",
                    );
                    Err(m)
                }
            },
        }
    }
}

impl std::str::FromStr for CopSelector {
    type Err = String;

    fn from_str(s: &str) -> (r: Result<Self, Self::Err>)
        ensures
            match spec_parse_selector(s@) {
                Ok(v) => r matches Ok(x) && x@ == v,
                Err(m) => r matches Err(x) && x@ == m,
            },
    {
        CopSelector::parse(s)
    }
}

/// Whether a selector names the cop with category `category` and name
/// `name` specifically.
pub open spec fn selects_cop(s: CopSelectorView, category: Category, name: Seq<char>) -> bool {
    match s {
        CopSelectorView::Cop(n) => n == qualified(category, name),
        CopSelectorView::Category(_) => false,
    }
}

/// Whether a selector names the category `category`.
pub open spec fn selects_category(s: CopSelectorView, category: Category) -> bool {
    match s {
        CopSelectorView::Category(c) => c == category,
        CopSelectorView::Cop(_) => false,
    }
}

/// Whether some selector of a list names the cop specifically.
pub open spec fn any_selects_cop(
    selectors: Seq<CopSelector>,
    category: Category,
    name: Seq<char>,
) -> bool {
    exists|i: int|
        0 <= i < selectors.len() && selects_cop((#[trigger] selectors[i])@, category, name)
}

/// Whether some selector of a list names the category.
pub open spec fn any_selects_category(selectors: Seq<CopSelector>, category: Category) -> bool {
    exists|i: int| 0 <= i < selectors.len() && selects_category((#[trigger] selectors[i])@, category)
}

/// Whether a cop runs: a selector naming it specifically decides outright,
/// `--except` first; otherwise a category in `--except` disables it, and
/// it runs if `--only` is empty or names its category.
pub open spec fn cop_enabled(
    only: Seq<CopSelector>,
    except: Seq<CopSelector>,
    category: Category,
    name: Seq<char>,
) -> bool {
    if any_selects_cop(except, category, name) {
        false
    } else if any_selects_cop(only, category, name) {
        true
    } else if any_selects_category(except, category) {
        false
    } else {
        only.len() == 0 || any_selects_category(only, category)
    }
}

/// Whether both lists name the cop specifically.
pub open spec fn cop_conflicts(
    only: Seq<CopSelector>,
    except: Seq<CopSelector>,
    category: Category,
    name: Seq<char>,
) -> bool {
    any_selects_cop(only, category, name) && any_selects_cop(except, category, name)
}

/// The first of the first `n` cops that both lists name specifically, or
/// `-1`.
pub open spec fn first_conflict<C: Cop>(
    cops: Seq<&C>,
    only: Seq<CopSelector>,
    except: Seq<CopSelector>,
    n: int,
) -> int
    decreases n,
{
    if n <= 0 {
        -1
    } else if first_conflict(cops, only, except, n - 1) >= 0 {
        first_conflict(cops, only, except, n - 1)
    } else if cop_conflicts(only, except, cops[n - 1].spec_category(), cops[n - 1].spec_name()) {
        n - 1
    } else {
        -1
    }
}

/// The enabled cops among the first `n`, in their order.
pub open spec fn enabled_upto<C: Cop>(
    cops: Seq<&C>,
    only: Seq<CopSelector>,
    except: Seq<CopSelector>,
    n: int,
) -> Seq<&C>
    decreases n,
{
    if n <= 0 {
        Seq::empty()
    } else if cop_enabled(only, except, cops[n - 1].spec_category(), cops[n - 1].spec_name()) {
        enabled_upto(cops, only, except, n - 1).push(cops[n - 1])
    } else {
        enabled_upto(cops, only, except, n - 1)
    }
}

/// What resolving the enabled cops gives: the fully qualified name of the
/// first cop that both lists name specifically, or else the enabled cops
/// in their order.
pub open spec fn spec_resolve<C: Cop>(
    cops: Seq<&C>,
    only: Seq<CopSelector>,
    except: Seq<CopSelector>,
) -> Result<Seq<&C>, Seq<char>> {
    let k = first_conflict(cops, only, except, cops.len() as int);
    if k >= 0 {
        Err(qualified(cops[k].spec_category(), cops[k].spec_name()))
    } else {
        Ok(enabled_upto(cops, only, except, cops.len() as int))
    }
}

/// Returns true if it can match a CopSelector to an existing Cop
pub fn matches_specific_cop<C: Cop>(selector: &CopSelector, cop: &C) -> (b: bool)
    ensures
        b == selects_cop(selector@, cop.spec_category(), cop.spec_name()),
{
    match selector {
        CopSelector::Cop(name) => {
            let q = cop.qualified_name();
            str_eq(name.as_str(), q.as_str())
        },
        CopSelector::Category(_) => false,
    }
}

/// Returns true if it can match a CopSelector to an existing Category
pub fn matches_category<C: Cop>(selector: &CopSelector, cop: &C) -> (b: bool)
    ensures
        b == selects_category(selector@, cop.spec_category()),
{
    match selector {
        CopSelector::Category(c) => *c == cop.category(),
        CopSelector::Cop(_) => false,
    }
}

/// Whether some selector of `selectors` names `cop` specifically.
fn any_matches_specific_cop<C: Cop>(selectors: &[CopSelector], cop: &C) -> (b: bool)
    ensures
        b == any_selects_cop(selectors@, cop.spec_category(), cop.spec_name()),
{
    let mut i: usize = 0;
    while i < selectors.len()
        invariant
            i <= selectors@.len(),
            forall|k: int|
                0 <= k < i ==> !selects_cop(
                    (#[trigger] selectors@[k])@,
                    cop.spec_category(),
                    cop.spec_name(),
                ),
        decreases selectors.len() - i,
    {
        if matches_specific_cop(&selectors[i], cop) {
            return true;
        }
        i += 1;
    }
    false
}

/// Whether some selector of `selectors` names the category of `cop`.
fn any_matches_category<C: Cop>(selectors: &[CopSelector], cop: &C) -> (b: bool)
    ensures
        b == any_selects_category(selectors@, cop.spec_category()),
{
    let mut i: usize = 0;
    while i < selectors.len()
        invariant
            i <= selectors@.len(),
            forall|k: int|
                0 <= k < i ==> !selects_category((#[trigger] selectors@[k])@, cop.spec_category()),
        decreases selectors.len() - i,
    {
        if matches_category(&selectors[i], cop) {
            return true;
        }
        i += 1;
    }
    false
}

/// Error returned when the same specific cop appears in both --only and --except.
#[derive(Debug, PartialEq, Eq)]
pub struct ConflictingSelectorError(pub String);

/// Resolved the enabled cops
///
/// Takes the enabled cops, the cops/categories that are excepted, and the
/// cops/categories that are only allowed to run, and creates a list of cops to
/// use in the scan.
pub fn resolve_enabled_cops<'a, C: Cop>(
    all_cops: &[&'a C],
    only: &[CopSelector],
    except: &[CopSelector],
) -> (r: Result<Vec<&'a C>, ConflictingSelectorError>)
    ensures
        match spec_resolve(all_cops@, only@, except@) {
            Ok(v) => r matches Ok(x) && x@ == v,
            Err(name) => r matches Err(e) && e.0@ == name,
        },
{
    // Reject the same specific cop appearing in both lists outright,
    // rather than letting one silently win.
    let mut i: usize = 0;
    while i < all_cops.len()
        invariant
            i <= all_cops@.len(),
            first_conflict(all_cops@, only@, except@, i as int) == -1,
        decreases all_cops.len() - i,
    {
        let cop = all_cops[i];
        let in_only = any_matches_specific_cop(only, cop);
        let in_except = any_matches_specific_cop(except, cop);
        if in_only && in_except {
            proof {
                lemma_first_conflict_stable(all_cops@, only@, except@, i + 1);
            }
            return Err(ConflictingSelectorError(cop.qualified_name()));
        }
        i += 1;
    }
    let mut enabled: Vec<&'a C> = Vec::new();
    let mut i: usize = 0;
    while i < all_cops.len()
        invariant
            i <= all_cops@.len(),
            first_conflict(all_cops@, only@, except@, all_cops@.len() as int) == -1,
            enabled@ == enabled_upto(all_cops@, only@, except@, i as int),
        decreases all_cops.len() - i,
    {
        let cop = all_cops[i];
        // A specific-cop selector, on either list, decides outright.
        let keep = if any_matches_specific_cop(except, cop) {
            false
        } else if any_matches_specific_cop(only, cop) {
            true
        } else if any_matches_category(except, cop) {
            // No specific selector applies, fall back to category level.
            false
        } else {
            only.len() == 0 || any_matches_category(only, cop)
        };
        if keep {
            enabled.push(cop);
        }
        i += 1;
    }
    Ok(enabled)
}

/// Once a conflict is found among the first `n` cops, the first conflict
/// among all of them is that one.
proof fn lemma_first_conflict_stable<C: Cop>(
    cops: Seq<&C>,
    only: Seq<CopSelector>,
    except: Seq<CopSelector>,
    n: int,
)
    requires
        0 <= n <= cops.len(),
        first_conflict(cops, only, except, n) >= 0,
    ensures
        first_conflict(cops, only, except, cops.len() as int) == first_conflict(
            cops,
            only,
            except,
            n,
        ),
    decreases cops.len() - n,
{
    if n < cops.len() {
        lemma_first_conflict_stable(cops, only, except, n + 1);
    }
}

/// The enabled cops among the first `n` are exactly those of the first `n`
/// cops that the selectors enable.
proof fn lemma_enabled_upto_members<C: Cop>(
    cops: Seq<&C>,
    only: Seq<CopSelector>,
    except: Seq<CopSelector>,
    n: int,
)
    requires
        0 <= n <= cops.len(),
    ensures
        forall|j: int|
            0 <= j < enabled_upto(cops, only, except, n).len() ==> {
                let c = #[trigger] enabled_upto(cops, only, except, n)[j];
                &&& cop_enabled(only, except, c.spec_category(), c.spec_name())
                &&& cops.take(n).contains(c)
            },
        forall|i: int|
            0 <= i < n && cop_enabled(
                only,
                except,
                (#[trigger] cops[i]).spec_category(),
                cops[i].spec_name(),
            ) ==> enabled_upto(cops, only, except, n).contains(cops[i]),
    decreases n,
{
    if n > 0 {
        lemma_enabled_upto_members(cops, only, except, n - 1);
        let prev = enabled_upto(cops, only, except, n - 1);
        let cur = enabled_upto(cops, only, except, n);
        assert forall|j: int| 0 <= j < cur.len() implies {
            let c = #[trigger] cur[j];
            &&& cop_enabled(only, except, c.spec_category(), c.spec_name())
            &&& cops.take(n).contains(c)
        } by {
            if j < prev.len() {
                assert(cur[j] == prev[j]);
                let c = prev[j];
                assert(cops.take(n - 1).contains(c));
                let t = cops.take(n - 1);
                let k = choose|k: int| 0 <= k < t.len() && #[trigger] t[k] == c;
                assert(cops.take(n)[k] == c);
            } else {
                assert(cops.take(n)[n - 1] == cops[n - 1]);
            }
        }
        assert forall|i: int|
            0 <= i < n && cop_enabled(
                only,
                except,
                (#[trigger] cops[i]).spec_category(),
                cops[i].spec_name(),
            ) implies cur.contains(cops[i]) by {
            if i < n - 1 {
                let k = choose|k: int| 0 <= k < prev.len() && #[trigger] prev[k] == cops[i];
                assert(cur[k] == prev[k]);
            } else {
                assert(cur[cur.len() - 1] == cops[i]);
            }
        }
    }
}

/// The first conflict is one, and there is none before it; with none at
/// all, no cop conflicts.
proof fn lemma_first_conflict_spec<C: Cop>(
    cops: Seq<&C>,
    only: Seq<CopSelector>,
    except: Seq<CopSelector>,
    n: int,
)
    requires
        0 <= n <= cops.len(),
    ensures
        first_conflict(cops, only, except, n) >= 0 ==> {
            let k = first_conflict(cops, only, except, n);
            &&& k < n
            &&& cop_conflicts(only, except, cops[k].spec_category(), cops[k].spec_name())
        },
        first_conflict(cops, only, except, n) < 0 ==> forall|i: int|
            0 <= i < n ==> !cop_conflicts(
                only,
                except,
                (#[trigger] cops[i]).spec_category(),
                cops[i].spec_name(),
            ),
    decreases n,
{
    if n > 0 {
        lemma_first_conflict_spec(cops, only, except, n - 1);
    }
}

/// Resolving fails exactly when some cop is named specifically in both
/// `--only` and `--except`, and then the error names such a cop.
pub proof fn lemma_resolve_fails_iff_conflict<C: Cop>(
    cops: Seq<&C>,
    only: Seq<CopSelector>,
    except: Seq<CopSelector>,
)
    ensures
        spec_resolve(cops, only, except) is Err <==> exists|i: int|
            0 <= i < cops.len() && cop_conflicts(
                only,
                except,
                (#[trigger] cops[i]).spec_category(),
                cops[i].spec_name(),
            ),
        spec_resolve(cops, only, except) matches Err(name) ==> exists|i: int|
            0 <= i < cops.len() && cop_conflicts(
                only,
                except,
                (#[trigger] cops[i]).spec_category(),
                cops[i].spec_name(),
            ) && name == qualified(cops[i].spec_category(), cops[i].spec_name()),
{
    lemma_first_conflict_spec(cops, only, except, cops.len() as int);
}

/// When resolving succeeds, the enabled cops are exactly the cops that the
/// selectors enable: each is one of the given cops and is enabled, and
/// each enabled cop is among them.
pub proof fn lemma_resolve_selects_enabled<C: Cop>(
    cops: Seq<&C>,
    only: Seq<CopSelector>,
    except: Seq<CopSelector>,
)
    ensures
        spec_resolve(cops, only, except) matches Ok(v) ==> {
            &&& forall|j: int|
                0 <= j < v.len() ==> cops.contains(#[trigger] v[j]) && cop_enabled(
                    only,
                    except,
                    v[j].spec_category(),
                    v[j].spec_name(),
                )
            &&& forall|i: int|
                0 <= i < cops.len() && cop_enabled(
                    only,
                    except,
                    (#[trigger] cops[i]).spec_category(),
                    cops[i].spec_name(),
                ) ==> v.contains(cops[i])
        },
{
    lemma_enabled_upto_members(cops, only, except, cops.len() as int);
    assert(cops.take(cops.len() as int) =~= cops);
}

/// A cop that `--except` names specifically never runs.
pub proof fn lemma_excepted_cop_never_enabled<C: Cop>(
    cops: Seq<&C>,
    only: Seq<CopSelector>,
    except: Seq<CopSelector>,
    category: Category,
    name: Seq<char>,
)
    requires
        any_selects_cop(except, category, name),
    ensures
        spec_resolve(cops, only, except) matches Ok(v) ==> forall|j: int|
            0 <= j < v.len() ==> !((#[trigger] v[j]).spec_category() == category
                && v[j].spec_name() == name),
{
    lemma_resolve_selects_enabled(cops, only, except);
}

/// A cop that `--only` names specifically runs, unless `--except` names it
/// too, even where `--except` names its category.
pub proof fn lemma_specific_only_overrides_category<C: Cop>(
    cops: Seq<&C>,
    only: Seq<CopSelector>,
    except: Seq<CopSelector>,
    i: int,
)
    requires
        0 <= i < cops.len(),
        any_selects_cop(only, cops[i].spec_category(), cops[i].spec_name()),
        !any_selects_cop(except, cops[i].spec_category(), cops[i].spec_name()),
    ensures
        spec_resolve(cops, only, except) matches Ok(v) ==> v.contains(cops[i]),
{
    lemma_resolve_selects_enabled(cops, only, except);
}

/// With neither `--only` nor `--except`, every cop runs, in its order.
pub proof fn lemma_no_selectors_enable_all<C: Cop>(cops: Seq<&C>)
    ensures
        spec_resolve(cops, Seq::empty(), Seq::empty()) == Ok::<Seq<&C>, Seq<char>>(cops),
{
    lemma_all_enabled_upto(cops, cops.len() as int);
    lemma_first_conflict_spec(cops, Seq::empty(), Seq::empty(), cops.len() as int);
    assert(first_conflict(cops, Seq::empty(), Seq::empty(), cops.len() as int) < 0);
    assert(cops.take(cops.len() as int) =~= cops);
}

/// With no selectors, the enabled cops among the first `n` are those `n`.
proof fn lemma_all_enabled_upto<C: Cop>(cops: Seq<&C>, n: int)
    requires
        0 <= n <= cops.len(),
    ensures
        enabled_upto(cops, Seq::empty(), Seq::empty(), n) == cops.take(n),
        first_conflict(cops, Seq::empty(), Seq::empty(), n) == -1,
    decreases n,
{
    if n > 0 {
        lemma_all_enabled_upto(cops, n - 1);
        assert(cops.take(n) =~= cops.take(n - 1).push(cops[n - 1]));
    } else {
        assert(cops.take(0) =~= Seq::<&C>::empty());
    }
}

/// Whether every selector of `a` also occurs in `b`.
pub open spec fn selectors_within(a: Seq<CopSelector>, b: Seq<CopSelector>) -> bool {
    forall|i: int|
        0 <= i < a.len() ==> exists|j: int| 0 <= j < b.len() && (#[trigger] b[j])@ == (
        #[trigger] a[i])@
}

/// A cop that more `--except` selectors enable is enabled by fewer too.
proof fn lemma_enabled_with_fewer_exceptions(
    only: Seq<CopSelector>,
    except1: Seq<CopSelector>,
    except2: Seq<CopSelector>,
    category: Category,
    name: Seq<char>,
)
    requires
        selectors_within(except1, except2),
        cop_enabled(only, except2, category, name),
    ensures
        cop_enabled(only, except1, category, name),
{
    if any_selects_cop(except1, category, name) {
        let i = choose|i: int|
            0 <= i < except1.len() && selects_cop((#[trigger] except1[i])@, category, name);
        let j = choose|j: int| 0 <= j < except2.len() && (#[trigger] except2[j])@ == except1[i]@;
        assert(selects_cop(except2[j]@, category, name));
    }
    if !any_selects_cop(only, category, name) && any_selects_category(except1, category) {
        let i = choose|i: int|
            0 <= i < except1.len() && selects_category((#[trigger] except1[i])@, category);
        let j = choose|j: int| 0 <= j < except2.len() && (#[trigger] except2[j])@ == except1[i]@;
        assert(selects_category(except2[j]@, category));
    }
}

/// Adding selectors to `--except` never enables a cop: every cop that runs
/// with the larger list also runs with the smaller one.
pub proof fn lemma_more_exceptions_enable_no_cop<C: Cop>(
    cops: Seq<&C>,
    only: Seq<CopSelector>,
    except1: Seq<CopSelector>,
    except2: Seq<CopSelector>,
)
    requires
        selectors_within(except1, except2),
    ensures
        (spec_resolve(cops, only, except1), spec_resolve(cops, only, except2)) matches (
            Ok(v1),
            Ok(v2),
        ) ==> forall|j: int| 0 <= j < v2.len() ==> v1.contains(#[trigger] v2[j]),
{
    lemma_resolve_selects_enabled(cops, only, except1);
    lemma_resolve_selects_enabled(cops, only, except2);
    if let (Ok(v1), Ok(v2)) = (
        spec_resolve(cops, only, except1),
        spec_resolve(cops, only, except2),
    ) {
        assert forall|j: int| 0 <= j < v2.len() implies v1.contains(#[trigger] v2[j]) by {
            let c = v2[j];
            assert(cops.contains(c));
            let i = choose|i: int| 0 <= i < cops.len() && #[trigger] cops[i] == c;
            lemma_enabled_with_fewer_exceptions(
                only,
                except1,
                except2,
                c.spec_category(),
                c.spec_name(),
            );
            assert(cop_enabled(only, except1, cops[i].spec_category(), cops[i].spec_name()));
        }
    }
}

} // verus!
