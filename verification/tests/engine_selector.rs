//! Tests of constant folding, cop selection, the engine and file filters.

use yarlint::config::rule_name_case;
use yarlint::filesystem::{filters::is_yara_extension, is_yara_file};
use yarlint::linter::analysis::const_fold::{
    FoldResult, NumericValue, apply_unit, fold, fold_and, fold_or, literal_value, numeric_value,
};
use yarlint::linter::context::LintContext;
use yarlint::linter::cop::{Category, Cop};
use yarlint::linter::cops::lint::duplicate_meta::LintDuplicateMeta;
use yarlint::linter::cops::naming::rule_name::NamingRuleName;
use yarlint::linter::cops::selector::{
    ConflictingSelectorError, CopSelector, matches_category, matches_specific_cop,
    resolve_enabled_cops,
};
use yarlint::linter::cops::style::rule_name_case::NameCase;
use yarlint::linter::engine::{BuiltinCop, LintEngine};
use yarlint::linter::{default_engine, default_engine_with_tokens};
use yarlint::parser::syntax::condition::ConditionNode;
use yarlint::parser::syntax::expr::NumberUnitType;
use yarlint::parser::syntax::rule_file::RuleFileNode;
use yarlint::parser::syntax::{BinaryOperator, ExprNode, RuleNode, UnaryOperator};

fn binary(left: ExprNode, operator: BinaryOperator, right: ExprNode) -> ExprNode {
    ExprNode::Binary { left: Box::new(left), operator, right: Box::new(right) }
}

fn not(e: ExprNode) -> ExprNode {
    ExprNode::Unary { operator: UnaryOperator::Not, expression: Box::new(e) }
}

fn number(s: &str) -> ExprNode {
    ExprNode::Number(s.to_string())
}

fn ident(s: &str) -> ExprNode {
    ExprNode::Identifier(s.to_string())
}

#[test]
fn fold_literals_groups_and_negation() {
    assert_eq!(fold(&ExprNode::BoolLiteral(true)), FoldResult::Constant(true));
    assert_eq!(fold(&not(ExprNode::BoolLiteral(true))), FoldResult::Constant(false));
    assert_eq!(
        fold(&ExprNode::Group(Box::new(not(not(ExprNode::BoolLiteral(false)))))),
        FoldResult::Constant(false)
    );
    assert_eq!(fold(&ident("filesize")), FoldResult::NotConstant);
    assert_eq!(fold(&ExprNode::Empty), FoldResult::NotConstant);
    assert_eq!(fold(&number("1")), FoldResult::NotConstant);
}

#[test]
fn fold_and_or_short_circuit_on_constants() {
    let t = FoldResult::Constant(true);
    let f = FoldResult::Constant(false);
    let n = FoldResult::NotConstant;
    assert_eq!(fold_and(f, n), f);
    assert_eq!(fold_and(n, f), f);
    assert_eq!(fold_and(t, t), t);
    assert_eq!(fold_and(t, n), n);
    assert_eq!(fold_or(n, t), t);
    assert_eq!(fold_or(f, f), f);
    assert_eq!(fold_or(f, n), n);
    assert_eq!(
        fold(&binary(ident("$a"), BinaryOperator::And, ExprNode::BoolLiteral(false))),
        f
    );
    assert_eq!(fold(&binary(ident("$a"), BinaryOperator::Or, ExprNode::BoolLiteral(true))), t);
}

#[test]
fn fold_compares_numeric_literals() {
    assert_eq!(
        fold(&binary(number("1KB"), BinaryOperator::Equals, number("1024"))),
        FoldResult::Constant(true)
    );
    assert_eq!(
        fold(&binary(number("0x10"), BinaryOperator::LessThan, number("17"))),
        FoldResult::Constant(true)
    );
    assert_eq!(
        fold(&binary(number("2MB"), BinaryOperator::GreaterThanEqual, number("2097153"))),
        FoldResult::Constant(false)
    );
    assert_eq!(
        fold(&binary(number("5"), BinaryOperator::NotEquals, number("5"))),
        FoldResult::Constant(false)
    );
    assert_eq!(
        fold(&binary(ident("filesize"), BinaryOperator::LessThan, number("5"))),
        FoldResult::NotConstant
    );
    assert_eq!(
        fold(&binary(number("18446744073709551615KB"), BinaryOperator::Equals, number("1"))),
        FoldResult::NotConstant
    );
    assert_eq!(
        fold(&binary(number("1"), BinaryOperator::Contains, number("1"))),
        FoldResult::NotConstant
    );
}

#[test]
fn numeric_values_apply_units() {
    assert_eq!(numeric_value(&number("100")), NumericValue::Value(100));
    assert_eq!(numeric_value(&number("100KB")), NumericValue::Value(102400));
    assert_eq!(numeric_value(&number("3MB")), NumericValue::Value(3145728));
    assert_eq!(numeric_value(&number("0x5a4d")), NumericValue::Value(0x5a4d));
    assert_eq!(numeric_value(&number("18446744073709551615")), NumericValue::Value(u64::MAX));
    assert_eq!(numeric_value(&number("18446744073709551616")), NumericValue::Overflow);
    assert_eq!(numeric_value(&number("18014398509481984KB")), NumericValue::Overflow);
    assert_eq!(numeric_value(&ident("filesize")), NumericValue::NotNumeric);
    assert_eq!(literal_value("0x"), NumericValue::NotNumeric);
    assert_eq!(literal_value("KB"), NumericValue::NotNumeric);
    assert_eq!(literal_value("12a"), NumericValue::NotNumeric);
    assert_eq!(apply_unit(2, &Some(NumberUnitType::Kilobyte)), NumericValue::Value(2048));
    assert_eq!(apply_unit(u64::MAX, &Some(NumberUnitType::Megabyte)), NumericValue::Overflow);
    assert_eq!(apply_unit(7, &None), NumericValue::Value(7));
}

#[test]
fn category_names_round_trip() {
    for c in [Category::Lint, Category::Logic, Category::Naming, Category::Performance, Category::Style] {
        assert_eq!(Category::parse(c.as_str()), Some(c));
    }
    assert_eq!(Category::parse("naming"), None);
    assert_eq!(Category::Performance.as_str(), "Performance");
}

#[test]
fn selectors_parse_categories_and_cops() {
    assert_eq!(CopSelector::parse("Naming"), Ok(CopSelector::Category(Category::Naming)));
    assert_eq!(
        CopSelector::parse("Naming/RuleName"),
        Ok(CopSelector::Cop("Naming/RuleName".to_string()))
    );
    assert_eq!(
        CopSelector::parse("bogus"),
        Err("'bogus' is not a known category or a fully qualified cop name (expected Category/CopName)"
            .to_string())
    );
    let parsed: CopSelector = "Style".parse().unwrap();
    assert_eq!(parsed, CopSelector::Category(Category::Style));
}

#[test]
fn selector_matching() {
    let by_name = CopSelector::Cop("Naming/RuleName".to_string());
    let by_category = CopSelector::Category(Category::Naming);
    assert!(matches_specific_cop(&by_name, &NamingRuleName));
    assert!(!matches_specific_cop(&by_category, &NamingRuleName));
    assert!(matches_category(&by_category, &NamingRuleName));
    assert!(!matches_category(&by_name, &NamingRuleName));
    assert!(!matches_category(&by_category, &LintDuplicateMeta));
}

fn names(cops: &[&BuiltinCop]) -> Vec<String> {
    cops.iter().map(|c| c.qualified_name()).collect()
}

#[test]
fn resolve_enabled_cops_applies_only_and_except() {
    let engine = default_engine();
    let all: Vec<&BuiltinCop> = engine.cops().iter().collect();

    let everything = resolve_enabled_cops(&all, &[], &[]).unwrap();
    assert_eq!(everything.len(), 15);

    let naming = resolve_enabled_cops(&all, &[CopSelector::Category(Category::Naming)], &[])
        .unwrap();
    assert_eq!(
        names(&naming),
        vec!["Naming/DescriptiveMeta", "Naming/RuleNameLength", "Naming/RuleName"]
    );

    let without = resolve_enabled_cops(
        &all,
        &[CopSelector::Category(Category::Naming)],
        &[CopSelector::Cop("Naming/RuleName".to_string())],
    )
    .unwrap();
    assert_eq!(names(&without), vec!["Naming/DescriptiveMeta", "Naming/RuleNameLength"]);

    let overridden = resolve_enabled_cops(
        &all,
        &[CopSelector::Cop("Lint/DuplicateMeta".to_string())],
        &[CopSelector::Category(Category::Lint)],
    )
    .unwrap();
    assert_eq!(names(&overridden), vec!["Lint/DuplicateMeta"]);

    let except_style = resolve_enabled_cops(&all, &[], &[CopSelector::Category(Category::Style)])
        .unwrap();
    assert_eq!(except_style.len(), 10);
}

#[test]
fn resolve_enabled_cops_rejects_a_cop_in_both_lists() {
    let engine = default_engine();
    let all: Vec<&BuiltinCop> = engine.cops().iter().collect();
    let result = resolve_enabled_cops(
        &all,
        &[CopSelector::Cop("Naming/RuleName".to_string())],
        &[CopSelector::Cop("Naming/RuleName".to_string())],
    );
    assert_eq!(result.err(), Some(ConflictingSelectorError("Naming/RuleName".to_string())));
}

fn sample_file() -> RuleFileNode {
    RuleFileNode {
        imports: Vec::new(),
        rules: vec![RuleNode {
            name: "bad-name".to_string(),
            is_global: false,
            is_private: false,
            tags: Vec::new(),
            meta: Vec::new(),
            strings: Vec::new(),
            condition: ConditionNode { expression: ExprNode::BoolLiteral(true) },
        }],
    }
}

#[test]
fn engine_runs_cops_in_registration_order() {
    let f = sample_file();
    let context = LintContext { file: &f };
    let mut engine = LintEngine::new();
    assert!(engine.run(&context).is_empty());
    engine.register(BuiltinCop::RuleName(NamingRuleName));
    engine.register(BuiltinCop::DuplicateMeta(LintDuplicateMeta));
    assert_eq!(engine.cops().len(), 2);
    let findings = engine.run(&context);
    assert_eq!(findings.len(), 1);
    assert_eq!(findings[0].rule, "RuleName");

    let engine = default_engine_with_tokens(Vec::new());
    let all: Vec<&BuiltinCop> = engine.cops().iter().collect();
    let run_all = engine.run(&context);
    let selected = engine.run_selected(&context, &all);
    let pairs = |v: &Vec<yarlint::linter::finding::Finding>| {
        v.iter().map(|f| (f.rule, f.message.clone())).collect::<Vec<_>>()
    };
    assert_eq!(pairs(&run_all), pairs(&selected));
    let rules: Vec<&str> = run_all.iter().map(|f| f.rule).collect();
    assert_eq!(
        rules,
        vec![
            "EmptyStringsBlock",
            "ConstantCondition",
            "RuleName",
            "RuleNameCase",
            "MissingRequiredMeta",
            "MissingRequiredMeta",
            "MissingRequiredMeta",
            "MissingRequiredMeta",
        ]
    );
    let only_logic = engine.run_selected(&context, &all[4..5]);
    assert_eq!(only_logic.len(), 1);
    assert_eq!(only_logic[0].message, "The condition in rule bad-name results in a unilateral true");
}

#[test]
fn default_engine_is_default() {
    let engine = LintEngine::default();
    assert!(engine.cops().is_empty());
    assert_eq!(rule_name_case(), NameCase::PascalCase);
}

#[test]
fn yara_files_are_recognized_by_extension() {
    assert!(is_yara_file("rules/a.yar"));
    assert!(is_yara_file("b.yara"));
    assert!(!is_yara_file("c.txt"));
    assert!(!is_yara_file("yar"));
    assert!(!is_yara_file(".yar"));
    assert!(!is_yara_file("d.YAR"));
    assert!(!is_yara_file("e.yar.bak"));
    assert!(is_yara_extension(Some("yara")));
    assert!(!is_yara_extension(None));
}

#[test]
fn running_two_selections_concatenates_their_findings() {
    let f = sample_file();
    let context = LintContext { file: &f };
    let engine = default_engine();
    let all: Vec<&BuiltinCop> = engine.cops().iter().collect();
    let whole: Vec<String> = engine.run(&context).into_iter().map(|f| f.message).collect();
    let mut parts: Vec<String> =
        engine.run_selected(&context, &all[..7]).into_iter().map(|f| f.message).collect();
    parts.extend(engine.run_selected(&context, &all[7..]).into_iter().map(|f| f.message));
    assert_eq!(whole, parts);
}

#[test]
fn default_engine_holds_every_builtin_cop_once() {
    let engine = default_engine();
    let names: Vec<String> = engine.cops().iter().map(|c| c.qualified_name()).collect();
    assert_eq!(names.len(), 15);
    assert!(names.contains(&"Performance/Filesize".to_string()));
    let mut unique = names.clone();
    unique.sort();
    unique.dedup();
    assert_eq!(unique.len(), 15);
}

#[test]
fn more_exceptions_never_enable_a_cop() {
    let engine = default_engine();
    let all: Vec<&BuiltinCop> = engine.cops().iter().collect();
    let only = [CopSelector::Category(Category::Naming), CopSelector::Category(Category::Lint)];
    let few = [CopSelector::Cop("Naming/RuleName".to_string())];
    let more = [
        CopSelector::Cop("Naming/RuleName".to_string()),
        CopSelector::Category(Category::Lint),
    ];
    let v1 = names(&resolve_enabled_cops(&all, &only, &few).unwrap());
    let v2 = names(&resolve_enabled_cops(&all, &only, &more).unwrap());
    assert!(v2.iter().all(|c| v1.contains(c)));
    assert_eq!(v2, vec!["Naming/DescriptiveMeta", "Naming/RuleNameLength"]);
}
