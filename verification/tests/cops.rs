//! Tests of the built-in cops on small rule files.

use yarlint::linter::context::LintContext;
use yarlint::linter::cop::{Category, Cop};
use yarlint::linter::cops::lint::duplicate_meta::LintDuplicateMeta;
use yarlint::linter::cops::lint::duplicate_string::LintDuplicateString;
use yarlint::linter::cops::lint::empty_string::LintEmptyString;
use yarlint::linter::cops::lint::empty_string_block::LintEmptyStringBlock;
use yarlint::linter::cops::lint::empty_strings_block::LintEmptyStringsBlock;
use yarlint::linter::cops::logic::constant_condition::LogicConstantCondition;
use yarlint::linter::cops::naming::rule_name::NamingRuleName;
use yarlint::linter::cops::performance::filesize::PerformanceFilesize;
use yarlint::linter::cops::performance::wide_string_without_ascii::PerformanceWideStringWithoutAscii;
use yarlint::linter::cops::style::condition_spacing::{
    StyleConditionSpacing, find_spacing_offenses, has_single_space_between, operator, token_width,
};
use yarlint::linter::cops::style::is_pascal_case;
use yarlint::linter::cops::style::meta_keys_order::StyleMetaKeysOrder;
use yarlint::linter::cops::style::missing_required_meta::StyleMissingRequiredMeta;
use yarlint::linter::cops::style::rule_name_case::{NameCase, StyleRuleNameCase, strip_version_suffix};
use yarlint::linter::cops::style::string_identifier::StyleStringIdentifier;
use yarlint::linter::finding::{Finding, Severity};
use yarlint::linter::rule::Rule;
use yarlint::linter::rules::lint::duplicate_meta::LintDuplicateMeta as RuleDuplicateMeta;
use yarlint::linter::rules::naming::descriptive_meta::NamingDescriptiveMeta;
use yarlint::linter::rules::naming::rule_name_length::NamingRuleNameLength;
use yarlint::linter::rules::style::missing_required_meta::StyleMissingRequiredMeta as RuleMissingRequiredMeta;
use yarlint::parser::span::Span;
use yarlint::parser::syntax::condition::ConditionNode;
use yarlint::parser::syntax::hex::{HexExprNode, HexNode};
use yarlint::parser::syntax::rule_file::RuleFileNode;
use yarlint::parser::syntax::strings::StringType;
use yarlint::parser::syntax::{
    BinaryOperator, ExprNode, MetaEntryNode, MetaValue, RuleNode, StringModifier, StringNode,
    UnaryOperator,
};
use yarlint::parser::token::{Token, TokenType};

fn meta(key: &str, value: &str) -> MetaEntryNode {
    MetaEntryNode { key: key.to_string(), value: MetaValue::String(value.to_string()) }
}

fn text(identifier: &str, value: &str, modifiers: Vec<StringModifier>) -> StringNode {
    StringNode {
        identifier: identifier.to_string(),
        value: StringType::Text(value.to_string()),
        modifiers,
    }
}

fn rule(name: &str) -> RuleNode {
    RuleNode {
        name: name.to_string(),
        is_global: false,
        is_private: false,
        tags: Vec::new(),
        meta: Vec::new(),
        strings: Vec::new(),
        condition: ConditionNode { expression: ExprNode::Identifier("$a".to_string()) },
    }
}

fn file(rules: Vec<RuleNode>) -> RuleFileNode {
    RuleFileNode { imports: Vec::new(), rules }
}

fn run_cop<C: Cop>(cop: &C, f: &RuleFileNode) -> Vec<Finding> {
    let context = LintContext { file: f };
    let mut findings = Vec::new();
    cop.check(&context, &mut findings);
    findings
}

fn run_rule<R: Rule>(r: &R, f: &RuleFileNode) -> Vec<Finding> {
    let context = LintContext { file: f };
    let mut findings = Vec::new();
    r.check(&context, &mut findings);
    findings
}

fn messages(findings: &[Finding]) -> Vec<String> {
    findings.iter().map(|f| f.message.clone()).collect()
}

fn binary(left: ExprNode, operator: BinaryOperator, right: ExprNode) -> ExprNode {
    ExprNode::Binary { left: Box::new(left), operator, right: Box::new(right) }
}

fn number(s: &str) -> ExprNode {
    ExprNode::Number(s.to_string())
}

#[test]
fn is_pascal_case_accepts_and_rejects() {
    assert!(is_pascal_case("FooBar1"));
    assert!(!is_pascal_case("fooBar"));
    assert!(!is_pascal_case("Foo_Bar"));
    assert!(!is_pascal_case(""));
}

#[test]
fn strip_version_suffix_removes_only_numeric_versions() {
    assert_eq!(strip_version_suffix("Foo_v2"), "Foo");
    assert_eq!(strip_version_suffix("Foo_v12"), "Foo");
    assert_eq!(strip_version_suffix("Foo_v"), "Foo_v");
    assert_eq!(strip_version_suffix("Foo_vx"), "Foo_vx");
    assert_eq!(strip_version_suffix("Foo_v1_v2"), "Foo_v1");
    assert_eq!(strip_version_suffix("Foo_v1x"), "Foo_v1x");
}

#[test]
fn duplicate_meta_reports_each_repeated_key() {
    let mut r = rule("Dup");
    r.meta = vec![meta("author", "a"), meta("author", "b"), meta("date", "c"), meta("author", "d")];
    let f = file(vec![r]);
    let findings = run_cop(&LintDuplicateMeta, &f);
    assert_eq!(
        messages(&findings),
        vec![
            "In rule Dup there are two meta values named author.".to_string(),
            "In rule Dup there are two meta values named author.".to_string(),
        ]
    );
    assert_eq!(findings[0].rule, "DuplicateMeta");
    assert_eq!(findings[0].category, Category::Lint);
    assert_eq!(findings[0].severity, Severity::Warning);
    let as_rule = run_rule(&RuleDuplicateMeta, &f);
    assert_eq!(as_rule.len(), 2);
    assert_eq!(as_rule[0].rule, "Lint/DuplicateMeta");
}

#[test]
fn duplicate_string_ignores_modifier_order_but_not_kind() {
    let mut r = rule("Strs");
    r.strings = vec![
        text("$a", "foo", vec![StringModifier::Wide, StringModifier::Ascii]),
        text("$b", "foo", vec![StringModifier::Ascii, StringModifier::Wide]),
        text("$c", "foo", vec![StringModifier::Wide]),
        StringNode {
            identifier: "$d".to_string(),
            value: StringType::RegEx("foo".to_string()),
            modifiers: vec![StringModifier::Wide],
        },
        text("$e", "foo", vec![StringModifier::Wide]),
    ];
    let findings = run_cop(&LintDuplicateString, &file(vec![r]));
    assert_eq!(
        messages(&findings),
        vec![
            "String $b in rule Strs is a duplicate of $a".to_string(),
            "String $e in rule Strs is a duplicate of $c".to_string(),
        ]
    );
}

#[test]
fn duplicate_string_counts_repeated_modifiers() {
    let mut r = rule("Strs");
    r.strings = vec![
        text("$a", "foo", vec![StringModifier::Wide, StringModifier::Wide]),
        text("$b", "foo", vec![StringModifier::Wide]),
    ];
    assert!(run_cop(&LintDuplicateString, &file(vec![r])).is_empty());
}

#[test]
fn empty_string_reports_empty_text_hex_and_regex() {
    let mut r = rule("Empty");
    r.strings = vec![
        text("$a", "", vec![]),
        text("$b", "x", vec![]),
        StringNode {
            identifier: "$c".to_string(),
            value: StringType::Hex(HexNode {
                expression: HexExprNode { atoms: Vec::new() },
                original_string: String::new(),
            }),
            modifiers: vec![],
        },
        StringNode {
            identifier: "$d".to_string(),
            value: StringType::RegEx(String::new()),
            modifiers: vec![],
        },
    ];
    let findings = run_cop(&LintEmptyString, &file(vec![r]));
    assert_eq!(
        messages(&findings),
        vec![
            "String '$a' in rule 'Empty' is empty, consider removing it".to_string(),
            "String '$c' in rule 'Empty' is empty, consider removing it".to_string(),
            "String '$d' in rule 'Empty' is empty, consider removing it".to_string(),
        ]
    );
}

#[test]
fn empty_strings_block_reports_rules_without_strings() {
    let mut with_strings = rule("HasStrings");
    with_strings.strings = vec![text("$a", "x", vec![])];
    let f = file(vec![rule("NoStrings"), with_strings]);
    assert_eq!(
        messages(&run_cop(&LintEmptyStringsBlock, &f)),
        vec!["The strings block in rule NoStrings is empty, consider removing it".to_string()]
    );
    let as_rule = run_rule(&LintEmptyStringBlock, &f);
    assert_eq!(
        messages(&as_rule),
        vec!["The string block in rule NoStrings is empty, consider removing it".to_string()]
    );
    assert_eq!(as_rule[0].rule, "Lint/EmptyStringBlock");
}

#[test]
fn constant_condition_reports_unilateral_results() {
    let mut always_true = rule("AlwaysTrue");
    always_true.condition.expression = ExprNode::BoolLiteral(true);
    let mut always_false = rule("AlwaysFalse");
    always_false.condition.expression = ExprNode::Unary {
        operator: UnaryOperator::Not,
        expression: Box::new(binary(number("1KB"), BinaryOperator::Equals, number("1024"))),
    };
    let depends = rule("Depends");
    let findings = run_cop(&LogicConstantCondition, &file(vec![always_true, always_false, depends]));
    assert_eq!(
        messages(&findings),
        vec![
            "The condition in rule AlwaysTrue results in a unilateral true".to_string(),
            "The condition in rule AlwaysFalse results in a unilateral false".to_string(),
        ]
    );
    assert_eq!(findings[0].category, Category::Logic);
}

#[test]
fn descriptive_meta_normalizes_before_judging() {
    let mut r = rule("Desc");
    r.meta = vec![meta("description", "  TEST  ")];
    let findings = run_rule(&NamingDescriptiveMeta, &file(vec![r]));
    assert_eq!(
        messages(&findings),
        vec![
            "Rule Desc's description tag is a generic placeholder value \"test\"".to_string(),
            "Description value in Desc is shorter than minimum character length (20)".to_string(),
            "Description value in Desc is shorter than minimum word count (5)".to_string(),
        ]
    );
    assert_eq!(findings[0].rule, "Naming/DescriptiveMeta");
}

#[test]
fn descriptive_meta_accepts_a_real_description() {
    let mut r = rule("Desc");
    r.meta = vec![
        meta("description", "Detects the loader stage of a known banking trojan"),
        meta("author", "x"),
    ];
    assert!(run_cop(&NamingDescriptiveMeta, &file(vec![r])).is_empty());
}

#[test]
fn descriptive_meta_counts_words_separated_by_any_whitespace() {
    let mut r = rule("Desc");
    r.meta = vec![meta("description", "one\ttwo\nthree  four five six seven")];
    assert!(run_cop(&NamingDescriptiveMeta, &file(vec![r])).is_empty());
    let mut short = rule("Short");
    short.meta = vec![meta("description", "onee twoo three fourrrrrrrrrr")];
    assert_eq!(
        messages(&run_cop(&NamingDescriptiveMeta, &file(vec![short]))),
        vec!["Description value in Short is shorter than minimum word count (5)".to_string()]
    );
}

#[test]
fn rule_name_length_reports_too_short_and_too_long_names() {
    let long = "A".repeat(81);
    let f = file(vec![rule("Abc"), rule(&long), rule("Abcd"), rule(&"B".repeat(80))]);
    let findings = run_cop(&NamingRuleNameLength, &f);
    assert_eq!(
        messages(&findings),
        vec![
            "The name Abc is shorter than the minimum character length of 4".to_string(),
            format!("The name {} is longer than the maximum character length of 80", long),
        ]
    );
    assert_eq!(run_rule(&NamingRuleNameLength, &f)[0].rule, "Naming/RuleNameLength");
}

#[test]
fn rule_name_reports_dashes() {
    let findings = run_cop(&NamingRuleName, &file(vec![rule("bad-name"), rule("Good")]));
    assert_eq!(messages(&findings), vec!["Rule 'bad-name' contains '-'".to_string()]);
    assert_eq!(findings[0].category, Category::Naming);
}

#[test]
fn filesize_reports_heavy_rules_without_a_bound() {
    let mut wide = rule("Wide");
    wide.strings = vec![text("$a", "x", vec![StringModifier::Wide])];
    let mut bounded = rule("Bounded");
    bounded.strings = vec![text("$a", "x", vec![StringModifier::Wide])];
    bounded.condition.expression = binary(
        ExprNode::Identifier("$a".to_string()),
        BinaryOperator::And,
        ExprNode::FunctionCall {
            name: "f".to_string(),
            arguments: vec![binary(
                ExprNode::Identifier("filesize".to_string()),
                BinaryOperator::LessThan,
                number("1MB"),
            )],
        },
    );
    let mut light = rule("Light");
    light.strings = vec![text("$a", "x", vec![])];
    let findings = run_cop(&PerformanceFilesize, &file(vec![wide, bounded, light]));
    assert_eq!(
        messages(&findings),
        vec![
            "Rule 'Wide' uses a wide or regex string but has no `filesize` bound in its condition. Consider adding `and filesize < NMB` to limit scan scope."
                .to_string()
        ]
    );
}

#[test]
fn wide_string_without_ascii_skips_hex_and_ascii() {
    let mut r = rule("W");
    r.strings = vec![
        text("$a", "x", vec![StringModifier::Wide]),
        text("$b", "x", vec![StringModifier::Wide, StringModifier::Ascii]),
        StringNode {
            identifier: "$c".to_string(),
            value: StringType::RegEx("x".to_string()),
            modifiers: vec![StringModifier::Wide],
        },
    ];
    let findings = run_cop(&PerformanceWideStringWithoutAscii, &file(vec![r]));
    assert_eq!(
        messages(&findings),
        vec![
            "The string $a in rule W uses the modifier 'Wide' without the modifier 'Ascii'"
                .to_string(),
            "The string $c in rule W uses the modifier 'Wide' without the modifier 'Ascii'"
                .to_string(),
        ]
    );
    assert_eq!(findings[0].severity, Severity::Info);
}

fn at(token_type: TokenType, line: usize, column: usize) -> Token {
    Token { token_type, span: Span { line, column } }
}

fn spacing_tokens() -> Vec<Token> {
    // condition:
    //     $a  and $b ==1
    vec![
        at(TokenType::Keyword("condition".to_string()), 1, 1),
        at(TokenType::Colon, 1, 10),
        at(TokenType::StringIdentifier("$a".to_string()), 2, 5),
        at(TokenType::Keyword("and".to_string()), 2, 9),
        at(TokenType::StringIdentifier("$b".to_string()), 2, 13),
        at(TokenType::EqualsEquals, 2, 16),
        at(TokenType::Number("1".to_string()), 2, 18),
        at(TokenType::RBrace, 3, 1),
        at(TokenType::Keyword("and".to_string()), 3, 3),
    ]
}

#[test]
fn condition_spacing_reports_badly_spaced_operators() {
    let tokens = spacing_tokens();
    assert_eq!(find_spacing_offenses(&tokens), vec!["and".to_string(), "==".to_string()]);
    let cop = StyleConditionSpacing::new(tokens);
    let findings = run_cop(&cop, &file(vec![]));
    assert_eq!(
        messages(&findings),
        vec![
            "Operator 'and' does not have single spacing".to_string(),
            "Operator '==' does not have single spacing".to_string(),
        ]
    );
}

#[test]
fn condition_spacing_helpers() {
    let tokens = spacing_tokens();
    assert_eq!(operator(&tokens[3]), Some(("and", true)));
    assert_eq!(operator(&at(TokenType::Keyword("not".to_string()), 1, 1)), Some(("not", false)));
    assert_eq!(operator(&tokens[2]), None);
    assert!(has_single_space_between(&tokens[3], &tokens[4]));
    assert!(!has_single_space_between(&tokens[2], &tokens[3]));
    assert!(!has_single_space_between(&tokens[1], &tokens[2]));
    assert_eq!(token_width(&TokenType::StringLiteral("abc".to_string())), Some(5));
    assert_eq!(token_width(&TokenType::GEThan), Some(2));
    assert_eq!(token_width(&TokenType::Identifier("héllo".to_string())), Some(5));
}

#[test]
fn meta_keys_order_reports_keys_out_of_order() {
    let mut r = rule("Order");
    r.meta = vec![meta("date", "d"), meta("other", "o"), meta("author", "a"), meta("reference", "r")];
    let findings = run_cop(&StyleMetaKeysOrder, &file(vec![r]));
    assert_eq!(
        messages(&findings),
        vec![
            "meta keys for rule Order are out of order: found 'author' after 'date', expected 'author' before 'date'"
                .to_string()
        ]
    );
    assert_eq!(findings[0].severity, Severity::Info);
}

#[test]
fn missing_required_meta_reports_each_missing_key_in_order() {
    let mut r = rule("Meta");
    r.meta = vec![meta("description", "x"), meta("date", "y")];
    let f = file(vec![r]);
    let findings = run_cop(&StyleMissingRequiredMeta, &f);
    assert_eq!(
        messages(&findings),
        vec![
            "Rule Meta is missing the meta key 'author'".to_string(),
            "Rule Meta is missing the meta key 'reference'".to_string(),
        ]
    );
    let as_rule = run_rule(&RuleMissingRequiredMeta, &f);
    assert_eq!(as_rule[0].rule, "Style/MissingRequiredMeta");
}

#[test]
fn rule_name_case_allows_version_suffix_for_pascal_case() {
    let f = file(vec![rule("GoodName_v2"), rule("bad_name"), rule("Bad_Name")]);
    let findings = run_cop(&StyleRuleNameCase::new(NameCase::PascalCase), &f);
    assert_eq!(
        messages(&findings),
        vec![
            "Rule name 'bad_name' does not conform to the configured PascalCase naming convention"
                .to_string(),
            "Rule name 'Bad_Name' does not conform to the configured PascalCase naming convention"
                .to_string(),
        ]
    );
    let snake = run_cop(&StyleRuleNameCase::new(NameCase::SnakeCase), &f);
    assert_eq!(snake.len(), 2);
    assert_eq!(
        snake[0].message,
        "Rule name 'GoodName_v2' does not conform to the configured SnakeCase naming convention"
    );
}

#[test]
fn string_identifier_reports_non_snake_case() {
    let mut r = rule("Ids");
    r.strings = vec![text("$good_one", "x", vec![]), text("$BadOne", "x", vec![])];
    let findings = run_cop(&StyleStringIdentifier, &file(vec![r]));
    assert_eq!(
        messages(&findings),
        vec!["String identifier $BadOne in rule Ids should be snake_case".to_string()]
    );
}

#[test]
fn qualified_names_join_category_and_name() {
    assert_eq!(LintDuplicateMeta.qualified_name(), "Lint/DuplicateMeta");
    assert_eq!(Cop::qualified_name(&NamingDescriptiveMeta), "Naming/DescriptiveMeta");
    assert_eq!(PerformanceFilesize.qualified_name(), "Performance/Filesize");
}

#[test]
fn duplicate_string_is_type_sensitive() {
    let mut r = rule("Kinds");
    r.strings = vec![
        text("$a", "66 6f 6f", vec![]),
        StringNode {
            identifier: "$b".to_string(),
            value: StringType::Hex(HexNode {
                expression: HexExprNode { atoms: Vec::new() },
                original_string: "66 6f 6f".to_string(),
            }),
            modifiers: vec![],
        },
        StringNode {
            identifier: "$c".to_string(),
            value: StringType::RegEx("66 6f 6f".to_string()),
            modifiers: vec![],
        },
    ];
    assert!(run_cop(&LintDuplicateString, &file(vec![r])).is_empty());
}
