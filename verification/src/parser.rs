//! YARA rule parsing.
//!
//! This module contains functionality for turning the token streams of
//! YARA files into syntax trees, and hex strings into their atoms.

pub mod ast_parser;
pub mod lexer;
pub mod span;
pub mod syntax;
pub mod token;
pub mod yara_rule;

use vstd::prelude::*;

use crate::parser::{
    ast_parser::{
        AstParser,
        hex::spec_parse_hex_string,
        rule::{f_items, spec_parse_rule_file},
    },
    syntax::{hex::HexNode, rule_file::{RuleFileNode, RuleFileView}},
    token::Token,
};
use crate::text::result_view;

verus! {

/// What parsing one file's tokens gives: nothing for a file without
/// tokens, else its syntax tree.
pub open spec fn spec_parse_file(toks: Seq<Token>) -> Result<Option<RuleFileView>, Seq<char>> {
    if toks.len() == 0 {
        Ok(None)
    } else {
        match spec_parse_rule_file(toks) {
            Err(e) => Err(e),
            Ok(f) => Ok(Some(f)),
        }
    }
}

/// What parsing the token streams of several files gives: the syntax trees
/// of the files that hold tokens, in order, or the first error.
pub open spec fn spec_parse_files(files: Seq<Seq<Token>>) -> Result<Seq<RuleFileView>, Seq<char>>
    decreases files.len(),
{
    if files.len() == 0 {
        Ok(Seq::empty())
    } else {
        match spec_parse_files(files.drop_last()) {
            Err(e) => Err(e),
            Ok(done) => match spec_parse_file(files.last()) {
                Err(e) => Err(e),
                Ok(None) => Ok(done),
                Ok(Some(f)) => Ok(done.push(f)),
            },
        }
    }
}

/// Parses the tokens of one YARA file, handing the tokens back beside the
/// syntax tree. A file without tokens holds no rule: it gives `None`.
///
/// # Errors
///
/// Returns an error if parsing fails.
pub fn parse_file(tokens: Vec<Token>) -> (r: Result<Option<(RuleFileNode, Vec<Token>)>, String>)
    ensures
        match spec_parse_file(tokens@) {
            Ok(None) => r matches Ok(None),
            Ok(Some(v)) => r matches Ok(Some((f, t))) && f@ == v && t@ == tokens@,
            Err(m) => r matches Err(x) && x@ == m,
        },
{
    if tokens.len() == 0 {
        return Ok(None);
    }
    let parser = AstParser::new(tokens);
    match AstParser::parse_rule_file_with_tokens(parser) {
        Ok(parsed) => Ok(Some(parsed)),
        Err(e) => Err(e),
    }
}

/// Parses the token streams of several YARA files.
///
/// Files without tokens hold no rule and are skipped. Any parse error
/// immediately stops processing and is returned to the caller.
///
/// # Errors
///
/// Returns the first error met while parsing a file.
pub fn parse_files(files: Vec<Vec<Token>>) -> (r: Result<Vec<RuleFileNode>, String>)
    ensures
        match spec_parse_files(files@.map_values(|f: Vec<Token>| f@)) {
            Ok(v) => r matches Ok(x) && x@.map_values(|f: RuleFileNode| f@) == v,
            Err(m) => r matches Err(x) && x@ == m,
        },
{
    let mut rest = files;
    let ghost all = files@.map_values(|f: Vec<Token>| f@);
    let mut rule_files: Vec<RuleFileNode> = Vec::new();
    let ghost mut done: Seq<Seq<Token>> = Seq::empty();
    proof {
        assert(all.take(0) =~= Seq::<Seq<Token>>::empty());
        assert(rule_files@.map_values(|f: RuleFileNode| f@) =~= Seq::<RuleFileView>::empty());
    }
    while rest.len() > 0
        invariant
            all == files@.map_values(|f: Vec<Token>| f@),
            all.len() == done.len() + rest@.len(),
            done == all.take(done.len() as int),
            forall|i: int| 0 <= i < rest@.len() ==> #[trigger] rest@[i]@ == all[done.len() + i],
            spec_parse_files(done) == Ok::<Seq<RuleFileView>, Seq<char>>(
                rule_files@.map_values(|f: RuleFileNode| f@),
            ),
        decreases rest.len(),
    {
        let tokens = rest.remove(0);
        let ghost next = done.push(tokens@);
        proof {
            assert(tokens@ == all[done.len() as int]);
            assert(next =~= all.take(done.len() as int + 1));
            assert(next.drop_last() == done);
        }
        let parsed = match parse_file(tokens) {
            Ok(p) => p,
            Err(e) => {
                proof {
                    lemma_parse_files_err_prefix(all, next.len() as int);
                }
                return Err(e);
            },
        };
        match parsed {
            Some((rule_file, _)) => {
                let ghost before = rule_files@;
                rule_files.push(rule_file);
                proof {
                    assert(rule_files@.map_values(|f: RuleFileNode| f@) =~= before.map_values(
                        |f: RuleFileNode| f@,
                    ).push(rule_file@));
                }
            },
            None => {},
        }
        proof {
            done = next;
        }
    }
    proof {
        assert(done =~= all);
    }
    Ok(rule_files)
}

/// What parsing the token streams of several files gives, each parsed file
/// with the tokens it was parsed from: the files in order, with those
/// without tokens left out, or the first error.
pub open spec fn spec_parse_files_with_tokens(files: Seq<Seq<Token>>) -> Result<
    Seq<(RuleFileView, Seq<Token>)>,
    Seq<char>,
>
    decreases files.len(),
{
    if files.len() == 0 {
        Ok(Seq::empty())
    } else {
        match spec_parse_files_with_tokens(files.drop_last()) {
            Err(e) => Err(e),
            Ok(done) => match spec_parse_file(files.last()) {
                Err(e) => Err(e),
                Ok(None) => Ok(done),
                Ok(Some(f)) => Ok(done.push((f, files.last()))),
            },
        }
    }
}

/// Parsing with tokens gives the same files, or the same error, as parsing
/// without them.
pub proof fn lemma_parse_files_with_tokens_agrees(files: Seq<Seq<Token>>)
    ensures
        match (spec_parse_files_with_tokens(files), spec_parse_files(files)) {
            (Ok(with), Ok(without)) => with.map_values(
                |p: (RuleFileView, Seq<Token>)| p.0,
            ) == without,
            (Err(a), Err(b)) => a == b,
            _ => false,
        },
    decreases files.len(),
{
    if files.len() > 0 {
        lemma_parse_files_with_tokens_agrees(files.drop_last());
        match (spec_parse_files_with_tokens(files.drop_last()), spec_parse_files(files.drop_last())) {
            (Ok(with), Ok(without)) => {
                match spec_parse_file(files.last()) {
                    Ok(Some(f)) => {
                        assert(with.push((f, files.last())).map_values(
                            |p: (RuleFileView, Seq<Token>)| p.0,
                        ) =~= with.map_values(|p: (RuleFileView, Seq<Token>)| p.0).push(f));
                    },
                    _ => {},
                }
            },
            _ => {},
        }
    } else {
        assert(Seq::<(RuleFileView, Seq<Token>)>::empty().map_values(
            |p: (RuleFileView, Seq<Token>)| p.0,
        ) =~= Seq::<RuleFileView>::empty());
    }
}

/// The view of a parsed file with its tokens.
pub open spec fn parsed_view(p: (RuleFileNode, Vec<Token>)) -> (RuleFileView, Seq<Token>) {
    (p.0@, p.1@)
}

/// Parses the token streams of several YARA files and keeps each file's
/// tokens beside its syntax tree, so that token-aware cops can run without
/// lexing the file again. Files without tokens are skipped.
///
/// # Errors
///
/// Returns the first error met while parsing.
pub fn parse_files_with_tokens(files: Vec<Vec<Token>>) -> (r: Result<
    Vec<(RuleFileNode, Vec<Token>)>,
    String,
>)
    ensures
        match spec_parse_files_with_tokens(files@.map_values(|f: Vec<Token>| f@)) {
            Ok(v) => r matches Ok(x) && x@.map_values(|p: (RuleFileNode, Vec<Token>)| parsed_view(p))
                == v,
            Err(m) => r matches Err(x) && x@ == m,
        },
{
    let mut rest = files;
    let ghost all = files@.map_values(|f: Vec<Token>| f@);
    let mut rule_files: Vec<(RuleFileNode, Vec<Token>)> = Vec::new();
    let ghost mut done: Seq<Seq<Token>> = Seq::empty();
    proof {
        assert(all.take(0) =~= Seq::<Seq<Token>>::empty());
        assert(rule_files@.map_values(|p: (RuleFileNode, Vec<Token>)| parsed_view(p))
            =~= Seq::<(RuleFileView, Seq<Token>)>::empty());
    }
    while rest.len() > 0
        invariant
            all == files@.map_values(|f: Vec<Token>| f@),
            all.len() == done.len() + rest@.len(),
            done == all.take(done.len() as int),
            forall|i: int| 0 <= i < rest@.len() ==> #[trigger] rest@[i]@ == all[done.len() + i],
            spec_parse_files_with_tokens(done) == Ok::<Seq<(RuleFileView, Seq<Token>)>, Seq<char>>(
                rule_files@.map_values(|p: (RuleFileNode, Vec<Token>)| parsed_view(p)),
            ),
        decreases rest.len(),
    {
        let tokens = rest.remove(0);
        let ghost next = done.push(tokens@);
        let ghost input = tokens@;
        proof {
            assert(tokens@ == all[done.len() as int]);
            assert(next =~= all.take(done.len() as int + 1));
            assert(next.drop_last() == done);
        }
        let parsed = match parse_file(tokens) {
            Ok(p) => p,
            Err(e) => {
                proof {
                    lemma_parse_files_with_tokens_err_prefix(all, next.len() as int);
                }
                return Err(e);
            },
        };
        match parsed {
            Some(parsed_file) => {
                let ghost before = rule_files@;
                let ghost pv = parsed_view(parsed_file);
                rule_files.push(parsed_file);
                proof {
                    assert(pv.1 == input);
                    assert(rule_files@.map_values(|p: (RuleFileNode, Vec<Token>)| parsed_view(p))
                        =~= before.map_values(|p: (RuleFileNode, Vec<Token>)| parsed_view(p)).push(
                        pv,
                    ));
                }
            },
            None => {},
        }
        proof {
            done = next;
        }
    }
    proof {
        assert(done =~= all);
    }
    Ok(rule_files)
}

/// Once a prefix of the files fails to parse, so do all the files.
proof fn lemma_parse_files_with_tokens_err_prefix(files: Seq<Seq<Token>>, n: int)
    requires
        0 <= n <= files.len(),
        spec_parse_files_with_tokens(files.take(n)) is Err,
    ensures
        spec_parse_files_with_tokens(files) == spec_parse_files_with_tokens(files.take(n)),
    decreases files.len() - n,
{
    if n < files.len() {
        assert(files.take(n + 1).drop_last() =~= files.take(n));
        lemma_parse_files_with_tokens_err_prefix(files, n + 1);
    } else {
        assert(files.take(n) =~= files);
    }
}

/// Once a prefix of the files fails to parse, so do all the files.
proof fn lemma_parse_files_err_prefix(files: Seq<Seq<Token>>, n: int)
    requires
        0 <= n <= files.len(),
        spec_parse_files(files.take(n)) is Err,
    ensures
        spec_parse_files(files) == spec_parse_files(files.take(n)),
    decreases files.len() - n,
{
    if n < files.len() {
        assert(files.take(n + 1).drop_last() =~= files.take(n));
        lemma_parse_files_err_prefix(files, n + 1);
    } else {
        assert(files.take(n) =~= files);
    }
}

/// Parses the contents of a YARA hex string into a [`HexNode`].
///
/// # Arguments
///
/// * `hex_string` (`&str`) - the raw text between a hex string's braces,
///   e.g. `4D 5A ?? [4-6] ( AA | BB )`.
///
/// # Returns
///
/// Returns a [`HexNode`] containing both the parsed structure and the
/// original raw text.
///
/// # Errors
///
/// Returns an error if the hex string is malformed.
pub fn parse_hex_string(hex_string: &str) -> (r: Result<HexNode, String>)
    ensures
        result_view(r) == spec_parse_hex_string(hex_string@),
{
    ast_parser::hex::parse_hex_string(hex_string)
}

} // verus!
