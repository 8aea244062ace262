//! The lexical rules of the source language, and the call of the lexer.

use crate::modules::model::MessageType;
use crate::modules::model::MessageV;
use crate::modules::model::PositionInfo;
use crate::utils::metadata::parser::Message;
use crate::utils::metadata::parser::Token;
use crate::utils::metadata::parser::TokenV;
use crate::utils::metadata::parser::token_views;
use heraclitus_compiler::compiling_rules::Region;
use vstd::prelude::*;

verus! {

/// A part of the source that the lexer treats in a way of its own, and the
/// parts that may stand inside it. The lexer reads the value only; what it
/// holds is [`region_rule`].
#[verifier::external_type_specification]
#[verifier::external_body]
pub struct ExRegion(Region);

/// What a region holds, field by field: its `id` and human-readable
/// `name`; the texts with which it begins and ends; the regions `interp`
/// that may stand inside it; whether its text is split into tokens; whether
/// it may stay open at the end of the source; whether it stands for the
/// whole source; the id of the region whose inner regions it takes over, if
/// any; whether it must end on its line; and whether the escape symbol is
/// ignored inside it.
pub struct RegionRule {
    pub id: Seq<char>,
    pub name: Seq<char>,
    pub begin: Seq<char>,
    pub end: Seq<char>,
    pub interp: Seq<RegionRule>,
    pub tokenize: bool,
    pub allow_unclosed: bool,
    pub global: bool,
    pub references: Option<Seq<char>>,
    pub singleline: bool,
    pub ignore_escaped: bool,
}

/// What the region `region` holds.
pub uninterp spec fn region_rule(region: Region) -> RegionRule;

/// What each of the regions `regions` holds.
pub open spec fn rules_of(regions: Seq<Region>) -> Seq<RegionRule> {
    Seq::new(regions.len(), |i: int| region_rule(regions[i]))
}

/// A region that does not stand for the whole source, may span lines, and
/// heeds the escape symbol.
pub open spec fn plain_rule(
    id: Seq<char>,
    name: Seq<char>,
    begin: Seq<char>,
    end: Seq<char>,
    interp: Seq<RegionRule>,
    references: Option<Seq<char>>,
    tokenize: bool,
    allow_unclosed: bool,
) -> RegionRule {
    RegionRule {
        id,
        name,
        begin,
        end,
        interp,
        tokenize,
        allow_unclosed,
        global: false,
        references,
        singleline: false,
        ignore_escaped: false,
    }
}

/// The region that stands for the whole source and may hold the regions
/// `interp`.
pub open spec fn global_rule(interp: Seq<RegionRule>) -> RegionRule {
    RegionRule {
        id: "global"@,
        name: "Global context"@,
        begin: ""@,
        end: ""@,
        interp,
        tokenize: true,
        allow_unclosed: true,
        global: true,
        references: None,
        singleline: false,
        ignore_escaped: false,
    }
}

/// Why the lexer gave up: a region that must end on its line did not, or a
/// region was left open at the end of the source. Each holds the name of
/// the region.
#[derive(Debug, PartialEq, Eq)]
pub enum LexFailure {
    Singleline(String),
    Unclosed(String),
}

/// What the lexer answers: the tokens with their rows and columns, or the
/// reason why it gave up with the name of the region.
pub enum Lexed {
    Tokens(Seq<TokenV>),
    Singleline(Seq<char>),
    Unclosed(Seq<char>),
}

/// The view of what the lexer answered.
pub open spec fn seen(outcome: Result<Vec<Token>, LexFailure>) -> Lexed {
    match outcome {
        Ok(tokens) => Lexed::Tokens(token_views(tokens@)),
        Err(LexFailure::Singleline(what)) => Lexed::Singleline(what@),
        Err(LexFailure::Unclosed(what)) => Lexed::Unclosed(what@),
    }
}

/// What the lexer answers for the source text `code` under the rules made
/// of the symbols, the pairs of symbols that form one token, and the tree
/// of regions.
pub uninterp spec fn lexed(
    symbols: Seq<char>,
    compounds: Seq<(char, char)>,
    regions: RegionRule,
    code: Seq<char>,
) -> Lexed;

/// `Region::new`, then the two switches set: the region `id` with the
/// human-readable `name`, which opens with `begin` and closes with `end`,
/// may hold the regions `interp`, and takes over the inner regions of the
/// region `references` if one is named. `tokenize` says whether the text
/// inside is split into tokens, `allow_unclosed` whether the region may
/// stay open at the end of the source. The other switches are off, as
/// `Region::new` leaves them.
#[verifier::external_body]
fn region(
    id: &str,
    name: &str,
    begin: &str,
    end: &str,
    interp: Vec<Region>,
    references: Option<&str>,
    tokenize: bool,
    allow_unclosed: bool,
) -> (r: Region)
    ensures
        region_rule(r) == plain_rule(
            id@,
            name@,
            begin@,
            end@,
            rules_of(interp@),
            match references {
                Some(other) => Some(other@),
                None => None,
            },
            tokenize,
            allow_unclosed,
        ),
{
    let mut region = Region::new(id, name, begin, end, interp, references);
    region.tokenize = tokenize;
    region.allow_unclosed_region = allow_unclosed;
    region
}

/// `Region::new_global`: the region that stands for the whole source and
/// may hold the regions `interp`. It has the id `global`, no delimiters,
/// is split into tokens and may stay open.
#[verifier::external_body]
fn global_region(interp: Vec<Region>) -> (r: Region)
    ensures
        region_rule(r) == global_rule(rules_of(interp@)),
{
    Region::new_global(interp)
}

/// Whether `c` is the first symbol of one of the pairs `compounds`.
pub open spec fn opens_pair(compounds: Seq<(char, char)>, c: char) -> bool {
    exists|i: int| 0 <= i < compounds.len() && (#[trigger] compounds[i]).0 == c
}

/// Whether every character of `code` is an ASCII character.
pub open spec fn is_ascii_text(code: Seq<char>) -> bool {
    forall|i: int| 0 <= i < code.len() ==> (#[trigger] code[i]) as u32 <= 127
}

/// Whether the lexer can read `code` to its end. At the last character it
/// looks one character ahead if the character may begin a pair, and finds
/// its way only if every character before takes one byte. So a text is
/// readable if it is empty, or all of it is ASCII, or its last character
/// begins no pair.
pub open spec fn readable(compounds: Seq<(char, char)>, code: Seq<char>) -> bool {
    code.len() == 0 || is_ascii_text(code) || !opens_pair(compounds, code[code.len() - 1])
}

/// `Rules::new`, `Lexer::new` and `Lexer::tokenize`: the tokens of `code`
/// with their rows and columns, or the reason why the lexer gave up. The
/// answer depends on the symbols, the compounds, what the tree of regions
/// holds and the source text, and on nothing else; what it is, is not
/// said. The lexer panics on a reference to a region that the tree does
/// not hold, on a tree whose root does not stand for the whole source, and
/// on a text that is not [`readable`]: these are left out.
#[verifier::external_body]
fn lex(symbols: Vec<char>, compounds: Vec<(char, char)>, regions: Region, code: &str) -> (r: Result<
    Vec<Token>,
    LexFailure,
>)
    requires
        region_rule(regions) == region_rules(),
        readable(compounds@, code@),
    ensures
        seen(r) == lexed(symbols@, compounds@, region_rule(regions), code@),
{
    let rules = heraclitus_compiler::compiling_rules::Rules::new(symbols, compounds, regions);
    match heraclitus_compiler::compiling::lexer::Lexer::new(rules).tokenize(code) {
        Ok(tokens) => Ok(
            tokens.into_iter().map(|t| Token { word: t.word, row: t.pos.0, col: t.pos.1 }).collect(),
        ),
        Err((heraclitus_compiler::compiling::LexerErrorType::Singleline, info)) => Err(
            LexFailure::Singleline(info.data.unwrap_or_default()),
        ),
        Err((heraclitus_compiler::compiling::LexerErrorType::Unclosed, info)) => Err(
            LexFailure::Unclosed(info.data.unwrap_or_default()),
        ),
    }
}

/// The characters that are tokens of their own.
pub open spec fn symbol_chars() -> Seq<char> {
    seq![
        '+', '-', '*', '/', '%', '\n', ';', ':', '(', ')', '[', ']', '{', '}', ',', '.', '<', '>',
        '=', '!', '?', '\\', '"',
    ]
}

/// The characters that are tokens of their own.
pub fn symbols() -> (r: Vec<char>)
    ensures
        r@ == symbol_chars(),
{
    let r = vec![
        '+', '-', '*', '/', '%', '\n', ';', ':', '(', ')', '[', ']', '{', '}', ',', '.', '<', '>',
        '=', '!', '?', '\\', '"',
    ];
    assert(r@ =~= symbol_chars());
    r
}

/// The pairs of symbols that form one token.
pub open spec fn compound_pairs() -> Seq<(char, char)> {
    seq![
        ('<', '='), ('>', '='), ('!', '='), ('=', '='), ('+', '='), ('-', '='), ('*', '='),
        ('/', '='), ('%', '='), ('.', '.'), ('/', '/'),
    ]
}

/// The pairs of symbols that form one token.
pub fn compounds() -> (r: Vec<(char, char)>)
    ensures
        r@ == compound_pairs(),
{
    let r = vec![
        ('<', '='), ('>', '='), ('!', '='), ('=', '='), ('+', '='), ('-', '='), ('*', '='),
        ('/', '='), ('%', '='), ('.', '.'), ('/', '/'),
    ];
    assert(r@ =~= compound_pairs());
    r
}

/// An interpolation between braces, whose text is read as the source
/// itself is.
pub open spec fn interpolation_rule(id: Seq<char>, name: Seq<char>) -> RegionRule {
    plain_rule(id, name, "{"@, "}"@, Seq::empty(), Some("global"@), true, false)
}

/// The regions of the source language: texts between double quotes and
/// commands between dollar signs, both with interpolations between braces;
/// compiler flags; comments up to the end of the line; and braces, which
/// must be closed.
pub open spec fn region_rules() -> RegionRule {
    global_rule(
        seq![
            plain_rule(
                "string"@,
                "string literal"@,
                "\""@,
                "\""@,
                seq![interpolation_rule("str_interp"@, "string interpolation"@)],
                None,
                false,
                false,
            ),
            plain_rule(
                "command"@,
                "command literal"@,
                "$"@,
                "$"@,
                seq![interpolation_rule("com_interp"@, "command interpolation"@)],
                None,
                false,
                false,
            ),
            plain_rule("cc_flag"@, "compiler flag"@, "#["@, "]"@, Seq::empty(), None, true, true),
            plain_rule("comment"@, "comment"@, "//"@, "\n"@, Seq::empty(), None, false, true),
            interpolation_rule("interp"@, "interpolation"@),
        ],
    )
}

/// An interpolation between braces: see [`interpolation_rule`].
fn interpolation(id: &str, name: &str) -> (r: Region)
    ensures
        region_rule(r) == interpolation_rule(id@, name@),
{
    let inner: Vec<Region> = Vec::new();
    assert(rules_of(inner@) =~= Seq::<RegionRule>::empty());
    region(id, name, "{", "}", inner, Some("global"), true, false)
}

/// A region without regions inside: see [`plain_rule`].
fn leaf(id: &str, name: &str, begin: &str, end: &str, tokenize: bool, allow_unclosed: bool) -> (r:
    Region)
    ensures
        region_rule(r) == plain_rule(
            id@,
            name@,
            begin@,
            end@,
            Seq::empty(),
            None,
            tokenize,
            allow_unclosed,
        ),
{
    let inner: Vec<Region> = Vec::new();
    assert(rules_of(inner@) =~= Seq::<RegionRule>::empty());
    region(id, name, begin, end, inner, None, tokenize, allow_unclosed)
}

/// A region that is one token, with one kind of interpolation inside.
fn literal(id: &str, name: &str, quote: &str, inner: Region) -> (r: Region)
    ensures
        region_rule(r) == plain_rule(
            id@,
            name@,
            quote@,
            quote@,
            seq![region_rule(inner)],
            None,
            false,
            false,
        ),
{
    let mut interp: Vec<Region> = Vec::new();
    interp.push(inner);
    assert(rules_of(interp@) =~= seq![region_rule(inner)]);
    region(id, name, quote, quote, interp, None, false, false)
}

/// The regions of the source language: what the tree holds is
/// [`region_rules`].
pub fn regions() -> (r: Region)
    ensures
        region_rule(r) == region_rules(),
{
    let text = literal(
        "string",
        "string literal",
        "\"",
        interpolation("str_interp", "string interpolation"),
    );
    let command = literal(
        "command",
        "command literal",
        "$",
        interpolation("com_interp", "command interpolation"),
    );
    let flag = leaf("cc_flag", "compiler flag", "#[", "]", true, true);
    let comment = leaf("comment", "comment", "//", "\n", false, true);
    let braces = interpolation("interp", "interpolation");
    let mut all: Vec<Region> = Vec::new();
    all.push(text);
    all.push(command);
    all.push(flag);
    all.push(comment);
    all.push(braces);
    assert(rules_of(all@) =~= region_rules().interp);
    global_region(all)
}

/// The error message for a failure of the lexer. `singleline` tells the
/// two failures apart, `what` is the name of the region.
pub open spec fn lex_message(singleline: bool, what: Seq<char>) -> MessageV {
    MessageV {
        kind: MessageType::Error,
        position: PositionInfo { from: 0, to: 0 },
        message: if singleline {
            "Singleline "@ + what + " not closed"@
        } else {
            "Unclosed "@ + what
        },
        comment: None,
    }
}

/// Whether a token is a comment, whose word starts with two slashes, or the
/// line break that the lexer hands out behind a comment.
pub open spec fn is_comment(word: Seq<char>) -> bool {
    (word.len() >= 2 && word[0] == '/' && word[1] == '/') || (word.len() == 1 && word[0] == '\n')
}

/// Those of the first `n` tokens that are no comments, in their order.
pub open spec fn kept_of(tokens: Seq<TokenV>, n: int) -> Seq<TokenV>
    decreases n,
{
    if n <= 0 || n > tokens.len() {
        Seq::empty()
    } else if is_comment(tokens[n - 1].word) {
        kept_of(tokens, n - 1)
    } else {
        kept_of(tokens, n - 1).push(tokens[n - 1])
    }
}

/// The tokens of `tokens` that are no comments, in their order.
pub open spec fn without_comments(tokens: Seq<TokenV>) -> Seq<TokenV> {
    kept_of(tokens, tokens.len() as int)
}

/// What the compiler makes of the answer of the lexer: the tokens without
/// the comments, or the error message for the failure.
pub open spec fn tokenized(answer: Lexed) -> Result<Seq<TokenV>, MessageV> {
    match answer {
        Lexed::Tokens(tokens) => Ok(without_comments(tokens)),
        Lexed::Singleline(what) => Err(lex_message(true, what)),
        Lexed::Unclosed(what) => Err(lex_message(false, what)),
    }
}

/// The error message for a source text that the lexer cannot read to its
/// end.
pub open spec fn unreadable_message() -> MessageV {
    MessageV {
        kind: MessageType::Error,
        position: PositionInfo { from: 0, to: 0 },
        message: "The source holds characters outside ASCII and ends with a symbol that may begin an operator"@,
        comment: None,
    }
}

/// The tokens of the source text `code` under the rules of the source
/// language, without the comments, or the error message of the lexer. A
/// text that is not [`readable`] is an error.
pub open spec fn source_tokens(code: Seq<char>) -> Result<Seq<TokenV>, MessageV> {
    if readable(compound_pairs(), code) {
        tokenized(lexed(symbol_chars(), compound_pairs(), region_rules(), code))
    } else {
        Err(unreadable_message())
    }
}

/// Whether `c` is the first symbol of one of the pairs `compounds`.
pub fn begins_pair(compounds: &Vec<(char, char)>, c: char) -> (r: bool)
    ensures
        r == opens_pair(compounds@, c),
{
    let mut i: usize = 0;
    while i < compounds.len()
        invariant
            i <= compounds@.len(),
            forall|j: int| 0 <= j < i ==> (#[trigger] compounds@[j]).0 != c,
        decreases compounds.len() - i,
    {
        if compounds[i].0 == c {
            return true;
        }
        i = i + 1;
    }
    false
}

/// Whether every character of `chars` is an ASCII character.
pub fn is_ascii(chars: &Vec<char>) -> (r: bool)
    ensures
        r == is_ascii_text(chars@),
{
    let mut i: usize = 0;
    while i < chars.len()
        invariant
            i <= chars@.len(),
            forall|j: int| 0 <= j < i ==> (#[trigger] chars@[j]) as u32 <= 127,
        decreases chars.len() - i,
    {
        if chars[i] as u32 > 127 {
            return false;
        }
        i = i + 1;
    }
    true
}

/// Whether the lexer can read `code` to its end under the pairs
/// `compounds`: see [`readable`].
pub fn is_readable(compounds: &Vec<(char, char)>, code: &str) -> (r: bool)
    ensures
        r == readable(compounds@, code@),
{
    let chars = crate::text::to_chars(code);
    if chars.len() == 0 {
        return true;
    }
    if !begins_pair(compounds, chars[chars.len() - 1]) {
        return true;
    }
    is_ascii(&chars)
}

/// Whether `r` is the outcome `wanted`, token for token or message for
/// message.
pub open spec fn tokens_as(r: Result<Vec<Token>, Message>, wanted: Result<Seq<TokenV>, MessageV>)
    -> bool {
    match r {
        Ok(kept) => wanted == Ok::<Seq<TokenV>, MessageV>(token_views(kept@)),
        Err(message) => wanted == Err::<Seq<TokenV>, MessageV>(message@),
    }
}

/// What the compiler makes of the answer of the lexer: the tokens without
/// the comments, or the error message for the failure.
pub fn tokens_from(outcome: Result<Vec<Token>, LexFailure>) -> (r: Result<Vec<Token>, Message>)
    ensures
        tokens_as(r, tokenized(seen(outcome))),
{
    match outcome {
        Ok(tokens) => {
            let ghost all = token_views(tokens@);
            let ghost given = tokens@;
            let mut kept: Vec<Token> = Vec::new();
            assert(token_views(kept@) =~= kept_of(all, 0));
            for token in iter: tokens
                invariant
                    iter.seq() == given,
                    all == token_views(given),
                    token_views(kept@) == kept_of(all, iter.index() as int),
            {
                let ghost before = token_views(kept@);
                assert(all[iter.index() as int] == token@);
                let chars = crate::text::to_chars(token.word.as_str());
                let comment = (chars.len() >= 2 && chars[0] == '/' && chars[1] == '/') || (
                chars.len() == 1 && chars[0] == '\n');
                if !comment {
                    kept.push(token);
                    assert(token_views(kept@) =~= before.push(token@));
                }
            }
            Ok(kept)
        },
        Err(failure) => {
            let text = match &failure {
                LexFailure::Singleline(what) => crate::text::concat3(
                    "Singleline ",
                    what.as_str(),
                    " not closed",
                ),
                LexFailure::Unclosed(what) => crate::text::concat2("Unclosed ", what.as_str()),
            };
            Err(Message::new_err(PositionInfo { from: 0, to: 0 }, text.as_str()))
        },
    }
}

/// None of the tokens that are kept is a comment.
pub proof fn lemma_kept_are_no_comments(tokens: Seq<TokenV>, n: int)
    ensures
        forall|i: int|
            0 <= i < kept_of(tokens, n).len() ==> !is_comment((#[trigger] kept_of(tokens, n)[i]).word),
    decreases n,
{
    if 0 < n <= tokens.len() {
        lemma_kept_are_no_comments(tokens, n - 1);
        let before = kept_of(tokens, n - 1);
        assert forall|i: int| 0 <= i < kept_of(tokens, n).len() implies !is_comment(
            (#[trigger] kept_of(tokens, n)[i]).word,
        ) by {
            if i < before.len() {
                assert(kept_of(tokens, n)[i] == before[i]);
            }
        }
    }
}

/// Splits `code` into tokens under the rules of the source language, and
/// leaves the comments out: the result is [`source_tokens`] of the text. A
/// text that the lexer cannot read to its end is an error, and is not
/// handed to the lexer. So no comment is among the tokens, and a failure is
/// an error without a place and without a hint.
pub fn tokenize(code: &str) -> (r: Result<Vec<Token>, Message>)
    ensures
        tokens_as(r, source_tokens(code@)),
        match r {
            Ok(tokens) => forall|i: int|
                0 <= i < tokens@.len() ==> !is_comment((#[trigger] tokens@[i]).word@),
            Err(message) => message@.kind == MessageType::Error && message@.position == (PositionInfo {
                from: 0,
                to: 0,
            }) && message@.comment.is_none(),
        },
{
    let pairs = compounds();
    if !is_readable(&pairs, code) {
        return Err(
            Message::new_err(
                PositionInfo { from: 0, to: 0 },
                "The source holds characters outside ASCII and ends with a symbol that may begin an operator",
            ),
        );
    }
    let outcome = lex(symbols(), pairs, regions(), code);
    let r = tokens_from(outcome);
    proof {
        if r is Ok {
            let kept = r->Ok_0;
            let answer = lexed(symbol_chars(), compound_pairs(), region_rules(), code@);
            let all = answer->Tokens_0;
            lemma_kept_are_no_comments(all, all.len() as int);
            assert forall|i: int| 0 <= i < kept@.len() implies !is_comment(
                (#[trigger] kept@[i]).word@,
            ) by {
                assert(token_views(kept@)[i] == kept@[i]@);
            }
        }
    }
    r
}

} // verus!
