//! The regions of the source that mix literal characters with embedded
//! expressions: text between double quotes and commands between dollar signs.

use crate::modules::expression::expr::Expr;
use crate::modules::expression::literal::text::TextPart;
use crate::modules::grammar;
use crate::modules::model::FailureV;
use crate::modules::model::Step;
use crate::modules::model::TextPartV;
use crate::text::ends_with_char;
use crate::text::from_chars;
use crate::text::to_chars;
use crate::translate::fragments::quoting::InterpolableRenderType;
use crate::translate::fragments::quoting::escaped;
use crate::translate::fragments::quoting::lemma_escaped_concat;
use crate::utils::metadata::parser::Failure;
use crate::utils::metadata::parser::ParserMetadata;
use vstd::prelude::*;

verus! {

/// Whether a region is a text or a command.
#[derive(Debug, Clone, Copy, PartialEq, Eq, Structural)]
pub enum InterpolatedRegionType {
    Text,
    Command,
}

impl InterpolatedRegionType {
    /// The character that opens and closes the region.
    pub open spec fn delimiter(self) -> char {
        match self {
            InterpolatedRegionType::Text => '"',
            InterpolatedRegionType::Command => '$',
        }
    }

    /// The character that opens and closes the region.
    pub fn to_char(&self) -> (r: char)
        ensures
            r == self.delimiter(),
    {
        match self {
            InterpolatedRegionType::Text => '"',
            InterpolatedRegionType::Command => '$',
        }
    }

    /// The layout in which the translator emits the region.
    pub open spec fn layout(self) -> InterpolableRenderType {
        match self {
            InterpolatedRegionType::Text => InterpolableRenderType::StringLiteral,
            InterpolatedRegionType::Command => InterpolableRenderType::GlobalContext,
        }
    }
}

/// The number of backslashes that stand in a row directly before the
/// position `end` of `s`.
pub open spec fn backslashes_before(s: Seq<char>, end: int) -> nat
    decreases end,
{
    if 0 < end <= s.len() && s[end - 1] == '\\' {
        1 + backslashes_before(s, end - 1)
    } else {
        0
    }
}

/// Whether `word` ends with `symbol` and an odd number of backslashes stands
/// directly before it, so that the symbol does not close a region.
pub open spec fn escaped_end(word: Seq<char>, symbol: char) -> bool {
    ends_with_char(word, symbol) && backslashes_before(word, word.len() - 1) % 2 == 1
}

/// Whether `word` ends with `symbol` and the symbol is escaped by an odd
/// number of backslashes.
pub fn is_escaped(word: &str, symbol: char) -> (r: bool)
    ensures
        r == escaped_end(word@, symbol),
{
    let chars = to_chars(word);
    if chars.len() == 0 || chars[chars.len() - 1] != symbol {
        return false;
    }
    let mut odd = false;
    let mut i: usize = chars.len() - 1;
    let ghost total = backslashes_before(chars@, chars@.len() - 1);
    let ghost mut seen: nat = 0;
    while i > 0 && chars[i - 1] == '\\'
        invariant
            i <= chars@.len() - 1,
            total == seen + backslashes_before(chars@, i as int),
            odd == (seen % 2 == 1),
        decreases i,
    {
        odd = !odd;
        i = i - 1;
        proof {
            seen = seen + 1;
        }
    }
    odd
}

/// The text that the source text `s` stands for from position `i` on, in a
/// region of the given type. A backslash followed by a line break gives
/// nothing; followed by `\`, `n`, `t`, `r`, `0` or `{` it gives a backslash,
/// line feed, tab, carriage return, null character or brace; followed by `"`
/// it gives the quote in a text, followed by `$` the dollar sign in a
/// command. Every other backslash stands for itself.
pub open spec fn decode_from(s: Seq<char>, region: InterpolatedRegionType, i: int) -> Seq<char>
    decreases s.len() - i,
{
    if i < 0 || i >= s.len() {
        Seq::empty()
    } else if s[i] != '\\' {
        seq![s[i]] + decode_from(s, region, i + 1)
    } else if i + 1 >= s.len() {
        seq!['\\']
    } else {
        let next = s[i + 1];
        if next == '\n' {
            decode_from(s, region, i + 2)
        } else if next == '\\' {
            seq!['\\'] + decode_from(s, region, i + 2)
        } else if next == 'n' {
            seq!['\n'] + decode_from(s, region, i + 2)
        } else if next == 't' {
            seq!['\t'] + decode_from(s, region, i + 2)
        } else if next == 'r' {
            seq!['\r'] + decode_from(s, region, i + 2)
        } else if next == '0' {
            seq!['\0'] + decode_from(s, region, i + 2)
        } else if next == '{' {
            seq!['{'] + decode_from(s, region, i + 2)
        } else if next == '"' && region == InterpolatedRegionType::Text {
            seq!['"'] + decode_from(s, region, i + 2)
        } else if next == '$' && region == InterpolatedRegionType::Command {
            seq!['$'] + decode_from(s, region, i + 2)
        } else {
            seq!['\\'] + decode_from(s, region, i + 1)
        }
    }
}

/// The text that the source text `s` stands for in a region of the given
/// type.
pub open spec fn decoded(s: Seq<char>, region: InterpolatedRegionType) -> Seq<char> {
    decode_from(s, region, 0)
}

/// Decodes the escape sequences of a piece of source text.
pub fn parse_escaped_string(string: String, region_type: &InterpolatedRegionType) -> (r: String)
    ensures
        r@ == decoded(string@, *region_type),
{
    let chars = to_chars(string.as_str());
    let region = *region_type;
    let is_text = match region {
        InterpolatedRegionType::Text => true,
        InterpolatedRegionType::Command => false,
    };
    let mut out: Vec<char> = Vec::new();
    let mut i: usize = 0;
    while i < chars.len()
        invariant
            i <= chars@.len(),
            is_text == (region == InterpolatedRegionType::Text),
            out@ + decode_from(chars@, region, i as int) == decoded(chars@, region),
        decreases chars.len() - i,
    {
        let ghost before = out@;
        let ghost rest = decode_from(chars@, region, i as int);
        let c = chars[i];
        if c != '\\' {
            out.push(c);
            assert(before.push(c) + decode_from(chars@, region, i + 1) == before + rest);
            i = i + 1;
        } else if i + 1 >= chars.len() {
            out.push(c);
            assert(before.push(c) + decode_from(chars@, region, i + 1) == before + rest);
            i = i + 1;
        } else {
            let next = chars[i + 1];
            let ghost after = decode_from(chars@, region, i + 2);
            if next == '\n' {
                i = i + 2;
            } else if next == '\\' {
                out.push('\\');
                assert(before.push('\\') + after == before + rest);
                i = i + 2;
            } else if next == 'n' {
                out.push('\n');
                assert(before.push('\n') + after == before + rest);
                i = i + 2;
            } else if next == 't' {
                out.push('\t');
                assert(before.push('\t') + after == before + rest);
                i = i + 2;
            } else if next == 'r' {
                out.push('\r');
                assert(before.push('\r') + after == before + rest);
                i = i + 2;
            } else if next == '0' {
                out.push('\0');
                assert(before.push('\0') + after == before + rest);
                i = i + 2;
            } else if next == '{' {
                out.push('{');
                assert(before.push('{') + after == before + rest);
                i = i + 2;
            } else if next == '"' && is_text {
                out.push('"');
                assert(before.push('"') + after == before + rest);
                i = i + 2;
            } else if next == '$' && !is_text {
                out.push('$');
                assert(before.push('$') + after == before + rest);
                i = i + 2;
            } else {
                out.push(c);
                assert(before.push(c) + decode_from(chars@, region, i + 1) == before + rest);
                i = i + 1;
            }
        }
    }
    assert(out@ + Seq::<char>::empty() == out@);
    from_chars(&out)
}

/// The part that a region without interpolation holds: the characters
/// between the two delimiters of `word`, decoded.
pub open spec fn simple_region(word: Seq<char>, region: InterpolatedRegionType) -> Seq<TextPartV> {
    seq![TextPartV::String(decoded(word.subrange(1, word.len() - 1), region))]
}

/// The parts of a region that stands in the single token `word`, delimiters
/// included.
pub fn parse_simple_region(word: &str, interpolated_type: &InterpolatedRegionType) -> (r: Vec<
    TextPart,
>)
    requires
        word@.len() >= 2,
    ensures
        TextPart::models_of(r) == simple_region(word@, *interpolated_type),
{
    let chars = to_chars(word);
    let content = crate::text::from_chars_range(&chars, 1, chars.len() - 1);
    let mut parts: Vec<TextPart> = Vec::new();
    parts.push(TextPart::String(parse_escaped_string(content, interpolated_type)));
    assert(TextPart::models_of(parts) =~= simple_region(word@, *interpolated_type));
    parts
}

/// Whether encoding gives back the source text `s` from position `i` on: in
/// a text, the characters `"`, `$`, `` ` `` and `!` do not occur, and a
/// backslash only in front of `\` or `"`; in a command, no backslash stands
/// in front of a character with which it forms an escape sequence.
pub open spec fn survives_from(s: Seq<char>, region: InterpolatedRegionType, i: int) -> bool
    decreases s.len() - i,
{
    if i < 0 || i >= s.len() {
        true
    } else {
        match region {
            InterpolatedRegionType::Text => if s[i] == '\\' {
                i + 1 < s.len() && (s[i + 1] == '\\' || s[i + 1] == '"') && survives_from(
                    s,
                    region,
                    i + 2,
                )
            } else {
                s[i] != '"' && s[i] != '$' && s[i] != '`' && s[i] != '!' && survives_from(
                    s,
                    region,
                    i + 1,
                )
            },
            InterpolatedRegionType::Command => if s[i] == '\\' {
                (i + 1 >= s.len() || !(s[i + 1] == '\n' || s[i + 1] == '\\' || s[i + 1] == 'n'
                    || s[i + 1] == 't' || s[i + 1] == 'r' || s[i + 1] == '0' || s[i + 1] == '{'
                    || s[i + 1] == '$')) && survives_from(s, region, i + 1)
            } else {
                survives_from(s, region, i + 1)
            },
        }
    }
}

proof fn lemma_escaped_one(c: char, render_type: InterpolableRenderType)
    ensures
        escaped(seq![c], render_type) == crate::translate::fragments::quoting::escape_char(
            c,
            render_type,
        ),
{
    let s = seq![c];
    assert(crate::translate::fragments::quoting::escaped_prefix(s, render_type, 0) == Seq::<
        char,
    >::empty());
    assert(crate::translate::fragments::quoting::escaped_prefix(s, render_type, 1)
        == crate::translate::fragments::quoting::escaped_prefix(s, render_type, 0)
        + crate::translate::fragments::quoting::escape_char(s[0], render_type));
}

proof fn lemma_roundtrip_from(s: Seq<char>, region: InterpolatedRegionType, i: int)
    requires
        0 <= i <= s.len(),
        survives_from(s, region, i),
    ensures
        escaped(decode_from(s, region, i), region.layout()) == s.subrange(i, s.len() as int),
    decreases s.len() - i,
{
    let layout = region.layout();
    let whole = s.subrange(i, s.len() as int);
    if i >= s.len() {
        assert(decode_from(s, region, i) == Seq::<char>::empty());
        assert(escaped(Seq::<char>::empty(), layout) == Seq::<char>::empty());
        assert(whole == Seq::<char>::empty());
    } else if s[i] != '\\' {
        lemma_roundtrip_from(s, region, i + 1);
        lemma_escaped_concat(seq![s[i]], decode_from(s, region, i + 1), layout);
        lemma_escaped_one(s[i], layout);
        assert(whole == seq![s[i]] + s.subrange(i + 1, s.len() as int));
    } else {
        match region {
            InterpolatedRegionType::Text => {
                lemma_roundtrip_from(s, region, i + 2);
                let c = s[i + 1];
                lemma_escaped_concat(seq![c], decode_from(s, region, i + 2), layout);
                lemma_escaped_one(c, layout);
                assert(whole == seq!['\\', c] + s.subrange(i + 2, s.len() as int));
            },
            InterpolatedRegionType::Command => {
                if i + 1 >= s.len() {
                    lemma_escaped_one('\\', layout);
                    assert(whole == seq!['\\']);
                } else {
                    lemma_roundtrip_from(s, region, i + 1);
                    lemma_escaped_concat(seq!['\\'], decode_from(s, region, i + 1), layout);
                    lemma_escaped_one('\\', layout);
                    assert(whole == seq!['\\'] + s.subrange(i + 1, s.len() as int));
                }
            },
        }
    }
}

/// Decoding the escapes of a source text and then encoding the result for
/// the layout of the same kind of region gives the source text back,
/// whenever the text holds none of the characters that encoding protects and
/// none of the escape sequences that decoding shortens: see
/// [`survives_from`].
pub proof fn lemma_decode_encode_roundtrip(s: Seq<char>, region: InterpolatedRegionType)
    requires
        survives_from(s, region, 0),
    ensures
        escaped(decoded(s, region), region.layout()) == s,
{
    lemma_roundtrip_from(s, region, 0);
    assert(s.subrange(0, s.len() as int) == s);
}


/// A step of the parser that hands out the parts of a region did what `step`
/// says.
pub open spec fn parts_as(
    before: ParserMetadata,
    after: ParserMetadata,
    r: Result<Vec<TextPart>, Failure>,
    step: Step<Seq<TextPartV>>,
) -> bool {
    &&& after.wf()
    &&& after.tokens == before.tokens
    &&& after.index >= before.index
    &&& crate::utils::metadata::parser::same_tables(before, after)
    &&& after@ == step.1
    &&& match r {
        Ok(parts) => step.0 == Ok::<Seq<TextPartV>, FailureV>(TextPart::models_of(parts)),
        Err(failure) => step.0 == Err::<Seq<TextPartV>, FailureV>(failure@),
    }
}

/// Parses the rest of a region with interpolations, whose first word
/// `start` was taken already. The words `{` and `}` switch between
/// expressions and literal words; a literal word that ends with `letter`,
/// not escaped, closes the region.
pub fn parse_complex_region(
    meta: &mut ParserMetadata,
    start: String,
    letter: char,
    interpolated_type: &InterpolatedRegionType,
) -> (r: Result<Vec<TextPart>, Failure>)
    requires
        old(meta).wf(),
        start@.len() > 0,
    ensures
        parts_as(
            *old(meta),
            *final(meta),
            r,
            grammar::complex_parsed(
                old(meta).words(),
                old(meta)@,
                letter,
                *interpolated_type,
                false,
                seq![TextPartV::String(decoded(start@.skip(1), *interpolated_type))],
            ),
        ),
    decreases grammar::remaining(old(meta).words(), old(meta)@), 170nat,
{
    reveal(grammar::complex_parsed);
    let ghost words = meta.words();
    let ghost region = *interpolated_type;
    let ghost goal = grammar::complex_parsed(
        words,
        meta@,
        letter,
        region,
        false,
        seq![TextPartV::String(decoded(start@.skip(1), region))],
    );
    let ghost first = meta.index;
    let mut parts: Vec<TextPart> = Vec::new();
    let mut is_interp = false;
    let head = crate::text::without_first(start.as_str());
    parts.push(TextPart::String(parse_escaped_string(head, interpolated_type)));
    assert(TextPart::models_of(parts) =~= seq![
        TextPartV::String(decoded(start@.skip(1), region)),
    ]);
    loop
        invariant
            meta.wf(),
            meta.tokens == old(meta).tokens,
            crate::utils::metadata::parser::same_tables(*old(meta), *meta),
            words == old(meta).words(),
            region == *interpolated_type,
            first == old(meta).index,
            meta.index >= first,
            goal == grammar::complex_parsed(
                words,
                old(meta)@,
                letter,
                region,
                false,
                seq![TextPartV::String(decoded(start@.skip(1), region))],
            ),
            goal == grammar::complex_parsed(
                words,
                meta@,
                letter,
                region,
                is_interp,
                TextPart::models_of(parts),
            ),
        decreases meta.tokens@.len() - meta.index,
    {
        reveal(grammar::complex_parsed);
        let (opens, closes, ends) = match meta.current_word() {
            None => {
                return Err(meta.quiet());
            },
            Some(word) => (
                word.eq("{"),
                word.eq("}"),
                crate::text::last_is(word, letter) && !is_escaped(word, letter),
            ),
        };
        let ghost before = TextPart::models_of(parts);
        if opens {
            let _ = meta.take_word();
            is_interp = true;
        } else if closes {
            let _ = meta.take_word();
            is_interp = false;
        } else if is_interp {
            let begin = meta.mark();
            let mut expr = Expr::new();
            match expr.parse(meta) {
                Ok(()) => {},
                Err(failure) => {
                    meta.rewind(&begin);
                    return Err(failure);
                },
            }
            let part = TextPart::Expr(Box::new(expr));
            parts.push(part);
            assert(TextPart::models_of(parts) =~= before.push(part.model()));
        } else if ends {
            let word = meta.take_word();
            let content = crate::text::without_last(word.as_str());
            let part = TextPart::String(parse_escaped_string(content, interpolated_type));
            parts.push(part);
            assert(TextPart::models_of(parts) =~= before.push(part.model()));
            return Ok(parts);
        } else {
            let word = meta.take_word();
            let part = TextPart::String(parse_escaped_string(word, interpolated_type));
            parts.push(part);
            assert(TextPart::models_of(parts) =~= before.push(part.model()));
        }
    }
}

/// Parses a text or a command. A region without interpolations stands in
/// one word; the other regions start with a word that opens with the
/// delimiter.
pub fn parse_interpolated_region(
    meta: &mut ParserMetadata,
    interpolated_type: &InterpolatedRegionType,
) -> (r: Result<Vec<TextPart>, Failure>)
    requires
        old(meta).wf(),
    ensures
        parts_as(
            *old(meta),
            *final(meta),
            r,
            grammar::region_parsed(old(meta).words(), old(meta)@, *interpolated_type),
        ),
        r is Ok ==> final(meta).index > old(meta).index,
    decreases grammar::remaining(old(meta).words(), old(meta)@), 70nat,
{
    reveal(grammar::region_parsed);
    reveal(grammar::complex_parsed);
    let letter = interpolated_type.to_char();
    let (whole, opens) = match meta.current_word() {
        Some(word) => {
            let opens = crate::text::first_is(word, letter);
            let whole = opens && crate::text::last_is(word, letter) && word.unicode_len() > 1
                && !is_escaped(word, letter);
            (whole, opens)
        },
        None => (false, false),
    };
    if whole {
        let word = meta.take_word();
        return Ok(parse_simple_region(word.as_str(), interpolated_type));
    }
    if opens {
        let start = meta.take_word();
        return parse_complex_region(meta, start, letter, interpolated_type);
    }
    Err(meta.quiet())
}

} // verus!
