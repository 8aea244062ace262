//! Text with embedded fragments: a string literal or a command line.

use crate::text::owned;
use crate::text::trim;
use crate::translate::fragments::fragment::FragmentKind;
use crate::translate::fragments::model::FragmentV;
use crate::translate::fragments::model::PartV;
use crate::translate::fragments::model::RenderContext;
use crate::translate::fragments::model::chunks_of;
use crate::translate::fragments::model::part_text;
use crate::translate::fragments::quoting::QuoteState;
use crate::translate::fragments::quoting::ScanState;
use crate::translate::fragments::quoting::balance_before;
use crate::translate::fragments::quoting::balanced;
use crate::translate::fragments::quoting::balanced_text;
use crate::translate::fragments::quoting::close_text;
use crate::translate::fragments::quoting::closes_at_end;
use crate::translate::fragments::quoting::comes_back;
use crate::translate::fragments::quoting::escape_char;
use crate::translate::fragments::quoting::escaped;
use crate::translate::fragments::quoting::escaped_prefix;
use crate::translate::fragments::quoting::final_text;
use crate::translate::fragments::quoting::lemma_balanced_is_quote_balanced;
use crate::translate::fragments::quoting::literal_text;
use crate::translate::fragments::quoting::neutral;
use crate::translate::fragments::quoting::reopen_text;
use crate::translate::fragments::quoting::reopened;
use crate::translate::fragments::quoting::scan_run;
use crate::translate::fragments::quoting::scan_start;
use crate::translate::fragments::quoting::scanned;
use crate::utils::metadata::translate::TranslateMetadata;
use std::collections::VecDeque;
use vstd::prelude::*;
use vstd::std_specs::vecdeque::VecDequeAdditionalSpecFns;
pub use crate::translate::fragments::quoting::InterpolableRenderType;

verus! {

/// One part of an interpolable fragment: literal text, or a fragment that
/// stands in its place.
#[derive(Debug, PartialEq, Eq)]
pub enum InterpolablePart {
    String(String),
    Interp(FragmentKind),
}

impl InterpolablePart {
    /// The view of the part.
    pub open spec fn model(self) -> PartV
        decreases self,
    {
        match self {
            InterpolablePart::String(s) => PartV::Text(s@),
            InterpolablePart::Interp(frag) => PartV::Interp(frag.model()),
        }
    }

    /// Whether evaluating the part runs a command.
    pub fn is_running_command(&self) -> (r: bool)
        ensures
            r == (match self@ {
                PartV::Text(_) => false,
                PartV::Interp(frag) => frag.runs_command(),
            }),
    {
        match self {
            InterpolablePart::String(_) => false,
            InterpolablePart::Interp(frag) => frag.is_running_command(),
        }
    }

    /// Whether evaluating the part changes a variable.
    pub fn is_mutating(&self) -> (r: bool)
        ensures
            r == (match self@ {
                PartV::Text(_) => false,
                PartV::Interp(frag) => frag.mutates(),
            }),
    {
        match self {
            InterpolablePart::String(_) => false,
            InterpolablePart::Interp(frag) => frag.is_mutating(),
        }
    }
}

impl View for InterpolablePart {
    type V = PartV;

    open spec fn view(&self) -> PartV {
        self.model()
    }
}

/// A sequence of literal chunks and embedded fragments that is laid out
/// either as a double-quoted string or as a bare command line.
#[derive(Debug, PartialEq, Eq)]
pub struct InterpolableFragment {
    pub parts: VecDeque<InterpolablePart>,
    pub render_type: InterpolableRenderType,
    pub quoted: bool,
}

/// The literal chunk of a part: `None` for an embedded fragment.
pub open spec fn chunk_of(part: InterpolablePart) -> Option<Seq<char>> {
    match part {
        InterpolablePart::String(s) => Some(s@),
        InterpolablePart::Interp(_) => None,
    }
}

/// The views of a list of optional strings.
pub open spec fn texts_of(items: Seq<Option<String>>) -> Seq<Option<Seq<char>>> {
    Seq::new(
        items.len(),
        |i: int|
            match items[i] {
                Some(s) => Some(s@),
                None => None,
            },
    )
}

/// The elements of `items`, in the same order, as a queue.
pub fn into_deque<T>(items: Vec<T>) -> (r: VecDeque<T>)
    ensures
        r@ == items@,
{
    let mut out: VecDeque<T> = VecDeque::new();
    let ghost all = items@;
    for item in iter: items
        invariant
            iter.seq() == all,
            out@ == all.take(iter.index() as int),
    {
        assert(all.take(iter.index() + 1) == all.take(iter.index() as int).push(item));
        out.push_back(item);
    }
    assert(all.take(all.len() as int) == all);
    out
}

impl InterpolableFragment {
    /// The views of the parts.
    pub open spec fn part_models(parts: VecDeque<InterpolablePart>) -> Seq<PartV>
        decreases parts,
    {
        Seq::new(
            parts.len() as nat,
            |i: int|
                if 0 <= i < parts.len() {
                    parts[i].model()
                } else {
                    PartV::Text(Seq::empty())
                },
        )
    }

    /// The view of the fragment.
    pub open spec fn model(self) -> FragmentV
        decreases self,
    {
        FragmentV::Interpolable {
            parts: Self::part_models(self.parts),
            render_type: self.render_type,
            quoted: self.quoted,
        }
    }

    /// The literal chunks of the fragment: `None` where a fragment is
    /// embedded.
    pub open spec fn chunks(self) -> Seq<Option<Seq<char>>> {
        chunks_of(Self::part_models(self.parts))
    }

    /// The quoted fragment of `parts` in the layout `render_type`.
    pub fn new(parts: Vec<InterpolablePart>, render_type: InterpolableRenderType) -> (r: Self)
        ensures
            r.parts@ == parts@,
            r.render_type == render_type,
            r.quoted,
    {
        InterpolableFragment { parts: into_deque(parts), render_type, quoted: true }
    }

    /// The same fragment with or without quotes around it.
    pub fn with_quotes(self, quoted: bool) -> (r: Self)
        ensures
            r == (InterpolableFragment { quoted, ..self }),
    {
        let mut out = self;
        out.quoted = quoted;
        out
    }

    /// The literal chunks after balancing, and `None` where a fragment is
    /// embedded.
    fn balanced_texts(&self) -> (r: Vec<Option<String>>)
        ensures
            texts_of(r@) == balanced(self.chunks()),
    {
        let ghost chunks = self.chunks();
        let total = self.parts.len();
        let mut out: Vec<Option<String>> = Vec::new();
        let mut in_single = false;
        let mut in_double = false;
        let mut reopen = false;
        let mut i: usize = 0;
        proof {
            reveal_strlit("\"'");
            reveal_strlit("'\"");
            reveal_strlit("\"");
        }
        assert("\"'"@ == reopen_text());
        assert("'\""@ == close_text());
        assert("\""@ == final_text());
        while i < total
            invariant
                i <= total,
                total == self.parts.len(),
                chunks == self.chunks(),
                chunks.len() == total,
                "\"'"@ == reopen_text(),
                "'\""@ == close_text(),
                balance_before(chunks, i as int) == (crate::translate::fragments::quoting::BalanceState {
                    quotes: QuoteState { in_single, in_double },
                    reopen,
                }),
                out@.len() == i,
                forall|j: int|
                    0 <= j < i ==> #[trigger] texts_of(out@)[j] == (if chunks[j] is Some {
                        Some(balanced_text(chunks, j))
                    } else {
                        None
                    }),
            decreases total - i,
        {
            let ghost before = out@;
            assert(chunks[i as int] == (match self.parts[i as int]@ {
                PartV::Text(s) => Some(s),
                PartV::Interp(_) => None::<Seq<char>>,
            }));
            match &self.parts[i] {
                InterpolablePart::String(s) => {
                    let mut text = String::new();
                    if reopen {
                        text.append("\"'");
                    }
                    text.append(s.as_str());
                    assert(text@ == reopened(s@, reopen));
                    scan_quote_state(text.as_str(), &mut in_single, &mut in_double);
                    let has_more = i + 1 < total;
                    if in_single && has_more {
                        text.append("'\"");
                        in_single = false;
                        in_double = true;
                        reopen = true;
                    } else {
                        reopen = false;
                    }
                    assert(text@ == balanced_text(chunks, i as int));
                    out.push(Some(text));
                },
                InterpolablePart::Interp(_) => {
                    out.push(None);
                },
            }
            proof {
                assert forall|j: int| 0 <= j < i + 1 implies #[trigger] texts_of(out@)[j] == (if chunks[j] is Some {
                    Some(balanced_text(chunks, j))
                } else {
                    None
                }) by {
                    if j < i {
                        assert(texts_of(before)[j] == texts_of(out@)[j]);
                    }
                }
            }
            i = i + 1;
        }
        let ghost before = out@;
        if reopen {
            out.push(Some(owned("\"")));
        }
        proof {
            let wanted = balanced(chunks);
            assert(closes_at_end(chunks) == reopen);
            assert(texts_of(out@).len() == wanted.len());
            assert forall|j: int| 0 <= j < wanted.len() implies texts_of(out@)[j] == wanted[j] by {
                if j < total {
                    assert(texts_of(before)[j] == texts_of(out@)[j]);
                }
            }
            assert(texts_of(out@) =~= wanted);
        }
        out
    }

    /// Rewrites the literal chunks of a command line so that no embedded
    /// fragment stands inside single quotes: a chunk that leaves a single
    /// quote open before a later part is closed with `'"`, the next literal
    /// chunk reopens with `"'`, and a last chunk `"` is added if no literal
    /// chunk follows. Embedded fragments stay as they are. The literal text
    /// of the new chunks, scanned as one text, ends outside of all quotes
    /// on every line on which the scan that is tracked beside the pass
    /// comes back to the start.
    pub fn balance_single_quotes(&mut self)
        ensures
            final(self).chunks() == balanced(old(self).chunks()),
            comes_back(old(self).chunks()) ==> scanned(
                literal_text(final(self).chunks(), final(self).chunks().len() as int),
                neutral(),
            ) == neutral(),
            final(self).render_type == old(self).render_type,
            final(self).quoted == old(self).quoted,
            forall|i: int|
                0 <= i < old(self).parts.len() && old(self).parts[i] is Interp
                    ==> final(self).parts[i] == old(self).parts[i],
    {
        let texts = self.balanced_texts();
        let ghost chunks = self.chunks();
        let ghost old_parts = self.parts@;
        let ghost wanted = balanced(chunks);
        let ghost render_type = self.render_type;
        let ghost quoted = self.quoted;
        let total = self.parts.len();
        let mut parts: VecDeque<InterpolablePart> = VecDeque::new();
        let mut i: usize = 0;
        assert(texts_of(texts@).len() == wanted.len());
        assert forall|j: int| 0 <= j < total implies chunks[j] == chunk_of(#[trigger] old_parts[j]) by {
            assert(Self::part_models(self.parts)[j] == self.parts[j]@);
        }
        while i < total
            invariant
                i <= total,
                total == old_parts.len(),
                self.parts@ == old_parts.skip(i as int),
                self.render_type == render_type,
                self.quoted == quoted,
                chunks.len() == total,
                texts@.len() == wanted.len(),
                texts_of(texts@) == wanted,
                wanted == balanced(chunks),
                forall|j: int| 0 <= j < total ==> chunks[j] == chunk_of(#[trigger] old_parts[j]),
                parts@.len() == i,
                forall|j: int| 0 <= j < i ==> chunk_of(#[trigger] parts@[j]) == wanted[j],
                forall|j: int|
                    0 <= j < i && old_parts[j] is Interp ==> #[trigger] parts@[j] == old_parts[j],
            decreases total - i,
        {
            let ghost before = parts@;
            let part = self.parts.pop_front().unwrap();
            assert(part == old_parts[i as int]);
            assert(texts_of(texts@)[i as int] == wanted[i as int]);
            assert(chunks[i as int] == chunk_of(old_parts[i as int]));
            match part {
                InterpolablePart::String(_) => {
                    let text = match &texts[i] {
                        Some(t) => t.clone(),
                        None => String::new(),
                    };
                    parts.push_back(InterpolablePart::String(text));
                },
                InterpolablePart::Interp(frag) => {
                    parts.push_back(InterpolablePart::Interp(frag));
                },
            }
            assert(chunk_of(parts@[i as int]) == wanted[i as int]);
            assert forall|j: int| 0 <= j < i + 1 implies chunk_of(#[trigger] parts@[j])
                == wanted[j] by {
                if j < i {
                    assert(parts@[j] == before[j]);
                }
            }
            assert forall|j: int| 0 <= j < i + 1 && old_parts[j] is Interp implies #[trigger] parts@[j]
                == old_parts[j] by {
                if j < i {
                    assert(parts@[j] == before[j]);
                }
            }
            i = i + 1;
        }
        let ghost before = parts@;
        if texts.len() > total {
            assert(texts_of(texts@)[total as int] == wanted[total as int]);
            let text = match &texts[total] {
                Some(t) => t.clone(),
                None => String::new(),
            };
            parts.push_back(InterpolablePart::String(text));
        }
        self.parts = parts;
        proof {
            assert(self.chunks().len() == wanted.len());
            assert forall|j: int| 0 <= j < wanted.len() implies self.chunks()[j] == wanted[j] by {
                assert(Self::part_models(self.parts)[j] == self.parts[j]@);
                assert(self.chunks()[j] == chunk_of(self.parts@[j]));
                if j < total {
                    assert(self.parts@[j] == before[j]);
                }
            }
            assert(self.chunks() =~= wanted);
            if comes_back(chunks) {
                lemma_balanced_is_quote_balanced(chunks);
            }
        }
    }

    /// Whether one of the embedded fragments holds a subprocess (`running`)
    /// or an assignment (otherwise).
    pub fn any_part_holds(&self, running: bool) -> (r: bool)
        ensures
            r == FragmentV::any_part(
                Self::part_models(self.parts),
                running,
                self.parts.len() as int,
            ),
        decreases self,
    {
        let ghost parts = Self::part_models(self.parts);
        let mut found = false;
        let mut i: usize = 0;
        while i < self.parts.len()
            invariant
                i <= self.parts.len(),
                parts == Self::part_models(self.parts),
                found == FragmentV::any_part(parts, running, i as int),
            decreases self.parts.len() - i,
        {
            assert(parts[i as int] == self.parts[i as int]@);
            match &self.parts[i] {
                InterpolablePart::String(_) => {},
                InterpolablePart::Interp(frag) => {
                    if frag.holds(running) {
                        found = true;
                    }
                },
            }
            i = i + 1;
        }
        found
    }

    /// The text `string`, escaped for the layout of this fragment. In a
    /// string literal the characters `"`, `$`, `` ` `` and `\` get a
    /// backslash in front and `!` becomes `"'!'"`; in a command line
    /// nothing changes.
    pub fn translate_escaped_string(&self, string: &str) -> (r: String)
        ensures
            r@ == escaped(string@, self.render_type),
    {
        escape_text(string, self.render_type)
    }

    /// The text of the parts: see [`FragmentV::region`].
    fn render_region(&self, render_type: InterpolableRenderType, ctx: RenderContext) -> (r: String)
        ensures
            r@ == FragmentV::region(Self::part_models(self.parts), render_type, ctx),
        decreases self, 0nat, 0nat,
    {
        let ghost parts = Self::part_models(self.parts);
        let ghost chunks = chunks_of(parts);
        let balancing = match render_type {
            InterpolableRenderType::GlobalContext => true,
            InterpolableRenderType::StringLiteral => false,
        };
        let texts = if balancing {
            self.balanced_texts()
        } else {
            Vec::new()
        };
        let total = self.parts.len();
        let mut out = String::new();
        let mut i: usize = 0;
        while i < total
            invariant
                i <= total,
                total == self.parts.len(),
                parts == Self::part_models(self.parts),
                chunks == chunks_of(parts),
                balancing == (render_type == InterpolableRenderType::GlobalContext),
                balancing ==> texts_of(texts@) == balanced(chunks),
                out@ == FragmentV::region_prefix(parts, render_type, ctx, i as int),
            decreases total - i,
        {
            assert(parts[i as int] == self.parts[i as int]@);
            match &self.parts[i] {
                InterpolablePart::String(s) => {
                    let piece = if balancing {
                        assert(texts_of(texts@)[i as int] == balanced(chunks)[i as int]);
                        match &texts[i] {
                            Some(t) => escape_text(t.as_str(), render_type),
                            None => String::new(),
                        }
                    } else {
                        escape_text(s.as_str(), render_type)
                    };
                    assert(piece@ == escaped(part_text(parts, render_type, i as int), render_type));
                    out.append(piece.as_str());
                },
                InterpolablePart::Interp(frag) => {
                    let piece = frag.render_embedded(ctx);
                    out.append(piece.as_str());
                },
            }
            i = i + 1;
        }
        if balancing && texts.len() > total {
            assert(texts_of(texts@)[total as int] == balanced(chunks)[total as int]);
            let piece = match &texts[total] {
                Some(t) => escape_text(t.as_str(), render_type),
                None => String::new(),
            };
            out.append(piece.as_str());
        }
        assert(balancing ==> texts@.len() == balanced(chunks).len());
        out
    }

    /// The shell text of the fragment in the layout `render_type`, with
    /// quotes if `quoted`, whatever its own fields say.
    pub fn render_as(
        &self,
        render_type: InterpolableRenderType,
        quoted: bool,
        ctx: RenderContext,
    ) -> (r: String)
        ensures
            r@ == FragmentV::laid_out(Self::part_models(self.parts), render_type, quoted, ctx),
        decreases self, 0nat, 1nat,
    {
        let body = self.render_region(render_type, ctx);
        match render_type {
            InterpolableRenderType::StringLiteral => {
                let mut out = String::new();
                if quoted {
                    out.append(ctx.gen_quote());
                }
                out.append(body.as_str());
                if quoted {
                    out.append(ctx.gen_quote());
                }
                proof {
                    assert(Seq::<char>::empty() + body@ + Seq::<char>::empty() == body@);
                    assert(Seq::<char>::empty() + ctx.quote() == ctx.quote());
                    assert(Seq::<char>::empty() + body@ == body@);
                }
                out
            },
            InterpolableRenderType::GlobalContext => trim(body.as_str()),
        }
    }

    /// The shell text of the fragment.
    pub fn render(&self, ctx: RenderContext) -> (r: String)
        ensures
            r@ == self@.rendered(ctx),
        decreases self, 0nat, 2nat,
    {
        self.render_as(self.render_type, self.quoted, ctx)
    }

    /// This fragment as a member of the fragment tree.
    pub fn to_frag(self) -> (r: FragmentKind)
        ensures
            r == FragmentKind::Interpolable(self),
    {
        FragmentKind::Interpolable(self)
    }
}

impl View for InterpolableFragment {
    type V = FragmentV;

    open spec fn view(&self) -> FragmentV {
        self.model()
    }
}

/// The text `string`, escaped for the layout `render_type`.
pub fn escape_text(string: &str, render_type: InterpolableRenderType) -> (r: String)
    ensures
        r@ == escaped(string@, render_type),
{
    let mut result = String::new();
    for c in iter: string.chars()
        invariant
            iter.seq() == string@,
            result@ == escaped_prefix(string@, render_type, iter.index() as int),
    {
        let ghost before = result@;
        match render_type {
            InterpolableRenderType::StringLiteral => {
                if c == '"' {
                    result.push('\\');
                    result.push('"');
                } else if c == '$' {
                    result.push('\\');
                    result.push('$');
                } else if c == '`' {
                    result.push('\\');
                    result.push('`');
                } else if c == '\\' {
                    result.push('\\');
                    result.push('\\');
                } else if c == '!' {
                    result.push('"');
                    result.push('\'');
                    result.push('!');
                    result.push('\'');
                    result.push('"');
                } else {
                    result.push(c);
                }
            },
            InterpolableRenderType::GlobalContext => {
                result.push(c);
            },
        }
        assert(result@ == before + escape_char(c, render_type));
    }
    result
}

/// Scans the chunk `s` and updates the two flags that say whether the scan
/// stands inside single or double quotes. A quote character toggles its own
/// flag if the other flag is clear and an even number of backslashes stands
/// directly before it.
pub fn scan_quote_state(s: &str, in_single_quotes: &mut bool, in_double_quotes: &mut bool)
    ensures
        (QuoteState { in_single: *final(in_single_quotes), in_double: *final(in_double_quotes) })
            == scanned(
            s@,
            QuoteState { in_single: *old(in_single_quotes), in_double: *old(in_double_quotes) },
        ),
{
    let mut single = *in_single_quotes;
    let mut double = *in_double_quotes;
    let mut escaped = false;
    let ghost start = scan_start(QuoteState { in_single: single, in_double: double });
    for c in iter: s.chars()
        invariant
            iter.seq() == s@,
            (ScanState { in_single: single, in_double: double, escaped }) == scan_run(
                s@,
                start,
                iter.index() as int,
            ),
    {
        if c == '\\' {
            escaped = !escaped;
        } else if c == '"' {
            if !single && !escaped {
                double = !double;
            }
            escaped = false;
        } else if c == '\'' {
            if !double && !escaped {
                single = !single;
            }
            escaped = false;
        } else {
            escaped = false;
        }
    }
    *in_single_quotes = single;
    *in_double_quotes = double;
}


impl InterpolableFragment {
    /// The shell text of the fragment in the state `meta`, which stays as it is.
    pub fn to_string(self, meta: &mut TranslateMetadata) -> (r: String)
        ensures
            r@ == self@.rendered(old(meta).render_context()),
            *final(meta) == *old(meta),
    {
        let context = meta.context();
        self.render(context)
    }
}


impl InterpolableFragment {
    /// The text of the parts, without quotes around the whole: literal
    /// chunks escaped for the layout of the fragment, embedded fragments
    /// rendered as they stand in a command line. In the layout of a
    /// command line the chunks are balanced first: see
    /// [`InterpolableFragment::balance_single_quotes`].
    pub fn render_interpolated_region(self, meta: &mut TranslateMetadata) -> (r: String)
        ensures
            r@ == FragmentV::region(
                Self::part_models(self.parts),
                self.render_type,
                old(meta).render_context(),
            ),
            *final(meta) == *old(meta),
    {
        let context = meta.context();
        self.render_region(self.render_type, context)
    }
}

} // verus!
