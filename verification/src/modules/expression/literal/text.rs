//! Text literals with interpolations.

use crate::modules::expression::expr::Expr;
use crate::modules::expression::interpolated_region::InterpolatedRegionType;
use crate::modules::expression::interpolated_region::parse_interpolated_region;
use crate::modules::grammar;
use crate::modules::model::ExprV;
use crate::modules::model::FailureV;
use crate::modules::model::TextPartV;
use crate::modules::types::Type;
use crate::modules::typing;
use crate::translate::fragments::fragment::FragmentKind;
use crate::translate::fragments::interpolable::InterpolableFragment;
use crate::translate::fragments::interpolable::InterpolablePart;
use crate::translate::fragments::model::FragmentV;
use crate::translate::fragments::model::PartV;
use crate::translate::fragments::quoting::InterpolableRenderType;
use crate::translate::lowering;
use crate::utils::metadata::parser::Failure;
use crate::utils::metadata::parser::ParserMetadata;
use crate::utils::metadata::parser::SyntaxResult;
use crate::utils::metadata::parser::checked_to;
use crate::utils::metadata::parser::fit_for_checking;
use crate::utils::metadata::parser::parsed_as;
use crate::utils::metadata::parser::variable;
use crate::utils::metadata::translate::TranslateMetadata;
use crate::utils::metadata::translate::same_setting;
use vstd::prelude::*;
use vstd::std_specs::vecdeque::VecDequeAdditionalSpecFns;

verus! {

/// One part of a text or command: literal characters, or an expression
/// whose value stands in their place.
#[derive(Debug, PartialEq, Eq)]
pub enum TextPart {
    String(String),
    Expr(Box<Expr>),
}

impl TextPart {
    /// The view of the part.
    pub open spec fn model(self) -> TextPartV
        decreases self,
    {
        match self {
            TextPart::String(s) => TextPartV::String(s@),
            TextPart::Expr(expr) => TextPartV::Expr(Box::new(expr.model())),
        }
    }

    /// The views of the parts of a vector.
    pub open spec fn models_of(parts: Vec<TextPart>) -> Seq<TextPartV>
        decreases parts,
    {
        Seq::new(
            parts.len() as nat,
            |i: int|
                if 0 <= i < parts.len() {
                    parts[i].model()
                } else {
                    TextPartV::String(Seq::empty())
                },
        )
    }
}

impl View for TextPart {
    type V = TextPartV;

    open spec fn view(&self) -> TextPartV {
        self.model()
    }
}

/// A text literal.
#[derive(Debug, PartialEq, Eq)]
pub struct Text {
    pub parts: Vec<TextPart>,
}

impl Text {
    /// A literal that was not parsed yet.
    pub fn new() -> (r: Self)
        ensures
            r.parts@ == Seq::<TextPart>::empty(),
    {
        Text { parts: Vec::new() }
    }

    /// The type of the literal.
    pub fn get_type(&self) -> (r: Type)
        ensures
            r == Type::Text,
    {
        Type::Text
    }

    /// What the documentation says of the node: nothing.
    pub fn document(&self, meta: &ParserMetadata) -> (r: String)
        ensures
            r@ == Seq::<char>::empty(),
    {
        String::new()
    }
}


impl Text {
    /// Parses a text between double quotes.
    pub fn parse(&mut self, meta: &mut ParserMetadata) -> (r: SyntaxResult)
        requires
            old(meta).wf(),
        ensures
            parsed_as(
                *old(meta),
                *final(meta),
                r,
                TextPart::models_of(final(self).parts),
                grammar::region_parsed(
                    old(meta).words(),
                    old(meta)@,
                    InterpolatedRegionType::Text,
                ),
            ),
            r is Ok ==> final(meta).index > old(meta).index,
        decreases grammar::remaining(old(meta).words(), old(meta)@), 75nat,
    {
        match parse_interpolated_region(meta, &InterpolatedRegionType::Text) {
            Ok(parts) => {
                self.parts = parts;
                Ok(())
            },
            Err(failure) => Err(failure),
        }
    }
}


impl TextPart {
    /// Checks the parts of `parts` one after the other: the expressions in
    /// them are checked, the literal parts stay.
    pub fn checked_all(parts: &Vec<TextPart>, meta: &mut ParserMetadata) -> (r: Result<
        Vec<TextPart>,
        Failure,
    >)
        requires
            fit_for_checking(*old(meta)),
        ensures
            ({
                let step = typing::parts_checked(
                    old(meta).words(),
                    TextPart::models_of(*parts),
                    old(meta)@,
                    0,
                    Seq::empty(),
                );
                &&& checked_to(*old(meta), *final(meta), step.1)
                &&& match r {
                    Ok(found) => step.0 == Ok::<Seq<TextPartV>, FailureV>(
                        TextPart::models_of(found),
                    ),
                    Err(failure) => step.0 == Err::<Seq<TextPartV>, FailureV>(failure@),
                }
            }),
        decreases typing::rank(old(meta)@), parts, parts.len(),
    {
        let ghost words = meta.words();
        let ghost all = TextPart::models_of(*parts);
        let ghost goal = typing::parts_checked(words, all, meta@, 0, Seq::empty());
        let mut out: Vec<TextPart> = Vec::new();
        assert(TextPart::models_of(out) =~= Seq::<TextPartV>::empty());
        let mut i: usize = 0;
        while i < parts.len()
            invariant
                i <= parts.len(),
                words == old(meta).words(),
                all == TextPart::models_of(*parts),
                fit_for_checking(*meta),
                meta.tokens == old(meta).tokens,
                meta.visible == old(meta).visible,
                meta@.scopes.len() == old(meta)@.scopes.len(),
                meta@.fun_decls.len() == old(meta)@.fun_decls.len(),
                goal == typing::parts_checked(words, all, old(meta)@, 0, Seq::empty()),
                goal == typing::parts_checked(
                    words,
                    all,
                    meta@,
                    i as int,
                    TextPart::models_of(out),
                ),
            decreases parts.len() - i,
        {
            reveal(typing::parts_checked);
            reveal(typing::expr_checked);
            assert(all[i as int] == parts[i as int].model());
            let ghost before = TextPart::models_of(out);
            match &parts[i] {
                TextPart::String(s) => {
                    let part = TextPart::String(s.clone());
                    out.push(part);
                    assert(TextPart::models_of(out) =~= before.push(part.model()));
                },
                TextPart::Expr(expr) => match expr.checked(meta) {
                    Ok(found) => {
                        let part = TextPart::Expr(Box::new(found));
                        out.push(part);
                        assert(TextPart::models_of(out) =~= before.push(part.model()));
                    },
                    Err(failure) => {
                        return Err(failure);
                    },
                },
            }
            i = i + 1;
        }
        reveal(typing::parts_checked);
        reveal(typing::expr_checked);
        Ok(out)
    }

    /// Checks the part in place: a literal part is fine as it is, and an
    /// expression is checked.
    pub fn typecheck(&mut self, meta: &mut ParserMetadata) -> (r: SyntaxResult)
        requires
            fit_for_checking(*old(meta)),
        ensures
            match *old(self) {
                TextPart::String(_) => {
                    &&& r is Ok
                    &&& *final(self) == *old(self)
                    &&& *final(meta) == *old(meta)
                },
                TextPart::Expr(expr) => {
                    let step = typing::expr_checked(old(meta).words(), expr.model(), old(meta)@);
                    &&& checked_to(*old(meta), *final(meta), step.1)
                    &&& match r {
                        Ok(()) => step.0 == Ok::<ExprV, FailureV>(
                            final(self)->Expr_0.model(),
                        ) && *final(self) is Expr,
                        Err(failure) => step.0 == Err::<ExprV, FailureV>(failure@),
                    }
                },
            },
    {
        match self {
            TextPart::String(_) => Ok(()),
            TextPart::Expr(expr) => match expr.checked(meta) {
                Ok(found) => {
                    *self = TextPart::Expr(Box::new(found));
                    Ok(())
                },
                Err(failure) => Err(failure),
            },
        }
    }
}

impl Text {
    /// Checks the expressions in the text.
    pub fn checked(&self, meta: &mut ParserMetadata) -> (r: Result<Text, Failure>)
        requires
            fit_for_checking(*old(meta)),
        ensures
            ({
                let step = typing::parts_checked(
                    old(meta).words(),
                    TextPart::models_of(self.parts),
                    old(meta)@,
                    0,
                    Seq::empty(),
                );
                &&& checked_to(*old(meta), *final(meta), step.1)
                &&& match r {
                    Ok(found) => step.0 == Ok::<Seq<TextPartV>, FailureV>(
                        TextPart::models_of(found.parts),
                    ),
                    Err(failure) => step.0 == Err::<Seq<TextPartV>, FailureV>(failure@),
                }
            }),
        decreases typing::rank(old(meta)@), self, 0nat,
    {
        match TextPart::checked_all(&self.parts, meta) {
            Ok(parts) => Ok(Text { parts }),
            Err(failure) => Err(failure),
        }
    }

    /// Checks the expressions in the text in place.
    pub fn typecheck(&mut self, meta: &mut ParserMetadata) -> (r: SyntaxResult)
        requires
            fit_for_checking(*old(meta)),
        ensures
            ({
                let step = typing::parts_checked(
                    old(meta).words(),
                    TextPart::models_of(old(self).parts),
                    old(meta)@,
                    0,
                    Seq::empty(),
                );
                &&& checked_to(*old(meta), *final(meta), step.1)
                &&& match r {
                    Ok(()) => step.0 == Ok::<Seq<TextPartV>, FailureV>(
                        TextPart::models_of(final(self).parts),
                    ),
                    Err(failure) => step.0 == Err::<Seq<TextPartV>, FailureV>(failure@),
                }
            }),
    {
        match self.checked(meta) {
            Ok(found) => {
                *self = found;
                Ok(())
            },
            Err(failure) => Err(failure),
        }
    }
}


/// The views of the parts of a vector.
pub open spec fn interpolable_models(parts: Vec<InterpolablePart>) -> Seq<PartV> {
    Seq::new(parts.len() as nat, |i: int| parts[i]@)
}

/// The part that stands for a translated expression inside a text or
/// command: without quotes, and an array variable as one word.
pub fn interpolated(frag: FragmentKind) -> (r: FragmentKind)
    ensures
        r@ == lowering::interpolated(frag@),
{
    match frag.with_quotes(false) {
        FragmentKind::VarExpr(var) => {
            if var.kind.is_array() {
                var.with_array_to_string(true).to_frag()
            } else {
                var.to_frag()
            }
        },
        other => other,
    }
}

impl TextPart {
    /// The parts of an interpolable fragment for the parts of a text or
    /// command: a literal part stays, and an expression is translated and
    /// stands without quotes, an array variable as one word.
    pub fn to_interpolable_parts(parts: &Vec<TextPart>, meta: &mut TranslateMetadata) -> (r: Vec<
        InterpolablePart,
    >)
        ensures
            same_setting(*old(meta), *final(meta)),
            (interpolable_models(r), final(meta)@) == lowering::parts_translated(
                TextPart::models_of(*parts),
                old(meta)@,
                0,
                Seq::empty(),
            ),
        decreases parts, parts.len(),
    {
        let ghost all = TextPart::models_of(*parts);
        let ghost goal = lowering::parts_translated(all, meta@, 0, Seq::empty());
        let mut out: Vec<InterpolablePart> = Vec::new();
        assert(interpolable_models(out) =~= Seq::<PartV>::empty());
        let mut i: usize = 0;
        while i < parts.len()
            invariant
                i <= parts.len(),
                all == TextPart::models_of(*parts),
                same_setting(*old(meta), *meta),
                goal == lowering::parts_translated(all, old(meta)@, 0, Seq::empty()),
                goal == lowering::parts_translated(all, meta@, i as int, interpolable_models(out)),
            decreases parts.len() - i,
        {
            reveal(lowering::parts_translated);
            reveal(lowering::expr_translated);
            assert(all[i as int] == parts[i as int].model());
            let ghost before = interpolable_models(out);
            let part = match &parts[i] {
                TextPart::String(s) => InterpolablePart::String(s.clone()),
                TextPart::Expr(expr) => {
                    let frag = expr.translate(meta);
                    InterpolablePart::Interp(interpolated(frag))
                },
            };
            out.push(part);
            assert(interpolable_models(out) =~= before.push(part@));
            i = i + 1;
        }
        reveal(lowering::parts_translated);
        out
    }
}

impl Text {
    /// Translates the text to a double-quoted string of the shell.
    pub fn translate(&self, meta: &mut TranslateMetadata) -> (r: FragmentKind)
        ensures
            same_setting(*old(meta), *final(meta)),
            ({
                let lowered = lowering::parts_translated(
                    TextPart::models_of(self.parts),
                    old(meta)@,
                    0,
                    Seq::empty(),
                );
                &&& final(meta)@ == lowered.1
                &&& r@ == (FragmentV::Interpolable {
                    parts: lowered.0,
                    render_type: InterpolableRenderType::StringLiteral,
                    quoted: true,
                })
            }),
        decreases self, 0nat,
    {
        let parts = TextPart::to_interpolable_parts(&self.parts, meta);
        let ghost models = interpolable_models(parts);
        let fragment = InterpolableFragment::new(parts, InterpolableRenderType::StringLiteral);
        assert(InterpolableFragment::part_models(fragment.parts) =~= models);
        fragment.to_frag()
    }
}

} // verus!
