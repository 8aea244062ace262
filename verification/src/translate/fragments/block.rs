//! A sequence of statements, one per line.

use crate::text::join;
use crate::text::views;
use crate::translate::fragments::fragment::FragmentKind;
use crate::translate::fragments::model::FragmentV;
use crate::translate::fragments::model::RenderContext;
use crate::utils::metadata::translate::TranslateMetadata;
use vstd::prelude::*;

verus! {

/// Statements that are emitted on lines of their own. The block may indent
/// its statements one level deeper than its surroundings, and may stand
/// between braces.
#[derive(Debug, PartialEq, Eq)]
pub struct BlockFragment {
    pub statements: Vec<FragmentKind>,
    pub increase_indent: bool,
    pub braces: bool,
}

impl BlockFragment {
    /// The view of the block.
    pub open spec fn model(self) -> FragmentV
        decreases self,
    {
        FragmentV::Block {
            statements: FragmentKind::models_of(self.statements),
            increase_indent: self.increase_indent,
            braces: self.braces,
        }
    }

    /// The block of `statements` without braces.
    pub fn new(statements: Vec<FragmentKind>, increase_indent: bool) -> (r: Self)
        ensures
            r == (BlockFragment { statements, increase_indent, braces: false }),
    {
        BlockFragment { statements, increase_indent, braces: false }
    }

    /// The same block between braces, or without them.
    pub fn with_braces(self, braces: bool) -> (r: Self)
        ensures
            r == (BlockFragment { braces, ..self }),
    {
        let mut out = self;
        out.braces = braces;
        out
    }

    /// Whether the block holds nothing but empty fragments.
    pub fn is_empty(&self) -> (r: bool)
        ensures
            r == (forall|i: int| 0 <= i < self.statements.len() ==> self.statements[i] is Empty),
    {
        let mut i: usize = 0;
        while i < self.statements.len()
            invariant
                i <= self.statements.len(),
                forall|j: int| 0 <= j < i ==> self.statements[j] is Empty,
            decreases self.statements.len() - i,
        {
            match &self.statements[i] {
                FragmentKind::Empty => {},
                _ => {
                    return false;
                },
            }
            i = i + 1;
        }
        true
    }

    /// The shell text of the block.
    pub fn render(&self, ctx: RenderContext) -> (r: String)
        ensures
            r@ == self@.rendered(ctx),
        decreases self, 0nat,
    {
        let inner = if self.increase_indent {
            ctx.entered()
        } else {
            ctx
        };
        let mut texts: Vec<String> = Vec::new();
        let ghost statements = FragmentKind::models_of(self.statements);
        let mut i: usize = 0;
        while i < self.statements.len()
            invariant
                i <= self.statements.len(),
                statements == FragmentKind::models_of(self.statements),
                views(texts@) == FragmentV::lines(statements, inner, i as int),
            decreases self.statements.len() - i,
        {
            assert(statements[i as int] == self.statements[i as int]@);
            match &self.statements[i] {
                FragmentKind::Empty => {},
                FragmentKind::Block(block) => {
                    let text = block.render(inner);
                    assert(views(texts@.push(text)) == views(texts@).push(text@));
                    texts.push(text);
                },
                other => {
                    let mut line = inner.gen_indent();
                    let text = other.render(inner);
                    line.append(text.as_str());
                    assert(views(texts@.push(line)) == views(texts@).push(line@));
                    texts.push(line);
                },
            }
            i = i + 1;
        }
        let body = join(&texts, "\n");
        if self.braces {
            let mut out = ctx.gen_indent();
            out.append("{\n");
            out.append(body.as_str());
            out.append("\n");
            let closing = ctx.gen_indent();
            out.append(closing.as_str());
            out.append("}");
            out
        } else {
            body
        }
    }

    /// This fragment as a member of the fragment tree.
    pub fn to_frag(self) -> (r: FragmentKind)
        ensures
            r == FragmentKind::Block(self),
    {
        FragmentKind::Block(self)
    }
}

impl View for BlockFragment {
    type V = FragmentV;

    open spec fn view(&self) -> FragmentV {
        self.model()
    }
}


impl BlockFragment {
    /// The shell text of the block in the state `meta`, which stays as it is.
    pub fn to_string(self, meta: &mut TranslateMetadata) -> (r: String)
        ensures
            r@ == self@.rendered(old(meta).render_context()),
            *final(meta) == *old(meta),
    {
        let context = meta.context();
        self.render(context)
    }
}

} // verus!
