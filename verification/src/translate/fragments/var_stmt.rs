//! Assignment to a shell variable.

use crate::modules::types::Type;
use crate::text::owned;
use crate::translate::fragments::fragment::FragmentKind;
use crate::translate::fragments::model::FragmentV;
use crate::translate::fragments::model::RenderContext;
use crate::translate::fragments::model::variable_name;
use crate::utils::metadata::translate::TranslateMetadata;
use vstd::prelude::*;

verus! {

/// An assignment statement. An ephemeral variable is one that the
/// translator made up to hold an intermediate value.
#[derive(Debug, PartialEq, Eq)]
pub struct VarStmtFragment {
    pub name: String,
    pub kind: Type,
    pub value: Box<FragmentKind>,
    pub global_id: Option<usize>,
    pub ephemeral: bool,
}

impl VarStmtFragment {
    /// The view of the assignment.
    pub open spec fn model(self) -> FragmentV
        decreases self,
    {
        FragmentV::VarStmt {
            name: self.name@,
            kind: self.kind,
            value: Box::new(self.value.model()),
            global_id: self.global_id,
            ephemeral: self.ephemeral,
        }
    }

    /// The assignment of `value` to the variable `name` of type `kind`,
    /// without a global id and not ephemeral.
    pub fn new(name: &str, kind: Type, value: FragmentKind) -> (r: Self)
        ensures
            r@ == (FragmentV::VarStmt {
                name: name@,
                kind,
                value: Box::new(value@),
                global_id: None,
                ephemeral: false,
            }),
    {
        VarStmtFragment {
            name: owned(name),
            kind,
            value: Box::new(value),
            global_id: None,
            ephemeral: false,
        }
    }

    /// The same assignment with the global id `id`.
    pub fn with_global_id(self, id: Option<usize>) -> (r: Self)
        ensures
            r == (VarStmtFragment { global_id: id, ..self }),
    {
        let mut out = self;
        out.global_id = id;
        out
    }

    /// The same assignment, marked ephemeral or not.
    pub open spec fn with_ephemeral_spec(self, ephemeral: bool) -> Self {
        VarStmtFragment { ephemeral, ..self }
    }

    /// The same assignment, marked ephemeral or not.
    pub fn with_ephemeral(self, ephemeral: bool) -> (r: Self)
        ensures
            r == self.with_ephemeral_spec(ephemeral),
    {
        let mut out = self;
        out.ephemeral = ephemeral;
        out
    }

    /// The shell text of the assignment: `name=value`, or `name=(value)` for
    /// an array.
    pub fn render(&self, ctx: RenderContext) -> (r: String)
        ensures
            r@ == self@.rendered(ctx),
        decreases self, 0nat,
    {
        let mut out = variable_name(self.name.as_str(), self.global_id, ctx.variant);
        let value = self.value.render(ctx);
        if self.kind.is_array() {
            out.append("=(");
            out.append(value.as_str());
            out.append(")");
        } else {
            out.append("=");
            out.append(value.as_str());
        }
        out
    }

    /// This fragment as a member of the fragment tree.
    pub fn to_frag(self) -> (r: FragmentKind)
        ensures
            r == FragmentKind::VarStmt(self),
    {
        FragmentKind::VarStmt(self)
    }
}

impl View for VarStmtFragment {
    type V = FragmentV;

    open spec fn view(&self) -> FragmentV {
        self.model()
    }
}


impl VarStmtFragment {
    /// The shell text of the assignment in the state `meta`, which stays as it is.
    pub fn to_string(self, meta: &mut TranslateMetadata) -> (r: String)
        ensures
            r@ == self@.rendered(old(meta).render_context()),
            *final(meta) == *old(meta),
    {
        let context = meta.context();
        self.render(context)
    }
}

} // verus!
