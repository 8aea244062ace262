//! Command substitution.

use crate::translate::fragments::fragment::FragmentKind;
use crate::translate::fragments::model::FragmentV;
use crate::translate::fragments::model::RenderContext;
use crate::utils::metadata::translate::TranslateMetadata;
use vstd::prelude::*;

verus! {

/// A fragment whose output stands for its value: `$(...)`.
#[derive(Debug, PartialEq, Eq)]
pub struct SubprocessFragment {
    pub fragment: Box<FragmentKind>,
}

impl SubprocessFragment {
    /// The view of the substitution.
    pub open spec fn model(self) -> FragmentV
        decreases self,
    {
        FragmentV::Subprocess(Box::new(self.fragment.model()))
    }

    /// The substitution of what `fragment` prints.
    pub fn new(fragment: FragmentKind) -> (r: Self)
        ensures
            r@ == FragmentV::Subprocess(Box::new(fragment@)),
    {
        SubprocessFragment { fragment: Box::new(fragment) }
    }

    /// The shell text of the substitution. The inner fragment is laid out as
    /// a command line.
    pub fn render(&self, ctx: RenderContext) -> (r: String)
        ensures
            r@ == self@.rendered(ctx),
        decreases self, 0nat,
    {
        let mut out = String::from_str(ctx.gen_dollar());
        out.append("(");
        let inner = self.fragment.render_embedded(ctx);
        out.append(inner.as_str());
        out.append(")");
        out
    }

    /// This fragment as a member of the fragment tree.
    pub fn to_frag(self) -> (r: FragmentKind)
        ensures
            r == FragmentKind::Subprocess(self),
    {
        FragmentKind::Subprocess(self)
    }
}

impl View for SubprocessFragment {
    type V = FragmentV;

    open spec fn view(&self) -> FragmentV {
        self.model()
    }
}


impl SubprocessFragment {
    /// The shell text of the substitution in the state `meta`, which stays as it is.
    pub fn to_string(self, meta: &mut TranslateMetadata) -> (r: String)
        ensures
            r@ == self@.rendered(old(meta).render_context()),
            *final(meta) == *old(meta),
    {
        let context = meta.context();
        self.render(context)
    }
}

} // verus!
