//! Text that is emitted as it stands.

use crate::text::owned;
use crate::translate::fragments::fragment::FragmentKind;
use crate::translate::fragments::model::FragmentV;
use crate::translate::fragments::model::RenderContext;
use crate::utils::metadata::translate::TranslateMetadata;
use vstd::prelude::*;

verus! {

/// A piece of shell text that is emitted literally.
#[derive(Debug, PartialEq, Eq)]
pub struct RawFragment {
    pub value: String,
}

impl View for RawFragment {
    type V = FragmentV;

    open spec fn view(&self) -> FragmentV {
        FragmentV::Raw(self.value@)
    }
}

impl RawFragment {
    /// The fragment that emits `value`.
    pub fn new(value: &str) -> (r: Self)
        ensures
            r@ == FragmentV::Raw(value@),
    {
        RawFragment { value: owned(value) }
    }

    /// The fragment that emits `value`.
    pub fn from(value: String) -> (r: Self)
        ensures
            r@ == FragmentV::Raw(value@),
    {
        RawFragment { value }
    }

    /// The shell text of the fragment.
    pub fn render(&self, ctx: RenderContext) -> (r: String)
        ensures
            r@ == self@.rendered(ctx),
    {
        self.value.clone()
    }

    /// This fragment as a member of the fragment tree.
    pub fn to_frag(self) -> (r: FragmentKind)
        ensures
            r == FragmentKind::Raw(self),
    {
        FragmentKind::Raw(self)
    }
}


impl RawFragment {
    /// The shell text of the fragment in the state `meta`, which stays as it is.
    pub fn to_string(self, meta: &mut TranslateMetadata) -> (r: String)
        ensures
            r@ == self@.rendered(old(meta).render_context()),
            *final(meta) == *old(meta),
    {
        let context = meta.context();
        self.render(context)
    }
}

} // verus!
