//! A sequence of fragments on one line.

use crate::text::join;
use crate::text::owned;
use crate::text::views;
use crate::translate::fragments::fragment::FragmentKind;
use crate::translate::fragments::model::FragmentV;
use crate::translate::fragments::model::RenderContext;
use crate::utils::metadata::translate::TranslateMetadata;
use vstd::prelude::*;

verus! {

/// Fragments that are emitted one after the other with a separator between
/// them. Items that render to nothing are left out.
#[derive(Debug, PartialEq, Eq)]
pub struct ListFragment {
    pub values: Vec<FragmentKind>,
    pub separator: String,
}

impl ListFragment {
    /// The view of the list.
    pub open spec fn model(self) -> FragmentV
        decreases self,
    {
        FragmentV::List { values: FragmentKind::models_of(self.values), separator: self.separator@ }
    }

    /// The list of `values` with nothing between them.
    pub fn new(values: Vec<FragmentKind>) -> (r: Self)
        ensures
            r.values == values,
            r.separator@ == Seq::<char>::empty(),
    {
        ListFragment { values, separator: String::new() }
    }

    /// The same list with one space between the items.
    pub fn with_spaces(self) -> (r: Self)
        ensures
            r.values == self.values,
            r.separator@ == " "@,
    {
        ListFragment { values: self.values, separator: owned(" ") }
    }

    /// The shell text of the list.
    pub fn render(&self, ctx: RenderContext) -> (r: String)
        ensures
            r@ == self@.rendered(ctx),
        decreases self, 0nat,
    {
        let mut texts: Vec<String> = Vec::new();
        let ghost values = FragmentKind::models_of(self.values);
        let mut i: usize = 0;
        while i < self.values.len()
            invariant
                i <= self.values.len(),
                values == FragmentKind::models_of(self.values),
                views(texts@) == FragmentV::pieces(values, ctx, i as int),
            decreases self.values.len() - i,
        {
            let text = self.values[i].render(ctx);
            proof {
                assert(values[i as int] == self.values[i as int]@);
                if text@.len() != 0 {
                    assert(views(texts@.push(text)) == views(texts@).push(text@));
                }
            }
            if !text.as_str().is_empty() {
                texts.push(text);
            }
            i = i + 1;
        }
        join(&texts, self.separator.as_str())
    }

    /// This fragment as a member of the fragment tree.
    pub fn to_frag(self) -> (r: FragmentKind)
        ensures
            r == FragmentKind::List(self),
    {
        FragmentKind::List(self)
    }
}

impl View for ListFragment {
    type V = FragmentV;

    open spec fn view(&self) -> FragmentV {
        self.model()
    }
}


impl ListFragment {
    /// The shell text of the list in the state `meta`, which stays as it is.
    pub fn to_string(self, meta: &mut TranslateMetadata) -> (r: String)
        ensures
            r@ == self@.rendered(old(meta).render_context()),
            *final(meta) == *old(meta),
    {
        let context = meta.context();
        self.render(context)
    }
}

} // verus!
