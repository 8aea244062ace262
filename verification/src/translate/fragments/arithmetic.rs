//! Integer arithmetic of the shell.

use crate::translate::compute::ArithOp;
use crate::translate::fragments::fragment::FragmentKind;
use crate::translate::fragments::model::FragmentV;
use crate::translate::fragments::model::RenderContext;
use crate::utils::metadata::translate::TranslateMetadata;
use vstd::prelude::*;

verus! {

/// An arithmetic expansion: `$(( left op right ))`. An operand that renders
/// to nothing is left out, as for an operator with one operand.
#[derive(Debug, PartialEq, Eq)]
pub struct ArithmeticFragment {
    pub op: ArithOp,
    pub left: Box<FragmentKind>,
    pub right: Box<FragmentKind>,
}

impl ArithmeticFragment {
    /// The view of the expansion.
    pub open spec fn model(self) -> FragmentV
        decreases self,
    {
        FragmentV::Arithmetic {
            op: self.op,
            left: Box::new(self.left.model()),
            right: Box::new(self.right.model()),
        }
    }

    /// The expansion of `left op right`.
    pub fn new(left: FragmentKind, op: ArithOp, right: FragmentKind) -> (r: Self)
        ensures
            r@ == (FragmentV::Arithmetic { op, left: Box::new(left@), right: Box::new(right@) }),
    {
        ArithmeticFragment { op, left: Box::new(left), right: Box::new(right) }
    }

    /// The shell text of the expansion.
    pub fn render(&self, ctx: RenderContext) -> (r: String)
        ensures
            r@ == self@.rendered(ctx),
        decreases self, 0nat,
    {
        let left = self.left.render(ctx);
        let right = self.right.render(ctx);
        let mut out = String::from_str(ctx.gen_dollar());
        out.append("(( ");
        if !left.as_str().is_empty() {
            out.append(left.as_str());
            out.append(" ");
        }
        out.append(self.op.as_str());
        if !right.as_str().is_empty() {
            out.append(" ");
            out.append(right.as_str());
        }
        out.append(" ))");
        proof {
            let l = left@;
            let r = right@;
            let head = ctx.dollar() + "(( "@;
            assert(head + l == head + (if l.len() == 0 {
                l
            } else {
                l
            }));
            if l.len() == 0 {
                assert(head + l == head);
            } else {
                assert(head + l + " "@ == head + (l + " "@));
            }
            let mid = head + (if l.len() == 0 {
                l
            } else {
                l + " "@
            }) + self.op.symbol();
            if r.len() == 0 {
                assert(mid + r == mid);
            } else {
                assert(mid + " "@ + r == mid + (" "@ + r));
            }
        }
        out
    }

    /// This fragment as a member of the fragment tree.
    pub fn to_frag(self) -> (r: FragmentKind)
        ensures
            r == FragmentKind::Arithmetic(self),
    {
        FragmentKind::Arithmetic(self)
    }
}

impl View for ArithmeticFragment {
    type V = FragmentV;

    open spec fn view(&self) -> FragmentV {
        self.model()
    }
}


impl ArithmeticFragment {
    /// The shell text of the expansion in the state `meta`, which stays as it is.
    pub fn to_string(self, meta: &mut TranslateMetadata) -> (r: String)
        ensures
            r@ == self@.rendered(old(meta).render_context()),
            *final(meta) == *old(meta),
    {
        let context = meta.context();
        self.render(context)
    }
}

} // verus!
