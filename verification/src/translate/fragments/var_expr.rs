//! Reference to a shell variable.

use crate::modules::types::Type;
use crate::text::owned;
use crate::translate::fragments::fragment::FragmentKind;
use crate::translate::fragments::model::FragmentV;
use crate::translate::fragments::model::RenderContext;
use crate::translate::fragments::model::variable_name;
use crate::translate::fragments::var_stmt::VarStmtFragment;
use crate::utils::metadata::translate::TranslateMetadata;
use vstd::prelude::*;

verus! {

/// A reference to a variable that was assigned before.
#[derive(Debug, PartialEq, Eq)]
pub struct VarExprFragment {
    pub name: String,
    pub kind: Type,
    pub global_id: Option<usize>,
    pub quoted: bool,
    pub array_to_string: bool,
}

impl View for VarExprFragment {
    type V = FragmentV;

    open spec fn view(&self) -> FragmentV {
        FragmentV::VarExpr {
            name: self.name@,
            kind: self.kind,
            global_id: self.global_id,
            quoted: self.quoted,
            array_to_string: self.array_to_string,
        }
    }
}

impl VarExprFragment {
    /// The quoted reference to the variable `name` of type `kind`.
    pub fn new(name: &str, kind: Type) -> (r: Self)
        ensures
            r@ == (FragmentV::VarExpr {
                name: name@,
                kind,
                global_id: None,
                quoted: true,
                array_to_string: false,
            }),
    {
        VarExprFragment {
            name: owned(name),
            kind,
            global_id: None,
            quoted: true,
            array_to_string: false,
        }
    }

    /// The quoted reference to the variable that `stmt` assigns.
    pub fn from_stmt(stmt: &VarStmtFragment) -> (r: Self)
        ensures
            r@ == (FragmentV::VarExpr {
                name: stmt.name@,
                kind: stmt.kind,
                global_id: stmt.global_id,
                quoted: true,
                array_to_string: false,
            }),
    {
        VarExprFragment {
            name: stmt.name.clone(),
            kind: stmt.kind.clone(),
            global_id: stmt.global_id,
            quoted: true,
            array_to_string: false,
        }
    }

    /// The same reference with the global id `id`.
    pub fn with_global_id(self, id: Option<usize>) -> (r: Self)
        ensures
            r == (VarExprFragment { global_id: id, ..self }),
    {
        let mut out = self;
        out.global_id = id;
        out
    }

    /// The same reference with or without quotes around it.
    pub fn with_quotes(self, quoted: bool) -> (r: Self)
        ensures
            r == (VarExprFragment { quoted, ..self }),
    {
        let mut out = self;
        out.quoted = quoted;
        out
    }

    /// The same reference; of an array it gives all items as one word if
    /// `array_to_string` is set, and one word per item otherwise.
    pub fn with_array_to_string(self, array_to_string: bool) -> (r: Self)
        ensures
            r == (VarExprFragment { array_to_string, ..self }),
    {
        let mut out = self;
        out.array_to_string = array_to_string;
        out
    }

    /// The shell text of the reference.
    pub fn render(&self, ctx: RenderContext) -> (r: String)
        ensures
            r@ == self@.rendered(ctx),
    {
        let mut out = String::new();
        if self.quoted {
            out.append(ctx.gen_quote());
        }
        out.append(ctx.gen_dollar());
        out.append("{");
        let name = variable_name(self.name.as_str(), self.global_id, ctx.variant);
        out.append(name.as_str());
        if self.kind.is_array() {
            if self.array_to_string {
                out.append("[*]");
            } else {
                out.append("[@]");
            }
        }
        out.append("}");
        if self.quoted {
            out.append(ctx.gen_quote());
        }
        proof {
            let q = if self.quoted {
                ctx.quote()
            } else {
                Seq::empty()
            };
            assert(Seq::<char>::empty() + q == q);
        }
        out
    }

    /// This fragment as a member of the fragment tree.
    pub fn to_frag(self) -> (r: FragmentKind)
        ensures
            r == FragmentKind::VarExpr(self),
    {
        FragmentKind::VarExpr(self)
    }
}


impl VarExprFragment {
    /// The shell text of the reference in the state `meta`, which stays as it is.
    pub fn to_string(self, meta: &mut TranslateMetadata) -> (r: String)
        ensures
            r@ == self@.rendered(old(meta).render_context()),
            *final(meta) == *old(meta),
    {
        let context = meta.context();
        self.render(context)
    }
}

} // verus!
