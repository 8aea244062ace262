//! What the parser knows of its surroundings, and the declarations that the
//! type checker collects.

use crate::modules::types::Type;
use crate::text::views;
use vstd::prelude::*;

verus! {

/// Flags that say where in the program the parser or type checker stands.
#[derive(Clone, Copy, Debug, PartialEq, Eq, Structural)]
pub struct Context {
    /// Inside the body of a loop.
    pub is_loop_ctx: bool,
    /// Inside the body of a function.
    pub is_fun_ctx: bool,
    /// Inside a command or block marked `trust`.
    pub is_trust_ctx: bool,
    /// Inside the `main` block.
    pub is_main_ctx: bool,
}

impl Context {
    /// The context at the top of a file.
    pub fn new() -> (r: Self)
        ensures
            r == Self::top(),
    {
        Context { is_loop_ctx: false, is_fun_ctx: false, is_trust_ctx: false, is_main_ctx: false }
    }

    /// The context at the top of a file: every flag clear.
    pub open spec fn top() -> Context {
        Context { is_loop_ctx: false, is_fun_ctx: false, is_trust_ctx: false, is_main_ctx: false }
    }
}

/// A variable that is visible in some scope.
#[derive(Debug, PartialEq, Eq)]
pub struct VariableDecl {
    pub name: String,
    pub kind: Type,
    pub global_id: Option<usize>,
    pub is_ref: bool,
}

/// The view of a variable.
pub struct VariableV {
    pub name: Seq<char>,
    pub kind: Type,
    pub global_id: Option<usize>,
    pub is_ref: bool,
}

impl View for VariableDecl {
    type V = VariableV;

    open spec fn view(&self) -> VariableV {
        VariableV {
            name: self.name@,
            kind: self.kind,
            global_id: self.global_id,
            is_ref: self.is_ref,
        }
    }
}

impl Clone for VariableDecl {
    fn clone(&self) -> (r: Self)
        ensures
            r@ == self@,
    {
        VariableDecl {
            name: self.name.clone(),
            kind: self.kind.clone(),
            global_id: self.global_id,
            is_ref: self.is_ref,
        }
    }
}

/// The variables of one lexical scope, in the order of their declaration.
#[derive(Debug, PartialEq, Eq)]
pub struct ScopeFrame {
    pub vars: Vec<VariableDecl>,
}

impl ScopeFrame {
    /// The views of the variables of the scope.
    pub open spec fn model(self) -> Seq<VariableV> {
        Seq::new(self.vars@.len(), |i: int| self.vars@[i]@)
    }

    /// A scope without variables.
    pub fn new() -> (r: Self)
        ensures
            r.model() == Seq::<VariableV>::empty(),
    {
        let r = ScopeFrame { vars: Vec::new() };
        assert(r.model() =~= Seq::<VariableV>::empty());
        r
    }
}

/// The declaration of a function: its signature as the source wrote it.
/// `arg_types` holds `Generic` where the source gave no type.
#[derive(Debug, PartialEq, Eq)]
pub struct FunctionDecl {
    pub name: String,
    pub arg_names: Vec<String>,
    pub arg_types: Vec<Type>,
    pub arg_refs: Vec<bool>,
    pub returns: Type,
    pub is_args_typed: bool,
    pub is_public: bool,
    pub id: usize,
}

/// The view of a function declaration.
pub struct FunctionDeclV {
    pub name: Seq<char>,
    pub arg_names: Seq<Seq<char>>,
    pub arg_types: Seq<Type>,
    pub arg_refs: Seq<bool>,
    pub returns: Type,
    pub is_args_typed: bool,
    pub is_public: bool,
    pub id: usize,
}

impl View for FunctionDecl {
    type V = FunctionDeclV;

    open spec fn view(&self) -> FunctionDeclV {
        FunctionDeclV {
            name: self.name@,
            arg_names: views(self.arg_names@),
            arg_types: self.arg_types@,
            arg_refs: self.arg_refs@,
            returns: self.returns,
            is_args_typed: self.is_args_typed,
            is_public: self.is_public,
            id: self.id,
        }
    }
}

/// Whether none of `types` is `Generic`.
pub open spec fn all_typed(types: Seq<Type>) -> bool {
    forall|i: int| 0 <= i < types.len() ==> types[i] != Type::Generic
}

} // verus!
