//! The signature of a function on its way into the function table and the
//! cache.

use crate::modules::block::Block;
use crate::modules::model::InstanceV;
use crate::modules::types::Type;
use crate::text::views;
use crate::utils::context::FunctionDecl;
use crate::utils::context::FunctionDeclV;
use crate::utils::context::all_typed;
use crate::utils::function_cache::FunctionInstance;
use vstd::prelude::*;

verus! {

/// The signature of a function as its declaration gives it.
#[derive(Debug)]
pub struct FunctionInterface {
    pub id: Option<usize>,
    pub name: String,
    pub arg_names: Vec<String>,
    pub arg_types: Vec<Type>,
    pub arg_refs: Vec<bool>,
    pub returns: Type,
    pub is_public: bool,
}

impl FunctionInterface {
    /// The declaration with the id `id` of a function with this signature.
    /// Its arguments count as typed if none of their types is `Generic`.
    pub fn to_fun_declaration(self, id: usize) -> (r: FunctionDecl)
        ensures
            r@ == (FunctionDeclV {
                name: self.name@,
                arg_names: views(self.arg_names@),
                arg_types: self.arg_types@,
                arg_refs: self.arg_refs@,
                returns: self.returns,
                is_args_typed: all_typed(self.arg_types@),
                is_public: self.is_public,
                id,
            }),
    {
        let mut is_args_typed = true;
        let mut i: usize = 0;
        while i < self.arg_types.len()
            invariant
                i <= self.arg_types.len(),
                is_args_typed == all_typed(self.arg_types@.take(i as int)),
            decreases self.arg_types.len() - i,
        {
            let ghost before = self.arg_types@.take(i as int);
            assert(self.arg_types@.take(i + 1) == before.push(self.arg_types@[i as int]));
            match self.arg_types[i] {
                Type::Generic => {
                    is_args_typed = false;
                    assert(before.push(self.arg_types@[i as int])[i as int] == Type::Generic);
                },
                _ => {
                    assert forall|j: int| 0 <= j < i + 1 && all_typed(before) implies before.push(
                        self.arg_types@[i as int],
                    )[j] != Type::Generic by {
                        if j < i {
                            assert(before[j] != Type::Generic);
                        }
                    }
                    assert(!all_typed(before) ==> !all_typed(
                        before.push(self.arg_types@[i as int]),
                    )) by {
                        if !all_typed(before) {
                            let j = choose|j: int| 0 <= j < before.len() && before[j] == Type::Generic;
                            assert(before.push(self.arg_types@[i as int])[j] == Type::Generic);
                        }
                    }
                },
            }
            i = i + 1;
        }
        assert(self.arg_types@.take(self.arg_types@.len() as int) == self.arg_types@);
        FunctionDecl {
            name: self.name,
            arg_names: self.arg_names,
            arg_types: self.arg_types,
            arg_refs: self.arg_refs,
            returns: self.returns,
            is_args_typed,
            is_public: self.is_public,
            id,
        }
    }

    /// The first variant of a function with this signature and the body
    /// `block`: its arguments have the types of the signature.
    pub fn to_fun_instance(self, block: Block) -> (r: FunctionInstance)
        ensures
            r@ == (InstanceV {
                variant_id: 0,
                args: self.arg_types@,
                returns: self.returns,
                block: block.model(),
                first_var_id: 0,
            }),
    {
        FunctionInstance {
            variant_id: 0,
            args: self.arg_types,
            returns: self.returns,
            block,
            first_var_id: 0,
        }
    }
}

} // verus!
