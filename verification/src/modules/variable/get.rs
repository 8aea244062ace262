//! The use of a variable.

use crate::modules::grammar;
use crate::modules::types::Type;
use crate::modules::typing;
use crate::utils::metadata::parser::Failure;
use crate::utils::metadata::parser::ParserMetadata;
use crate::utils::metadata::parser::SyntaxResult;
use crate::utils::metadata::parser::fault;
use crate::utils::metadata::parser::parsed_as;
use crate::utils::metadata::parser::variable;
use vstd::prelude::*;

verus! {

/// A variable named in an expression. Its type and global id are those of
/// its declaration, once checked.
#[derive(Debug, PartialEq, Eq)]
pub struct VariableGet {
    pub name: String,
    pub kind: Type,
    pub global_id: Option<usize>,
    pub is_ref: bool,
}

impl VariableGet {
    /// A node that was not parsed yet.
    pub fn new() -> (r: Self)
        ensures
            r.name@ == Seq::<char>::empty(),
            r.kind == Type::Null,
            r.global_id is None,
            !r.is_ref,
    {
        VariableGet { name: String::new(), kind: Type::Null, global_id: None, is_ref: false }
    }
}


impl VariableGet {
    /// Parses the name of a variable.
    pub fn parse(&mut self, meta: &mut ParserMetadata) -> (r: SyntaxResult)
        requires
            old(meta).wf(),
        ensures
            parsed_as(
                *old(meta),
                *final(meta),
                r,
                final(self).name@,
                grammar::variable(old(meta).words(), old(meta)@),
            ),
            r is Ok ==> final(meta).index > old(meta).index,
            r is Ok ==> final(self).kind == Type::Null,
            r is Ok ==> final(self).global_id is None,
            r is Ok ==> !final(self).is_ref,
    {
        match variable(meta) {
            Ok(name) => {
                self.name = name;
                self.kind = Type::Null;
                self.global_id = None;
                self.is_ref = false;
                Ok(())
            },
            Err(failure) => Err(failure),
        }
    }
}


impl VariableGet {
    /// Looks the variable up: it must be declared in a scope that is open.
    /// The node gets the type and the global id of the declaration.
    pub fn checked(&self, meta: &ParserMetadata) -> (r: Result<VariableGet, Failure>)
        ensures
            match r {
                Ok(found) => typing::find_var(meta@, self.name@) matches Some(var)
                    && found.name@ == self.name@ && found.kind == var.kind && found.global_id
                    == var.global_id && found.is_ref == var.is_ref,
                Err(failure) => typing::find_var(meta@, self.name@) is None && failure@
                    == typing::fault("Variable '"@ + self.name@ + "' does not exist"@),
            },
    {
        match meta.get_var(self.name.as_str()) {
            Some(var) => Ok(
                VariableGet {
                    name: self.name.clone(),
                    kind: var.kind,
                    global_id: var.global_id,
                    is_ref: var.is_ref,
                },
            ),
            None => {
                let mut message = String::from_str("Variable '");
                message.append(self.name.as_str());
                message.append("' does not exist");
                Err(fault(message.as_str()))
            },
        }
    }
}

} // verus!
