//! The literals `true` and `false`.

use crate::modules::grammar;
use crate::utils::metadata::parser::ParserMetadata;
use crate::utils::metadata::parser::SyntaxResult;
use crate::utils::metadata::parser::parsed_as;
use vstd::prelude::*;

verus! {

/// A truth value written in the source.
#[derive(Debug, PartialEq, Eq)]
pub struct Bool {
    pub value: bool,
}

impl Bool {
    /// A literal that was not parsed yet.
    pub fn new() -> (r: Self)
        ensures
            !r.value,
    {
        Bool { value: false }
    }
}


impl Bool {
    /// Parses `true` or `false`.
    pub fn parse(&mut self, meta: &mut ParserMetadata) -> (r: SyntaxResult)
        requires
            old(meta).wf(),
        ensures
            parsed_as(
                *old(meta),
                *final(meta),
                r,
                final(self).value,
                grammar::bool_parsed(old(meta).words(), old(meta)@),
            ),
            r is Ok ==> final(meta).index > old(meta).index,
    {
        if crate::utils::metadata::parser::at_word(meta, "true") {
            let _ = meta.take_word();
            self.value = true;
            Ok(())
        } else if crate::utils::metadata::parser::at_word(meta, "false") {
            let _ = meta.take_word();
            self.value = false;
            Ok(())
        } else {
            Err(meta.quiet())
        }
    }
}

} // verus!
