//! Numbers with a fraction.

use crate::modules::expression::literal::integer::digits;
use crate::modules::grammar;
use crate::utils::metadata::parser::ParserMetadata;
use crate::utils::metadata::parser::SyntaxResult;
use crate::utils::metadata::parser::parsed_as;
use crate::utils::metadata::parser::token;
use vstd::prelude::*;

verus! {

/// A number with a fraction written in the source, kept as its text.
#[derive(Debug, PartialEq, Eq)]
pub struct Number {
    pub value: String,
}

impl Number {
    /// A literal that was not parsed yet.
    pub fn new() -> (r: Self)
        ensures
            r.value@ == Seq::<char>::empty(),
    {
        Number { value: String::new() }
    }
}


impl Number {
    /// Parses digits, a dot, and digits.
    pub fn parse(&mut self, meta: &mut ParserMetadata) -> (r: SyntaxResult)
        requires
            old(meta).wf(),
        ensures
            parsed_as(
                *old(meta),
                *final(meta),
                r,
                final(self).value@,
                grammar::number_parsed(old(meta).words(), old(meta)@),
            ),
            r is Ok ==> final(meta).index > old(meta).index,
    {
        let whole = match digits(meta) {
            Ok(word) => word,
            Err(failure) => {
                return Err(failure);
            },
        };
        match token(meta, ".") {
            Ok(_) => {},
            Err(failure) => {
                return Err(failure);
            },
        }
        let fraction = match digits(meta) {
            Ok(word) => word,
            Err(failure) => {
                return Err(failure);
            },
        };
        let mut value = whole;
        value.append(".");
        value.append(fraction.as_str());
        self.value = value;
        Ok(())
    }
}

} // verus!
