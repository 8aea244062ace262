//! Whole numbers.

use crate::modules::grammar;
use crate::utils::metadata::parser::Failure;
use crate::utils::metadata::parser::ParserMetadata;
use crate::utils::metadata::parser::SyntaxResult;
use crate::utils::metadata::parser::parsed_as;
use crate::utils::metadata::parser::token;
use vstd::prelude::*;

verus! {

/// A whole number written in the source, kept as its digits.
#[derive(Debug, PartialEq, Eq)]
pub struct Integer {
    pub value: String,
}

impl Integer {
    /// A literal that was not parsed yet.
    pub fn new() -> (r: Self)
        ensures
            r.value@ == Seq::<char>::empty(),
    {
        Integer { value: String::new() }
    }
}


/// Whether `word` is a non-empty row of decimal digits.
pub fn is_digits(word: &str) -> (r: bool)
    ensures
        r == grammar::is_digits(word@),
{
    reveal(grammar::is_digits);
    let chars = crate::text::to_chars(word);
    if chars.len() == 0 {
        return false;
    }
    let mut i: usize = 0;
    while i < chars.len()
        invariant
            i <= chars@.len(),
            chars@ == word@,
            forall|j: int| 0 <= j < i ==> '0' <= #[trigger] word@[j] <= '9',
        decreases chars.len() - i,
    {
        reveal(grammar::is_digits);
        let c = chars[i];
        if !('0' <= c && c <= '9') {
            return false;
        }
        i = i + 1;
    }
    true
}

/// Takes the current token if its word is a row of digits.
pub fn digits(meta: &mut ParserMetadata) -> (r: Result<String, Failure>)
    requires
        old(meta).wf(),
    ensures
        crate::utils::metadata::parser::word_as(
            *old(meta),
            *final(meta),
            r,
            grammar::integer_parsed(old(meta).words(), old(meta)@),
        ),
        r is Ok ==> final(meta).index == old(meta).index + 1,
{
    let matches = match meta.current_word() {
        Some(word) => is_digits(word),
        None => false,
    };
    if matches {
        Ok(meta.take_word())
    } else {
        Err(meta.quiet())
    }
}

impl Integer {
    /// Parses a row of digits.
    pub fn parse(&mut self, meta: &mut ParserMetadata) -> (r: SyntaxResult)
        requires
            old(meta).wf(),
        ensures
            parsed_as(
                *old(meta),
                *final(meta),
                r,
                final(self).value@,
                grammar::integer_parsed(old(meta).words(), old(meta)@),
            ),
            r is Ok ==> final(meta).index > old(meta).index,
    {
        match digits(meta) {
            Ok(word) => {
                self.value = word;
                Ok(())
            },
            Err(failure) => Err(failure),
        }
    }
}

} // verus!
