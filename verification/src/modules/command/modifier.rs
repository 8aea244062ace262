//! The modifiers in front of a command.

use crate::modules::grammar;
use crate::utils::metadata::parser::ParserMetadata;
use crate::utils::metadata::parser::at_word;
use vstd::prelude::*;

verus! {

/// Which of the modifiers `silent`, `sudo` and `trust` stand in front of a
/// command.
#[derive(Clone, Copy, Debug, PartialEq, Eq, Structural)]
pub struct CommandModifier {
    pub is_silent: bool,
    pub is_sudo: bool,
    pub is_trust: bool,
}

impl CommandModifier {
    /// No modifier.
    pub open spec fn none() -> CommandModifier {
        CommandModifier { is_silent: false, is_sudo: false, is_trust: false }
    }

    /// No modifier.
    pub fn new() -> (r: Self)
        ensures
            r == Self::none(),
    {
        CommandModifier { is_silent: false, is_sudo: false, is_trust: false }
    }
}


impl CommandModifier {
    /// Parses the modifiers `silent`, `sudo` and `trust`, as many as stand
    /// under the cursor.
    pub fn parse(&mut self, meta: &mut ParserMetadata)
        requires
            old(meta).wf(),
        ensures
            final(meta).wf(),
            final(meta).tokens == old(meta).tokens,
            final(meta).index >= old(meta).index,
            crate::utils::metadata::parser::same_tables(*old(meta), *final(meta)),
            (*final(self), final(meta)@) == grammar::modifier_parsed(
                old(meta).words(),
                old(meta)@,
                CommandModifier::none(),
            ),
    {
        let ghost words = meta.words();
        let ghost goal = grammar::modifier_parsed(words, meta@, CommandModifier::none());
        let mut found = CommandModifier::new();
        loop
            invariant
                meta.wf(),
                meta.tokens == old(meta).tokens,
                crate::utils::metadata::parser::same_tables(*old(meta), *meta),
                words == old(meta).words(),
                meta.index >= old(meta).index,
                goal == grammar::modifier_parsed(words, old(meta)@, CommandModifier::none()),
                goal == grammar::modifier_parsed(words, meta@, found),
            decreases meta.tokens@.len() - meta.index,
        {
            if at_word(meta, "silent") {
                let _ = meta.take_word();
                found.is_silent = true;
            } else if at_word(meta, "sudo") {
                let _ = meta.take_word();
                found.is_sudo = true;
            } else if at_word(meta, "trust") {
                let _ = meta.take_word();
                found.is_trust = true;
            } else {
                *self = found;
                return;
            }
        }
    }
}

} // verus!
