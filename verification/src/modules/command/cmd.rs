//! Commands of the shell, written between dollar signs.

use crate::modules::command::modifier::CommandModifier;
use crate::modules::condition::failed::Failed;
use crate::modules::condition::succeeded::Succeeded;
use crate::modules::condition::then::Then;
use crate::modules::expression::interpolated_region::InterpolatedRegionType;
use crate::modules::expression::interpolated_region::parse_interpolated_region;
use crate::modules::expression::literal::text::TextPart;
use crate::modules::grammar;
use crate::modules::model::CommandV;
use crate::modules::model::FailureV;
use crate::modules::model::MetaV;
use crate::modules::model::PositionInfo;
use crate::modules::types::Type;
use crate::modules::typing;
use crate::translate::fragments::fragment::FragmentKind;
use crate::translate::fragments::fragment::frags3;
use crate::translate::fragments::fragment::list_of;
use crate::translate::fragments::interpolable::InterpolableFragment;
use crate::translate::fragments::quoting::InterpolableRenderType;
use crate::translate::fragments::subprocess::SubprocessFragment;
use crate::translate::fragments::var_stmt::VarStmtFragment;
use crate::translate::lowering;
use crate::utils::context::Context;
use crate::utils::metadata::parser::Failure;
use crate::utils::metadata::parser::ParserMetadata;
use crate::utils::metadata::parser::SyntaxResult;
use crate::utils::metadata::parser::checked_to;
use crate::utils::metadata::parser::fault;
use crate::utils::metadata::parser::fit_for_checking;
use crate::utils::metadata::parser::parsed_as;
use crate::utils::metadata::translate::TranslateMetadata;
use crate::utils::metadata::translate::same_setting;
use vstd::prelude::*;
use vstd::std_specs::vecdeque::VecDequeAdditionalSpecFns;

verus! {

/// A command with its modifiers and the handler of its outcome.
/// `is_trusted` says that the command stands where the outcome of commands
/// may be ignored.
#[derive(Debug, PartialEq, Eq)]
pub struct Command {
    pub parts: Vec<TextPart>,
    pub modifier: CommandModifier,
    pub is_trusted: bool,
    pub failed: Failed,
    pub succeeded: Succeeded,
    pub exited: Then,
}

impl Command {
    /// The view of the command.
    pub open spec fn model(self) -> CommandV
        decreases self,
    {
        CommandV {
            parts: TextPart::models_of(self.parts),
            modifier: self.modifier,
            is_trusted: self.is_trusted,
            failed: self.failed.model(),
            succeeded: self.succeeded.model(),
            exited: self.exited.model(),
        }
    }

    /// A command that was not parsed yet.
    pub fn new() -> (r: Self)
        ensures
            r.parts@ == Seq::<TextPart>::empty(),
            r.modifier == CommandModifier::none(),
            !r.is_trusted,
            r.failed.model() == crate::modules::model::no_handler(),
            r.succeeded.model() == crate::modules::model::no_handler(),
            r.exited.model() == crate::modules::model::no_handler(),
    {
        Command {
            parts: Vec::new(),
            modifier: CommandModifier::new(),
            is_trusted: false,
            failed: Failed::new(),
            succeeded: Succeeded::new(),
            exited: Then::new(),
        }
    }

    /// The type of the command as a value: the text that it prints.
    pub fn get_type(&self) -> (r: Type)
        ensures
            r == Type::Text,
    {
        Type::Text
    }

    /// What the documentation says of the node: nothing.
    pub fn document(&self, meta: &ParserMetadata) -> (r: String)
        ensures
            r@ == Seq::<char>::empty(),
    {
        String::new()
    }
}

impl View for Command {
    type V = CommandV;

    open spec fn view(&self) -> CommandV {
        self.model()
    }
}


impl Command {
    /// After a handler: fails loudly, and takes the keyword, if a second
    /// handler follows. `keyword` names the handler that was parsed.
    pub fn handle_multiple_failure_handlers(meta: &mut ParserMetadata, keyword: &str) -> (r:
        SyntaxResult)
        requires
            old(meta).wf(),
        ensures
            parsed_as(
                *old(meta),
                *final(meta),
                r,
                (),
                grammar::single_handler(old(meta).words(), old(meta)@, keyword@),
            ),
    {
        let second = match meta.current_word() {
            Some(word) => word.eq("failed") || word.eq("succeeded") || word.eq("then") || word.eq(
                "exited",
            ),
            None => false,
        };
        if second {
            let position = meta.here();
            let word = meta.take_word();
            let mut message = String::from_str("Cannot use both '");
            message.append(keyword);
            message.append("' and '");
            message.append(word.as_str());
            message.append("' blocks for the same command");
            Err(
                Failure::error(
                    position,
                    message.as_str(),
                    Some(
                        "Use either '{keyword}' to handle both success and failure, 'failed' or 'succeeded' blocks, but not both",
                    ),
                ),
            )
        } else {
            Ok(())
        }
    }

    /// Parses the handler of the command and checks that no second one
    /// follows. Without a handler the command must be trusted; otherwise
    /// the failure is loud and points at `command`.
    pub fn parse_handlers(
        &mut self,
        meta: &mut ParserMetadata,
        trusted: bool,
        command: PositionInfo,
    ) -> (r: SyntaxResult)
        requires
            old(meta).wf(),
        ensures
            parsed_as(
                *old(meta),
                *final(meta),
                r,
                (final(self).failed.model(), final(self).succeeded.model(), final(self).exited.model()),
                grammar::handlers_parsed(old(meta).words(), old(meta)@, trusted, command),
            ),
            final(self).parts == old(self).parts,
        decreases grammar::remaining(old(meta).words(), old(meta)@), 60nat,
    {
        reveal(grammar::handlers_parsed);
        reveal(grammar::then_parsed);
        reveal(grammar::succeeded_parsed);
        reveal(grammar::failed_parsed);
        let start = meta.mark();
        let keyword = match meta.current_word() {
            Some(word) => crate::text::owned(word),
            None => String::new(),
        };
        let mut exited = Then::new();
        match exited.parse(meta) {
            Ok(()) => {
                self.failed = Failed::new();
                self.succeeded = Succeeded::new();
                self.exited = exited;
                return Self::handle_multiple_failure_handlers(meta, keyword.as_str());
            },
            Err(failure) => {
                meta.rewind(&start);
                if failure.is_loud() {
                    return Err(failure);
                }
            },
        }
        let mut succeeded = Succeeded::new();
        match succeeded.parse(meta) {
            Ok(()) => {
                self.failed = Failed::new();
                self.succeeded = succeeded;
                self.exited = Then::new();
                return Self::handle_multiple_failure_handlers(meta, keyword.as_str());
            },
            Err(failure) => {
                meta.rewind(&start);
                if failure.is_loud() {
                    return Err(failure);
                }
            },
        }
        let mut failed = Failed::new();
        match failed.parse(meta) {
            Ok(()) => {
                self.failed = failed;
                self.succeeded = Succeeded::new();
                self.exited = Then::new();
                Self::handle_multiple_failure_handlers(meta, keyword.as_str())
            },
            Err(failure) => {
                meta.rewind(&start);
                if failure.is_loud() {
                    Err(failure)
                } else if trusted {
                    self.failed = Failed::new();
                    self.succeeded = Succeeded::new();
                    self.exited = Then::new();
                    Ok(())
                } else {
                    Err(
                        Failure::error(
                            command,
                            "Every command statement must handle execution result",
                            Some(
                                "You can use '?' to propagate failure, 'failed' block to handle failure, 'succeeded' block to handle success, 'then' block to handle both, or 'trust' modifier to ignore results",
                            ),
                        ),
                    )
                }
            },
        }
    }

    /// Parses a command: its modifiers, the region between dollar signs,
    /// and the handler of its outcome.
    ///
    /// A command that parses is handled or trusted; it has exactly one of
    /// the five ways to deal with its outcome unless it is trusted and has a
    /// handler as well.
    pub fn parse(&mut self, meta: &mut ParserMetadata) -> (r: SyntaxResult)
        requires
            old(meta).wf(),
        ensures
            parsed_as(
                *old(meta),
                *final(meta),
                r,
                final(self).model(),
                grammar::command_parsed(old(meta).words(), old(meta)@),
            ),
            r is Ok ==> final(meta).index > old(meta).index,
            r is Ok ==> final(self).model().outcomes() >= 1,
            r is Ok && !(final(self).model().is_trusted && final(self).model().is_handled())
                ==> final(self).model().outcomes() == 1,
        decreases grammar::remaining(old(meta).words(), old(meta)@), 80nat,
    {
        reveal(grammar::command_parsed);
        reveal(grammar::region_parsed);
        reveal(grammar::handlers_parsed);
        let mut modifier = CommandModifier::new();
        modifier.parse(meta);
        let saved = meta.context;
        let trusted = saved.is_trust_ctx || modifier.is_trust;
        meta.set_context(
            Context {
                is_loop_ctx: saved.is_loop_ctx,
                is_fun_ctx: saved.is_fun_ctx,
                is_trust_ctx: trusted,
                is_main_ctx: saved.is_main_ctx,
            },
        );
        let position = meta.here();
        let parts = match parse_interpolated_region(meta, &InterpolatedRegionType::Command) {
            Ok(parts) => parts,
            Err(failure) => {
                meta.set_context(saved);
                return Err(failure);
            },
        };
        let outcome = self.parse_handlers(meta, trusted, position);
        meta.set_context(saved);
        match outcome {
            Ok(()) => {
                self.parts = parts;
                self.modifier = modifier;
                self.is_trusted = trusted;
                proof {
                    lemma_parsed_command_is_handled(
                        old(meta).words(),
                        old(meta)@,
                    );
                }
                Ok(())
            },
            Err(failure) => Err(failure),
        }
    }
}

/// Every command that parses deals with its outcome: it has a handler, or
/// it is trusted. It has at most one handler.
pub proof fn lemma_parsed_command_is_handled(words: Seq<Seq<char>>, m: MetaV)
    ensures
        grammar::command_parsed(words, m).0 matches Ok(command) ==> command.outcomes() >= 1 && (
        !(command.is_trusted && command.is_handled()) ==> command.outcomes() == 1),
{
    reveal(grammar::command_parsed);
    reveal(grammar::region_parsed);
    reveal(grammar::handlers_parsed);
    let step = grammar::command_parsed(words, m);
    if step.0 is Ok {
        let (modifier, m1) = grammar::modifier_parsed(words, m, CommandModifier::none());
        let trusted = m1.context.is_trust_ctx || modifier.is_trust;
        let inside = m1.within(Context { is_trust_ctx: trusted, ..m1.context });
        let region = grammar::region_parsed(words, inside, InterpolatedRegionType::Command);
        lemma_handlers(words, region.1, trusted, crate::modules::model::position_at(m1.index));
    }
}

/// The handlers of a command that parses: at most one is set, and none only
/// if the command is trusted.
pub proof fn lemma_handlers(words: Seq<Seq<char>>, m: MetaV, trusted: bool, command: PositionInfo)
    ensures
        grammar::handlers_parsed(words, m, trusted, command).0 matches Ok(h) ==> {
            let set = (if h.0.is_parsed {
                1nat
            } else {
                0nat
            }) + (if h.1.is_parsed {
                1nat
            } else {
                0nat
            }) + (if h.2.is_parsed {
                1nat
            } else {
                0nat
            });
            &&& set <= 1
            &&& set == 0 ==> trusted
            &&& !h.1.is_question_mark
            &&& !h.2.is_question_mark
        },
{
    reveal(grammar::handlers_parsed);
    reveal(grammar::then_parsed);
    reveal(grammar::succeeded_parsed);
    reveal(grammar::failed_parsed);
    reveal(grammar::handler_body);
    let step = grammar::handlers_parsed(words, m, trusted, command);
    if step.0 is Ok {
        let exited = grammar::syntax(grammar::then_parsed(words, m), m);
        let succeeded = grammar::syntax(grammar::succeeded_parsed(words, exited.1.at(m.index)), m);
        let failed = grammar::syntax(grammar::failed_parsed(words, succeeded.1.at(m.index)), m);
        lemma_handler_is_parsed(words, m.advanced(), true, "then"@);
        lemma_handler_is_parsed(words, exited.1.at(m.index).advanced(), false, "succeeded"@);
        lemma_handler_is_parsed(words, succeeded.1.at(m.index).advanced(), false, "failed"@);
    }
}

/// A handler body that parses gives a handler that is marked as parsed and
/// is no question mark.
pub proof fn lemma_handler_is_parsed(words: Seq<Seq<char>>, m: MetaV, required: bool, name: Seq<char>)
    ensures
        grammar::handler_body(words, m, required, name).0 matches Ok(h) ==> h.is_parsed
            && !h.is_question_mark,
{
    reveal(grammar::handler_body);
    reveal(grammar::handler_block);
    reveal(grammar::block_parsed);
}


impl Command {
    /// Whether the command ends in `?`.
    pub fn is_propagating(&self) -> (r: bool)
        ensures
            r == self.model().is_propagating(),
    {
        self.failed.is_parsed && self.failed.is_question_mark
    }

    /// Checks the command: the expressions in it, and its handlers. The
    /// modifier `trust` and the mark `?` on the same command are an error.
    pub fn checked(&self, meta: &mut ParserMetadata) -> (r: Result<Command, Failure>)
        requires
            fit_for_checking(*old(meta)),
        ensures
            ({
                let step = typing::command_checked(old(meta).words(), self.model(), old(meta)@);
                &&& checked_to(*old(meta), *final(meta), step.1)
                &&& match r {
                    Ok(node) => step.0 == Ok::<CommandV, FailureV>(node.model()),
                    Err(failure) => step.0 == Err::<CommandV, FailureV>(failure@),
                }
            }),
            self.modifier.is_trust && self.model().is_propagating() ==> r is Err,
        decreases typing::rank(old(meta)@), self, 1nat,
    {
        reveal(typing::command_checked);
        reveal(typing::parts_checked);
        reveal(typing::handler_checked);
        let parts = match TextPart::checked_all(&self.parts, meta) {
            Ok(parts) => parts,
            Err(failure) => {
                return Err(failure);
            },
        };
        if self.modifier.is_trust && self.is_propagating() {
            return Err(fault("The '?' operator cannot be used together with the 'trust' modifier"));
        }
        let failed = match self.failed.checked(meta) {
            Ok(found) => found,
            Err(failure) => {
                return Err(failure);
            },
        };
        let succeeded = match self.succeeded.checked(meta) {
            Ok(found) => found,
            Err(failure) => {
                return Err(failure);
            },
        };
        let exited = match self.exited.checked(meta) {
            Ok(found) => found,
            Err(failure) => {
                return Err(failure);
            },
        };
        Ok(
            Command {
                parts,
                modifier: self.modifier,
                is_trusted: self.is_trusted,
                failed,
                succeeded,
                exited,
            },
        )
    }
}


impl Command {
    /// Translates the command as a statement (`is_statement`) or as an
    /// expression.
    fn translate_command(&self, meta: &mut TranslateMetadata, is_statement: bool) -> (r:
        FragmentKind)
        ensures
            same_setting(*old(meta), *final(meta)),
            (r@, final(meta)@) == lowering::command_translated(
                self.model(),
                old(meta)@,
                is_statement,
            ),
        decreases self, 1nat,
    {
        reveal(lowering::command_translated);
        reveal(lowering::parts_translated);
        reveal(lowering::failed_translated);
        reveal(lowering::succeeded_translated);
        reveal(lowering::exited_translated);
        let parts = TextPart::to_interpolable_parts(&self.parts, meta);
        let failed = self.failed.translate(meta);
        let succeeded = self.succeeded.translate(meta);
        let exited = self.exited.translate(meta);
        let ghost models = crate::modules::expression::literal::text::interpolable_models(parts);
        let core = InterpolableFragment::new(parts, InterpolableRenderType::GlobalContext);
        assert(InterpolableFragment::part_models(core.parts) =~= models);
        let (prefix, silent) = meta.gen_modifiers(self.modifier.is_silent, self.modifier.is_sudo);
        let line = list_of(frags3(prefix, core.to_frag(), silent), true);
        let handler = if self.exited.is_parsed {
            exited
        } else if self.failed.is_parsed {
            failed
        } else if self.succeeded.is_parsed {
            succeeded
        } else {
            FragmentKind::Empty
        };
        if is_statement {
            if handler.is_empty() {
                line
            } else {
                meta.enqueue(line);
                handler
            }
        } else if handler.is_empty() {
            SubprocessFragment::new(line).to_frag()
        } else {
            let id = meta.gen_value_id();
            let value = SubprocessFragment::new(line).to_frag();
            let var_stmt = VarStmtFragment::new("command", Type::Text, value).with_global_id(
                Some(id),
            );
            let var_expr = meta.push_ephemeral_variable(var_stmt);
            meta.enqueue(handler);
            var_expr.to_frag()
        }
    }

    /// Translates the command where it stands as a statement: its line is
    /// given, or queued in front of its handler.
    pub fn translate_command_statement(&self, meta: &mut TranslateMetadata) -> (r: FragmentKind)
        ensures
            same_setting(*old(meta), *final(meta)),
            (r@, final(meta)@) == lowering::command_translated(self.model(), old(meta)@, true),
        decreases self, 2nat,
    {
        self.translate_command(meta, true)
    }

    /// Translates the command where it stands as an expression: the value
    /// is what the command prints.
    pub fn translate(&self, meta: &mut TranslateMetadata) -> (r: FragmentKind)
        ensures
            same_setting(*old(meta), *final(meta)),
            (r@, final(meta)@) == lowering::command_translated(self.model(), old(meta)@, false),
        decreases self, 2nat,
    {
        self.translate_command(meta, false)
    }
}

} // verus!
