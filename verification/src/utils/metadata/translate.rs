//! The state of the translator.

use crate::modules::types::Type;
use crate::text::owned;
use crate::translate::compute::ArithType;
use crate::translate::fragments::fragment::FragmentKind;
use crate::translate::fragments::model::FragmentV;
use crate::translate::fragments::model::RenderContext;
use crate::translate::fragments::model::indent_width;
use crate::translate::fragments::raw::RawFragment;
use crate::translate::fragments::var_expr::VarExprFragment;
use crate::translate::fragments::var_stmt::VarStmtFragment;
use crate::utils::function_cache::FunctionCache;
use crate::utils::function_metadata::FunctionMetadata;
use crate::utils::metadata::parser::ParserMetadata;
use std::collections::VecDeque;
use vstd::prelude::*;
use vstd::std_specs::vecdeque::VecDequeAdditionalSpecFns;

verus! {

/// What the user asked of the compiler.
#[derive(Clone, Copy, Debug, PartialEq, Eq, Structural)]
pub struct CompilerOptions {
    /// Whether the output is to be made as short as possible.
    pub minify: bool,
    /// Whether the parser reports what it does.
    pub debug_parser: bool,
    /// Whether the phases report how long they took.
    pub debug_time: bool,
}

impl Default for CompilerOptions {
    fn default() -> (r: Self)
        ensures
            r == (CompilerOptions { minify: false, debug_parser: false, debug_time: false }),
    {
        CompilerOptions { minify: false, debug_parser: false, debug_time: false }
    }
}

/// The view of the function whose body is being translated.
pub struct FunV {
    pub name: Seq<char>,
    pub id: usize,
    pub variant_id: usize,
    pub returns: Type,
}

/// The view of the state of the translator.
pub struct TranslateV {
    /// The statements that must run before the statement that is being
    /// translated, first in first out.
    pub queue: Seq<FragmentV>,
    /// The next free id of an intermediate value.
    pub value_id: usize,
    pub eval_ctx: bool,
    pub silenced: bool,
    pub sudoed: bool,
    pub indent: i64,
    pub fun: Option<FunV>,
}

impl TranslateV {
    /// The state with `frag` at the end of the queue.
    pub open spec fn queued(self, frag: FragmentV) -> TranslateV {
        TranslateV { queue: self.queue.push(frag), ..self }
    }

    /// The state with the queue `queue`.
    pub open spec fn with_queue(self, queue: Seq<FragmentV>) -> TranslateV {
        TranslateV { queue, ..self }
    }

    /// The state after an id for an intermediate value was handed out. The
    /// counter stops at the largest number that it can hold.
    pub open spec fn next_value(self) -> TranslateV {
        TranslateV {
            value_id: if self.value_id < usize::MAX {
                (self.value_id + 1) as usize
            } else {
                self.value_id
            },
            ..self
        }
    }

    /// The variant of the function that is being translated, if any.
    pub open spec fn variant(self) -> Option<usize> {
        match self.fun {
            Some(fun) => Some(fun.variant_id),
            None => None,
        }
    }
}

/// The state that translation carries along: the queue of statements that
/// must precede the current one, the counter of intermediate values, the
/// flags that say how commands are run, and the indentation.
#[derive(Debug)]
pub struct TranslateMetadata {
    /// How computations on numbers with a fraction are carried out.
    pub arith_module: ArithType,
    /// The checked variants of the declared functions.
    pub fun_cache: FunctionCache,
    /// The statements that must run before the current statement.
    pub stmt_queue: VecDeque<FragmentKind>,
    /// The function whose body is being translated.
    pub fun_meta: Option<FunctionMetadata>,
    /// The next free id of an intermediate value.
    pub value_id: usize,
    /// Whether the text is meant for `eval`.
    pub eval_ctx: bool,
    /// Whether commands are run without their output.
    pub silenced: bool,
    /// Whether commands are run with `sudo`.
    pub sudoed: bool,
    /// The indentation level.
    pub indent: i64,
    /// Whether the output is to be made as short as possible.
    pub minify: bool,
}

/// The text that finds out whether `sudo` is needed and at hand.
pub open spec fn sudo_probe() -> Seq<char> {
    "$([ \"$(id -u)\" -ne 0 ] && command -v sudo >/dev/null 2>&1 && printf sudo)"@
}

/// The assignment that stores the `sudo` prefix.
pub open spec fn sudo_stmt() -> FragmentV {
    FragmentV::VarStmt {
        name: "__sudo"@,
        kind: Type::Text,
        value: Box::new(FragmentV::Raw(sudo_probe())),
        global_id: None,
        ephemeral: false,
    }
}

/// The reference to the `sudo` prefix, without quotes.
pub open spec fn sudo_expr() -> FragmentV {
    FragmentV::VarExpr {
        name: "__sudo"@,
        kind: Type::Text,
        global_id: None,
        quoted: false,
        array_to_string: false,
    }
}

impl TranslateMetadata {
    /// The views of the queued statements.
    pub open spec fn queue_models(queue: VecDeque<FragmentKind>) -> Seq<FragmentV> {
        Seq::new(queue.len() as nat, |i: int| queue[i]@)
    }

    /// The view of the state.
    pub open spec fn model(self) -> TranslateV {
        TranslateV {
            queue: Self::queue_models(self.stmt_queue),
            value_id: self.value_id,
            eval_ctx: self.eval_ctx,
            silenced: self.silenced,
            sudoed: self.sudoed,
            indent: self.indent,
            fun: match self.fun_meta {
                Some(fun) => Some(
                    FunV {
                        name: fun.name@,
                        id: fun.id,
                        variant_id: fun.variant_id,
                        returns: fun.returns,
                    },
                ),
                None => None,
            },
        }
    }

    /// What rendering depends on in this state.
    pub open spec fn render_context(self) -> RenderContext {
        RenderContext {
            indent: self.indent,
            eval_ctx: self.eval_ctx,
            variant: self.model().variant(),
        }
    }

    /// The state at the start of translation: the cache of the type checker, an
    /// empty queue, the first value id, no flag set, and the indentation one
    /// level above the top, so that the outermost block stands at the left
    /// margin.
    pub fn new(meta: ParserMetadata, options: &CompilerOptions) -> (r: Self)
        ensures
            r.fun_cache == meta.fun_cache,
            r.minify == options.minify,
            r.arith_module == ArithType::BcSed,
            r@ == (TranslateV {
                queue: Seq::empty(),
                value_id: 0,
                eval_ctx: false,
                silenced: false,
                sudoed: false,
                indent: -1i64,
                fun: None,
            }),
    {
        let r = TranslateMetadata {
            arith_module: ArithType::BcSed,
            fun_cache: meta.fun_cache,
            fun_meta: None,
            stmt_queue: VecDeque::new(),
            value_id: 0,
            eval_ctx: false,
            silenced: false,
            sudoed: false,
            indent: -1,
            minify: options.minify,
        };
        assert(r@.queue =~= Seq::<FragmentV>::empty());
        r
    }

    /// What rendering depends on in this state.
    pub fn context(&self) -> (r: RenderContext)
        ensures
            r == self.render_context(),
    {
        RenderContext {
            indent: self.indent,
            eval_ctx: self.eval_ctx,
            variant: match &self.fun_meta {
                Some(fun) => Some(fun.variant_id),
                None => None,
            },
        }
    }

    /// One unit of indentation: four spaces.
    pub fn single_indent() -> (r: String)
        ensures
            r@ == "    "@,
    {
        owned("    ")
    }

    /// The whitespace that starts a line at the current level: four spaces
    /// for each level above zero.
    pub fn gen_indent(&self) -> (r: String)
        ensures
            r@ == crate::text::repeated("    "@, indent_width(self.indent)),
    {
        crate::translate::fragments::model::indent_string(self.indent)
    }

    /// Puts `frag` at the end of the queue.
    pub fn enqueue(&mut self, frag: FragmentKind)
        ensures
            *final(self) == (TranslateMetadata { stmt_queue: final(self).stmt_queue, ..*old(self) }),
            final(self).stmt_queue@ == old(self).stmt_queue@.push(frag),
            final(self)@ == old(self)@.queued(frag@),
    {
        self.stmt_queue.push_back(frag);
        assert(Self::queue_models(self.stmt_queue) =~= Self::queue_models(old(self).stmt_queue).push(
            frag@,
        ));
    }

    /// Queues the assignment `statement`, marked as ephemeral, and gives
    /// the reference to the variable that it assigns.
    pub fn push_ephemeral_variable(&mut self, statement: VarStmtFragment) -> (r: VarExprFragment)
        ensures
            *final(self) == (TranslateMetadata { stmt_queue: final(self).stmt_queue, ..*old(self) }),
            final(self)@ == old(self)@.queued(statement.with_ephemeral_spec(true)@),
            r@ == (FragmentV::VarExpr {
                name: statement.name@,
                kind: statement.kind,
                global_id: statement.global_id,
                quoted: true,
                array_to_string: false,
            }),
    {
        let stmt = statement.with_ephemeral(true);
        let expr = VarExprFragment::from_stmt(&stmt);
        self.enqueue(stmt.to_frag());
        expr
    }

    /// Goes one level deeper.
    pub fn increase_indent(&mut self)
        requires
            old(self).indent < i64::MAX,
        ensures
            *final(self) == (TranslateMetadata { indent: (old(self).indent + 1) as i64, ..*old(self) }),
    {
        self.indent += 1;
    }

    /// Goes one level up.
    pub fn decrease_indent(&mut self)
        requires
            old(self).indent > i64::MIN,
        ensures
            *final(self) == (TranslateMetadata { indent: (old(self).indent - 1) as i64, ..*old(self) }),
    {
        self.indent -= 1;
    }

    /// Hands out the next id of an intermediate value. The ids grow by one
    /// from call to call until the counter holds the largest number that it
    /// can hold.
    pub fn gen_value_id(&mut self) -> (r: usize)
        ensures
            r == old(self).value_id,
            *final(self) == (TranslateMetadata { value_id: final(self).value_id, ..*old(self) }),
            final(self)@ == old(self)@.next_value(),
    {
        let id = self.value_id;
        if self.value_id < usize::MAX {
            self.value_id += 1;
        }
        id
    }

    /// The redirection that hides the output of a command, if commands are
    /// silenced, and nothing otherwise.
    pub fn gen_silent(&self) -> (r: FragmentKind)
        ensures
            r@ == if self.silenced {
                FragmentV::Raw(">/dev/null 2>&1"@)
            } else {
                FragmentV::Empty
            },
    {
        if self.silenced {
            RawFragment::new(">/dev/null 2>&1").to_frag()
        } else {
            FragmentKind::Empty
        }
    }

    /// The prefix that runs a command with `sudo`, if commands are to be
    /// run so, and nothing otherwise. The prefix is a variable that holds
    /// `sudo` if the user is not root and `sudo` is at hand; the assignment
    /// of this variable is queued.
    pub fn gen_sudo_prefix(&mut self) -> (r: FragmentKind)
        ensures
            *final(self) == (TranslateMetadata { stmt_queue: final(self).stmt_queue, ..*old(self) }),
            old(self).sudoed ==> r@ == sudo_expr() && final(self)@ == old(self)@.queued(sudo_stmt()),
            !old(self).sudoed ==> r@ == FragmentV::Empty && *final(self) == *old(self),
    {
        if self.sudoed {
            let condition_frag = RawFragment::new(
                "$([ \"$(id -u)\" -ne 0 ] && command -v sudo >/dev/null 2>&1 && printf sudo)",
            ).to_frag();
            let var_stmt = VarStmtFragment::new("__sudo", Type::Text, condition_frag);
            let var_expr = VarExprFragment::from_stmt(&var_stmt).with_quotes(false);
            self.enqueue(var_stmt.to_frag());
            var_expr.to_frag()
        } else {
            FragmentKind::Empty
        }
    }

    /// The `sudo` prefix and the redirection for a command with the
    /// modifiers `silent` and `sudo`. The flags `silenced` and `sudoed` hold
    /// the modifiers, or what they held before, for the time of the call
    /// only: when it ends they are what they were.
    pub fn gen_modifiers(&mut self, silent: bool, sudo: bool) -> (r: (FragmentKind, FragmentKind))
        ensures
            *final(self) == (TranslateMetadata { stmt_queue: final(self).stmt_queue, ..*old(self) }),
            r.1@ == if silent || old(self).silenced {
                FragmentV::Raw(">/dev/null 2>&1"@)
            } else {
                FragmentV::Empty
            },
            sudo || old(self).sudoed ==> r.0@ == sudo_expr() && final(self)@ == old(self)@.queued(
                sudo_stmt(),
            ),
            !(sudo || old(self).sudoed) ==> r.0@ == FragmentV::Empty && *final(self) == *old(self),
    {
        let saved_silenced = self.silenced;
        let saved_sudoed = self.sudoed;
        self.silenced = silent || saved_silenced;
        self.sudoed = sudo || saved_sudoed;
        let redirection = self.gen_silent();
        let prefix = self.gen_sudo_prefix();
        self.silenced = saved_silenced;
        self.sudoed = saved_sudoed;
        (prefix, redirection)
    }

    /// A double quote, escaped once more inside `eval`.
    pub fn gen_quote(&self) -> (r: &'static str)
        ensures
            r@ == self.render_context().quote(),
    {
        if self.eval_ctx {
            "\\\""
        } else {
            "\""
        }
    }

    /// A dollar sign, escaped inside `eval`.
    pub fn gen_dollar(&self) -> (r: &'static str)
        ensures
            r@ == self.render_context().dollar(),
    {
        if self.eval_ctx {
            "\\$"
        } else {
            "$"
        }
    }
}

impl View for TranslateMetadata {
    type V = TranslateV;

    open spec fn view(&self) -> TranslateV {
        self.model()
    }
}


/// What translation never touches in `after` is as in `before`: everything
/// but the queue and the counter of values.
pub open spec fn same_setting(before: TranslateMetadata, after: TranslateMetadata) -> bool {
    after == (TranslateMetadata {
        stmt_queue: after.stmt_queue,
        value_id: after.value_id,
        ..before
    })
}

impl TranslateMetadata {
    /// Moves the queued statements to the end of `out`, in their order.
    pub fn drain_into(&mut self, out: &mut Vec<FragmentKind>)
        ensures
            same_setting(*old(self), *final(self)),
            final(self).value_id == old(self).value_id,
            final(self)@ == old(self)@.with_queue(Seq::empty()),
            FragmentKind::models_of(*final(out)) == FragmentKind::models_of(*old(out)) + old(
                self,
            )@.queue,
    {
        let ghost queue = self@.queue;
        let ghost start = FragmentKind::models_of(*out);
        let ghost mut done: int = 0;
        while self.stmt_queue.len() > 0
            invariant
                same_setting(*old(self), *self),
                self.value_id == old(self).value_id,
                queue == old(self)@.queue,
                0 <= done <= queue.len(),
                self@.queue == queue.skip(done),
                FragmentKind::models_of(*out) == start + queue.take(done),
            decreases self.stmt_queue.len(),
        {
            let ghost before = self@.queue;
            let ghost before_out = FragmentKind::models_of(*out);
            let frag = match self.stmt_queue.pop_front() {
                Some(frag) => frag,
                None => FragmentKind::Empty,
            };
            assert(frag@ == before[0]);
            assert(self@.queue =~= before.skip(1));
            crate::translate::fragments::fragment::push_frag(out, frag);
            proof {
                assert(queue.skip(done).skip(1) =~= queue.skip(done + 1));
                assert(queue.take(done + 1) =~= queue.take(done).push(queue[done]));
                assert(before[0] == queue[done]);
                assert(start + queue.take(done + 1) =~= (start + queue.take(done)).push(queue[done]));
                done = done + 1;
            }
        }
        assert(queue.take(queue.len() as int) =~= queue);
        assert(self@.queue =~= Seq::<FragmentV>::empty());
    }
}

} // verus!
