//! The state of the parser and type checker.

use crate::modules::grammar;
use crate::modules::model::FailureV;
use crate::modules::model::MessageType;
use crate::modules::model::MessageV;
use crate::modules::model::MetaV;
use crate::modules::model::PositionInfo;
use crate::modules::model::Step;
use crate::modules::types::Type;
use crate::modules::typing;
use crate::text::owned;
use crate::utils::context::Context;
use crate::utils::context::FunctionDecl;
use crate::utils::context::FunctionDeclV;
use crate::utils::context::ScopeFrame;
use crate::utils::context::VariableDecl;
use crate::utils::context::VariableV;
use crate::utils::function_cache::FunctionCache;
use vstd::prelude::*;

verus! {

/// A word of the source with the place where it stands.
#[derive(Debug, PartialEq, Eq)]
pub struct Token {
    pub word: String,
    pub row: usize,
    pub col: usize,
}

impl Clone for Token {
    fn clone(&self) -> (r: Self)
        ensures
            r.word@ == self.word@,
            r.row == self.row,
            r.col == self.col,
    {
        Token { word: self.word.clone(), row: self.row, col: self.col }
    }
}

/// The view of a token.
pub struct TokenV {
    pub word: Seq<char>,
    pub row: usize,
    pub col: usize,
}

impl View for Token {
    type V = TokenV;

    open spec fn view(&self) -> TokenV {
        TokenV { word: self.word@, row: self.row, col: self.col }
    }
}

/// The views of a list of tokens.
pub open spec fn token_views(tokens: Seq<Token>) -> Seq<TokenV> {
    Seq::new(tokens.len(), |i: int| tokens[i]@)
}

/// The words of a list of tokens.
pub open spec fn words_of(tokens: Seq<Token>) -> Seq<Seq<char>> {
    Seq::new(tokens.len(), |i: int| tokens[i].word@)
}

/// The words of a list of tokens, given by their views.
pub open spec fn words_in(tokens: Seq<TokenV>) -> Seq<Seq<char>> {
    Seq::new(tokens.len(), |i: int| tokens[i].word)
}

/// A diagnostic: how grave it is, where it points, what it says, and an
/// optional hint.
#[derive(Debug, PartialEq, Eq)]
pub struct Message {
    pub kind: MessageType,
    pub position: PositionInfo,
    pub message: String,
    pub comment: Option<String>,
}

impl View for Message {
    type V = MessageV;

    open spec fn view(&self) -> MessageV {
        MessageV {
            kind: self.kind,
            position: self.position,
            message: self.message@,
            comment: match self.comment {
                Some(c) => Some(c@),
                None => None,
            },
        }
    }
}

impl Message {
    /// The error `message` at `position`, without a hint.
    pub fn new_err(position: PositionInfo, message: &str) -> (r: Self)
        ensures
            r@ == (MessageV { kind: MessageType::Error, position, message: message@, comment: None }),
    {
        Message { kind: MessageType::Error, position, message: owned(message), comment: None }
    }

    /// The warning `message` at `position`, without a hint.
    pub fn new_warn(position: PositionInfo, message: &str) -> (r: Self)
        ensures
            r@ == (MessageV {
                kind: MessageType::Warning,
                position,
                message: message@,
                comment: None,
            }),
    {
        Message { kind: MessageType::Warning, position, message: owned(message), comment: None }
    }

    /// The same message with the hint `comment`.
    pub fn comment(self, comment: &str) -> (r: Self)
        ensures
            r@ == (MessageV { comment: Some(comment@), ..self@ }),
    {
        Message {
            kind: self.kind,
            position: self.position,
            message: self.message,
            comment: Some(owned(comment)),
        }
    }
}

/// Why a production did not parse. A quiet failure says that the production
/// does not stand here, so that another one may be tried; a loud failure
/// says that the input is wrong.
#[derive(Debug, PartialEq, Eq)]
pub enum Failure {
    Quiet(PositionInfo),
    Loud(Message),
}

impl View for Failure {
    type V = FailureV;

    open spec fn view(&self) -> FailureV {
        match self {
            Failure::Quiet(position) => FailureV::Quiet(*position),
            Failure::Loud(message) => FailureV::Loud(message@),
        }
    }
}

impl Failure {
    /// Whether the failure is loud.
    pub fn is_loud(&self) -> (r: bool)
        ensures
            r == (self@ is Loud),
    {
        match self {
            Failure::Quiet(_) => false,
            Failure::Loud(_) => true,
        }
    }

    /// The loud failure with the error `message` at `position` and the hint
    /// `comment`.
    pub fn error(position: PositionInfo, message: &str, comment: Option<&str>) -> (r: Self)
        ensures
            r@ == crate::modules::model::loud(
                position,
                message@,
                match comment {
                    Some(c) => Some(c@),
                    None => None,
                },
            ),
    {
        let base = Message::new_err(position, message);
        match comment {
            Some(c) => Failure::Loud(base.comment(c)),
            None => Failure::Loud(base),
        }
    }
}

/// A place in the work of the parser: the index of the current token, and
/// the number of messages logged so far.
#[derive(Clone, Copy, Debug, PartialEq, Eq, Structural)]
pub struct Mark {
    pub index: usize,
    pub messages: usize,
}

/// The outcome of parsing or checking a node.
pub type SyntaxResult = Result<(), Failure>;

/// The scopes, the declared functions with their variants, and the
/// counters of `after` are those of `before`.
pub open spec fn same_tables(before: ParserMetadata, after: ParserMetadata) -> bool {
    &&& after.scopes == before.scopes
    &&& after.fun_decls == before.fun_decls
    &&& after.fun_starts == before.fun_starts
    &&& after.fun_cache == before.fun_cache
    &&& after.var_id == before.var_id
    &&& after.fun_ret_type == before.fun_ret_type
    &&& after.visible == before.visible
}

/// A step of the parser did what `step` says: it left the state `step.1`
/// and, on success, the node `node`; it kept the tokens and moved the cursor
/// forward at most.
pub open spec fn parsed_as<T>(
    before: ParserMetadata,
    after: ParserMetadata,
    r: SyntaxResult,
    node: T,
    step: Step<T>,
) -> bool {
    &&& after.wf()
    &&& after.tokens == before.tokens
    &&& after.index >= before.index
    &&& crate::utils::metadata::parser::same_tables(before, after)
    &&& after@ == step.1
    &&& match r {
        Ok(()) => step.0 == Ok::<T, FailureV>(node),
        Err(failure) => step.0 == Err::<T, FailureV>(failure@),
    }
}

/// A step of the parser that hands out a word did what `step` says.
pub open spec fn word_as(
    before: ParserMetadata,
    after: ParserMetadata,
    r: Result<String, Failure>,
    step: Step<Seq<char>>,
) -> bool {
    &&& after.wf()
    &&& after.tokens == before.tokens
    &&& after.index >= before.index
    &&& crate::utils::metadata::parser::same_tables(before, after)
    &&& after@ == step.1
    &&& match r {
        Ok(word) => step.0 == Ok::<Seq<char>, FailureV>(word@),
        Err(failure) => step.0 == Err::<Seq<char>, FailureV>(failure@),
    }
}

/// The state that parsing and type checking carry along: the tokens and the
/// cursor into them, the scopes with their variables, the declared functions
/// and their checked variants, the messages, and the context flags.
#[derive(Debug)]
pub struct ParserMetadata {
    pub tokens: Vec<Token>,
    pub index: usize,
    pub path: Option<String>,
    pub context: Context,
    pub messages: Vec<Message>,
    pub scopes: Vec<ScopeFrame>,
    pub fun_decls: Vec<FunctionDecl>,
    pub fun_starts: Vec<usize>,
    pub fun_cache: FunctionCache,
    pub var_id: usize,
    pub fun_ret_type: Option<Type>,
    pub visible: usize,
}

impl ParserMetadata {
    /// The words of the tokens.
    pub open spec fn words(self) -> Seq<Seq<char>> {
        words_of(self.tokens@)
    }

    /// The views of the messages.
    pub open spec fn message_models(messages: Seq<Message>) -> Seq<MessageV> {
        Seq::new(messages.len(), |i: int| messages[i]@)
    }

    /// The views of the scopes.
    pub open spec fn scope_models(scopes: Seq<ScopeFrame>) -> Seq<Seq<VariableV>> {
        Seq::new(scopes.len(), |i: int| scopes[i].model())
    }

    /// The views of the declarations.
    pub open spec fn decl_models(decls: Seq<FunctionDecl>) -> Seq<FunctionDeclV> {
        Seq::new(decls.len(), |i: int| decls[i]@)
    }

    /// The view of the state.
    pub open spec fn model(self) -> MetaV {
        MetaV {
            index: self.index as int,
            context: self.context,
            messages: Self::message_models(self.messages@),
            scopes: Self::scope_models(self.scopes@),
            fun_decls: Self::decl_models(self.fun_decls@),
            fun_starts: self.fun_starts@,
            fun_cache: self.fun_cache.model(),
            var_id: self.var_id,
            fun_ret_type: self.fun_ret_type,
            visible: self.visible,
        }
    }

    /// The cursor stands on a token or right behind the last one.
    pub open spec fn wf(self) -> bool {
        self.index <= self.tokens@.len()
    }

    /// The state at the start of `tokens`, which were read from `path` if
    /// one is given: one empty scope, no function, no message.
    pub fn new(tokens: Vec<Token>, path: Option<String>) -> (r: Self)
        ensures
            r.tokens == tokens,
            r.path == path,
            r.wf(),
            r@ == (MetaV {
                index: 0,
                context: Context::top(),
                messages: Seq::empty(),
                scopes: seq![Seq::<VariableV>::empty()],
                fun_decls: Seq::empty(),
                fun_starts: Seq::empty(),
                fun_cache: Seq::empty(),
                var_id: 0,
                fun_ret_type: None,
                visible: 0,
            }),
    {
        let mut scopes: Vec<ScopeFrame> = Vec::new();
        scopes.push(ScopeFrame::new());
        let r = ParserMetadata {
            tokens,
            index: 0,
            path,
            context: Context::new(),
            messages: Vec::new(),
            scopes,
            fun_decls: Vec::new(),
            fun_starts: Vec::new(),
            fun_cache: FunctionCache::new(),
            var_id: 0,
            fun_ret_type: None,
            visible: 0,
        };
        proof {
            assert(r@.messages =~= Seq::<MessageV>::empty());
            assert(r@.scopes =~= seq![Seq::<VariableV>::empty()]);
            assert(r@.fun_decls =~= Seq::<FunctionDeclV>::empty());
        }
        r
    }

    /// The index of the current token.
    pub fn get_index(&self) -> (r: usize)
        ensures
            r == self.index,
    {
        self.index
    }

    /// The place to which a failed attempt comes back: the cursor, and the
    /// number of messages.
    pub fn mark(&self) -> (r: Mark)
        ensures
            r.index == self.index,
            r.messages == self.messages@.len(),
            r.messages == self@.messages.len(),
    {
        Mark { index: self.index, messages: self.messages.len() }
    }

    /// Comes back to the place `mark`: the cursor goes there, and the
    /// messages that were logged since are dropped.
    pub fn rewind(&mut self, mark: &Mark)
        ensures
            *final(self) == (ParserMetadata {
                index: mark.index,
                messages: final(self).messages,
                ..*old(self)
            }),
            final(self)@ == (MetaV {
                index: mark.index as int,
                messages: grammar::kept_messages(old(self)@.messages, mark.messages as nat),
                ..old(self)@
            }),
    {
        self.index = mark.index;
        if mark.messages <= self.messages.len() {
            self.messages.truncate(mark.messages);
        }
        assert(Self::message_models(self.messages@) =~= grammar::kept_messages(
            old(self)@.messages,
            mark.messages as nat,
        ));
    }

    /// The word of the current token, if the cursor stands on one.
    pub fn current_word(&self) -> (r: Option<&str>)
        requires
            self.wf(),
        ensures
            match r {
                Some(word) => self.index < self.tokens@.len() && word@ == self.words()[
                    self.index as int
                ],
                None => self.index == self.tokens@.len(),
            },
    {
        if self.index < self.tokens.len() {
            Some(self.tokens[self.index].word.as_str())
        } else {
            None
        }
    }

    /// The position of the current token.
    pub fn here(&self) -> (r: PositionInfo)
        ensures
            r == self@.here(),
    {
        PositionInfo { from: self.index, to: self.index }
    }

    /// The quiet failure at the current token.
    pub fn quiet(&self) -> (r: Failure)
        ensures
            r@ == self@.quiet(),
    {
        Failure::Quiet(self.here())
    }

    /// Takes the current token and hands out its word.
    pub fn take_word(&mut self) -> (r: String)
        requires
            old(self).index < old(self).tokens@.len(),
        ensures
            r@ == old(self).words()[old(self).index as int],
            *final(self) == (ParserMetadata { index: (old(self).index + 1) as usize, ..*old(self) }),
            final(self)@ == old(self)@.advanced(),
            final(self).wf(),
    {
        let count = self.tokens.len();
        let word = self.tokens[self.index].word.clone();
        self.index = self.index + 1;
        word
    }

    /// Replaces the context flags.
    pub fn set_context(&mut self, context: Context)
        ensures
            *final(self) == (ParserMetadata { context, ..*old(self) }),
            final(self)@ == old(self)@.within(context),
    {
        self.context = context;
    }

    /// Adds `message` to the log.
    pub fn add_message(&mut self, message: Message)
        ensures
            *final(self) == (ParserMetadata {
                messages: final(self).messages,
                ..*old(self)
            }),
            final(self).messages@ == old(self).messages@.push(message),
            final(self)@ == old(self)@.with_message(message@),
    {
        self.messages.push(message);
        assert(Self::message_models(self.messages@) =~= Self::message_models(
            old(self).messages@,
        ).push(message@));
    }
}

/// Takes the current token if its word is `text`.
pub fn token(meta: &mut ParserMetadata, text: &str) -> (r: Result<String, Failure>)
    requires
        old(meta).wf(),
    ensures
        word_as(*old(meta), *final(meta), r, grammar::token(old(meta).words(), old(meta)@, text@)),
{
    let matches = match meta.current_word() {
        Some(word) => word.eq(text),
        None => false,
    };
    if matches {
        Ok(meta.take_word())
    } else {
        Err(meta.quiet())
    }
}

/// Whether `word` can name a variable.
pub fn is_variable_name(word: &str) -> (r: bool)
    ensures
        r == grammar::is_variable_name(word@),
{
    reveal(grammar::is_variable_name);
    let chars = crate::text::to_chars(word);
    let mut i: usize = 0;
    while i < chars.len()
        invariant
            i <= chars@.len(),
            chars@ == word@,
            forall|j: int|
                0 <= j < i ==> #[trigger] word@[j] == '_' || (if j == 0 {
                    crate::text::alphabetic(word@[j])
                } else {
                    crate::text::alphanumeric(word@[j])
                }),
        decreases chars.len() - i,
    {
        reveal(grammar::is_variable_name);
        let c = chars[i];
        let fits = c == '_' || (if i == 0 {
            c.is_alphabetic()
        } else {
            c.is_alphanumeric()
        });
        if !fits {
            return false;
        }
        i = i + 1;
    }
    true
}

/// Takes the current token if its word can name a variable.
pub fn variable(meta: &mut ParserMetadata) -> (r: Result<String, Failure>)
    requires
        old(meta).wf(),
    ensures
        word_as(*old(meta), *final(meta), r, grammar::variable(old(meta).words(), old(meta)@)),
{
    let matches = match meta.current_word() {
        Some(word) => is_variable_name(word),
        None => false,
    };
    if matches {
        Ok(meta.take_word())
    } else {
        Err(meta.quiet())
    }
}

/// Whether the current token has the word `text`.
pub fn at_word(meta: &ParserMetadata, text: &str) -> (r: bool)
    requires
        meta.wf(),
    ensures
        r == (grammar::word_at(meta.words(), meta@) == Some(text@)),
{
    match meta.current_word() {
        Some(word) => word.eq(text),
        None => false,
    }
}

/// The loud failure `message` in place of a quiet one; every other outcome
/// stays.
pub fn commit<T>(result: Result<T, Failure>, message: &str) -> (r: Result<T, Failure>)
    ensures
        match result {
            Err(Failure::Quiet(position)) => r matches Err(failure) && failure@
                == crate::modules::model::loud(position, message@, None),
            _ => r == result,
        },
{
    match result {
        Err(Failure::Quiet(position)) => Err(Failure::error(position, message, None)),
        other => other,
    }
}

impl View for ParserMetadata {
    type V = MetaV;

    open spec fn view(&self) -> MetaV {
        self.model()
    }
}


impl ParserMetadata {
    /// Opens a scope.
    pub fn push_scope(&mut self)
        ensures
            *final(self) == (ParserMetadata { scopes: final(self).scopes, ..*old(self) }),
            final(self)@ == typing::pushed(old(self)@),
    {
        self.scopes.push(ScopeFrame::new());
        assert(Self::scope_models(self.scopes@) =~= Self::scope_models(old(self).scopes@).push(
            Seq::empty(),
        ));
    }

    /// Closes the innermost scope.
    pub fn pop_scope(&mut self)
        ensures
            *final(self) == (ParserMetadata { scopes: final(self).scopes, ..*old(self) }),
            final(self)@ == typing::popped(old(self)@),
    {
        if self.scopes.len() > 0 {
            let _ = self.scopes.pop();
            assert(Self::scope_models(self.scopes@) =~= Self::scope_models(
                old(self).scopes@,
            ).drop_last());
        }
    }

    /// Declares the variable `name` in the innermost scope. Inside a
    /// function the variable gets the next free global id, which is handed
    /// out.
    pub fn add_var(&mut self, name: &str, kind: Type, is_ref: bool) -> (r: Result<
        Option<usize>,
        Failure,
    >)
        ensures
            *final(self) == (ParserMetadata {
                scopes: final(self).scopes,
                var_id: final(self).var_id,
                ..*old(self)
            }),
            final(self)@ == typing::declared(old(self)@, name@, kind, is_ref).1,
            match r {
                Ok(id) => typing::declared(old(self)@, name@, kind, is_ref).0 == Ok::<
                    Option<usize>,
                    FailureV,
                >(id),
                Err(failure) => typing::declared(old(self)@, name@, kind, is_ref).0 == Err::<
                    Option<usize>,
                    FailureV,
                >(failure@),
            },
    {
        if self.scopes.len() == 0 {
            return Err(fault("No scope to declare a variable in"));
        }
        let global_id = if self.context.is_fun_ctx {
            if self.var_id == usize::MAX {
                return Err(fault("Too many variables"));
            }
            let id = self.var_id;
            self.var_id = id + 1;
            Some(id)
        } else {
            None
        };
        let ghost before = Self::scope_models(self.scopes@);
        let var = VariableDecl { name: owned(name), kind, global_id, is_ref };
        let mut frame = match self.scopes.pop() {
            Some(frame) => frame,
            None => ScopeFrame::new(),
        };
        let ghost old_frame = frame.model();
        frame.vars.push(var);
        assert(frame.model() =~= old_frame.push(var@));
        self.scopes.push(frame);
        assert(Self::scope_models(self.scopes@) =~= typing::with_var(before, var@));
        Ok(global_id)
    }

    /// The variable `name` as the innermost scope that declares it has it.
    pub fn get_var(&self, name: &str) -> (r: Option<VariableDecl>)
        ensures
            match r {
                Some(var) => typing::find_var(self@, name@) == Some(var@),
                None => typing::find_var(self@, name@) is None,
            },
    {
        let ghost scopes = Self::scope_models(self.scopes@);
        let mut n: usize = self.scopes.len();
        while n > 0
            invariant
                n <= self.scopes@.len(),
                scopes == Self::scope_models(self.scopes@),
                typing::find_var(self@, name@) == typing::find_in_scopes(scopes, name@, n as int),
            decreases n,
        {
            let frame = &self.scopes[n - 1];
            let ghost vars = frame.model();
            assert(vars == scopes[n - 1]);
            let mut k: usize = frame.vars.len();
            while k > 0
                invariant
                    k <= frame.vars@.len(),
                    vars == frame.model(),
                    0 < n <= scopes.len(),
                    vars == scopes[n - 1],
                    typing::find_var(self@, name@) == typing::find_in_scopes(
                        scopes,
                        name@,
                        n as int,
                    ),
                    typing::find_in_frame(vars, name@, vars.len() as int) == typing::find_in_frame(
                        vars,
                        name@,
                        k as int,
                    ),
                decreases k,
            {
                assert(vars[k - 1] == frame.vars@[k - 1]@);
                if frame.vars[k - 1].name.as_str().eq(name) {
                    return Some(frame.vars[k - 1].clone());
                }
                k = k - 1;
            }
            n = n - 1;
        }
        None
    }

    /// The id of the visible function `name`: the last one declared with
    /// this name.
    pub fn find_fun(&self, name: &str) -> (r: Option<usize>)
        requires
            self.visible <= self.fun_decls@.len(),
        ensures
            match r {
                Some(id) => typing::find_fun(self@.fun_decls, name@, self.visible as int) == Some(
                    id as int,
                ) && id < self.visible,
                None => typing::find_fun(self@.fun_decls, name@, self.visible as int) is None,
            },
    {
        self.find_fun_among(name, self.visible)
    }

    /// The id of the last of the first `count` declared functions with the
    /// name `name`.
    pub fn find_fun_among(&self, name: &str, count: usize) -> (r: Option<usize>)
        requires
            count <= self.fun_decls@.len(),
        ensures
            match r {
                Some(id) => typing::find_fun(self@.fun_decls, name@, count as int) == Some(
                    id as int,
                ) && id < count,
                None => typing::find_fun(self@.fun_decls, name@, count as int) is None,
            },
    {
        let ghost decls = self@.fun_decls;
        let mut n: usize = count;
        while n > 0
            invariant
                n <= count <= self.fun_decls@.len(),
                decls == Self::decl_models(self.fun_decls@),
                typing::find_fun(decls, name@, count as int) == typing::find_fun(
                    decls,
                    name@,
                    n as int,
                ),
            decreases n,
        {
            assert(decls[n - 1] == self.fun_decls@[n - 1]@);
            if self.fun_decls[n - 1].name.as_str().eq(name) {
                return Some(n - 1);
            }
            n = n - 1;
        }
        None
    }
}

/// The loud failure of the type checker with the error `message`.
pub fn fault(message: &str) -> (r: Failure)
    ensures
        r@ == typing::fault(message@),
{
    Failure::error(PositionInfo { from: 0, to: 0 }, message, None)
}


/// The state is fit for checking.
pub open spec fn fit_for_checking(meta: ParserMetadata) -> bool {
    meta.wf() && typing::typing_wf(meta@)
}

/// A step of the type checker left the state `state`: it kept the tokens, the
/// number of scopes and of declared functions, and the visible functions.
pub open spec fn checked_to(before: ParserMetadata, after: ParserMetadata, state: MetaV) -> bool {
    &&& after.wf()
    &&& after.tokens == before.tokens
    &&& after@ == state
    &&& typing::typing_wf(after@)
    &&& after.visible == before.visible
    &&& after@.scopes.len() == before@.scopes.len()
    &&& after@.fun_decls.len() == before@.fun_decls.len()
}


impl ParserMetadata {
    /// Whether the state is fit for checking.
    pub fn is_fit(&self) -> (r: bool)
        ensures
            r == fit_for_checking(*self),
    {
        assert(self@.scopes.len() == self.scopes@.len());
        assert(self@.fun_decls.len() == self.fun_decls@.len());
        assert(self@.fun_cache.len() == self.fun_cache.funs@.len());
        self.index <= self.tokens.len() && self.scopes.len() >= 1 && self.fun_cache.funs.len()
            == self.fun_decls.len() && self.fun_starts.len() == self.fun_decls.len() && self.visible
            <= self.fun_decls.len()
    }
}

} // verus!
