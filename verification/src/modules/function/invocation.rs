//! The call of a function.

use crate::modules::block::Block;
use crate::modules::expression::expr::Expr;
use crate::modules::expression::expr::ExprType;
use crate::modules::grammar;
use crate::modules::model::ExprTypeV;
use crate::modules::model::ExprV;
use crate::modules::model::FailureV;
use crate::modules::model::InvocationV;
use crate::modules::model::MetaV;
use crate::modules::types::Type;
use crate::modules::typing;
use crate::translate::fragments::fragment::FragmentKind;
use crate::translate::fragments::fragment::list_of;
use crate::translate::fragments::fragment::no_frags;
use crate::translate::fragments::fragment::push_frag;
use crate::translate::fragments::fragment::raw;
use crate::translate::fragments::raw::RawFragment;
use crate::translate::fragments::var_expr::VarExprFragment;
use crate::translate::lowering;
use crate::utils::context::Context;
use crate::utils::context::ScopeFrame;
use crate::utils::function_cache::FunctionInstance;
use crate::utils::metadata::parser::Failure;
use crate::utils::metadata::parser::ParserMetadata;
use crate::utils::metadata::parser::SyntaxResult;
use crate::utils::metadata::parser::checked_to;
use crate::utils::metadata::parser::fault;
use crate::utils::metadata::parser::fit_for_checking;
use crate::utils::metadata::parser::parsed_as;
use crate::utils::metadata::parser::token;
use crate::utils::metadata::parser::variable;
use crate::utils::metadata::translate::TranslateMetadata;
use crate::utils::metadata::translate::same_setting;
use vstd::prelude::*;

verus! {

/// A call of a function. Checking fills in the id of the declaration, the
/// variant that fits the types of the arguments, and the type of the result.
#[derive(Debug, PartialEq, Eq)]
pub struct FunctionInvocation {
    pub name: String,
    pub args: Vec<Expr>,
    pub refs: Vec<bool>,
    pub kind: Type,
    pub variant_id: usize,
    pub id: usize,
}

impl FunctionInvocation {
    /// The view of the call.
    pub open spec fn model(self) -> InvocationV
        decreases self,
    {
        InvocationV {
            name: self.name@,
            args: Expr::models_of(self.args),
            refs: self.refs@,
            kind: self.kind,
            variant_id: self.variant_id,
            id: self.id,
        }
    }

    /// A call that was not parsed yet.
    pub fn new() -> (r: Self)
        ensures
            r.name@ == Seq::<char>::empty(),
            r.args@ == Seq::<Expr>::empty(),
            r.refs@ == Seq::<bool>::empty(),
            r.kind == Type::Null,
            r.variant_id == 0,
            r.id == 0,
    {
        FunctionInvocation {
            name: String::new(),
            args: Vec::new(),
            refs: Vec::new(),
            kind: Type::Null,
            variant_id: 0,
            id: 0,
        }
    }

    /// The type of the call: what the linked variant gives back.
    pub fn get_type(&self) -> (r: Type)
        ensures
            r == self.kind,
    {
        self.kind.clone()
    }
}

impl View for FunctionInvocation {
    type V = InvocationV;

    open spec fn view(&self) -> InvocationV {
        self.model()
    }
}


impl FunctionInvocation {
    /// Parses the name of a function and its arguments between round
    /// brackets.
    pub fn parse(&mut self, meta: &mut ParserMetadata) -> (r: SyntaxResult)
        requires
            old(meta).wf(),
        ensures
            parsed_as(
                *old(meta),
                *final(meta),
                r,
                final(self).model(),
                grammar::invocation_parsed(old(meta).words(), old(meta)@),
            ),
            r is Ok ==> final(meta).index > old(meta).index,
        decreases grammar::remaining(old(meta).words(), old(meta)@), 80nat,
    {
        reveal(grammar::invocation_parsed);
        reveal(grammar::items_parsed);
        let name = match variable(meta) {
            Ok(name) => name,
            Err(failure) => {
                return Err(failure);
            },
        };
        match token(meta, "(") {
            Ok(_) => {},
            Err(failure) => {
                return Err(failure);
            },
        }
        let args = match Expr::parse_items(meta, ")") {
            Ok(args) => args,
            Err(failure) => {
                return Err(failure);
            },
        };
        self.name = name;
        self.args = args;
        self.refs = Vec::new();
        self.kind = Type::Null;
        self.variant_id = 0;
        self.id = 0;
        assert(self.refs@ =~= Seq::<bool>::empty());
        Ok(())
    }
}


/// The types of the checked expressions `exprs`.
pub fn kinds_of(exprs: &Vec<Expr>) -> (r: Vec<Type>)
    ensures
        r@ == typing::kinds_of(Expr::models_of(*exprs)),
{
    let mut out: Vec<Type> = Vec::new();
    let mut i: usize = 0;
    while i < exprs.len()
        invariant
            i <= exprs.len(),
            out@.len() == i,
            forall|j: int| 0 <= j < i ==> out@[j] == (#[trigger] exprs[j]).kind,
        decreases exprs.len() - i,
    {
        out.push(exprs[i].kind.clone());
        i = i + 1;
    }
    assert(out@ =~= typing::kinds_of(Expr::models_of(*exprs)));
    out
}

/// Whether every argument that is passed by reference is a plain variable.
pub fn refs_fit(refs: &Vec<bool>, args: &Vec<Expr>) -> (r: bool)
    ensures
        r == typing::refs_fit(refs@, Expr::models_of(*args)),
{
    let ghost all = Expr::models_of(*args);
    let mut i: usize = 0;
    while i < args.len() && i < refs.len()
        invariant
            i <= args.len(),
            i <= refs.len(),
            all == Expr::models_of(*args),
            forall|j: int|
                0 <= j < i && refs@[j] ==> (#[trigger] all[j]).value matches Some(
                    ExprTypeV::VariableGet { .. },
                ),
        decreases args.len() - i,
    {
        assert(all[i as int] == args[i as int].model());
        if refs[i] {
            let plain = match &args[i].value {
                Some(ExprType::VariableGet(_)) => true,
                _ => false,
            };
            if !plain {
                return false;
            }
        }
        i = i + 1;
    }
    true
}

/// The message that names the function `name` between `before` and
/// `after`.
fn naming(before: &str, name: &str, after: &str) -> (r: Failure)
    ensures
        r@ == typing::fault(before@ + name@ + after@),
{
    let mut message = String::from_str(before);
    message.append(name);
    message.append(after);
    fault(message.as_str())
}

/// Parses and checks the body of the function `id` for arguments of the
/// types `kinds`, and adds the result to the cache as the next variant of
/// the function. Gives the type of the result of the variant, and its id.
pub fn instantiate(meta: &mut ParserMetadata, id: usize, kinds: &Vec<Type>) -> (r: Result<
    (Type, usize),
    Failure,
>)
    requires
        fit_for_checking(*old(meta)),
    ensures
        ({
            let step = typing::instantiated(old(meta).words(), old(meta)@, id as int, kinds@);
            &&& checked_to(*old(meta), *final(meta), step.1)
            &&& match r {
                Ok(found) => step.0 == Ok::<(Type, usize), FailureV>(found),
                Err(failure) => step.0 == Err::<(Type, usize), FailureV>(failure@),
            }
        }),
        r matches Ok(found) ==> {
            let cache = final(meta)@.fun_cache;
            &&& id < cache.len()
            &&& found.1 < cache[id as int].len()
            &&& cache[id as int][found.1 as int].args == kinds@
        },
    decreases 2 * id + 2,
{
    reveal(typing::instantiated);
    reveal(typing::block_checked);
    if !(id < meta.visible) {
        return Err(fault("No such function"));
    }
    assert(meta@.fun_decls.len() == meta.fun_decls@.len());
    assert(meta@.fun_decls[id as int] == meta.fun_decls@[id as int]@);
    let start = meta.fun_starts[id];
    if !(start <= meta.tokens.len()) {
        return Err(fault("No such function"));
    }
    let ghost outer = meta@;
    let ghost words = meta.words();
    let saved_index = meta.index;
    let saved_context = meta.context;
    let saved_visible = meta.visible;
    let saved_ret = match &meta.fun_ret_type {
        Some(kind) => Some(kind.clone()),
        None => None,
    };
    let declared_ret = meta.fun_decls[id].returns.clone();
    let names = crate::modules::function::declaration::copy_strings(&meta.fun_decls[id].arg_names);
    let refs = copy_flags(&meta.fun_decls[id].arg_refs);
    let mut scopes: Vec<ScopeFrame> = Vec::new();
    scopes.push(ScopeFrame::new());
    std::mem::swap(&mut meta.scopes, &mut scopes);
    meta.index = start;
    meta.context = Context {
        is_loop_ctx: false,
        is_fun_ctx: true,
        is_trust_ctx: false,
        is_main_ctx: false,
    };
    meta.fun_ret_type = match &declared_ret {
        Type::Generic => None,
        other => Some(other.clone()),
    };
    meta.visible = id;
    assert(ParserMetadata::scope_models(meta.scopes@) =~= seq![
        Seq::<crate::utils::context::VariableV>::empty(),
    ]);
    assert(meta@ == typing::entered(outer, id as int));
    let mut body = Block::new();
    let parsed = body.parse(meta);
    let ghost mid = meta@;
    let first_var_id = meta.var_id;
    let outcome = match parsed {
        Err(failure) => Err(failure),
        Ok(()) => match declare_params(meta, &names, kinds, &refs) {
            Err(failure) => Err(failure),
            Ok(()) => {
                assert(meta@.scopes.len() >= 1) by {
                    lemma_params_keep_scopes(mid, crate::text::views(names@), kinds@, refs@, 0);
                }
                body.checked(meta)
            },
        },
    };
    let ghost inner = meta@;
    std::mem::swap(&mut meta.scopes, &mut scopes);
    meta.index = saved_index;
    meta.context = saved_context;
    let inner_ret = match &meta.fun_ret_type {
        Some(kind) => Some(kind.clone()),
        None => None,
    };
    meta.fun_ret_type = saved_ret;
    meta.visible = saved_visible;
    assert(meta@ == typing::restored(inner, outer));
    match outcome {
        Err(failure) => Err(failure),
        Ok(block) => {
            assert(meta@.fun_cache.len() == meta.fun_cache.funs@.len());
            if !(id < meta.fun_cache.funs.len() && meta.fun_cache.variants_of(id) < usize::MAX) {
                return Err(fault("Too many variants"));
            }
            let result_type = match declared_ret {
                Type::Generic => match inner_ret {
                    Some(kind) => kind,
                    None => Type::Null,
                },
                other => other,
            };
            let instance = FunctionInstance {
                variant_id: 0,
                args: crate::modules::types::copy_types(kinds),
                returns: result_type.clone(),
                block,
                first_var_id,
            };
            let variant = meta.fun_cache.add_instance(id, instance);
            Ok((result_type, variant))
        },
    }
}

/// Declaring parameters keeps the scopes in number.
pub proof fn lemma_params_keep_scopes(
    m: MetaV,
    names: Seq<Seq<char>>,
    kinds: Seq<Type>,
    refs: Seq<bool>,
    i: int,
)
    requires
        0 <= i,
    ensures
        ({
            let after = typing::params_declared(m, names, kinds, refs, i).1;
            &&& after.scopes.len() == m.scopes.len()
            &&& after.visible == m.visible
            &&& after.fun_decls == m.fun_decls
            &&& after.fun_starts == m.fun_starts
            &&& after.fun_cache == m.fun_cache
            &&& after.index == m.index
        }),
    decreases names.len() - i,
{
    if !(i >= names.len() || i >= kinds.len() || i >= refs.len()) {
        let var = typing::declared(m, names[i], kinds[i], refs[i]);
        if var.0 is Ok {
            lemma_params_keep_scopes(var.1, names, kinds, refs, i + 1);
        }
    }
}

/// Declares the parameters `names` with the types `kinds`.
fn declare_params(
    meta: &mut ParserMetadata,
    names: &Vec<String>,
    kinds: &Vec<Type>,
    refs: &Vec<bool>,
) -> (r: SyntaxResult)
    ensures
        ({
            let step = typing::params_declared(
                old(meta)@,
                crate::text::views(names@),
                kinds@,
                refs@,
                0,
            );
            &&& *final(meta) == (ParserMetadata {
                scopes: final(meta).scopes,
                var_id: final(meta).var_id,
                ..*old(meta)
            })
            &&& final(meta)@ == step.1
            &&& match r {
                Ok(()) => step.0 is Ok,
                Err(failure) => step.0 == Err::<(), FailureV>(failure@),
            }
        }),
{
    let ghost all = crate::text::views(names@);
    let ghost goal = typing::params_declared(meta@, all, kinds@, refs@, 0);
    let mut i: usize = 0;
    while i < names.len() && i < kinds.len() && i < refs.len()
        invariant
            all == crate::text::views(names@),
            *meta == (ParserMetadata { scopes: meta.scopes, var_id: meta.var_id, ..*old(meta) }),
            goal == typing::params_declared(old(meta)@, all, kinds@, refs@, 0),
            goal == typing::params_declared(meta@, all, kinds@, refs@, i as int),
        decreases names.len() - i,
    {
        assert(all[i as int] == names@[i as int]@);
        match meta.add_var(names[i].as_str(), kinds[i].clone(), refs[i]) {
            Ok(_) => {},
            Err(failure) => {
                return Err(failure);
            },
        }
        i = i + 1;
    }
    Ok(())
}

impl FunctionInvocation {
    /// Checks the call: the arguments are checked, the function is looked
    /// up, and the call is linked to the variant of the function that fits
    /// the types of the arguments, which is made if the cache has none.
    ///
    /// After a successful check the variant id of the call points at a
    /// variant in the cache whose argument types are the types of the
    /// arguments of the call.
    pub fn checked(&self, meta: &mut ParserMetadata) -> (r: Result<FunctionInvocation, Failure>)
        requires
            fit_for_checking(*old(meta)),
        ensures
            ({
                let step = typing::invocation_checked(old(meta).words(), self.model(), old(meta)@);
                &&& checked_to(*old(meta), *final(meta), step.1)
                &&& match r {
                    Ok(node) => step.0 == Ok::<InvocationV, FailureV>(node.model()),
                    Err(failure) => step.0 == Err::<InvocationV, FailureV>(failure@),
                }
            }),
            r matches Ok(node) ==> {
                let cache = final(meta)@.fun_cache;
                &&& node.id < cache.len()
                &&& node.variant_id < cache[node.id as int].len()
                &&& cache[node.id as int][node.variant_id as int].args == typing::kinds_of(
                    node.model().args,
                )
            },
        decreases typing::rank(old(meta)@), self, 1nat,
    {
        reveal(typing::invocation_checked);
        reveal(typing::list_checked);
        reveal(typing::instantiated);
        let args = match Expr::checked_all(&self.args, meta) {
            Ok(found) => found,
            Err(failure) => {
                return Err(failure);
            },
        };
        let id = match meta.find_fun(self.name.as_str()) {
            Some(id) => id,
            None => {
                return Err(naming("Function '", self.name.as_str(), "' does not exist"));
            },
        };
        assert(meta@.fun_decls[id as int] == meta.fun_decls@[id as int]@);
        let kinds = kinds_of(&args);
        if args.len() != meta.fun_decls[id].arg_names.len() || args.len()
            != meta.fun_decls[id].arg_types.len() {
            return Err(
                naming(
                    "Function '",
                    self.name.as_str(),
                    "' is called with a wrong number of arguments",
                ),
            );
        }
        if !refs_fit(&meta.fun_decls[id].arg_refs, &args) {
            return Err(
                naming("Function '", self.name.as_str(), "' takes a reference: pass a variable"),
            );
        }
        if meta.fun_decls[id].is_args_typed && !crate::modules::types::same_types(
            &kinds,
            &meta.fun_decls[id].arg_types,
        ) {
            return Err(
                naming(
                    "Function '",
                    self.name.as_str(),
                    "' is called with arguments of other types than declared",
                ),
            );
        }
        let refs = copy_flags(&meta.fun_decls[id].arg_refs);
        let (kind, variant_id) = match meta.fun_cache.find_variant(id, &kinds) {
            Some(variant) => (meta.fun_cache.returns_of(id, variant), variant),
            None => match instantiate(meta, id, &kinds) {
                Ok(found) => found,
                Err(failure) => {
                    return Err(failure);
                },
            },
        };
        Ok(FunctionInvocation { name: self.name.clone(), args, refs, kind, variant_id, id })
    }
}

/// A copy of a list of flags.
pub fn copy_flags(flags: &Vec<bool>) -> (r: Vec<bool>)
    ensures
        r@ == flags@,
{
    let mut out: Vec<bool> = Vec::new();
    let mut i: usize = 0;
    while i < flags.len()
        invariant
            i <= flags.len(),
            out@ == flags@.take(i as int),
        decreases flags.len() - i,
    {
        out.push(flags[i]);
        assert(flags@.take(i + 1) == flags@.take(i as int).push(flags@[i as int]));
        i = i + 1;
    }
    assert(flags@.take(flags@.len() as int) == flags@);
    out
}


/// The name that the shell sees for the variant `variant` of the function
/// `name` with the id `id`.
pub fn function_name(name: &str, id: usize, variant: usize) -> (r: String)
    ensures
        r@ == lowering::fun_name(name@, id, variant),
{
    let mut out = String::from_str(name);
    out.append("__");
    let a = crate::text::number_text(id);
    out.append(a.as_str());
    out.append("_v");
    let b = crate::text::number_text(variant);
    out.append(b.as_str());
    out
}

/// The name of the variable that holds the result of that variant.
pub fn result_name(name: &str, id: usize, variant: usize) -> (r: String)
    ensures
        r@ == lowering::ret_name(name@, id, variant),
{
    let mut out = String::from_str("__AMBER_FUN_");
    out.append(name);
    let a = crate::text::number_text(id);
    out.append(a.as_str());
    out.append("_v");
    let b = crate::text::number_text(variant);
    out.append(b.as_str());
    out
}

/// The argument of a call as the shell passes it.
fn passed(by_ref: bool, frag: FragmentKind, variant: Option<usize>, Ghost(arg): Ghost<ExprV>) -> (r:
    FragmentKind)
    ensures
        r@ == lowering::passed(arg, by_ref, frag@, variant),
{
    match frag {
        FragmentKind::VarExpr(var) => {
            if by_ref {
                RawFragment::from(
                    crate::translate::fragments::model::variable_name(
                        var.name.as_str(),
                        var.global_id,
                        variant,
                    ),
                ).to_frag()
            } else if var.kind.is_array() {
                let mut name = crate::translate::fragments::model::variable_name(
                    var.name.as_str(),
                    var.global_id,
                    variant,
                );
                name.append("[@]");
                RawFragment::from(name).to_frag()
            } else {
                var.to_frag()
            }
        },
        other => other,
    }
}

impl FunctionInvocation {
    /// Translates the call: the call itself is queued as a statement, and
    /// the value of the call is the variable in which the function leaves
    /// its result.
    pub fn translate(&self, meta: &mut TranslateMetadata) -> (r: FragmentKind)
        ensures
            same_setting(*old(meta), *final(meta)),
            (r@, final(meta)@) == lowering::invocation_translated(self.model(), old(meta)@),
        decreases self, 1nat,
    {
        reveal(lowering::invocation_translated);
        reveal(lowering::args_translated);
        let ghost all = Expr::models_of(self.args);
        let ghost goal = lowering::args_translated(all, self.refs@, meta@, 0, Seq::empty());
        let name = function_name(self.name.as_str(), self.id, self.variant_id);
        let mut pieces = no_frags();
        push_frag(&mut pieces, RawFragment::from(name).to_frag());
        let ghost head = FragmentKind::models_of(pieces);
        let mut args = no_frags();
        let mut i: usize = 0;
        while i < self.args.len()
            invariant
                i <= self.args.len(),
                all == Expr::models_of(self.args),
                same_setting(*old(meta), *meta),
                goal == lowering::args_translated(all, self.refs@, old(meta)@, 0, Seq::empty()),
                goal == lowering::args_translated(
                    all,
                    self.refs@,
                    meta@,
                    i as int,
                    FragmentKind::models_of(args),
                ),
            decreases self.args.len() - i,
        {
            reveal(lowering::args_translated);
            reveal(lowering::expr_translated);
            assert(all[i as int] == self.args[i as int].model());
            let variant = match &meta.fun_meta {
                Some(fun) => Some(fun.variant_id),
                None => None,
            };
            let frag = self.args[i].translate(meta);
            let by_ref = i < self.refs.len() && self.refs[i];
            push_frag(&mut args, passed(by_ref, frag, variant, Ghost(all[i as int])));
            i = i + 1;
        }
        crate::translate::fragments::fragment::append_frags(&mut pieces, args);
        meta.enqueue(list_of(pieces, true));
        let result = result_name(self.name.as_str(), self.id, self.variant_id);
        VarExprFragment::new(result.as_str(), self.kind.clone()).to_frag()
    }
}

} // verus!
