//! The fragment tree.

use crate::translate::fragments::arithmetic::ArithmeticFragment;
use crate::translate::fragments::block::BlockFragment;
use crate::translate::fragments::interpolable::InterpolableFragment;
use crate::translate::fragments::list::ListFragment;
use crate::translate::fragments::model::FragmentV;
use crate::translate::fragments::model::RenderContext;
use crate::translate::fragments::quoting::InterpolableRenderType;
use crate::translate::fragments::raw::RawFragment;
use crate::translate::fragments::subprocess::SubprocessFragment;
use crate::translate::fragments::var_expr::VarExprFragment;
use crate::translate::fragments::var_stmt::VarStmtFragment;
use crate::utils::metadata::translate::TranslateMetadata;
use vstd::prelude::*;
use vstd::std_specs::vecdeque::VecDequeAdditionalSpecFns;

verus! {

/// A node of the intermediate representation: a piece of shell code that
/// knows how to render itself.
#[derive(Debug, PartialEq, Eq)]
pub enum FragmentKind {
    Empty,
    Raw(RawFragment),
    Interpolable(InterpolableFragment),
    List(ListFragment),
    Block(BlockFragment),
    Subprocess(SubprocessFragment),
    Arithmetic(ArithmeticFragment),
    VarStmt(VarStmtFragment),
    VarExpr(VarExprFragment),
}

impl FragmentKind {
    /// The view of the fragment.
    pub open spec fn model(self) -> FragmentV
        decreases self,
    {
        match self {
            FragmentKind::Empty => FragmentV::Empty,
            FragmentKind::Raw(raw) => FragmentV::Raw(raw.value@),
            FragmentKind::Interpolable(interpolable) => interpolable.model(),
            FragmentKind::List(list) => list.model(),
            FragmentKind::Block(block) => block.model(),
            FragmentKind::Subprocess(subprocess) => subprocess.model(),
            FragmentKind::Arithmetic(arithmetic) => arithmetic.model(),
            FragmentKind::VarStmt(stmt) => stmt.model(),
            FragmentKind::VarExpr(expr) => expr@,
        }
    }

    /// The views of the fragments of a vector.
    pub open spec fn models_of(values: Vec<FragmentKind>) -> Seq<FragmentV>
        decreases values,
    {
        Seq::new(
            values.len() as nat,
            |i: int|
                if 0 <= i < values.len() {
                    values[i].model()
                } else {
                    FragmentV::Empty
                },
        )
    }

    /// The shell text of the fragment.
    pub fn render(&self, ctx: RenderContext) -> (r: String)
        ensures
            r@ == self@.rendered(ctx),
        decreases self, 1nat,
    {
        match self {
            FragmentKind::Empty => String::new(),
            FragmentKind::Raw(raw) => raw.render(ctx),
            FragmentKind::Interpolable(interpolable) => interpolable.render(ctx),
            FragmentKind::List(list) => list.render(ctx),
            FragmentKind::Block(block) => block.render(ctx),
            FragmentKind::Subprocess(subprocess) => subprocess.render(ctx),
            FragmentKind::Arithmetic(arithmetic) => arithmetic.render(ctx),
            FragmentKind::VarStmt(stmt) => stmt.render(ctx),
            FragmentKind::VarExpr(expr) => expr.render(ctx),
        }
    }

    /// The shell text of the fragment where it stands inside a command line
    /// or a subprocess: an interpolable fragment is then laid out as a bare
    /// command line without quotes.
    pub fn render_embedded(&self, ctx: RenderContext) -> (r: String)
        ensures
            r@ == self@.embedded(ctx),
        decreases self, 2nat,
    {
        match self {
            FragmentKind::Interpolable(interpolable) => interpolable.render_as(
                InterpolableRenderType::GlobalContext,
                false,
                ctx,
            ),
            _ => self.render(ctx),
        }
    }

    /// The fragment with its quotes switched on or off.
    pub fn with_quotes(self, quoted: bool) -> (r: FragmentKind)
        ensures
            r@ == self@.with_quotes(quoted),
    {
        match self {
            FragmentKind::Interpolable(interpolable) => FragmentKind::Interpolable(
                interpolable.with_quotes(quoted),
            ),
            FragmentKind::VarExpr(expr) => FragmentKind::VarExpr(expr.with_quotes(quoted)),
            other => other,
        }
    }

    /// Whether this is the empty fragment.
    pub fn is_empty(&self) -> (r: bool)
        ensures
            r == (*self is Empty),
    {
        match self {
            FragmentKind::Empty => true,
            _ => false,
        }
    }

    /// Whether the fragment holds a subprocess (`running`) or an assignment
    /// (otherwise).
    pub fn holds(&self, running: bool) -> (r: bool)
        ensures
            r == (if running {
                self@.runs_command()
            } else {
                self@.mutates()
            }),
        decreases self,
    {
        match self {
            FragmentKind::Empty => false,
            FragmentKind::Raw(_) => false,
            FragmentKind::Interpolable(interpolable) => interpolable.any_part_holds(running),
            FragmentKind::List(list) => Self::any_holds(&list.values, running),
            FragmentKind::Block(block) => Self::any_holds(&block.statements, running),
            FragmentKind::Subprocess(subprocess) => running || subprocess.fragment.holds(running),
            FragmentKind::Arithmetic(arithmetic) => arithmetic.left.holds(running)
                || arithmetic.right.holds(running),
            FragmentKind::VarStmt(stmt) => !running || stmt.value.holds(running),
            FragmentKind::VarExpr(_) => false,
        }
    }

    /// Whether one of `values` holds a subprocess (`running`) or an
    /// assignment (otherwise).
    pub fn any_holds(values: &Vec<FragmentKind>, running: bool) -> (r: bool)
        ensures
            r == FragmentV::any_of(Self::models_of(*values), running, values.len() as int),
        decreases values,
    {
        let mut found = false;
        let mut i: usize = 0;
        while i < values.len()
            invariant
                i <= values.len(),
                found == FragmentV::any_of(Self::models_of(*values), running, i as int),
            decreases values.len() - i,
        {
            assert(Self::models_of(*values)[i as int] == values[i as int]@);
            if values[i].holds(running) {
                found = true;
            }
            i = i + 1;
        }
        found
    }

    /// Whether evaluating the fragment runs a command.
    pub fn is_running_command(&self) -> (r: bool)
        ensures
            r == self@.runs_command(),
    {
        self.holds(true)
    }

    /// Whether evaluating the fragment changes a variable.
    pub fn is_mutating(&self) -> (r: bool)
        ensures
            r == self@.mutates(),
    {
        self.holds(false)
    }
}

impl View for FragmentKind {
    type V = FragmentV;

    open spec fn view(&self) -> FragmentV {
        self.model()
    }
}


/// An empty list of fragments.
pub fn no_frags() -> (r: Vec<FragmentKind>)
    ensures
        FragmentKind::models_of(r) == Seq::<FragmentV>::empty(),
{
    let r: Vec<FragmentKind> = Vec::new();
    assert(FragmentKind::models_of(r) =~= Seq::<FragmentV>::empty());
    r
}

/// Adds `frag` at the end of `list`.
pub fn push_frag(list: &mut Vec<FragmentKind>, frag: FragmentKind)
    ensures
        FragmentKind::models_of(*final(list)) == FragmentKind::models_of(*old(list)).push(frag@),
{
    list.push(frag);
    assert(FragmentKind::models_of(*list) =~= FragmentKind::models_of(*old(list)).push(frag@));
}

/// Moves the fragments of `more` to the end of `list`, in their order.
pub fn append_frags(list: &mut Vec<FragmentKind>, more: Vec<FragmentKind>)
    ensures
        FragmentKind::models_of(*final(list)) == FragmentKind::models_of(*old(list))
            + FragmentKind::models_of(more),
{
    let ghost before = FragmentKind::models_of(*list);
    let ghost added = FragmentKind::models_of(more);
    let mut more = more;
    list.append(&mut more);
    assert(FragmentKind::models_of(*list) =~= before + added);
}

/// The list of `values` with one space between them (`spaces`) or with
/// nothing between them.
pub fn list_of(values: Vec<FragmentKind>, spaces: bool) -> (r: FragmentKind)
    ensures
        r@ == (FragmentV::List {
            values: FragmentKind::models_of(values),
            separator: if spaces {
                " "@
            } else {
                Seq::empty()
            },
        }),
{
    if spaces {
        ListFragment::new(values).with_spaces().to_frag()
    } else {
        ListFragment::new(values).to_frag()
    }
}

/// The fragment that emits `text`.
pub fn raw(text: &str) -> (r: FragmentKind)
    ensures
        r@ == FragmentV::Raw(text@),
{
    RawFragment::new(text).to_frag()
}


/// The list of one fragment.
pub fn frags1(a: FragmentKind) -> (r: Vec<FragmentKind>)
    ensures
        FragmentKind::models_of(r) == seq![a@],
{
    let mut list = no_frags();
    push_frag(&mut list, a);
    assert(FragmentKind::models_of(list) =~= seq![a@]);
    list
}

/// The list of two fragments.
pub fn frags2(a: FragmentKind, b: FragmentKind) -> (r: Vec<FragmentKind>)
    ensures
        FragmentKind::models_of(r) == seq![a@, b@],
{
    let mut list = no_frags();
    push_frag(&mut list, a);
    push_frag(&mut list, b);
    assert(FragmentKind::models_of(list) =~= seq![a@, b@]);
    list
}

/// The list of three fragments.
pub fn frags3(a: FragmentKind, b: FragmentKind, c: FragmentKind) -> (r: Vec<FragmentKind>)
    ensures
        FragmentKind::models_of(r) == seq![a@, b@, c@],
{
    let mut list = no_frags();
    push_frag(&mut list, a);
    push_frag(&mut list, b);
    push_frag(&mut list, c);
    assert(FragmentKind::models_of(list) =~= seq![a@, b@, c@]);
    list
}

/// The list of four fragments.
pub fn frags4(a: FragmentKind, b: FragmentKind, c: FragmentKind, d: FragmentKind) -> (r: Vec<FragmentKind>)
    ensures
        FragmentKind::models_of(r) == seq![a@, b@, c@, d@],
{
    let mut list = no_frags();
    push_frag(&mut list, a);
    push_frag(&mut list, b);
    push_frag(&mut list, c);
    push_frag(&mut list, d);
    assert(FragmentKind::models_of(list) =~= seq![a@, b@, c@, d@]);
    list
}

/// The list of five fragments.
pub fn frags5(a: FragmentKind, b: FragmentKind, c: FragmentKind, d: FragmentKind, e: FragmentKind) -> (r: Vec<FragmentKind>)
    ensures
        FragmentKind::models_of(r) == seq![a@, b@, c@, d@, e@],
{
    let mut list = no_frags();
    push_frag(&mut list, a);
    push_frag(&mut list, b);
    push_frag(&mut list, c);
    push_frag(&mut list, d);
    push_frag(&mut list, e);
    assert(FragmentKind::models_of(list) =~= seq![a@, b@, c@, d@, e@]);
    list
}


impl FragmentKind {
    /// The shell text of the fragment in the state `meta`, which stays as it is.
    pub fn to_string(self, meta: &mut TranslateMetadata) -> (r: String)
        ensures
            r@ == self@.rendered(old(meta).render_context()),
            *final(meta) == *old(meta),
    {
        let context = meta.context();
        self.render(context)
    }
}

} // verus!
