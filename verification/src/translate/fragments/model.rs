//! The mathematical model of a fragment, and what a fragment renders to.
//!
//! Each fragment type of this directory has a view of type [`FragmentV`]; the
//! contracts of the translator speak of these views, and the text that a
//! fragment lowers to is a function of its view and of a [`RenderContext`].

use crate::modules::types::Type;
use crate::text::decimal;
use crate::text::joined;
use crate::text::repeated;
use crate::text::trimmed;
use crate::translate::compute::ArithOp;
use crate::translate::fragments::quoting::InterpolableRenderType;
use crate::translate::fragments::quoting::balanced_text;
use crate::translate::fragments::quoting::closes_at_end;
use crate::translate::fragments::quoting::escaped;
use crate::translate::fragments::quoting::final_text;
use vstd::prelude::*;

verus! {

/// The view of a fragment.
pub enum FragmentV {
    Empty,
    Raw(Seq<char>),
    Interpolable { parts: Seq<PartV>, render_type: InterpolableRenderType, quoted: bool },
    List { values: Seq<FragmentV>, separator: Seq<char> },
    Block { statements: Seq<FragmentV>, increase_indent: bool, braces: bool },
    Subprocess(Box<FragmentV>),
    Arithmetic { op: ArithOp, left: Box<FragmentV>, right: Box<FragmentV> },
    VarStmt {
        name: Seq<char>,
        kind: Type,
        value: Box<FragmentV>,
        global_id: Option<usize>,
        ephemeral: bool,
    },
    VarExpr {
        name: Seq<char>,
        kind: Type,
        global_id: Option<usize>,
        quoted: bool,
        array_to_string: bool,
    },
}

/// The view of one part of an interpolable fragment.
pub enum PartV {
    Text(Seq<char>),
    Interp(FragmentV),
}

/// What rendering depends on besides the fragment: the indentation level,
/// whether the text is meant for `eval`, and the variant of the function
/// whose body is being rendered, if any.
#[derive(Clone, Copy, Debug, PartialEq, Eq)]
pub struct RenderContext {
    pub indent: i64,
    pub eval_ctx: bool,
    pub variant: Option<usize>,
}

/// The number of indentation units at level `indent`: none below level one.
pub open spec fn indent_width(indent: i64) -> nat {
    if indent <= 0 {
        0
    } else {
        (indent as usize) as nat
    }
}

impl RenderContext {
    /// A double quote, escaped once more inside `eval`.
    pub open spec fn quote(self) -> Seq<char> {
        if self.eval_ctx {
            "\\\""@
        } else {
            "\""@
        }
    }

    /// A dollar sign, escaped inside `eval`.
    pub open spec fn dollar(self) -> Seq<char> {
        if self.eval_ctx {
            "\\$"@
        } else {
            "$"@
        }
    }

    /// The whitespace that starts a line at this level.
    pub open spec fn indent_text(self) -> Seq<char> {
        repeated("    "@, indent_width(self.indent))
    }

    /// The context one level deeper. The level stops growing at the largest
    /// number that it can hold.
    pub open spec fn deeper(self) -> RenderContext {
        RenderContext {
            indent: if self.indent < i64::MAX {
                (self.indent + 1) as i64
            } else {
                self.indent
            },
            ..self
        }
    }
}

/// The identifier that the shell sees for a variable: its name, then its
/// global id if it has one, then the variant of the enclosing function.
pub open spec fn var_name(name: Seq<char>, global_id: Option<usize>, variant: Option<usize>) -> Seq<
    char,
> {
    match global_id {
        None => name,
        Some(id) => match variant {
            None => name + "_"@ + decimal(id as nat),
            Some(v) => name + "_"@ + decimal(id as nat) + "_v"@ + decimal(v as nat),
        },
    }
}

/// The literal chunks of a list of parts: `None` where an interpolation
/// stands.
pub open spec fn chunks_of(parts: Seq<PartV>) -> Seq<Option<Seq<char>>> {
    Seq::new(
        parts.len(),
        |i: int|
            match parts[i] {
                PartV::Text(s) => Some(s),
                PartV::Interp(_) => None,
            },
    )
}

/// The text of the literal part at position `at` as it is rendered: balanced
/// in a command line, unchanged in a string literal.
pub open spec fn part_text(parts: Seq<PartV>, render_type: InterpolableRenderType, at: int) -> Seq<
    char,
> {
    match render_type {
        InterpolableRenderType::GlobalContext => balanced_text(chunks_of(parts), at),
        InterpolableRenderType::StringLiteral => chunks_of(parts)[at].unwrap(),
    }
}

impl FragmentV {
    /// The shell text that the fragment lowers to.
    pub open spec fn rendered(self, ctx: RenderContext) -> Seq<char>
        decreases self, 1nat, 0int,
    {
        match self {
            FragmentV::Empty => Seq::empty(),
            FragmentV::Raw(text) => text,
            FragmentV::Interpolable { parts, render_type, quoted } => Self::laid_out(
                parts,
                render_type,
                quoted,
                ctx,
            ),
            FragmentV::List { values, separator } => joined(
                Self::pieces(values, ctx, values.len() as int),
                separator,
            ),
            FragmentV::Block { statements, increase_indent, braces } => {
                let inner = if increase_indent {
                    ctx.deeper()
                } else {
                    ctx
                };
                let body = joined(Self::lines(statements, inner, statements.len() as int), "\n"@);
                if braces {
                    ctx.indent_text() + "{\n"@ + body + "\n"@ + ctx.indent_text() + "}"@
                } else {
                    body
                }
            },
            FragmentV::Subprocess(inner) => ctx.dollar() + "("@ + inner.embedded(ctx) + ")"@,
            FragmentV::Arithmetic { op, left, right } => {
                let l = left.rendered(ctx);
                let r = right.rendered(ctx);
                ctx.dollar() + "(( "@ + (if l.len() == 0 {
                    l
                } else {
                    l + " "@
                }) + op.symbol() + (if r.len() == 0 {
                    r
                } else {
                    " "@ + r
                }) + " ))"@
            },
            FragmentV::VarStmt { name, kind, value, global_id, ephemeral } => {
                let target = var_name(name, global_id, ctx.variant);
                if kind is Array {
                    target + "=("@ + value.rendered(ctx) + ")"@
                } else {
                    target + "="@ + value.rendered(ctx)
                }
            },
            FragmentV::VarExpr { name, kind, global_id, quoted, array_to_string } => {
                let q = if quoted {
                    ctx.quote()
                } else {
                    Seq::empty()
                };
                let items = if kind is Array {
                    if array_to_string {
                        "[*]"@
                    } else {
                        "[@]"@
                    }
                } else {
                    Seq::empty()
                };
                q + ctx.dollar() + "{"@ + var_name(name, global_id, ctx.variant) + items + "}"@ + q
            },
        }
    }

    /// The text of a fragment that stands inside a command line or a
    /// subprocess: an interpolable fragment is laid out as a bare command
    /// line without quotes, every other fragment as usual.
    pub open spec fn embedded(self, ctx: RenderContext) -> Seq<char>
        decreases self, 2nat, 0int,
    {
        match self {
            FragmentV::Interpolable { parts, render_type, quoted } => Self::laid_out(
                parts,
                InterpolableRenderType::GlobalContext,
                false,
                ctx,
            ),
            _ => self.rendered(ctx),
        }
    }

    /// The texts of the first `n` items of a list, without those that render
    /// to nothing.
    pub open spec fn pieces(values: Seq<FragmentV>, ctx: RenderContext, n: int) -> Seq<Seq<char>>
        decreases values, 0nat, n,
    {
        if n <= 0 || n > values.len() {
            Seq::empty()
        } else {
            let before = Self::pieces(values, ctx, n - 1);
            let text = values[n - 1].rendered(ctx);
            if text.len() == 0 {
                before
            } else {
                before.push(text)
            }
        }
    }

    /// The lines of the first `n` statements of a block: an empty fragment
    /// gives no line, a nested block gives its own lines, and every other
    /// statement one line that starts with the indentation.
    pub open spec fn lines(statements: Seq<FragmentV>, ctx: RenderContext, n: int) -> Seq<
        Seq<char>,
    >
        decreases statements, 0nat, n,
    {
        if n <= 0 || n > statements.len() {
            Seq::empty()
        } else {
            let before = Self::lines(statements, ctx, n - 1);
            match statements[n - 1] {
                FragmentV::Empty => before,
                FragmentV::Block { .. } => before.push(statements[n - 1].rendered(ctx)),
                _ => before.push(ctx.indent_text() + statements[n - 1].rendered(ctx)),
            }
        }
    }

    /// The text of the first `n` parts of an interpolable fragment: literal
    /// parts escaped for the layout, interpolations embedded.
    pub open spec fn region_prefix(
        parts: Seq<PartV>,
        render_type: InterpolableRenderType,
        ctx: RenderContext,
        n: int,
    ) -> Seq<char>
        decreases parts, 0nat, n,
    {
        if n <= 0 || n > parts.len() {
            Seq::empty()
        } else {
            Self::region_prefix(parts, render_type, ctx, n - 1) + (match parts[n - 1] {
                PartV::Text(_) => escaped(part_text(parts, render_type, n - 1), render_type),
                PartV::Interp(frag) => frag.embedded(ctx),
            })
        }
    }

    /// The text of all parts of an interpolable fragment. A command line is
    /// balanced first: see [`balanced_text`] and [`closes_at_end`].
    pub open spec fn region(
        parts: Seq<PartV>,
        render_type: InterpolableRenderType,
        ctx: RenderContext,
    ) -> Seq<char>
        decreases parts, 1nat, 0int,
    {
        let body = Self::region_prefix(parts, render_type, ctx, parts.len() as int);
        if render_type == InterpolableRenderType::GlobalContext && closes_at_end(chunks_of(parts)) {
            body + escaped(final_text(), render_type)
        } else {
            body
        }
    }

    /// An interpolable fragment in its layout: a string literal between its
    /// quotes, a command line without the whitespace at its ends.
    pub open spec fn laid_out(
        parts: Seq<PartV>,
        render_type: InterpolableRenderType,
        quoted: bool,
        ctx: RenderContext,
    ) -> Seq<char>
        decreases parts, 2nat, 0int,
    {
        let body = Self::region(parts, render_type, ctx);
        match render_type {
            InterpolableRenderType::StringLiteral => {
                let q = if quoted {
                    ctx.quote()
                } else {
                    Seq::empty()
                };
                q + body + q
            },
            InterpolableRenderType::GlobalContext => trimmed(body),
        }
    }

    /// The fragment with its quotes switched on or off. Only a variable
    /// reference and an interpolable fragment have quotes of their own.
    pub open spec fn with_quotes(self, quoted: bool) -> FragmentV {
        match self {
            FragmentV::Interpolable { parts, render_type, quoted: _ } => FragmentV::Interpolable {
                parts,
                render_type,
                quoted,
            },
            FragmentV::VarExpr { name, kind, global_id, quoted: _, array_to_string } => {
                FragmentV::VarExpr { name, kind, global_id, quoted, array_to_string }
            },
            _ => self,
        }
    }

    /// Whether evaluating the fragment runs a command: it holds a subprocess.
    pub open spec fn runs_command(self) -> bool
        decreases self, 1nat, 0int,
    {
        match self {
            FragmentV::Empty => false,
            FragmentV::Raw(_) => false,
            FragmentV::Interpolable { parts, .. } => Self::any_part(parts, true, parts.len() as int),
            FragmentV::List { values, .. } => Self::any_of(values, true, values.len() as int),
            FragmentV::Block { statements, .. } => Self::any_of(
                statements,
                true,
                statements.len() as int,
            ),
            FragmentV::Subprocess(_) => true,
            FragmentV::Arithmetic { left, right, .. } => left.runs_command()
                || right.runs_command(),
            FragmentV::VarStmt { value, .. } => value.runs_command(),
            FragmentV::VarExpr { .. } => false,
        }
    }

    /// Whether evaluating the fragment changes a variable: it holds an
    /// assignment.
    pub open spec fn mutates(self) -> bool
        decreases self, 1nat, 0int,
    {
        match self {
            FragmentV::Empty => false,
            FragmentV::Raw(_) => false,
            FragmentV::Interpolable { parts, .. } => Self::any_part(
                parts,
                false,
                parts.len() as int,
            ),
            FragmentV::List { values, .. } => Self::any_of(values, false, values.len() as int),
            FragmentV::Block { statements, .. } => Self::any_of(
                statements,
                false,
                statements.len() as int,
            ),
            FragmentV::Subprocess(inner) => inner.mutates(),
            FragmentV::Arithmetic { left, right, .. } => left.mutates() || right.mutates(),
            FragmentV::VarStmt { .. } => true,
            FragmentV::VarExpr { .. } => false,
        }
    }

    /// Whether one of the first `n` fragments runs a command (`running`) or
    /// changes a variable (otherwise).
    pub open spec fn any_of(values: Seq<FragmentV>, running: bool, n: int) -> bool
        decreases values, 0nat, n,
    {
        if n <= 0 || n > values.len() {
            false
        } else {
            Self::any_of(values, running, n - 1) || (if running {
                values[n - 1].runs_command()
            } else {
                values[n - 1].mutates()
            })
        }
    }

    /// Whether one of the first `n` parts runs a command (`running`) or
    /// changes a variable (otherwise).
    pub open spec fn any_part(parts: Seq<PartV>, running: bool, n: int) -> bool
        decreases parts, 0nat, n,
    {
        if n <= 0 || n > parts.len() {
            false
        } else {
            Self::any_part(parts, running, n - 1) || (match parts[n - 1] {
                PartV::Text(_) => false,
                PartV::Interp(frag) => if running {
                    frag.runs_command()
                } else {
                    frag.mutates()
                },
            })
        }
    }
}

impl RenderContext {
    /// A double quote, escaped once more inside `eval`.
    pub fn gen_quote(&self) -> (r: &'static str)
        ensures
            r@ == self.quote(),
    {
        if self.eval_ctx {
            "\\\""
        } else {
            "\""
        }
    }

    /// A dollar sign, escaped inside `eval`.
    pub fn gen_dollar(&self) -> (r: &'static str)
        ensures
            r@ == self.dollar(),
    {
        if self.eval_ctx {
            "\\$"
        } else {
            "$"
        }
    }

    /// The whitespace that starts a line at this level.
    pub fn gen_indent(&self) -> (r: String)
        ensures
            r@ == self.indent_text(),
    {
        indent_string(self.indent)
    }

    /// The context one level deeper.
    pub fn entered(&self) -> (r: RenderContext)
        ensures
            r == self.deeper(),
    {
        RenderContext {
            indent: if self.indent < i64::MAX {
                self.indent + 1
            } else {
                self.indent
            },
            eval_ctx: self.eval_ctx,
            variant: self.variant,
        }
    }
}

/// The whitespace that starts a line at level `indent`.
pub fn indent_string(indent: i64) -> (r: String)
    ensures
        r@ == repeated("    "@, indent_width(indent)),
{
    let width: usize = if indent <= 0 {
        0
    } else {
        #[verifier::truncate]
        (indent as usize)
    };
    crate::text::repeat("    ", width)
}

/// The identifier that the shell sees for a variable.
pub fn variable_name(name: &str, global_id: Option<usize>, variant: Option<usize>) -> (r: String)
    ensures
        r@ == var_name(name@, global_id, variant),
{
    let mut out = String::from_str(name);
    match global_id {
        None => {},
        Some(id) => {
            out.append("_");
            let digits = crate::text::number_text(id);
            out.append(digits.as_str());
            match variant {
                None => {},
                Some(v) => {
                    out.append("_v");
                    let more = crate::text::number_text(v);
                    out.append(more.as_str());
                },
            }
        },
    }
    out
}

} // verus!
