use vstd::prelude::*;
use vstd::string::*;

use crate::ast::{Arg, BinOp, BinOpKind, Block, Expr, ExprKind, FnDecl, Item, ItemKind, PatKind, Span, TyKind};
use crate::util::{camel_of, snake_to_camel_case};

verus! {

/// The kinds of problem that configuration and generation report.
#[derive(Clone, Copy, Debug, PartialEq, Eq, Structural)]
pub enum ErrorKind {
    AttributeNotList,
    ItemNotNameValue,
    InvalidItem,
    UnsupportedItem,
    UnsupportedArgument,
    OnlyPlainIdentifiers,
    UnsupportedStatement,
    UnsupportedBinaryOperator,
    UnsupportedExpression,
}

/// The fixed message of each kind of problem.
pub open spec fn message_of(k: ErrorKind) -> Seq<char> {
    match k {
        ErrorKind::AttributeNotList => "attribute must be a parameter list"@,
        ErrorKind::ItemNotNameValue => "item must be name-value pair"@,
        ErrorKind::InvalidItem => "invalid or unrecognized item"@,
        ErrorKind::UnsupportedItem => "unsupported item"@,
        ErrorKind::UnsupportedArgument => "unsupported argument"@,
        ErrorKind::OnlyPlainIdentifiers => "only plain identifiers are supported"@,
        ErrorKind::UnsupportedStatement => "unsupported statement"@,
        ErrorKind::UnsupportedBinaryOperator => "unsupported binary operator"@,
        ErrorKind::UnsupportedExpression => "unsupported expression"@,
    }
}

impl ErrorKind {
    /// The message shown to the user for this kind of problem.
    pub fn message(&self) -> (r: &'static str)
        ensures
            r@ == message_of(*self),
    {
        match self {
            ErrorKind::AttributeNotList => "attribute must be a parameter list",
            ErrorKind::ItemNotNameValue => "item must be name-value pair",
            ErrorKind::InvalidItem => "invalid or unrecognized item",
            ErrorKind::UnsupportedItem => "unsupported item",
            ErrorKind::UnsupportedArgument => "unsupported argument",
            ErrorKind::OnlyPlainIdentifiers => "only plain identifiers are supported",
            ErrorKind::UnsupportedStatement => "unsupported statement",
            ErrorKind::UnsupportedBinaryOperator => "unsupported binary operator",
            ErrorKind::UnsupportedExpression => "unsupported expression",
        }
    }
}

/// A problem reported to the host, at a source location.
#[derive(Clone, Copy, Debug, PartialEq, Eq, Structural)]
pub struct Diagnostic {
    pub span: Span,
    pub kind: ErrorKind,
}

/// A problem and the source location it is attributed to.
pub type GeneratorError = (Span, ErrorKind);

pub type GeneratorResult = Result<(), GeneratorError>;

/// What rendering a construct appends to the output, and how it ends.
pub type Rendered = (Seq<char>, GeneratorResult);

/// The JavaScript token of each source operator; `None` for an unmapped one.
pub open spec fn op_token(op: BinOpKind) -> Option<Seq<char>> {
    match op {
        BinOpKind::Add => Some("+"@),
        BinOpKind::Sub => Some("-"@),
        BinOpKind::Mul => Some("*"@),
        BinOpKind::Div => Some("/"@),
        BinOpKind::Rem => Some("%"@),
        BinOpKind::And => Some("&&"@),
        BinOpKind::Or => Some("||"@),
        BinOpKind::BitXor => Some("^"@),
        BinOpKind::BitAnd => Some("&"@),
        BinOpKind::BitOr => Some("|"@),
        BinOpKind::Shl => Some("<<"@),
        BinOpKind::Shr => Some(">>"@),
        BinOpKind::Eq => Some("==="@),
        BinOpKind::Lt => Some("<"@),
        BinOpKind::Le => Some("<="@),
        BinOpKind::Ne => Some("!="@),
        BinOpKind::Ge => Some(">="@),
        BinOpKind::Gt => Some(">"@),
        BinOpKind::Other => None,
    }
}

/// Rendering of an expression: operands around a space-padded operator token,
/// identifiers in camel case, anything else an error.
pub open spec fn expr_gen(e: Expr) -> Rendered
    decreases e,
{
    match e.kind {
        ExprKind::Binary(op, a, b) => match op_token(op.node) {
            None => (Seq::empty(), Err((op.span, ErrorKind::UnsupportedBinaryOperator))),
            Some(t) => {
                let (ta, ra) = expr_gen(*a);
                if ra is Err {
                    (ta, ra)
                } else {
                    let (tb, rb) = expr_gen(*b);
                    (ta + " "@ + t + " "@ + tb, rb)
                }
            },
        },
        ExprKind::Path(first, _) => (camel_of(first@), Ok(())),
        ExprKind::Other => (Seq::empty(), Err((e.span, ErrorKind::UnsupportedExpression))),
    }
}

/// Rendering of the parameter at position `index`.
pub open spec fn arg_gen(arg: Arg, index: int) -> Rendered {
    if !(arg.ty.kind is Prim) {
        (Seq::empty(), Err((arg.ty.span, ErrorKind::UnsupportedArgument)))
    } else {
        match arg.pat.kind {
            PatKind::Ident(name) => (
                (if index > 0 { ", "@ } else { Seq::empty() }) + camel_of(name@),
                Ok(()),
            ),
            PatKind::Other => (Seq::empty(), Err((arg.pat.span, ErrorKind::OnlyPlainIdentifiers))),
        }
    }
}

/// Rendering of the first `n` parameters, stopping at the first error.
pub open spec fn args_gen(args: Seq<Arg>, n: nat) -> Rendered
    decreases n,
{
    if n == 0 {
        (Seq::empty(), Ok(()))
    } else {
        let (t, r) = args_gen(args, (n - 1) as nat);
        if r is Err {
            (t, r)
        } else {
            let (t2, r2) = arg_gen(args[n - 1], n - 1);
            (t + t2, r2)
        }
    }
}

/// Once rendering the parameters has failed, later parameters change nothing.
pub proof fn lemma_args_err_stable(args: Seq<Arg>, k: nat, m: nat)
    requires
        k <= m,
        args_gen(args, k).1 is Err,
    ensures
        args_gen(args, m) == args_gen(args, k),
    decreases m - k,
{
    if k < m {
        lemma_args_err_stable(args, k, (m - 1) as nat);
    }
}

/// Rendering of a body: its trailing expression as a `return`; a leading
/// statement is an error, and an expression that cannot be rendered is
/// rejected before any of the `return` line is written.
pub open spec fn block_gen(b: Block) -> Rendered {
    if b.stmts@.len() > 0 {
        (Seq::empty(), Err((b.stmts@[0].span, ErrorKind::UnsupportedStatement)))
    } else {
        match b.expr {
            None => (Seq::empty(), Ok(())),
            Some(e) => {
                let (t, r) = expr_gen(e);
                if r is Err {
                    (Seq::empty(), r)
                } else {
                    ("  return "@ + t + ";\n"@, Ok(()))
                }
            },
        }
    }
}

/// An unmapped operator is rejected at the operator before either operand
/// is looked at, and nothing is rendered.
pub proof fn lemma_expr_unmapped_operator(e: Expr, op: BinOp, lhs: Box<Expr>, rhs: Box<Expr>)
    requires
        e.kind == ExprKind::Binary(op, lhs, rhs),
        op_token(op.node) is None,
    ensures
        expr_gen(e) == (
            Seq::<char>::empty(),
            Err::<(), GeneratorError>((op.span, ErrorKind::UnsupportedBinaryOperator)),
        ),
{
}

/// A parameter of non-primitive type after parameters that render stops the
/// parameter list with an unsupported argument at its type: the text is that
/// of the parameters before it, and later parameters are not looked at.
pub proof fn lemma_args_unsupported_argument(args: Seq<Arg>, k: int)
    requires
        0 <= k < args.len(),
        args_gen(args, k as nat).1 is Ok,
        args[k].ty.kind == TyKind::NonPrim,
    ensures
        args_gen(args, args.len()) == (
            args_gen(args, k as nat).0,
            Err::<(), GeneratorError>((args[k].ty.span, ErrorKind::UnsupportedArgument)),
        ),
{
    assert(args_gen(args, (k + 1) as nat).0 =~= args_gen(args, k as nat).0);
    lemma_args_err_stable(args, (k + 1) as nat, args.len());
}

/// Rendering of a function item as a JavaScript function declaration.
pub open spec fn fn_gen(name: Seq<char>, decl: FnDecl, body: Block) -> Rendered {
    let head = "function "@ + camel_of(name) + "("@;
    let (ta, ra) = args_gen(decl.inputs@, decl.inputs@.len());
    if ra is Err {
        (head + ta, ra)
    } else {
        let (tb, rb) = block_gen(body);
        if rb is Err {
            (head + ta + ") {\n"@ + tb, rb)
        } else {
            (head + ta + ") {\n"@ + tb + "}\n"@, Ok(()))
        }
    }
}

/// Rendering of a top-level item: only functions are supported.
pub open spec fn item_gen(item: Item) -> Rendered {
    match item.kind {
        ItemKind::Fn(decl, body) => fn_gen(item.ident@, decl, body),
        _ => (Seq::empty(), Err((item.span, ErrorKind::UnsupportedItem))),
    }
}

/// The JavaScript token of a source operator.
pub fn js_bin_op(op: BinOpKind) -> (r: Option<&'static str>)
    ensures
        r is Some == op_token(op) is Some,
        r is Some ==> r->0@ == op_token(op)->0,
{
    match op {
        BinOpKind::Add => Some("+"),
        BinOpKind::Sub => Some("-"),
        BinOpKind::Mul => Some("*"),
        BinOpKind::Div => Some("/"),
        BinOpKind::Rem => Some("%"),
        BinOpKind::And => Some("&&"),
        BinOpKind::Or => Some("||"),
        BinOpKind::BitXor => Some("^"),
        BinOpKind::BitAnd => Some("&"),
        BinOpKind::BitOr => Some("|"),
        BinOpKind::Shl => Some("<<"),
        BinOpKind::Shr => Some(">>"),
        BinOpKind::Eq => Some("==="),
        BinOpKind::Lt => Some("<"),
        BinOpKind::Le => Some("<="),
        BinOpKind::Ne => Some("!="),
        BinOpKind::Ge => Some(">="),
        BinOpKind::Gt => Some(">"),
        BinOpKind::Other => None,
    }
}

/// Renders marked items as JavaScript into an append-only output text.
pub struct Generator {
    out: String,
}

impl Generator {
    /// The text written so far.
    pub closed spec fn text(&self) -> Seq<char> {
        self.out@
    }

    /// A generator with empty output.
    pub fn new() -> (r: Generator)
        ensures
            r.text() == Seq::<char>::empty(),
    {
        Generator { out: String::new() }
    }

    /// The text written so far.
    pub fn output(&self) -> (r: &str)
        ensures
            r@ == self.text(),
    {
        self.out.as_str()
    }

    fn write(&mut self, s: &str)
        ensures
            final(self).text() == old(self).text() + s@,
    {
        self.out.append(s);
    }

    /// Renders one item, appending its text; on the first unsupported
    /// construct it stops, keeping what was already written.
    pub fn generate(&mut self, item: &Item) -> (r: GeneratorResult)
        ensures
            final(self).text() == old(self).text() + item_gen(*item).0,
            r == item_gen(*item).1,
    {
        match &item.kind {
            ItemKind::Fn(decl, body) => self.gen_fn(&item.ident, decl, body),
            _ => Err((item.span, ErrorKind::UnsupportedItem)),
        }
    }

    /// Checks an expression without rendering it: the result is the one
    /// rendering it would give.
    pub fn expr_check(e: &Expr) -> (r: GeneratorResult)
        ensures
            r == expr_gen(*e).1,
        decreases e,
    {
        match &e.kind {
            ExprKind::Binary(op, a, b) => {
                if js_bin_op(op.node).is_none() {
                    return Err((op.span, ErrorKind::UnsupportedBinaryOperator));
                }
                let ra = Generator::expr_check(a);
                if ra.is_err() {
                    return ra;
                }
                Generator::expr_check(b)
            },
            ExprKind::Path(_, _) => Ok(()),
            ExprKind::Other => Err((e.span, ErrorKind::UnsupportedExpression)),
        }
    }

    /// Renders a function declaration.
    pub fn gen_fn(&mut self, name: &String, decl: &FnDecl, body: &Block) -> (r: GeneratorResult)
        ensures
            final(self).text() == old(self).text() + fn_gen(name@, *decl, *body).0,
            r == fn_gen(name@, *decl, *body).1,
    {
        let ghost start = self.text();
        let fn_name = snake_to_camel_case(name.as_str());
        self.write("function ");
        self.write(fn_name.as_str());
        self.write("(");
        let ra = self.gen_args(decl);
        if ra.is_err() {
            assert(self.text() =~= start + fn_gen(name@, *decl, *body).0);
            return ra;
        }
        self.write(") {\n");
        let rb = self.gen_block(body);
        if rb.is_err() {
            assert(self.text() =~= start + fn_gen(name@, *decl, *body).0);
            return rb;
        }
        self.write("}\n");
        assert(self.text() =~= start + fn_gen(name@, *decl, *body).0);
        Ok(())
    }

    /// Renders the parameter list, stopping at the first parameter that
    /// is not supported.
    pub fn gen_args(&mut self, decl: &FnDecl) -> (r: GeneratorResult)
        ensures
            final(self).text() == old(self).text() + args_gen(decl.inputs@, decl.inputs@.len()).0,
            r == args_gen(decl.inputs@, decl.inputs@.len()).1,
    {
        let ghost start = self.text();
        let n = decl.inputs.len();
        let mut i: usize = 0;
        while i < n
            invariant
                n == decl.inputs@.len(),
                i <= n,
                start == old(self).text(),
                self.text() == start + args_gen(decl.inputs@, i as nat).0,
                args_gen(decl.inputs@, i as nat).1 is Ok,
            decreases n - i,
        {
            let arg = &decl.inputs[i];
            let ghost before = self.text();
            if let TyKind::NonPrim = arg.ty.kind {
                assert(self.text() =~= start + args_gen(decl.inputs@, (i + 1) as nat).0);
                proof {
                    lemma_args_err_stable(decl.inputs@, (i + 1) as nat, n as nat);
                }
                return Err((arg.ty.span, ErrorKind::UnsupportedArgument));
            }
            match &arg.pat.kind {
                PatKind::Ident(name) => {
                    if i > 0 {
                        self.write(", ");
                    }
                    let js_name = snake_to_camel_case(name.as_str());
                    self.write(js_name.as_str());
                },
                PatKind::Other => {
                    assert(self.text() =~= start + args_gen(decl.inputs@, (i + 1) as nat).0);
                    proof {
                        lemma_args_err_stable(decl.inputs@, (i + 1) as nat, n as nat);
                    }
                    return Err((arg.pat.span, ErrorKind::OnlyPlainIdentifiers));
                },
            }
            assert(self.text() =~= start + args_gen(decl.inputs@, (i + 1) as nat).0);
            i = i + 1;
        }
        Ok(())
    }

    /// Renders a body as a `return` of its trailing expression; an
    /// expression that cannot be rendered is rejected before anything is
    /// written.
    pub fn gen_block(&mut self, b: &Block) -> (r: GeneratorResult)
        ensures
            final(self).text() == old(self).text() + block_gen(*b).0,
            r == block_gen(*b).1,
    {
        let ghost start = self.text();
        if b.stmts.len() > 0 {
            assert(self.text() =~= start + block_gen(*b).0);
            return Err((b.stmts[0].span, ErrorKind::UnsupportedStatement));
        }
        match &b.expr {
            None => {
                assert(self.text() =~= start + block_gen(*b).0);
                Ok(())
            },
            Some(e) => {
                let checked = Generator::expr_check(e);
                if checked.is_err() {
                    assert(self.text() =~= start + block_gen(*b).0);
                    return checked;
                }
                self.write("  return ");
                let rendered = self.gen_expr(e);
                assert(rendered is Ok);
                self.write(";\n");
                assert(self.text() =~= start + block_gen(*b).0);
                Ok(())
            },
        }
    }

    /// Renders an expression; an unmapped operator is rejected before
    /// either operand is rendered.
    pub fn gen_expr(&mut self, e: &Expr) -> (r: GeneratorResult)
        ensures
            final(self).text() == old(self).text() + expr_gen(*e).0,
            r == expr_gen(*e).1,
        decreases e,
    {
        let ghost start = self.text();
        match &e.kind {
            ExprKind::Binary(op, a, b) => {
                let tok = match js_bin_op(op.node) {
                    Some(t) => t,
                    None => {
                        assert(self.text() =~= start + expr_gen(*e).0);
                        return Err((op.span, ErrorKind::UnsupportedBinaryOperator));
                    },
                };
                let ra = self.gen_expr(a);
                if ra.is_err() {
                    return ra;
                }
                self.write(" ");
                self.write(tok);
                self.write(" ");
                let rb = self.gen_expr(b);
                assert(self.text() =~= start + expr_gen(*e).0);
                rb
            },
            ExprKind::Path(first, _) => {
                let name = snake_to_camel_case(first.as_str());
                self.write(name.as_str());
                assert(self.text() =~= start + expr_gen(*e).0);
                Ok(())
            },
            ExprKind::Other => {
                assert(self.text() =~= start + expr_gen(*e).0);
                Err((e.span, ErrorKind::UnsupportedExpression))
            },
        }
    }
}

} // verus!
