use vstd::prelude::*;

use crate::ast::{
    BinOp, BinOpKind, Block, Crate, Expr, ExprKind, FnDecl, ImplItem, Item, ItemKind,
    Span, TyKind,
};
use crate::config::{first_marker, resolve_spec, Config};
use crate::gen::{args_gen, item_gen, lemma_args_err_stable, Diagnostic, ErrorKind, Generator};
use crate::util::{absolutize, camel_of, is_absolute, join_path, str_eq};

verus! {

/// What visiting part of a program adds: output text, diagnostics, the ids
/// of the marker attributes acted on, and the marked implementation members found.
pub type Visit = (Seq<char>, Seq<Diagnostic>, Seq<u32>, Seq<Span>);

pub open spec fn empty_visit() -> Visit {
    (Seq::empty(), Seq::empty(), Seq::empty(), Seq::empty())
}

/// One visit followed by another.
pub open spec fn visit_concat(a: Visit, b: Visit) -> Visit {
    (a.0 + b.0, a.1 + b.1, a.2 + b.2, a.3 + b.3)
}

/// Visiting one member of an implementation block: members are not
/// rendered; a marked one, method or not, is recorded and its marker acted on.
pub open spec fn impl_item_visit(member: ImplItem) -> Visit {
    match first_marker(member.attrs@) {
        Some(a) => (Seq::empty(), Seq::empty(), seq![a.id], seq![member.span]),
        None => empty_visit(),
    }
}

/// Visiting the first `n` members of an implementation block, in order.
pub open spec fn impl_items_visit(members: Seq<ImplItem>, n: nat) -> Visit
    decreases n,
{
    if n == 0 {
        empty_visit()
    } else {
        visit_concat(impl_items_visit(members, (n - 1) as nat), impl_item_visit(members[n - 1]))
    }
}

/// Visiting one top-level item: a marked item is rendered, its failure
/// reported, and its marker acted on; an unmarked implementation block has
/// its members visited.
pub open spec fn item_visit(item: Item) -> Visit {
    match first_marker(item.attrs@) {
        Some(a) => {
            let (t, r) = item_gen(item);
            let d = match r {
                Ok(_) => Seq::empty(),
                Err(e) => seq![Diagnostic { span: e.0, kind: e.1 }],
            };
            (t, d, seq![a.id], Seq::empty())
        },
        None => match item.kind {
            ItemKind::Impl(members) => impl_items_visit(members@, members@.len()),
            _ => empty_visit(),
        },
    }
}

/// Visiting top-level items, in program order.
pub open spec fn items_visit(items: Seq<Item>) -> Visit
    decreases items.len(),
{
    if items.len() == 0 {
        empty_visit()
    } else {
        visit_concat(items_visit(items.drop_last()), item_visit(items.last()))
    }
}

/// Items are visited independently: visiting `a` followed by `b` adds
/// exactly what visiting `a` adds, then exactly what visiting `b` alone adds,
/// so a failing item neither suppresses nor alters the items after it.
pub proof fn lemma_items_independent(a: Seq<Item>, b: Seq<Item>)
    ensures
        items_visit(a + b) == visit_concat(items_visit(a), items_visit(b)),
    decreases b.len(),
{
    if b.len() == 0 {
        assert(a + b =~= a);
        assert(visit_concat(items_visit(a), empty_visit()) =~= items_visit(a));
    } else {
        assert((a + b).drop_last() =~= a + b.drop_last());
        lemma_items_independent(a, b.drop_last());
        let x = items_visit(a);
        let y = items_visit(b.drop_last());
        let z = item_visit(b.last());
        assert(visit_concat(visit_concat(x, y), z) =~= visit_concat(x, visit_concat(y, z)));
    }
}

/// In a program of two items, each is visited as if it stood alone: the
/// first one's failure neither suppresses nor alters the second.
pub proof fn lemma_two_items_independent(first: Item, second: Item)
    ensures
        items_visit(seq![first, second]) == visit_concat(item_visit(first), item_visit(second)),
{
    let s = seq![first, second];
    assert(s.drop_last() =~= seq![first]);
    assert(s.last() == second);
    assert(seq![first].drop_last() =~= Seq::<Item>::empty());
    assert(seq![first].last() == first);
    let v = item_visit(first);
    assert(items_visit(Seq::<Item>::empty()) == empty_visit());
    assert(visit_concat(empty_visit(), v) =~= v);
    assert(items_visit(seq![first]) == v);
}

/// A marked function with a parameter of non-primitive type, after
/// parameters that render, yields exactly one diagnostic, an unsupported
/// argument at that parameter's type; nothing is written after the
/// parameters before it.
pub proof fn lemma_unsupported_argument(item: Item, decl: FnDecl, body: Block, k: int)
    requires
        first_marker(item.attrs@) is Some,
        item.kind == ItemKind::Fn(decl, body),
        0 <= k < decl.inputs@.len(),
        args_gen(decl.inputs@, k as nat).1 is Ok,
        decl.inputs@[k].ty.kind == TyKind::NonPrim,
    ensures
        item_visit(item).1 == seq![
            Diagnostic { span: decl.inputs@[k].ty.span, kind: ErrorKind::UnsupportedArgument },
        ],
        item_visit(item).0 == "function "@ + camel_of(item.ident@) + "("@ + args_gen(
            decl.inputs@,
            k as nat,
        ).0,
{
    let args = decl.inputs@;
    assert(args_gen(args, (k + 1) as nat).0 =~= args_gen(args, k as nat).0);
    lemma_args_err_stable(args, (k + 1) as nat, args.len());
}

/// A marked function whose body returns a binary operation with an
/// unmapped operator yields exactly one diagnostic, an unsupported binary
/// operator at the operator; rendering stops after the opening brace, with
/// no `return` line and no closing brace written.
pub proof fn lemma_unmapped_operator(
    item: Item,
    decl: FnDecl,
    body: Block,
    e: Expr,
    op: BinOp,
    lhs: Box<Expr>,
    rhs: Box<Expr>,
)
    requires
        first_marker(item.attrs@) is Some,
        item.kind == ItemKind::Fn(decl, body),
        args_gen(decl.inputs@, decl.inputs@.len()).1 is Ok,
        body.stmts@.len() == 0,
        body.expr == Some(e),
        e.kind == ExprKind::Binary(op, lhs, rhs),
        op.node == BinOpKind::Other,
    ensures
        item_visit(item).1 == seq![
            Diagnostic { span: op.span, kind: ErrorKind::UnsupportedBinaryOperator },
        ],
        item_visit(item).0 == "function "@ + camel_of(item.ident@) + "("@ + args_gen(
            decl.inputs@,
            decl.inputs@.len(),
        ).0 + ") {\n"@,
{
    assert((") {\n"@ + Seq::<char>::empty()) =~= ") {\n"@);
}

/// Whether a list of attributes holds the marker.
pub fn attrs_has_roast(attrs: &Vec<crate::ast::Attribute>) -> (r: bool)
    ensures
        r == first_marker(attrs@) is Some,
{
    first_marker_id(attrs).is_some()
}

/// The id of the first marker attribute in a list.
fn first_marker_id(attrs: &Vec<crate::ast::Attribute>) -> (r: Option<u32>)
    ensures
        r is Some == first_marker(attrs@) is Some,
        r is Some ==> r->0 == first_marker(attrs@)->0.id,
{
    let mut i: usize = 0;
    assert(attrs@.subrange(0, attrs@.len() as int) =~= attrs@);
    while i < attrs.len()
        invariant
            i <= attrs@.len(),
            first_marker(attrs@) == first_marker(
                attrs@.subrange(i as int, attrs@.len() as int),
            ),
        decreases attrs@.len() - i,
    {
        assert(attrs@.subrange(i as int, attrs@.len() as int).drop_first()
            =~= attrs@.subrange(i as int + 1, attrs@.len() as int));
        if str_eq(attrs[i].name.as_str(), "roast") {
            return Some(attrs[i].id);
        }
        i = i + 1;
    }
    None
}

/// The state of one walk over a program.
pub struct RoastContext {
    pub generator: Generator,
    pub diagnostics: Vec<Diagnostic>,
    pub used_attrs: Vec<u32>,
    pub marked_members: Vec<Span>,
}

impl RoastContext {
    pub open spec fn visit(&self) -> Visit {
        (self.generator.text(), self.diagnostics@, self.used_attrs@, self.marked_members@)
    }

    /// A context with nothing visited yet.
    pub fn new() -> (r: RoastContext)
        ensures
            r.visit() == empty_visit(),
    {
        RoastContext {
            generator: Generator::new(),
            diagnostics: Vec::new(),
            used_attrs: Vec::new(),
            marked_members: Vec::new(),
        }
    }

    /// Visits every top-level item in order.
    pub fn walk_crate(&mut self, krate: &Crate)
        ensures
            final(self).visit() == visit_concat(old(self).visit(), items_visit(krate.items@)),
    {
        let items = &krate.items;
        let ghost v0 = self.visit();
        let mut i: usize = 0;
        assert(visit_concat(v0, items_visit(items@.take(0))) =~= v0);
        while i < items.len()
            invariant
                items == &krate.items,
                i <= items@.len(),
                self.visit() == visit_concat(v0, items_visit(items@.take(i as int))),
            decreases items@.len() - i,
        {
            self.visit_item(&items[i]);
            assert(items@.take(i as int + 1).drop_last() =~= items@.take(i as int));
            i = i + 1;
        }
        assert(items@.take(items@.len() as int) =~= items@);
    }

    fn visit_item(&mut self, item: &Item)
        ensures
            final(self).visit() == visit_concat(old(self).visit(), item_visit(*item)),
    {
        match first_marker_id(&item.attrs) {
            Some(id) => self.visit_roast_item(item, id),
            None => self.visit_non_roast_item(item),
        }
    }

    /// Renders a marked item, reports its failure, and acts on its marker.
    pub fn visit_roast_item(&mut self, item: &Item, id: u32)
        requires
            first_marker(item.attrs@) is Some,
            id == first_marker(item.attrs@)->0.id,
        ensures
            final(self).visit() == visit_concat(old(self).visit(), item_visit(*item)),
    {
        let ghost v0 = self.visit();
        match self.generator.generate(item) {
            Ok(_) => {},
            Err((span, kind)) => {
                self.diagnostics.push(Diagnostic { span, kind });
            },
        }
        self.used_attrs.push(id);
        assert(self.visit() =~= visit_concat(v0, item_visit(*item)));
    }

    fn visit_non_roast_item(&mut self, item: &Item)
        requires
            first_marker(item.attrs@) is None,
        ensures
            final(self).visit() == visit_concat(old(self).visit(), item_visit(*item)),
    {
        let ghost v0 = self.visit();
        match &item.kind {
            ItemKind::Impl(members) => {
                let mut i: usize = 0;
                assert(visit_concat(v0, impl_items_visit(members@, 0)) =~= v0);
                while i < members.len()
                    invariant
                        item.kind == ItemKind::Impl(*members),
                        i <= members@.len(),
                        self.visit() == visit_concat(v0, impl_items_visit(members@, i as nat)),
                    decreases members@.len() - i,
                {
                    self.visit_impl_item(&members[i]);
                    assert(self.visit() =~= visit_concat(v0, impl_items_visit(members@, (i + 1) as nat)));
                    i = i + 1;
                }
            },
            _ => {
                assert(self.visit() =~= visit_concat(v0, item_visit(*item)));
            },
        }
    }

    fn visit_impl_item(&mut self, member: &ImplItem)
        ensures
            final(self).visit() == visit_concat(old(self).visit(), impl_item_visit(*member)),
    {
        let ghost v0 = self.visit();
        if let Some(id) = first_marker_id(&member.attrs) {
            self.marked_members.push(member.span);
            self.used_attrs.push(id);
        }
        assert(self.visit() =~= visit_concat(v0, impl_item_visit(*member)));
    }
}

/// The output path of a run: the configured path resolved against `cwd`.
pub open spec fn output_path_spec(
    krate: Crate,
    env: Seq<(String, String)>,
    cwd: Seq<char>,
) -> Seq<char> {
    let p = resolve_spec(krate.attrs@, env).0;
    if is_absolute(p) {
        p
    } else {
        join_path(cwd, p)
    }
}

/// The ids of the root attributes acted on by configuration.
pub open spec fn root_used(krate: Crate) -> Seq<u32> {
    match first_marker(krate.attrs@) {
        Some(a) => seq![a.id],
        None => Seq::empty(),
    }
}

/// Everything one run decides: where the output goes, what it holds, what
/// is reported, and which marker attributes were acted on.
pub struct Report {
    pub output_path: String,
    pub output: String,
    pub diagnostics: Vec<Diagnostic>,
    pub used_attrs: Vec<u32>,
    pub marked_members: Vec<Span>,
}

/// The transpiling pass over a program.
pub struct Lint;

impl Lint {
    /// Runs the pass: resolves the settings from the root attributes (with
    /// `env` a snapshot of the environment and `cwd` the working directory),
    /// then renders every marked item in program order.
    pub fn check_crate(&self, krate: &Crate, env: &Vec<(String, String)>, cwd: &str) -> (r: Report)
        ensures
            r.output_path@ == output_path_spec(*krate, env@, cwd@),
            r.output@ == items_visit(krate.items@).0,
            r.diagnostics@ == resolve_spec(krate.attrs@, env@).1 + items_visit(krate.items@).1,
            r.used_attrs@ == root_used(*krate) + items_visit(krate.items@).2,
            r.marked_members@ == items_visit(krate.items@).3,
    {
        let (config, config_diags) = Config::from_context(krate, env);
        let output_path = absolutize(config.output_path.as_str(), cwd);
        let mut roast_cx = RoastContext::new();
        roast_cx.diagnostics = config_diags;
        if let Some(id) = first_marker_id(&krate.attrs) {
            roast_cx.used_attrs.push(id);
        }
        assert(roast_cx.used_attrs@ =~= root_used(*krate));
        roast_cx.walk_crate(krate);
        Report {
            output_path,
            output: roast_cx.generator.output().to_owned(),
            diagnostics: roast_cx.diagnostics,
            used_attrs: roast_cx.used_attrs,
            marked_members: roast_cx.marked_members,
        }
    }
}

} // verus!
