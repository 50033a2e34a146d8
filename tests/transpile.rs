use roast::ast::{
    Arg, AttrValue, Attribute, BinOp, BinOpKind, Block, Crate, Expr, ExprKind, FnDecl, ImplItem,
    ImplItemKind, Item, ItemKind, Lit, MetaItem, MetaItemKind, Pat, PatKind, PrimTy, Span, Stmt,
    Ty, TyKind,
};
use roast::config::{Config, ConfigModifier};
use roast::gen::{js_bin_op, Diagnostic, ErrorKind, Generator};
use roast::lint::{attrs_has_roast, Lint};
use roast::util::{absolutize, lit_to_str, snake_to_camel_case};

fn sp(lo: u32, hi: u32) -> Span {
    Span { lo, hi }
}

fn marker(id: u32) -> Attribute {
    Attribute { id, name: "roast".to_string(), value: AttrValue::Word, span: sp(0, 8) }
}

fn prim_arg(name: &str, at: u32) -> Arg {
    Arg {
        ty: Ty { kind: TyKind::Prim(PrimTy::Int), span: sp(at + 10, at + 13) },
        pat: Pat { kind: PatKind::Ident(name.to_string()), span: sp(at, at + 5) },
    }
}

fn path(name: &str, at: u32) -> Expr {
    Expr { kind: ExprKind::Path(name.to_string(), Vec::new()), span: sp(at, at + 5) }
}

fn binary(op: BinOpKind, a: Expr, b: Expr, at: u32) -> Expr {
    Expr {
        kind: ExprKind::Binary(BinOp { node: op, span: sp(at, at + 1) }, Box::new(a), Box::new(b)),
        span: sp(0, 100),
    }
}

fn marked_fn(id: u32, name: &str, inputs: Vec<Arg>, expr: Option<Expr>) -> Item {
    Item {
        ident: name.to_string(),
        attrs: vec![marker(id)],
        kind: ItemKind::Fn(FnDecl { inputs }, Block { stmts: Vec::new(), expr }),
        span: sp(0, 200),
    }
}

fn use_numbers(id: u32) -> Item {
    marked_fn(
        id,
        "use_numbers",
        vec![prim_arg("a_foo", 20), prim_arg("b_foo", 40)],
        Some(binary(BinOpKind::Add, path("a_foo", 60), path("b_foo", 70), 66)),
    )
}

fn root_config(items: Vec<MetaItem>) -> Attribute {
    Attribute { id: 1, name: "roast".to_string(), value: AttrValue::List(items), span: sp(3, 40) }
}

fn pair(name: &str, val: Lit, at: u32) -> MetaItem {
    MetaItem { kind: MetaItemKind::NameValue(name.to_string(), val), span: sp(at, at + 9) }
}

fn env_of(pairs: &[(&str, &str)]) -> Vec<(String, String)> {
    pairs.iter().map(|(k, v)| (k.to_string(), v.to_string())).collect()
}

const USE_NUMBERS_JS: &str = "function useNumbers(aFoo, bFoo) {\n  return aFoo + bFoo;\n}\n";

#[test]
fn compile_test() {
    let krate = Crate {
        attrs: vec![root_config(vec![pair("output_path_env", Lit::Str("ROAST".to_string()), 10)])],
        items: vec![use_numbers(2)],
    };
    let env = env_of(&[("HOME", "/root"), ("ROAST", "/tmp/out.js")]);
    let report = Lint.check_crate(&krate, &env, "/work");
    assert_eq!(report.output_path, "/tmp/out.js");
    assert_eq!(report.output, USE_NUMBERS_JS);
    assert!(report.diagnostics.is_empty());
    assert_eq!(report.used_attrs, vec![1, 2]);
}

#[test]
fn camel_case_literal_cases() {
    assert_eq!(snake_to_camel_case("a_foo"), "aFoo");
    assert_eq!(snake_to_camel_case("use_numbers"), "useNumbers");
    assert_eq!(snake_to_camel_case("already"), "already");
    assert_eq!(snake_to_camel_case(""), "");
    assert_eq!(snake_to_camel_case("_leading"), "Leading");
}

#[test]
fn camel_case_odd_underscores() {
    assert_eq!(snake_to_camel_case("a__b"), "aB");
    assert_eq!(snake_to_camel_case("trailing_"), "trailing");
    assert_eq!(snake_to_camel_case("x_9y"), "x9y");
    assert_eq!(snake_to_camel_case("_é_ä"), "éä");
}

#[test]
fn absolutize_relative_and_absolute() {
    assert_eq!(absolutize("roast.js", "/home/u"), "/home/u/roast.js");
    assert_eq!(absolutize("out/a.js", "/home/u/"), "/home/u/out/a.js");
    assert_eq!(absolutize("/tmp/a.js", "/home/u"), "/tmp/a.js");
    assert_eq!(absolutize("a.js", ""), "a.js");
}

#[test]
fn literal_to_string() {
    assert_eq!(lit_to_str(&Lit::Str("x.js".to_string())), Some("x.js"));
    assert_eq!(lit_to_str(&Lit::Int(3)), None);
    assert_eq!(lit_to_str(&Lit::Bool(true)), None);
    assert_eq!(lit_to_str(&Lit::Other), None);
}

#[test]
fn operator_table() {
    assert_eq!(js_bin_op(BinOpKind::Eq), Some("==="));
    assert_eq!(js_bin_op(BinOpKind::Ne), Some("!="));
    assert_eq!(js_bin_op(BinOpKind::Shl), Some("<<"));
    assert_eq!(js_bin_op(BinOpKind::And), Some("&&"));
    assert_eq!(js_bin_op(BinOpKind::Other), None);
}

#[test]
fn messages() {
    assert_eq!(ErrorKind::UnsupportedArgument.message(), "unsupported argument");
    assert_eq!(ErrorKind::AttributeNotList.message(), "attribute must be a parameter list");
}

#[test]
fn round_trip_use_numbers() {
    let mut g = Generator::new();
    assert_eq!(g.generate(&use_numbers(2)), Ok(()));
    assert_eq!(g.output(), USE_NUMBERS_JS);
}

#[test]
fn equality_maps_to_strict() {
    let item = marked_fn(
        2,
        "same",
        vec![prim_arg("x", 10), prim_arg("y", 30)],
        Some(binary(BinOpKind::Eq, path("x", 50), path("y", 60), 55)),
    );
    let mut g = Generator::new();
    assert_eq!(g.generate(&item), Ok(()));
    assert_eq!(g.output(), "function same(x, y) {\n  return x === y;\n}\n");
}

#[test]
fn empty_body_gives_empty_function() {
    let mut g = Generator::new();
    assert_eq!(g.generate(&marked_fn(2, "do_nothing", Vec::new(), None)), Ok(()));
    assert_eq!(g.output(), "function doNothing() {\n}\n");
}

#[test]
fn unsupported_argument_reported_at_type() {
    let mut bad = prim_arg("b_foo", 40);
    bad.ty = Ty { kind: TyKind::NonPrim, span: sp(47, 53) };
    let item = marked_fn(2, "use_numbers", vec![prim_arg("a_foo", 20), bad], None);
    let krate = Crate { attrs: Vec::new(), items: vec![item] };
    let report = Lint.check_crate(&krate, &Vec::new(), "/w");
    assert_eq!(
        report.diagnostics,
        vec![Diagnostic { span: sp(47, 53), kind: ErrorKind::UnsupportedArgument }]
    );
    assert_eq!(report.output, "function useNumbers(aFoo");
}

#[test]
fn non_identifier_pattern() {
    let mut bad = prim_arg("t", 20);
    bad.pat = Pat { kind: PatKind::Other, span: sp(21, 26) };
    let mut g = Generator::new();
    let r = g.generate(&marked_fn(2, "f", vec![bad], None));
    assert_eq!(r, Err((sp(21, 26), ErrorKind::OnlyPlainIdentifiers)));
    assert_eq!(g.output(), "function f(");
}

#[test]
fn unmapped_operator_rejected() {
    let item = marked_fn(
        2,
        "f",
        vec![prim_arg("a", 10)],
        Some(binary(BinOpKind::Other, path("a", 30), path("a", 40), 35)),
    );
    let mut g = Generator::new();
    assert_eq!(g.generate(&item), Err((sp(35, 36), ErrorKind::UnsupportedBinaryOperator)));
    assert_eq!(g.output(), "function f(a) {\n");
    assert!(!g.output().contains("return"));
}

#[test]
fn unsupported_expression_rejected() {
    let other = Expr { kind: ExprKind::Other, span: sp(30, 38) };
    let mut g = Generator::new();
    let r = g.generate(&marked_fn(2, "f", Vec::new(), Some(other)));
    assert_eq!(r, Err((sp(30, 38), ErrorKind::UnsupportedExpression)));
}

#[test]
fn leading_statement_rejected() {
    let item = Item {
        ident: "f".to_string(),
        attrs: vec![marker(2)],
        kind: ItemKind::Fn(
            FnDecl { inputs: Vec::new() },
            Block { stmts: vec![Stmt { span: sp(12, 20) }], expr: Some(path("x", 22)) },
        ),
        span: sp(0, 30),
    };
    let mut g = Generator::new();
    assert_eq!(g.generate(&item), Err((sp(12, 20), ErrorKind::UnsupportedStatement)));
    assert_eq!(g.output(), "function f() {\n");
}

#[test]
fn non_function_item_rejected() {
    let item = Item {
        ident: "S".to_string(),
        attrs: vec![marker(2)],
        kind: ItemKind::Other,
        span: sp(5, 9),
    };
    let mut g = Generator::new();
    assert_eq!(g.generate(&item), Err((sp(5, 9), ErrorKind::UnsupportedItem)));
    assert_eq!(g.output(), "");
}

#[test]
fn two_functions_independent() {
    let mut bad = prim_arg("a", 10);
    bad.ty = Ty { kind: TyKind::NonPrim, span: sp(14, 20) };
    let first = marked_fn(2, "broken", vec![bad], None);
    let krate = Crate { attrs: Vec::new(), items: vec![first, use_numbers(3)] };
    let report = Lint.check_crate(&krate, &Vec::new(), "/w");
    assert_eq!(report.output, format!("function broken({}", USE_NUMBERS_JS));
    assert_eq!(
        report.diagnostics,
        vec![Diagnostic { span: sp(14, 20), kind: ErrorKind::UnsupportedArgument }]
    );
    assert_eq!(report.used_attrs, vec![2, 3]);
    assert_eq!(report.output_path, "/w/roast.js");
}

#[test]
fn unmarked_items_skipped_and_members_found() {
    let plain = Item {
        ident: "helper".to_string(),
        attrs: Vec::new(),
        kind: ItemKind::Fn(FnDecl { inputs: Vec::new() }, Block { stmts: Vec::new(), expr: None }),
        span: sp(0, 10),
    };
    let method = ImplItem {
        ident: "m".to_string(),
        attrs: vec![marker(7)],
        kind: ImplItemKind::Method(
            FnDecl { inputs: Vec::new() },
            Block { stmts: Vec::new(), expr: None },
        ),
        span: sp(30, 40),
    };
    let other = ImplItem {
        ident: "T".to_string(),
        attrs: vec![marker(8)],
        kind: ImplItemKind::Other,
        span: sp(41, 50),
    };
    let block = Item {
        ident: "".to_string(),
        attrs: Vec::new(),
        kind: ItemKind::Impl(vec![method, other]),
        span: sp(20, 60),
    };
    assert!(!attrs_has_roast(&plain.attrs));
    let krate = Crate { attrs: Vec::new(), items: vec![plain, block] };
    let report = Lint.check_crate(&krate, &Vec::new(), "/w");
    assert_eq!(report.output, "");
    assert!(report.diagnostics.is_empty());
    assert_eq!(report.used_attrs, vec![7, 8]);
    assert_eq!(report.marked_members, vec![sp(30, 40), sp(41, 50)]);
}

#[test]
fn default_config() {
    let c: Config = Default::default();
    assert_eq!(c.output_path, "roast.js");
    let (c, d) = Config::from_context(&Crate { attrs: Vec::new(), items: Vec::new() }, &Vec::new());
    assert_eq!(c.output_path, "roast.js");
    assert!(d.is_empty());
}

#[test]
fn output_path_set_directly() {
    let krate = Crate {
        attrs: vec![root_config(vec![pair("output_path", Lit::Str("gen/out.js".to_string()), 10)])],
        items: Vec::new(),
    };
    let (c, d) = Config::from_context(&krate, &Vec::new());
    assert_eq!(c.output_path, "gen/out.js");
    assert!(d.is_empty());
}

#[test]
fn output_path_env_unset_is_silent() {
    let krate = Crate {
        attrs: vec![root_config(vec![pair("output_path_env", Lit::Str("NOPE".to_string()), 10)])],
        items: Vec::new(),
    };
    let (c, d) = Config::from_context(&krate, &env_of(&[("ROAST", "/x.js")]));
    assert_eq!(c.output_path, "roast.js");
    assert!(d.is_empty());
}

#[test]
fn config_errors() {
    let krate = Crate {
        attrs: vec![root_config(vec![
            pair("colour", Lit::Str("x".to_string()), 10),
            pair("output_path", Lit::Int(4), 20),
            MetaItem { kind: MetaItemKind::Other, span: sp(30, 33) },
            pair("output_path", Lit::Str("kept.js".to_string()), 35),
        ])],
        items: Vec::new(),
    };
    let (c, d) = Config::from_context(&krate, &Vec::new());
    assert_eq!(c.output_path, "kept.js");
    assert_eq!(
        d,
        vec![
            Diagnostic { span: sp(10, 19), kind: ErrorKind::InvalidItem },
            Diagnostic { span: sp(20, 29), kind: ErrorKind::InvalidItem },
            Diagnostic { span: sp(30, 33), kind: ErrorKind::ItemNotNameValue },
        ]
    );
}

#[test]
fn config_attribute_not_a_list() {
    let mut attr = marker(1);
    attr.value = AttrValue::NameValue(Lit::Str("x".to_string()));
    attr.span = sp(2, 12);
    let krate = Crate { attrs: vec![attr], items: Vec::new() };
    let (c, d) = Config::from_context(&krate, &Vec::new());
    assert_eq!(c.output_path, "roast.js");
    assert_eq!(d, vec![Diagnostic { span: sp(2, 12), kind: ErrorKind::AttributeNotList }]);
}

#[test]
fn config_modifier_only_with_marker() {
    let none = Crate { attrs: Vec::new(), items: Vec::new() };
    assert!(ConfigModifier::new(Config::default(), &none).is_none());
    let krate = Crate {
        attrs: vec![root_config(vec![pair("output_path_env", Lit::Str("OUT".to_string()), 10)])],
        items: Vec::new(),
    };
    let mut m = ConfigModifier::new(Config::default(), &krate).unwrap();
    m.apply(&env_of(&[("OUT", "/a/b.js"), ("OUT", "/shadowed.js")]));
    assert_eq!(m.config.output_path, "/a/b.js");
    assert!(m.diagnostics.is_empty());
}

#[test]
fn camel_case_twice_same_as_once() {
    for s in ["a_foo", "use_numbers", "_leading", "a__b", "trailing_", "Mixed_Case_x", ""] {
        let once = snake_to_camel_case(s);
        assert_eq!(snake_to_camel_case(&once), once);
    }
}

#[test]
fn ascii_upper_after_underscore() {
    assert_eq!(snake_to_camel_case("x_a_z_m"), "xAZM");
    assert_eq!(snake_to_camel_case("a_B_1"), "aB1");
}

#[test]
fn unmapped_operator_in_expression_writes_nothing() {
    let e = binary(BinOpKind::Other, path("left_side", 1), path("b", 9), 7);
    let mut g = Generator::new();
    assert_eq!(g.gen_expr(&e), Err((sp(7, 8), ErrorKind::UnsupportedBinaryOperator)));
    assert_eq!(g.output(), "");
}
