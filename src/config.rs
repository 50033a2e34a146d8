use vstd::prelude::*;

use crate::ast::{AttrValue, Attribute, Crate, Lit, MetaItem, MetaItemKind, Span};
use crate::gen::{Diagnostic, ErrorKind};
use crate::util::{lit_str, lit_to_str, str_eq};

verus! {

/// Settings of one run.
#[derive(Debug)]
pub struct Config {
    pub output_path: String,
}

/// The output file used when nothing else is configured.
pub open spec fn default_output_path() -> Seq<char> {
    "roast.js"@
}

impl Default for Config {
    fn default() -> (r: Config)
        ensures
            r.output_path@ == default_output_path(),
    {
        Config { output_path: String::from_str("roast.js") }
    }
}

/// The value of the first variable named `name` in an environment snapshot.
pub open spec fn env_lookup(env: Seq<(String, String)>, name: Seq<char>) -> Option<Seq<char>>
    decreases env.len(),
{
    if env.len() == 0 {
        None
    } else if env[0].0@ == name {
        Some(env[0].1@)
    } else {
        env_lookup(env.drop_first(), name)
    }
}

/// The first attribute that carries the marker name.
pub open spec fn first_marker(attrs: Seq<Attribute>) -> Option<Attribute>
    decreases attrs.len(),
{
    if attrs.len() == 0 {
        None
    } else if attrs[0].name@ == "roast"@ {
        Some(attrs[0])
    } else {
        first_marker(attrs.drop_first())
    }
}

/// Effect of one `name = value` pair on the output path, and its diagnostics.
pub open spec fn apply_value_spec(
    path: Seq<char>,
    span: Span,
    name: Seq<char>,
    val: Lit,
    env: Seq<(String, String)>,
) -> (Seq<char>, Seq<Diagnostic>) {
    if name == "output_path"@ && lit_str(val) is Some {
        (lit_str(val)->0, Seq::empty())
    } else if name == "output_path_env"@ && lit_str(val) is Some {
        match env_lookup(env, lit_str(val)->0) {
            Some(v) => (v, Seq::empty()),
            None => (path, Seq::empty()),
        }
    } else {
        (path, seq![Diagnostic { span, kind: ErrorKind::InvalidItem }])
    }
}

/// An `output_path_env` entry naming a variable that is not set leaves the
/// output path as it was and reports nothing.
pub proof fn lemma_env_miss(path: Seq<char>, span: Span, val: Lit, env: Seq<(String, String)>)
    requires
        lit_str(val) is Some,
        env_lookup(env, lit_str(val)->0) is None,
    ensures
        apply_value_spec(path, span, "output_path_env"@, val, env) == (
            path,
            Seq::<Diagnostic>::empty(),
        ),
{
    reveal_strlit("output_path_env");
    reveal_strlit("output_path");
    assert("output_path_env"@.len() != "output_path"@.len());
}

/// Effect of the first `n` entries of the marker's list, in order.
pub open spec fn apply_items_spec(
    path: Seq<char>,
    items: Seq<MetaItem>,
    n: nat,
    env: Seq<(String, String)>,
) -> (Seq<char>, Seq<Diagnostic>)
    decreases n,
{
    if n == 0 {
        (path, Seq::empty())
    } else {
        let (p, d) = apply_items_spec(path, items, (n - 1) as nat, env);
        let item = items[n - 1];
        match item.kind {
            MetaItemKind::NameValue(name, val) => {
                let (p2, d2) = apply_value_spec(p, item.span, name@, val, env);
                (p2, d + d2)
            },
            MetaItemKind::Other => (
                p,
                d.push(Diagnostic { span: item.span, kind: ErrorKind::ItemNotNameValue }),
            ),
        }
    }
}

/// Effect of a marker attribute's value on the output path.
pub open spec fn apply_attr_spec(
    path: Seq<char>,
    attr: Attribute,
    env: Seq<(String, String)>,
) -> (Seq<char>, Seq<Diagnostic>) {
    match attr.value {
        AttrValue::List(items) => apply_items_spec(path, items@, items@.len(), env),
        _ => (path, seq![Diagnostic { span: attr.span, kind: ErrorKind::AttributeNotList }]),
    }
}

/// The output path chosen by the program's root attributes, and the
/// configuration diagnostics.
pub open spec fn resolve_spec(attrs: Seq<Attribute>, env: Seq<(String, String)>) -> (
    Seq<char>,
    Seq<Diagnostic>,
) {
    match first_marker(attrs) {
        None => (default_output_path(), Seq::empty()),
        Some(a) => apply_attr_spec(default_output_path(), a, env),
    }
}

impl Config {
    /// Resolves the settings from the program's root attributes; `env` is a
    /// snapshot of the environment, read for `output_path_env`.
    pub fn from_context(krate: &Crate, env: &Vec<(String, String)>) -> (r: (Config, Vec<Diagnostic>))
        ensures
            r.0.output_path@ == resolve_spec(krate.attrs@, env@).0,
            r.1@ == resolve_spec(krate.attrs@, env@).1,
    {
        let config = Config::default();
        match ConfigModifier::new(config, krate) {
            Some(mut sm) => {
                sm.apply(env);
                assert(sm.diagnostics@ =~= apply_attr_spec(default_output_path(), *sm.attr, env@).1);
                (sm.config, sm.diagnostics)
            },
            None => (Config::default(), Vec::new()),
        }
    }
}

/// Applies the marker attribute's entries to a configuration.
pub struct ConfigModifier<'a> {
    pub attr: &'a Attribute,
    pub config: Config,
    pub diagnostics: Vec<Diagnostic>,
}

impl<'a> ConfigModifier<'a> {
    /// A modifier for the program's marker attribute, if it has one.
    pub fn new(config: Config, krate: &'a Crate) -> (r: Option<ConfigModifier<'a>>)
        ensures
            r is Some == first_marker(krate.attrs@) is Some,
            r is Some ==> *r->0.attr == first_marker(krate.attrs@)->0,
            r is Some ==> r->0.config == config,
            r is Some ==> r->0.diagnostics@ == Seq::<Diagnostic>::empty(),
    {
        match config_attr(krate) {
            Some(attr) => Some(ConfigModifier { attr, config, diagnostics: Vec::new() }),
            None => None,
        }
    }

    /// Applies every entry of the attribute's list in order; a value that is
    /// not a list is reported.
    pub fn apply(&mut self, env: &Vec<(String, String)>)
        ensures
            final(self).attr == old(self).attr,
            final(self).config.output_path@ == apply_attr_spec(
                old(self).config.output_path@,
                *old(self).attr,
                env@,
            ).0,
            final(self).diagnostics@ == old(self).diagnostics@ + apply_attr_spec(
                old(self).config.output_path@,
                *old(self).attr,
                env@,
            ).1,
    {
        let attr = self.attr;
        match &attr.value {
            AttrValue::List(items) => {
                let ghost path0 = self.config.output_path@;
                let ghost diags0 = self.diagnostics@;
                let mut i: usize = 0;
                while i < items.len()
                    invariant
                        self.attr == attr,
                        attr.value == AttrValue::List(*items),
                        i <= items@.len(),
                        self.config.output_path@ == apply_items_spec(path0, items@, i as nat, env@).0,
                        self.diagnostics@ == diags0 + apply_items_spec(path0, items@, i as nat, env@).1,
                    decreases items@.len() - i,
                {
                    self.apply_meta_item(&items[i], env);
                    i = i + 1;
                }
            },
            _ => {
                self.diagnostics.push(Diagnostic { span: attr.span, kind: ErrorKind::AttributeNotList });
            },
        }
    }

    /// Applies one entry of the attribute's list; an entry that is not a
    /// `name = value` pair is reported at the entry.
    pub fn apply_meta_item(&mut self, item: &MetaItem, env: &Vec<(String, String)>)
        ensures
            final(self).attr == old(self).attr,
            ({
                let (p, d) = match item.kind {
                    MetaItemKind::NameValue(name, val) => apply_value_spec(
                        old(self).config.output_path@,
                        item.span,
                        name@,
                        val,
                        env@,
                    ),
                    MetaItemKind::Other => (
                        old(self).config.output_path@,
                        seq![Diagnostic { span: item.span, kind: ErrorKind::ItemNotNameValue }],
                    ),
                };
                final(self).config.output_path@ == p && final(self).diagnostics@ == old(self).diagnostics@ + d
            }),
    {
        match &item.kind {
            MetaItemKind::NameValue(name, val) => self.apply_value(item.span, name.as_str(), val, env),
            MetaItemKind::Other => {
                let span = item.span;
                self.diagnostics.push(Diagnostic { span, kind: ErrorKind::ItemNotNameValue });
                assert(self.diagnostics@ =~= old(self).diagnostics@ + seq![
                    Diagnostic { span, kind: ErrorKind::ItemNotNameValue },
                ]);
            },
        }
    }

    /// Applies one `name = value` pair; an unknown name or a value that is
    /// not a string is reported at the pair.
    pub fn apply_value(&mut self, span: Span, name: &str, val: &Lit, env: &Vec<(String, String)>)
        ensures
            final(self).attr == old(self).attr,
            final(self).config.output_path@ == apply_value_spec(
                old(self).config.output_path@,
                span,
                name@,
                *val,
                env@,
            ).0,
            final(self).diagnostics@ == old(self).diagnostics@ + apply_value_spec(
                old(self).config.output_path@,
                span,
                name@,
                *val,
                env@,
            ).1,
    {
        let s = lit_to_str(val);
        if str_eq(name, "output_path") && s.is_some() {
            self.config.output_path = s.unwrap().to_owned();
            assert(self.diagnostics@ =~= old(self).diagnostics@ + Seq::<Diagnostic>::empty());
        } else if str_eq(name, "output_path_env") && s.is_some() {
            if let Some(v) = env_var(env, s.unwrap()) {
                self.config.output_path = v.as_str().to_owned();
            }
            assert(self.diagnostics@ =~= old(self).diagnostics@ + Seq::<Diagnostic>::empty());
        } else {
            self.diagnostics.push(Diagnostic { span, kind: ErrorKind::InvalidItem });
            assert(self.diagnostics@ =~= old(self).diagnostics@ + seq![
                Diagnostic { span, kind: ErrorKind::InvalidItem },
            ]);
        }
    }
}

/// The value of the first variable named `name` in `env`.
pub fn env_var<'a>(env: &'a Vec<(String, String)>, name: &str) -> (r: Option<&'a String>)
    ensures
        r is Some == env_lookup(env@, name@) is Some,
        r is Some ==> r->0@ == env_lookup(env@, name@)->0,
{
    let mut i: usize = 0;
    assert(env@.subrange(0, env@.len() as int) =~= env@);
    while i < env.len()
        invariant
            i <= env@.len(),
            env_lookup(env@, name@) == env_lookup(env@.subrange(i as int, env@.len() as int), name@),
        decreases env@.len() - i,
    {
        assert(env@.subrange(i as int, env@.len() as int).drop_first()
            =~= env@.subrange(i as int + 1, env@.len() as int));
        if str_eq(env[i].0.as_str(), name) {
            return Some(&env[i].1);
        }
        i = i + 1;
    }
    None
}

/// The first root attribute that carries the marker name.
pub fn config_attr(krate: &Crate) -> (r: Option<&Attribute>)
    ensures
        r is Some == first_marker(krate.attrs@) is Some,
        r is Some ==> *r->0 == first_marker(krate.attrs@)->0,
{
    let attrs = &krate.attrs;
    let mut i: usize = 0;
    assert(attrs@.subrange(0, attrs@.len() as int) =~= attrs@);
    while i < attrs.len()
        invariant
            attrs == &krate.attrs,
            i <= attrs@.len(),
            first_marker(attrs@) == first_marker(
                attrs@.subrange(i as int, attrs@.len() as int),
            ),
        decreases attrs@.len() - i,
    {
        assert(attrs@.subrange(i as int, attrs@.len() as int).drop_first()
            =~= attrs@.subrange(i as int + 1, attrs@.len() as int));
        if str_eq(attrs[i].name.as_str(), "roast") {
            return Some(&attrs[i]);
        }
        i = i + 1;
    }
    None
}

} // verus!
