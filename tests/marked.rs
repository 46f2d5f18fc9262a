use kythe_indexer::entity::{AdtKind, Entity, EntityDisplay, EntityKind, SelfAccess};
use kythe_indexer::marked::{render_marked_source, MarkedKind, MarkedSource};
use kythe_indexer::samples::{fn2, fn3};
use kythe_indexer::signature::SignatureCache;

fn display() -> EntityDisplay {
    EntityDisplay {
        is_public: false,
        is_const: false,
        is_async: false,
        is_unsafe: false,
        is_mut: false,
        self_access: None,
        is_const_param: false,
        is_declarative: false,
        ty: None,
        value: None,
        num_params: 0,
    }
}

fn ent(kind: EntityKind, name: Option<&str>, parent: Option<usize>) -> Entity {
    Entity {
        kind,
        name: name.map(|s| s.to_string()),
        parent,
        root_file: None,
        decl_start: 0,
        decl_end: 0,
        def_file: 0,
        def_range: None,
        complete: true,
        inline: false,
        implicit: false,
        generics: vec![],
        self_param: None,
        params: vec![],
        doc: None,
        display: display(),
    }
}

fn root() -> Entity {
    let mut r = ent(EntityKind::Module, None, None);
    r.root_file = Some("m.rs".to_string());
    r
}

fn render(t: &Vec<Entity>, i: usize) -> Option<MarkedSource> {
    let mut cache = SignatureCache::new(t);
    render_marked_source(&mut cache, t, &"c".to_string(), i)
}

fn leaf(kind: MarkedKind, pre: &str, post: &str) -> MarkedSource {
    MarkedSource { kind, pre_text: pre.into(), child: vec![], post_child_text: "".into(), post_text: post.into(), link: vec![] }
}

fn ident(name: &str, sig_escaped: &str) -> MarkedSource {
    MarkedSource {
        kind: MarkedKind::Identifier,
        pre_text: name.into(),
        child: vec![],
        post_child_text: "".into(),
        post_text: "".into(),
        link: vec![format!("kythe://c?lang=rust#{sig_escaped}")],
    }
}

fn boxed(child: Vec<MarkedSource>, sep: &str) -> MarkedSource {
    MarkedSource { kind: MarkedKind::Box, pre_text: "".into(), child, post_child_text: sep.into(), post_text: "".into(), link: vec![] }
}

/// Flattens a rendering to the text a reader sees.
fn text(m: &MarkedSource) -> String {
    let inner: Vec<String> = m.child.iter().map(text).collect();
    format!("{}{}{}", m.pre_text, inner.join(&m.post_child_text), m.post_text)
}

#[test]
fn sample_functions_render() {
    fn2();
    assert_eq!(fn3(), 1);
    let mut f2 = ent(EntityKind::Function, Some("fn2"), Some(0));
    f2.display.is_public = true;
    let mut f3 = ent(EntityKind::Function, Some("fn3"), Some(0));
    f3.display.is_public = true;
    f3.display.is_const = true;
    f3.display.ty = Some("i32".into());
    let t = vec![root(), f2, f3];
    let r2 = render(&t, 1).unwrap();
    assert_eq!(
        r2,
        boxed(vec![leaf(MarkedKind::Modifier, "pub fn ", ""), ident("fn2", "m.rs%3A%3AFUNCTION%28fn2%29"), leaf(MarkedKind::Parameter, "(", ")")], "")
    );
    assert_eq!(text(&r2), "pub fn fn2()");
    let r3 = render(&t, 2).unwrap();
    assert_eq!(text(&r3), "pub const fn fn3() -> i32");
    assert_eq!(r3.child.len(), 5);
    assert_eq!(r3.child[3], leaf(MarkedKind::Modifier, " -> ", ""));
    assert_eq!(r3.child[4], leaf(MarkedKind::Type, "i32", ""));
}

#[test]
fn types_render_with_generics() {
    let mut s = ent(EntityKind::Adt(AdtKind::Struct), Some("PubStruct"), Some(0));
    s.display.is_public = true;
    s.generics = vec![2];
    let mut e = ent(EntityKind::Adt(AdtKind::Enum), Some("Enum"), Some(0));
    e.generics = vec![3];
    let mut implicit = ent(EntityKind::GenericParam, Some("impl X"), Some(2));
    implicit.implicit = true;
    let t = vec![root(), s, ent(EntityKind::GenericParam, Some("T"), Some(1)), implicit, e];
    let r = render(&t, 1).unwrap();
    assert_eq!(r.child.len(), 4);
    assert_eq!(r.child[0], leaf(MarkedKind::Modifier, "pub ", ""));
    assert_eq!(r.child[1], leaf(MarkedKind::Modifier, "struct", " "));
    assert_eq!(r.child[3].kind, MarkedKind::ParameterLookupByTparam);
    assert_eq!(text(&r), "pub struct PubStruct<>");
    let r = render(&t, 4).unwrap();
    assert_eq!(text(&r), "enum Enum");
}

#[test]
fn consts_statics_fields_and_locals_render() {
    let mut c = ent(EntityKind::Const, Some("PUB_CONST"), Some(0));
    c.display.is_public = true;
    c.display.ty = Some("i32".into());
    c.display.value = Some("1".into());
    let mut st = ent(EntityKind::Static, Some("STATIC"), Some(0));
    st.display.ty = Some("f64".into());
    let mut f = ent(EntityKind::Field, Some("field2"), Some(0));
    f.display.is_public = true;
    f.display.ty = Some("f64".into());
    let mut x = ent(EntityKind::Local, Some("x"), Some(0));
    x.display.is_mut = true;
    x.display.ty = Some("i32".into());
    let mut me = ent(EntityKind::Local, Some("self"), Some(0));
    me.display.self_access = Some(SelfAccess::Exclusive);
    let mut owned = ent(EntityKind::Local, Some("self"), Some(0));
    owned.display.self_access = Some(SelfAccess::Owned);
    let t = vec![root(), c, st, f, x, me, owned];
    let rc = render(&t, 1).unwrap();
    assert_eq!(text(&rc), "pub const PUB_CONST: i321");
    assert_eq!(rc.child[3], leaf(MarkedKind::Initializer, "1", ""));
    assert_eq!(text(&render(&t, 2).unwrap()), "static STATIC: f64");
    assert_eq!(text(&render(&t, 3).unwrap()), "pub field2: f64");
    assert_eq!(text(&render(&t, 4).unwrap()), "mut x: i32");
    assert_eq!(text(&render(&t, 5).unwrap()), "&mut self");
    let ro = render(&t, 6).unwrap();
    assert_eq!(ro, ident("self", "m.rs%3A%3ALOCAL%28self%7C0-0%29"));
}

#[test]
fn macros_modules_and_params_render() {
    let mut m = ent(EntityKind::Macro, Some("add"), Some(0));
    m.display.is_declarative = true;
    let proc_macro = ent(EntityKind::Macro, Some("derive_it"), Some(0));
    let mut md = ent(EntityKind::Module, Some("pub_module"), Some(0));
    md.display.is_public = true;
    let mut cp = ent(EntityKind::GenericParam, Some("U"), Some(0));
    cp.display.is_const_param = true;
    cp.display.ty = Some("usize".into());
    let label = ent(EntityKind::Label, Some("'a"), Some(0));
    let anon = ent(EntityKind::Const, None, Some(0));
    let t = vec![root(), m, proc_macro, md, cp, ent(EntityKind::GenericParam, Some("T"), Some(0)), label, anon];
    assert_eq!(text(&render(&t, 1).unwrap()), "macro_rules! add");
    assert_eq!(render(&t, 2), None);
    assert_eq!(text(&render(&t, 3).unwrap()), "pub mod pub_module");
    let rc = render(&t, 4).unwrap();
    assert_eq!(text(&rc), "const U: usize");
    assert_eq!(rc.child[1].child.len(), 2);
    assert_eq!(render(&t, 5).unwrap(), ident("T", "m.rs%3A%3ATVAR%28T%29"));
    assert_eq!(render(&t, 6), None);
    assert_eq!(render(&t, 7), None);
}
