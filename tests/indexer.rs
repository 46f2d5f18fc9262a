use kythe_indexer::emit::Entry;
use kythe_indexer::entity::{AdtKind, DocLink, Entity, EntityDisplay, EntityDoc, EntityKind, SelfAccess, VariantShape};
use kythe_indexer::indexer::{CompilationUnit, KytheIndexer, SourceFile, file_node_vname, find_root_module, index_unit, IndexError, Token, TokenEvent, UnitAnalyzer};
use kythe_indexer::marked::{MarkedKind, MarkedSource};
use kythe_indexer::vname::VName;

fn display() -> EntityDisplay {
    EntityDisplay {
        is_public: false,
        is_const: false,
        is_async: false,
        is_unsafe: false,
        is_mut: false,
        self_access: None,
        is_const_param: false,
        is_declarative: false,
        ty: None,
        value: None,
        num_params: 0,
    }
}

fn ent(kind: EntityKind, name: Option<&str>, parent: Option<usize>) -> Entity {
    Entity {
        kind,
        name: name.map(|s| s.to_string()),
        parent,
        root_file: None,
        decl_start: 0,
        decl_end: 0,
        def_file: 0,
        def_range: None,
        complete: true,
        inline: false,
        implicit: false,
        generics: vec![],
        self_param: None,
        params: vec![],
        doc: None,
        display: display(),
    }
}

fn root_module() -> Entity {
    let mut r = ent(EntityKind::Module, None, None);
    r.root_file = Some("src/lib.rs".to_string());
    r.def_range = Some((0, 0));
    r
}

fn file_vname() -> VName {
    VName {
        corpus: "c".to_string(),
        root: "".to_string(),
        path: "src/lib.rs".to_string(),
        language: "".to_string(),
        signature: "".to_string(),
    }
}

fn node(sig: &str) -> VName {
    VName {
        corpus: "c".to_string(),
        root: "".to_string(),
        path: "".to_string(),
        language: "rust".to_string(),
        signature: sig.to_string(),
    }
}

fn anchor(start: u32, end: u32) -> VName {
    VName {
        corpus: "c".to_string(),
        root: "".to_string(),
        path: "src/lib.rs".to_string(),
        language: "rust".to_string(),
        signature: format!("anchor_{start}_to_{end}"),
    }
}

fn fact(v: &VName, name: &str, value: &str) -> Entry {
    Entry::Fact { source: v.clone(), name: name.to_string(), value: value.to_string() }
}

fn edge(v: &VName, kind: &str, t: &VName) -> Entry {
    Entry::Edge { source: v.clone(), kind: kind.to_string(), target: t.clone() }
}

fn edges<'a>(entries: &'a [Entry], kind: &str) -> Vec<(&'a VName, &'a VName)> {
    entries
        .iter()
        .filter_map(|e| match e {
            Entry::Edge { source, kind: k, target } if k == kind => Some((source, target)),
            _ => None,
        })
        .collect()
}

fn leaf(kind: MarkedKind, pre: &str, post: &str) -> MarkedSource {
    MarkedSource {
        kind,
        pre_text: pre.to_string(),
        child: vec![],
        post_child_text: "".to_string(),
        post_text: post.to_string(),
        link: vec![],
    }
}

fn ident(name: &str, uri: &str) -> MarkedSource {
    MarkedSource {
        kind: MarkedKind::Identifier,
        pre_text: name.to_string(),
        child: vec![],
        post_child_text: "".to_string(),
        post_text: "".to_string(),
        link: vec![uri.to_string()],
    }
}

fn boxed(child: Vec<MarkedSource>, sep: &str) -> MarkedSource {
    MarkedSource {
        kind: MarkedKind::Box,
        pre_text: "".to_string(),
        child,
        post_child_text: sep.to_string(),
        post_text: "".to_string(),
        link: vec![],
    }
}

fn code_of<'a>(entries: &'a [Entry], v: &VName) -> Option<&'a MarkedSource> {
    entries.iter().find_map(|e| match e {
        Entry::Code { source, code } if source == v => Some(code),
        _ => None,
    })
}

#[test]
fn nested_modules_form_a_chain() {
    let mut foo = ent(EntityKind::Module, Some("foo"), Some(0));
    foo.inline = true;
    foo.def_range = Some((4, 7));
    let mut bar = ent(EntityKind::Module, Some("bar"), Some(1));
    bar.inline = true;
    bar.def_range = Some((14, 17));
    let entities = vec![root_module(), foo, bar];

    let mut ix = UnitAnalyzer::new("c".to_string(), vec![file_vname()], entities.clone()).unwrap();
    assert_eq!(ix.get_signature(0), Some("src/lib.rs".to_string()));
    assert_eq!(ix.get_signature(1), Some("src/lib.rs::foo".to_string()));
    assert_eq!(ix.get_signature(2), Some("src/lib.rs::foo::bar".to_string()));

    let entries = index_unit("c".to_string(), vec![file_vname()], entities, 0, &vec![]).unwrap();
    let childof = edges(&entries, "/kythe/edge/childof");
    assert_eq!(childof.len(), 2);
    assert!(childof.contains(&(&node("src/lib.rs::foo"), &node("src/lib.rs"))));
    assert!(childof.contains(&(&node("src/lib.rs::foo::bar"), &node("src/lib.rs::foo"))));

    let root = node("src/lib.rs");
    let mut root_anchor = file_vname();
    root_anchor.signature = "src/lib.rs_anchor".to_string();
    assert_eq!(entries[0], fact(&root, "/kythe/node/kind", "record"));
    assert_eq!(entries[1], fact(&root, "/kythe/subkind", "module"));
    assert_eq!(entries[2], fact(&root, "/kythe/complete", "definition"));
    assert_eq!(entries[3], fact(&root_anchor, "/kythe/node/kind", "anchor"));
    assert_eq!(entries[4], fact(&root_anchor, "/kythe/loc/start", "0"));
    assert_eq!(entries[5], fact(&root_anchor, "/kythe/loc/end", "0"));
    assert_eq!(entries[6], edge(&root_anchor, "/kythe/edge/defines/implicit", &root));

    let foo_v = node("src/lib.rs::foo");
    let mut foo_anchor = file_vname();
    foo_anchor.signature = "src/lib.rs::foo_anchor".to_string();
    assert!(entries.contains(&edge(&foo_anchor, "/kythe/edge/defines/binding", &foo_v)));
    assert!(entries.contains(&fact(&foo_anchor, "/kythe/loc/start", "4")));
    assert!(entries.contains(&fact(&foo_anchor, "/kythe/loc/end", "7")));
}

fn function_unit() -> Vec<Entity> {
    let mut f = ent(EntityKind::Function, Some("hello"), Some(0));
    f.def_range = Some((3, 8));
    f.display.is_public = true;
    vec![root_module(), f]
}

#[test]
fn call_token_emits_one_ref_call() {
    let mut ix = UnitAnalyzer::new("c".to_string(), vec![file_vname()], function_unit()).unwrap();
    let event = ix.visit_token(Token { file: 0, start: 50, end: 55, entity: 1 });
    assert_eq!(event, TokenEvent::Reference);
    let entries = ix.flush();
    let a = anchor(50, 55);
    let callee = node("src/lib.rs::FUNCTION(hello)");
    assert_eq!(
        entries,
        vec![
            edge(&a, "/kythe/edge/ref/call", &callee),
            fact(&a, "/kythe/node/kind", "anchor"),
            fact(&a, "/kythe/loc/start", "50"),
            fact(&a, "/kythe/loc/end", "55"),
        ]
    );
    assert!(edges(&entries, "/kythe/edge/defines/binding").is_empty());
}

#[test]
fn definition_token_binds_and_describes() {
    let mut ix = UnitAnalyzer::new("c".to_string(), vec![file_vname()], function_unit()).unwrap();
    let event = ix.visit_token(Token { file: 0, start: 3, end: 8, entity: 1 });
    assert_eq!(event, TokenEvent::Definition);
    let entries = ix.flush();
    let a = anchor(3, 8);
    let f = node("src/lib.rs::FUNCTION(hello)");
    assert_eq!(entries[0], edge(&a, "/kythe/edge/defines/binding", &f));
    assert_eq!(entries[1], fact(&f, "/kythe/node/kind", "function"));
    assert_eq!(entries[2], fact(&f, "/kythe/complete", "definition"));
    assert_eq!(entries[3], edge(&f, "/kythe/edge/childof", &node("src/lib.rs")));
    let uri = "kythe://c?lang=rust#src%2Flib.rs%3A%3AFUNCTION%28hello%29";
    let expected_code = boxed(
        vec![
            leaf(MarkedKind::Modifier, "pub fn ", ""),
            ident("hello", uri),
            leaf(MarkedKind::Parameter, "(", ")"),
        ],
        "",
    );
    assert_eq!(code_of(&entries, &f), Some(&expected_code));
    let n = entries.len();
    assert_eq!(entries[n - 3], fact(&a, "/kythe/node/kind", "anchor"));
    assert_eq!(entries[n - 2], fact(&a, "/kythe/loc/start", "3"));
    assert_eq!(entries[n - 1], fact(&a, "/kythe/loc/end", "8"));
    for kind in ["/kythe/edge/ref", "/kythe/edge/ref/call", "/kythe/edge/ref/expands"] {
        assert!(edges(&entries, kind).is_empty());
    }
}

#[test]
fn module_definition_token_is_skipped_and_module_reference_is_a_ref() {
    let mut foo = ent(EntityKind::Module, Some("foo"), Some(0));
    foo.inline = true;
    foo.def_range = Some((4, 7));
    let mut ix = UnitAnalyzer::new("c".to_string(), vec![file_vname()], vec![root_module(), foo]).unwrap();
    assert_eq!(ix.visit_token(Token { file: 0, start: 4, end: 7, entity: 1 }), TokenEvent::Skipped);
    assert!(ix.flush().is_empty());
    assert_eq!(ix.visit_token(Token { file: 0, start: 30, end: 33, entity: 1 }), TokenEvent::Reference);
    let entries = ix.flush();
    assert_eq!(entries[0], edge(&anchor(30, 33), "/kythe/edge/ref", &node("src/lib.rs::foo")));
}

#[test]
fn macro_reference_expands() {
    let mut m = ent(EntityKind::Macro, Some("add"), Some(0));
    m.def_range = Some((13, 16));
    let mut ix = UnitAnalyzer::new("c".to_string(), vec![file_vname()], vec![root_module(), m]).unwrap();
    assert_eq!(ix.visit_token(Token { file: 0, start: 90, end: 93, entity: 1 }), TokenEvent::Reference);
    let entries = ix.flush();
    assert_eq!(entries[0], edge(&anchor(90, 93), "/kythe/edge/ref/expands", &node("src/lib.rs::MACRO(add)")));
}

#[test]
fn unresolvable_entities_are_skipped() {
    let mut f = ent(EntityKind::Function, Some("f"), None);
    f.def_range = Some((1, 2));
    let mut g = ent(EntityKind::Function, Some("g"), Some(0));
    g.def_range = None;
    let mut ix = UnitAnalyzer::new("c".to_string(), vec![file_vname()], vec![root_module(), f, g]).unwrap();
    assert_eq!(ix.get_signature(1), None);
    assert_eq!(ix.visit_token(Token { file: 0, start: 1, end: 2, entity: 1 }), TokenEvent::Skipped);
    assert_eq!(ix.visit_token(Token { file: 0, start: 5, end: 6, entity: 2 }), TokenEvent::Skipped);
    assert_eq!(ix.visit_token(Token { file: 3, start: 5, end: 6, entity: 0 }), TokenEvent::Skipped);
    assert_eq!(ix.visit_token(Token { file: 0, start: 5, end: 6, entity: 9 }), TokenEvent::Skipped);
    assert!(ix.flush().is_empty());
}

#[test]
fn enclosing_scope_must_come_first() {
    let bad = vec![root_module(), ent(EntityKind::Function, Some("f"), Some(2)), ent(EntityKind::Module, Some("m"), Some(0))];
    assert_eq!(UnitAnalyzer::new("c".to_string(), vec![file_vname()], bad.clone()).err(), Some(IndexError::MalformedTable));
    assert_eq!(index_unit("c".to_string(), vec![file_vname()], bad.clone(), 0, &vec![]).err(), Some(IndexError::MalformedTable));
    assert_eq!(index_unit("c".to_string(), vec![], bad, 0, &vec![]).err(), Some(IndexError::NoRequiredInputs));
    assert_eq!(UnitAnalyzer::new("c".to_string(), vec![], vec![root_module()]).err(), Some(IndexError::NoRequiredInputs));
}

#[test]
fn signature_segments() {
    let mut st = ent(EntityKind::Static, Some("S"), Some(0));
    st.decl_start = 10;
    st.decl_end = 30;
    let mut anon = ent(EntityKind::Const, None, Some(0));
    anon.decl_start = 40;
    anon.decl_end = 52;
    let mut local = ent(EntityKind::Local, Some("x"), Some(6));
    local.decl_start = 70;
    local.decl_end = 75;
    let mut label = ent(EntityKind::Label, Some("'outer"), Some(6));
    label.decl_start = 80;
    label.decl_end = 86;
    let mut talias = ent(EntityKind::TypeAlias, Some("T"), Some(0));
    talias.decl_start = 100;
    talias.decl_end = 115;
    let entities = vec![
        root_module(),
        ent(EntityKind::Adt(AdtKind::Struct), Some("P"), Some(0)),
        ent(EntityKind::Adt(AdtKind::Enum), Some("E"), Some(0)),
        ent(EntityKind::Field, Some("x"), Some(1)),
        ent(EntityKind::Variant(VariantShape::Tuple), Some("V"), Some(2)),
        ent(EntityKind::Function, Some("new"), Some(1)),
        ent(EntityKind::Function, Some("main"), Some(0)),
        st,
        anon,
        local,
        label,
        talias,
        ent(EntityKind::GenericParam, Some("T"), Some(1)),
        ent(EntityKind::Trait, Some("Tr"), Some(0)),
        ent(EntityKind::TraitAlias, Some("TA"), Some(0)),
        ent(EntityKind::Adt(AdtKind::Union), Some("U"), Some(0)),
        ent(EntityKind::Function, Some("free"), None),
    ];
    let mut ix = UnitAnalyzer::new("c".to_string(), vec![file_vname()], entities).unwrap();
    let sig = |ix: &mut UnitAnalyzer, i: usize| ix.get_signature(i).unwrap();
    assert_eq!(sig(&mut ix, 1), "src/lib.rs::STRUCT(P)");
    assert_eq!(sig(&mut ix, 2), "src/lib.rs::ENUM(E)");
    assert_eq!(sig(&mut ix, 3), "src/lib.rs::STRUCT(P)::FIELD(x");
    assert_eq!(sig(&mut ix, 4), "src/lib.rs::ENUM(E)::VARIANT(V)");
    assert_eq!(sig(&mut ix, 5), "src/lib.rs::STRUCT(P)::FUNCTION(new)");
    assert_eq!(sig(&mut ix, 7), "src/lib.rs::STATIC(S|10-30)");
    assert_eq!(sig(&mut ix, 8), "src/lib.rs::CONST(40-52)");
    assert_eq!(sig(&mut ix, 9), "src/lib.rs::FUNCTION(main)::LOCAL(x|70-75)");
    assert_eq!(sig(&mut ix, 10), "src/lib.rs::FUNCTION(main)::LABEL('outer|80-86)");
    assert_eq!(sig(&mut ix, 11), "src/lib.rs::TALIAS(T|100-115)");
    assert_eq!(sig(&mut ix, 12), "src/lib.rs::STRUCT(P)::TVAR(T)");
    assert_eq!(sig(&mut ix, 13), "src/lib.rs::TRAIT(Tr)");
    assert_eq!(sig(&mut ix, 14), "src/lib.rs::TRAIT_ALIAS(TA)");
    assert_eq!(sig(&mut ix, 15), "src/lib.rs::UNION(U)");
    assert_eq!(ix.get_signature(16), None);
    assert_eq!(ix.get_signature(17), None);
    // Asking again gives the cached value.
    assert_eq!(sig(&mut ix, 3), "src/lib.rs::STRUCT(P)::FIELD(x");
}

#[test]
fn type_parameters_and_parameters_are_numbered() {
    let mut f = ent(EntityKind::Function, Some("m"), Some(1));
    f.def_range = Some((20, 21));
    f.generics = vec![3, 4, 5];
    f.self_param = Some(6);
    f.params = vec![7, 8];
    f.display.num_params = 3;
    let mut implicit = ent(EntityKind::GenericParam, Some("impl Tr"), Some(2));
    implicit.implicit = true;
    let mut s = ent(EntityKind::Local, Some("self"), Some(2));
    s.decl_start = 22;
    s.decl_end = 27;
    s.display.self_access = Some(SelfAccess::Shared);
    let mut a = ent(EntityKind::Local, Some("a"), Some(2));
    a.decl_start = 29;
    a.decl_end = 30;
    let entities = vec![
        root_module(),
        ent(EntityKind::Adt(AdtKind::Struct), Some("P"), Some(0)),
        f,
        ent(EntityKind::GenericParam, Some("T"), Some(2)),
        implicit,
        ent(EntityKind::GenericParam, Some("U"), Some(2)),
        s,
        a,
        ent(EntityKind::Local, Some("b"), None),
    ];
    let mut ix = UnitAnalyzer::new("c".to_string(), vec![file_vname()], entities).unwrap();
    assert_eq!(ix.visit_token(Token { file: 0, start: 20, end: 21, entity: 2 }), TokenEvent::Definition);
    let entries = ix.flush();
    let m = node("src/lib.rs::STRUCT(P)::FUNCTION(m)");
    assert!(entries.contains(&edge(&m, "/kythe/edge/childof", &node("src/lib.rs::STRUCT(P)"))));
    assert!(entries.contains(&edge(&m, "/kythe/edge/tparam.0", &node("src/lib.rs::STRUCT(P)::FUNCTION(m)::TVAR(T)"))));
    assert!(entries.contains(&edge(&m, "/kythe/edge/tparam.1", &node("src/lib.rs::STRUCT(P)::FUNCTION(m)::TVAR(U)"))));
    assert_eq!(edges(&entries, "/kythe/edge/tparam.2").len(), 0);
    assert!(entries.contains(&edge(&m, "/kythe/edge/param.0", &node("src/lib.rs::STRUCT(P)::FUNCTION(m)::LOCAL(self|22-27)"))));
    assert!(entries.contains(&edge(&m, "/kythe/edge/param.1", &node("src/lib.rs::STRUCT(P)::FUNCTION(m)::LOCAL(a|29-30)"))));
    assert_eq!(edges(&entries, "/kythe/edge/param.2").len(), 0);
    let uri = "kythe://c?lang=rust#src%2Flib.rs%3A%3ASTRUCT%28P%29%3A%3AFUNCTION%28m%29";
    let expected_code = boxed(
        vec![
            leaf(MarkedKind::Modifier, "fn ", ""),
            ident("m", uri),
            MarkedSource {
                kind: MarkedKind::ParameterLookupByTparam,
                pre_text: "<".to_string(),
                child: vec![],
                post_child_text: ", ".to_string(),
                post_text: ">".to_string(),
                link: vec![],
            },
            MarkedSource {
                kind: MarkedKind::ParameterLookupByParam,
                pre_text: "(".to_string(),
                child: vec![],
                post_child_text: ", ".to_string(),
                post_text: ")".to_string(),
                link: vec![],
            },
        ],
        "",
    );
    assert_eq!(code_of(&entries, &m), Some(&expected_code));
}

#[test]
fn documentation_is_emitted_with_links() {
    let mut s = ent(EntityKind::Adt(AdtKind::Struct), Some("S"), Some(0));
    s.def_range = Some((40, 41));
    s.doc = Some(EntityDoc {
        text: "Uses [T] and [missing], a\\b".to_string(),
        links: vec![
            DocLink { start: 5, end: 8, target: Some(2), source_range: Some((9, 12)) },
            DocLink { start: 13, end: 22, target: None, source_range: None },
        ],
    });
    let t = ent(EntityKind::Trait, Some("T"), Some(0));
    let mut ix = UnitAnalyzer::new("c".to_string(), vec![file_vname()], vec![root_module(), s, t]).unwrap();
    assert_eq!(ix.visit_token(Token { file: 0, start: 40, end: 41, entity: 1 }), TokenEvent::Definition);
    let entries = ix.flush();
    let sv = node("src/lib.rs::STRUCT(S)");
    let dv = node("src/lib.rs::STRUCT(S)::(DOC)");
    let tv = node("src/lib.rs::TRAIT(T)");
    assert!(entries.contains(&fact(&dv, "/kythe/node/kind", "doc")));
    assert!(entries.contains(&edge(&dv, "/kythe/edge/documents", &sv)));
    assert!(entries.contains(&fact(&dv, "/kythe/text", "Uses [T] and missing, a\\\\b")));
    assert!(entries.contains(&edge(&dv, "/kythe/edge/param.0", &tv)));
    let ra = anchor(9, 12);
    assert!(entries.contains(&fact(&ra, "/kythe/loc/start", "9")));
    assert!(entries.contains(&edge(&ra, "/kythe/edge/ref/doc", &tv)));
}

#[test]
fn file_facts() {
    let mut ix = UnitAnalyzer::new("c".to_string(), vec![file_vname()], vec![root_module()]).unwrap();
    ix.emit_file(&file_vname(), "fn main() {}".to_string());
    let entries = ix.flush();
    assert_eq!(
        entries,
        vec![
            fact(&file_vname(), "/kythe/node/kind", "file"),
            fact(&file_vname(), "/kythe/language", "rust"),
            fact(&file_vname(), "/kythe/text", "fn main() {}"),
        ]
    );
}

#[test]
fn indexing_twice_gives_the_same_entries() {
    let toks = vec![
        Token { file: 0, start: 3, end: 8, entity: 1 },
        Token { file: 0, start: 50, end: 55, entity: 1 },
        Token { file: 0, start: 60, end: 65, entity: 1 },
    ];
    let a = index_unit("c".to_string(), vec![file_vname()], function_unit(), 0, &toks).unwrap();
    let b = index_unit("c".to_string(), vec![file_vname()], function_unit(), 0, &toks).unwrap();
    assert_eq!(a, b);
    assert!(!a.is_empty());
}

#[test]
fn root_module_is_the_first_root_in_the_source_files() {
    let mut dep_root = root_module();
    dep_root.root_file = Some("dep/lib.rs".to_string());
    dep_root.def_file = 1;
    let mut own_root = root_module();
    own_root.def_file = 2;
    let entities = vec![dep_root, ent(EntityKind::Module, Some("m"), Some(0)), own_root];
    assert_eq!(find_root_module(&entities, &vec![2, 3]), Some(2));
    assert_eq!(find_root_module(&entities, &vec![1, 2]), Some(0));
    assert_eq!(find_root_module(&entities, &vec![4]), None);
}

#[test]
fn file_node_drops_language_and_signature() {
    let v = VName {
        corpus: "c".to_string(),
        root: "r".to_string(),
        path: "p.rs".to_string(),
        language: "rust".to_string(),
        signature: "sig".to_string(),
    };
    let f = file_node_vname(&v);
    assert_eq!((f.corpus.as_str(), f.root.as_str(), f.path.as_str()), ("c", "r", "p.rs"));
    assert_eq!((f.language.as_str(), f.signature.as_str()), ("", ""));
    let mut ix = UnitAnalyzer::new("c".to_string(), vec![file_vname()], vec![]).unwrap();
    ix.emit_file(&v, "x".to_string());
    let entries = ix.flush();
    assert_eq!(entries[0], fact(&f, "/kythe/node/kind", "file"));
}

#[test]
fn source_files_are_described_in_order() {
    let mut other = file_vname();
    other.path = "src/util.rs".to_string();
    let mut ix = UnitAnalyzer::new("c".to_string(), vec![file_vname()], vec![]).unwrap();
    ix.handle_files(&vec![
        SourceFile { vname: file_vname(), text: "mod util;".to_string() },
        SourceFile { vname: other.clone(), text: "".to_string() },
    ]);
    let entries = ix.flush();
    assert_eq!(entries.len(), 6);
    assert_eq!(entries[2], fact(&file_vname(), "/kythe/text", "mod util;"));
    assert_eq!(entries[3], fact(&other, "/kythe/node/kind", "file"));
    assert_eq!(entries[5], fact(&other, "/kythe/text", ""));
}

#[test]
fn distinct_entities_have_distinct_signatures() {
    let mut l1 = ent(EntityKind::Local, Some("x"), Some(2));
    l1.decl_start = 10;
    l1.decl_end = 11;
    let mut l2 = ent(EntityKind::Local, Some("x"), Some(2));
    l2.decl_start = 20;
    l2.decl_end = 21;
    let mut anon1 = ent(EntityKind::Const, None, Some(0));
    anon1.decl_start = 30;
    anon1.decl_end = 40;
    let mut anon2 = ent(EntityKind::Const, None, Some(0));
    anon2.decl_start = 41;
    anon2.decl_end = 50;
    let entities = vec![
        root_module(),
        ent(EntityKind::Module, Some("x"), Some(0)),
        ent(EntityKind::Function, Some("x"), Some(0)),
        ent(EntityKind::Adt(AdtKind::Struct), Some("x"), Some(0)),
        ent(EntityKind::Adt(AdtKind::Enum), Some("x"), Some(1)),
        l1,
        l2,
        anon1,
        anon2,
        ent(EntityKind::Field, Some("x"), Some(3)),
        ent(EntityKind::Function, Some("x"), Some(3)),
    ];
    let n = entities.len();
    let mut ix = UnitAnalyzer::new("c".to_string(), vec![file_vname()], entities).unwrap();
    let sigs: Vec<String> = (0..n).map(|i| ix.get_signature(i).unwrap()).collect();
    for i in 0..n {
        for j in 0..n {
            if i != j {
                assert_ne!(sigs[i], sigs[j]);
            }
        }
    }
}

fn unit(files: Vec<VName>, source_file_ids: Vec<usize>, entities: Vec<Entity>) -> CompilationUnit {
    CompilationUnit {
        corpus: "c".to_string(),
        files,
        source_file_ids,
        sources: vec![SourceFile { vname: file_vname(), text: "fn hello() {}".to_string() }],
        entities,
        tokens: vec![Token { file: 0, start: 3, end: 8, entity: 1 }],
    }
}

#[test]
fn units_are_indexed_after_their_files() {
    let mut indexer = KytheIndexer::new();
    assert_eq!(indexer.index_cu(unit(vec![file_vname()], vec![0], function_unit())), Ok(()));
    let entries = indexer.flush();
    assert_eq!(entries[0], fact(&file_vname(), "/kythe/node/kind", "file"));
    assert_eq!(entries[2], fact(&file_vname(), "/kythe/text", "fn hello() {}"));
    assert_eq!(entries[3], fact(&node("src/lib.rs"), "/kythe/node/kind", "record"));
    assert!(entries.contains(&edge(&anchor(3, 8), "/kythe/edge/defines/binding", &node("src/lib.rs::FUNCTION(hello)"))));
    assert!(indexer.flush().is_empty());
}

#[test]
fn refused_units_add_nothing() {
    let mut indexer = KytheIndexer::new();
    assert_eq!(indexer.index_cu(unit(vec![], vec![0], function_unit())), Err(IndexError::NoRequiredInputs));
    assert_eq!(indexer.index_cu(unit(vec![file_vname()], vec![5], function_unit())), Err(IndexError::NoRootModule));
    let bad = vec![root_module(), ent(EntityKind::Function, Some("f"), Some(1))];
    assert_eq!(indexer.index_cu(unit(vec![file_vname()], vec![0], bad)), Err(IndexError::MalformedTable));
    assert!(indexer.flush().is_empty());
}
