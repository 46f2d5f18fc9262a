//! Structured signatures for display: a tree of typed text nodes per
//! entity, independent of graph signatures.

use vstd::prelude::*;
use crate::emit::base_vname;
use crate::emit::make_base_vname;
use crate::entity::{AdtKind, Entity, EntityKind, SelfAccess};
use crate::indexer::is_implicit;
use crate::signature::{sig_spec, SignatureCache};
use crate::uri::{uri_spec, vname_to_kythe_uri};

verus! {

/// The kinds of node in a structured signature.
#[derive(Clone, Copy, Debug, PartialEq, Eq, Structural)]
pub enum MarkedKind {
    Box,
    Type,
    Parameter,
    Identifier,
    Initializer,
    ParameterLookupByParam,
    ParameterLookupByTparam,
    Modifier,
}

/// A node of a structured signature: text before, children joined by
/// `post_child_text`, text after, and the URIs of what it links to.
#[derive(Debug, PartialEq, Eq)]
pub struct MarkedSource {
    pub kind: MarkedKind,
    pub pre_text: String,
    pub child: Vec<MarkedSource>,
    pub post_child_text: String,
    pub post_text: String,
    pub link: Vec<String>,
}

/// The mathematical value of a [`MarkedSource`].
pub struct MarkedModel {
    pub kind: MarkedKind,
    pub pre_text: Seq<char>,
    pub child: Seq<MarkedModel>,
    pub post_child_text: Seq<char>,
    pub post_text: Seq<char>,
    pub link: Seq<Seq<char>>,
}

pub open spec fn marked_view(m: MarkedSource) -> MarkedModel
    decreases m,
{
    MarkedModel {
        kind: m.kind,
        pre_text: m.pre_text@,
        child: Seq::new(
            m.child@.len(),
            |i: int|
                if 0 <= i < m.child@.len() {
                    marked_view(m.child@[i])
                } else {
                    node(MarkedKind::Box, Seq::empty(), Seq::empty())
                },
        ),
        post_child_text: m.post_child_text@,
        post_text: m.post_text@,
        link: m.link@.map_values(|s: String| s@),
    }
}

impl View for MarkedSource {
    type V = MarkedModel;

    open spec fn view(&self) -> MarkedModel {
        marked_view(*self)
    }
}

pub open spec fn views(v: Seq<MarkedSource>) -> Seq<MarkedModel> {
    Seq::new(v.len(), |i: int| v[i]@)
}

/// A node without children or links.
pub open spec fn node(kind: MarkedKind, pre: Seq<char>, post: Seq<char>) -> MarkedModel {
    MarkedModel {
        kind,
        pre_text: pre,
        child: Seq::empty(),
        post_child_text: Seq::empty(),
        post_text: post,
        link: Seq::empty(),
    }
}

pub open spec fn modifier(pre: Seq<char>) -> MarkedModel {
    node(MarkedKind::Modifier, pre, ""@)
}

/// A box around `child`, joined by `sep`.
pub open spec fn boxed(child: Seq<MarkedModel>, sep: Seq<char>) -> MarkedModel {
    MarkedModel {
        kind: MarkedKind::Box,
        pre_text: Seq::empty(),
        child,
        post_child_text: sep,
        post_text: Seq::empty(),
        link: Seq::empty(),
    }
}

/// The entity's name, linked to its node. `None` where it has no name or
/// no signature.
pub open spec fn identifier_spec(t: Seq<Entity>, corpus: Seq<char>, i: int) -> Option<MarkedModel> {
    match (t[i].name, sig_spec(t, i)) {
        (Some(n), Some(s)) => Some(
            MarkedModel {
                kind: MarkedKind::Identifier,
                pre_text: n@,
                child: Seq::empty(),
                post_child_text: Seq::empty(),
                post_text: Seq::empty(),
                link: seq![uri_spec(base_vname(corpus, s))],
            },
        ),
        _ => None,
    }
}

pub open spec fn pub_prefix(e: Entity) -> Seq<MarkedModel> {
    if e.display.is_public {
        seq![modifier("pub "@)]
    } else {
        Seq::empty()
    }
}

/// Some generic parameter is not implicit.
pub open spec fn explicit_generics(t: Seq<Entity>, gens: Seq<usize>) -> bool {
    exists|k: int| 0 <= k < gens.len() && !is_implicit(t, gens[k] as int)
}

pub open spec fn tparam_node(t: Seq<Entity>, e: Entity) -> Seq<MarkedModel> {
    if explicit_generics(t, e.generics@) {
        seq![MarkedModel {
            kind: MarkedKind::ParameterLookupByTparam,
            pre_text: "<"@,
            child: Seq::empty(),
            post_child_text: ", "@,
            post_text: ">"@,
            link: Seq::empty(),
        }]
    } else {
        Seq::empty()
    }
}

pub open spec fn type_text(e: Entity) -> Seq<char> {
    match e.display.ty {
        Some(s) => s@,
        None => ""@,
    }
}

/// The keyword of a type-like entity.
pub open spec fn type_keyword(k: EntityKind) -> Seq<char> {
    match k {
        EntityKind::Adt(AdtKind::Enum) => "enum"@,
        EntityKind::Adt(AdtKind::Struct) => "struct"@,
        EntityKind::Adt(AdtKind::Union) => "union"@,
        EntityKind::TypeAlias => "type"@,
        _ => "trait"@,
    }
}

pub open spec fn fn_modifiers(e: Entity) -> Seq<char> {
    (if e.display.is_public { "pub "@ } else { ""@ }) + (if e.display.is_const { "const "@ } else { ""@ })
        + (if e.display.is_async { "async "@ } else { ""@ }) + (if e.display.is_unsafe { "unsafe "@ } else { ""@ })
        + "fn "@
}

pub open spec fn params_node(e: Entity) -> MarkedModel {
    if e.display.num_params > 0 {
        MarkedModel {
            kind: MarkedKind::ParameterLookupByParam,
            pre_text: "("@,
            child: Seq::empty(),
            post_child_text: ", "@,
            post_text: ")"@,
            link: Seq::empty(),
        }
    } else {
        node(MarkedKind::Parameter, "("@, ")"@)
    }
}

/// The top-level nodes of an entity's structured signature, given its
/// identifier node.
pub open spec fn render_children(t: Seq<Entity>, i: int, id: MarkedModel) -> Option<Seq<MarkedModel>> {
    let e = t[i];
    match e.kind {
        EntityKind::Adt(_) | EntityKind::Trait | EntityKind::TraitAlias | EntityKind::TypeAlias => Some(
            pub_prefix(e) + seq![node(MarkedKind::Modifier, type_keyword(e.kind), " "@), id] + tparam_node(t, e),
        ),
        EntityKind::Const | EntityKind::Static => Some(
            pub_prefix(e) + seq![
                node(MarkedKind::Modifier, if e.kind == EntityKind::Const { "const"@ } else { "static"@ }, " "@),
                boxed(seq![id, node(MarkedKind::Type, type_text(e), ""@)], ": "@),
            ] + match e.display.value {
                Some(v) => seq![node(MarkedKind::Initializer, v@, ""@)],
                None => Seq::empty(),
            },
        ),
        EntityKind::Field => Some(pub_prefix(e) + seq![id, node(MarkedKind::Type, ": "@, type_text(e))]),
        EntityKind::Function => Some(
            seq![modifier(fn_modifiers(e)), id] + tparam_node(t, e) + seq![params_node(e)] + match e.display.ty {
                Some(r) => seq![modifier(" -> "@), node(MarkedKind::Type, r@, ""@)],
                None => Seq::empty(),
            },
        ),
        EntityKind::GenericParam => if e.display.is_const_param {
            Some(seq![modifier("const "@), boxed(seq![id, node(MarkedKind::Type, ": "@ + type_text(e), ""@)], ""@)])
        } else {
            Some(seq![id])
        },
        EntityKind::Local => match e.display.self_access {
            Some(SelfAccess::Shared) => Some(seq![modifier("&"@), id]),
            Some(SelfAccess::Exclusive) => Some(seq![modifier("&mut "@), id]),
            Some(SelfAccess::Owned) => Some(seq![id]),
            None => Some(
                (if e.display.is_mut { seq![modifier("mut "@)] } else { Seq::empty() }) + seq![
                    boxed(seq![id, node(MarkedKind::Type, type_text(e), ""@)], ": "@),
                ],
            ),
        },
        EntityKind::Macro => if e.display.is_declarative {
            Some(seq![modifier("macro_rules! "@), id])
        } else {
            None
        },
        EntityKind::Module => Some(pub_prefix(e) + seq![modifier("mod "@), id]),
        _ => None,
    }
}

/// The structured signature of entity `i`: a single top-level node as it
/// is, several wrapped in a box. `None` where the entity has no name or
/// signature, or its kind has no rendering.
pub open spec fn render_spec(t: Seq<Entity>, corpus: Seq<char>, i: int) -> Option<MarkedModel> {
    if i < 0 || i >= t.len() {
        None
    } else {
        render_known(t, corpus, i)
    }
}

pub open spec fn render_known(t: Seq<Entity>, corpus: Seq<char>, i: int) -> Option<MarkedModel> {
    match identifier_spec(t, corpus, i) {
        None => None,
        Some(id) => match render_children(t, i, id) {
            None => None,
            Some(c) => if c.len() == 1 {
                Some(c[0])
            } else {
                Some(boxed(c, ""@))
            },
        },
    }
}

fn leaf(kind: MarkedKind, pre: &str, post: &str) -> (r: MarkedSource)
    ensures
        r@ == node(kind, pre@, post@),
{
    let r = MarkedSource {
        kind,
        pre_text: String::from_str(pre),
        child: Vec::new(),
        post_child_text: String::new(),
        post_text: String::from_str(post),
        link: Vec::new(),
    };
    assert(r@.child =~= Seq::<MarkedModel>::empty());
    assert(r@.link =~= Seq::<Seq<char>>::empty());
    r
}

fn leaf_owned(kind: MarkedKind, pre: String, post: String) -> (r: MarkedSource)
    ensures
        r@ == node(kind, pre@, post@),
{
    let r = MarkedSource {
        kind,
        pre_text: pre,
        child: Vec::new(),
        post_child_text: String::new(),
        post_text: post,
        link: Vec::new(),
    };
    assert(r@.child =~= Seq::<MarkedModel>::empty());
    assert(r@.link =~= Seq::<Seq<char>>::empty());
    r
}

fn list_node(kind: MarkedKind, pre: &str, sep: &str, post: &str) -> (r: MarkedSource)
    ensures
        r@ == (MarkedModel {
            kind,
            pre_text: pre@,
            child: Seq::empty(),
            post_child_text: sep@,
            post_text: post@,
            link: Seq::empty(),
        }),
{
    let r = MarkedSource {
        kind,
        pre_text: String::from_str(pre),
        child: Vec::new(),
        post_child_text: String::from_str(sep),
        post_text: String::from_str(post),
        link: Vec::new(),
    };
    assert(r@.child =~= Seq::<MarkedModel>::empty());
    assert(r@.link =~= Seq::<Seq<char>>::empty());
    r
}

fn make_box(child: Vec<MarkedSource>, sep: &str) -> (r: MarkedSource)
    ensures
        r@ == boxed(views(child@), sep@),
{
    let ghost c = child@;
    let r = MarkedSource {
        kind: MarkedKind::Box,
        pre_text: String::new(),
        child,
        post_child_text: String::from_str(sep),
        post_text: String::new(),
        link: Vec::new(),
    };
    assert(r@.child =~= views(c));
    assert(r@.link =~= Seq::<Seq<char>>::empty());
    r
}

fn push_node(v: &mut Vec<MarkedSource>, m: MarkedSource)
    ensures
        views(final(v)@) == views(old(v)@).push(m@),
{
    let ghost mv = m@;
    v.push(m);
    assert(views(v@) =~= views(old(v)@).push(mv));
}

fn identifier(cache: &mut SignatureCache, t: &Vec<Entity>, corpus: &String, i: usize) -> (r: Option<MarkedSource>)
    requires
        i < t@.len(),
        old(cache).valid_for(t@),
    ensures
        final(cache).valid_for(t@),
        match r {
            Some(m) => identifier_spec(t@, corpus@, i as int) == Some(m@),
            None => identifier_spec(t@, corpus@, i as int) is None,
        },
{
    let name = match &t[i].name {
        Some(n) => n.clone(),
        None => {
            return None;
        },
    };
    let sig = match cache.get_signature(t, i) {
        Some(s) => s,
        None => {
            return None;
        },
    };
    let v = make_base_vname(corpus, sig);
    let uri = vname_to_kythe_uri(&v);
    let r = MarkedSource {
        kind: MarkedKind::Identifier,
        pre_text: name,
        child: Vec::new(),
        post_child_text: String::new(),
        post_text: String::new(),
        link: vec![uri],
    };
    assert(r@.child =~= Seq::<MarkedModel>::empty());
    assert(r@.link =~= seq![uri_spec(v@)]);
    Some(r)
}

fn has_explicit_generics(t: &Vec<Entity>, gens: &Vec<usize>) -> (r: bool)
    ensures
        r == explicit_generics(t@, gens@),
{
    for k in 0..gens.len()
        invariant
            forall|j: int| 0 <= j < k ==> is_implicit(t@, #[trigger] gens@[j] as int),
    {
        let g = gens[k];
        if !(g < t.len() && t[g].implicit) {
            return true;
        }
    }
    false
}

fn type_string(e: &Entity) -> (r: String)
    ensures
        r@ == type_text(*e),
{
    match &e.display.ty {
        Some(s) => s.clone(),
        None => String::from_str(""),
    }
}

fn type_keyword_text(k: EntityKind) -> (r: &'static str)
    ensures
        r@ == type_keyword(k),
{
    match k {
        EntityKind::Adt(AdtKind::Enum) => "enum",
        EntityKind::Adt(AdtKind::Struct) => "struct",
        EntityKind::Adt(AdtKind::Union) => "union",
        EntityKind::TypeAlias => "type",
        _ => "trait",
    }
}

fn fn_modifier_text(e: &Entity) -> (r: String)
    ensures
        r@ == fn_modifiers(*e),
{
    let mut m = String::new();
    m.append(if e.display.is_public { "pub " } else { "" });
    m.append(if e.display.is_const { "const " } else { "" });
    m.append(if e.display.is_async { "async " } else { "" });
    m.append(if e.display.is_unsafe { "unsafe " } else { "" });
    m.append("fn ");
    assert(m@ =~= fn_modifiers(*e));
    m
}

fn push_pub(v: &mut Vec<MarkedSource>, e: &Entity)
    ensures
        views(final(v)@) == views(old(v)@) + pub_prefix(*e),
{
    if e.display.is_public {
        push_node(v, leaf(MarkedKind::Modifier, "pub ", ""));
    }
    assert(views(v@) =~= views(old(v)@) + pub_prefix(*e));
}

fn push_tparams(v: &mut Vec<MarkedSource>, t: &Vec<Entity>, e: &Entity)
    ensures
        views(final(v)@) == views(old(v)@) + tparam_node(t@, *e),
{
    if has_explicit_generics(t, &e.generics) {
        push_node(v, list_node(MarkedKind::ParameterLookupByTparam, "<", ", ", ">"));
    }
    assert(views(v@) =~= views(old(v)@) + tparam_node(t@, *e));
}

fn typed_box(id: MarkedSource, ty: String, sep: &str) -> (r: MarkedSource)
    ensures
        r@ == boxed(seq![id@, node(MarkedKind::Type, ty@, ""@)], sep@),
{
    let ghost idv = id@;
    let tn = leaf_owned(MarkedKind::Type, ty, String::from_str(""));
    let mut c: Vec<MarkedSource> = Vec::new();
    push_node(&mut c, id);
    push_node(&mut c, tn);
    assert(views(c@) =~= seq![idv, node(MarkedKind::Type, ty@, ""@)]);
    make_box(c, sep)
}

fn children_of(t: &Vec<Entity>, i: usize, id: MarkedSource) -> (r: Option<Vec<MarkedSource>>)
    requires
        i < t@.len(),
    ensures
        match r {
            Some(c) => render_children(t@, i as int, id@) == Some(views(c@)),
            None => render_children(t@, i as int, id@) is None,
        },
{
    let e = &t[i];
    let ghost idv = id@;
    let mut c: Vec<MarkedSource> = Vec::new();
    assert(views(c@) =~= Seq::<MarkedModel>::empty());
    match e.kind {
        EntityKind::Adt(_) | EntityKind::Trait | EntityKind::TraitAlias | EntityKind::TypeAlias => {
            push_pub(&mut c, e);
            push_node(&mut c, leaf(MarkedKind::Modifier, type_keyword_text(e.kind), " "));
            push_node(&mut c, id);
            push_tparams(&mut c, t, e);
            assert(Some(views(c@)) == render_children(t@, i as int, idv));
        },
        EntityKind::Const | EntityKind::Static => {
            push_pub(&mut c, e);
            let kw = if e.kind == EntityKind::Const { "const" } else { "static" };
            push_node(&mut c, leaf(MarkedKind::Modifier, kw, " "));
            push_node(&mut c, typed_box(id, type_string(e), ": "));
            match &e.display.value {
                Some(v) => push_node(&mut c, leaf_owned(MarkedKind::Initializer, v.clone(), String::from_str(""))),
                None => {},
            }
            assert(views(c@) =~= render_children(t@, i as int, idv)->0);
        },
        EntityKind::Field => {
            push_pub(&mut c, e);
            push_node(&mut c, id);
            push_node(&mut c, leaf_owned(MarkedKind::Type, String::from_str(": "), type_string(e)));
            assert(views(c@) =~= render_children(t@, i as int, idv)->0);
        },
        EntityKind::Function => {
            push_node(&mut c, leaf_owned(MarkedKind::Modifier, fn_modifier_text(e), String::from_str("")));
            push_node(&mut c, id);
            push_tparams(&mut c, t, e);
            if e.display.num_params > 0 {
                push_node(&mut c, list_node(MarkedKind::ParameterLookupByParam, "(", ", ", ")"));
            } else {
                push_node(&mut c, leaf(MarkedKind::Parameter, "(", ")"));
            }
            match &e.display.ty {
                Some(r) => {
                    push_node(&mut c, leaf(MarkedKind::Modifier, " -> ", ""));
                    push_node(&mut c, leaf_owned(MarkedKind::Type, r.clone(), String::from_str("")));
                },
                None => {},
            }
            assert(views(c@) =~= render_children(t@, i as int, idv)->0);
        },
        EntityKind::GenericParam => {
            if e.display.is_const_param {
                push_node(&mut c, leaf(MarkedKind::Modifier, "const ", ""));
                let mut ty = String::from_str(": ");
                ty.append(type_string(e).as_str());
                push_node(&mut c, typed_box(id, ty, ""));
            } else {
                push_node(&mut c, id);
            }
            assert(views(c@) =~= render_children(t@, i as int, idv)->0);
        },
        EntityKind::Local => {
            match e.display.self_access {
                Some(SelfAccess::Shared) => {
                    push_node(&mut c, leaf(MarkedKind::Modifier, "&", ""));
                    push_node(&mut c, id);
                },
                Some(SelfAccess::Exclusive) => {
                    push_node(&mut c, leaf(MarkedKind::Modifier, "&mut ", ""));
                    push_node(&mut c, id);
                },
                Some(SelfAccess::Owned) => {
                    push_node(&mut c, id);
                },
                None => {
                    if e.display.is_mut {
                        push_node(&mut c, leaf(MarkedKind::Modifier, "mut ", ""));
                    }
                    push_node(&mut c, typed_box(id, type_string(e), ": "));
                },
            }
            assert(views(c@) =~= render_children(t@, i as int, idv)->0);
        },
        EntityKind::Macro => {
            if !e.display.is_declarative {
                return None;
            }
            push_node(&mut c, leaf(MarkedKind::Modifier, "macro_rules! ", ""));
            push_node(&mut c, id);
            assert(views(c@) =~= render_children(t@, i as int, idv)->0);
        },
        EntityKind::Module => {
            push_pub(&mut c, e);
            push_node(&mut c, leaf(MarkedKind::Modifier, "mod ", ""));
            push_node(&mut c, id);
            assert(views(c@) =~= render_children(t@, i as int, idv)->0);
        },
        _ => {
            return None;
        },
    }
    Some(c)
}

/// Renders the structured signature of entity `i`.
pub fn render_marked_source(cache: &mut SignatureCache, t: &Vec<Entity>, corpus: &String, i: usize) -> (r: Option<MarkedSource>)
    requires
        old(cache).valid_for(t@),
    ensures
        final(cache).valid_for(t@),
        match r {
            Some(m) => render_spec(t@, corpus@, i as int) == Some(m@),
            None => render_spec(t@, corpus@, i as int) is None,
        },
{
    if i >= t.len() {
        return None;
    }
    let id = match identifier(cache, t, corpus, i) {
        Some(id) => id,
        None => {
            return None;
        },
    };
    let mut c = match children_of(t, i, id) {
        Some(c) => c,
        None => {
            return None;
        },
    };
    if c.len() == 1 {
        let ghost cv = views(c@);
        let m = c.pop().unwrap();
        assert(m@ == cv[0]);
        Some(m)
    } else {
        Some(make_box(c, ""))
    }
}

} // verus!
