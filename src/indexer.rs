//! One indexing pass over a compilation unit: module nodes first, then a
//! definition or reference for every resolved token.

use vstd::prelude::*;
use crate::docs::{process_documentation, refs_from, render_from, DocReference};
use crate::emit::{
    anchor_facts, anchor_sig, anchor_sig_string, anchor_vname, base_vname, edge, emit_anchor_facts, emit_edge,
    emit_fact, entries_view, fact, make_anchor_vname, make_base_vname, push_entry, vname_with_signature,
    with_signature, Entry, EntryModel,
};
use crate::marked::{render_marked_source, render_spec};
use crate::entity::{AdtKind, Entity, EntityKind, VariantShape, table_wf};
use crate::signature::{is_crate_root, sig_spec, SignatureCache};
use crate::text::{append_decimal, decimal};
use crate::vname::{VName, VNameModel};

verus! {

/// An identifier occurrence and the entity the semantic engine resolved it
/// to.
#[derive(Clone, Copy, Debug, PartialEq, Eq, Structural)]
pub struct Token {
    /// Index of the file in the unit's file list.
    pub file: usize,
    pub start: u32,
    pub end: u32,
    /// Index of the resolved entity.
    pub entity: usize,
}

/// Which branch a token took.
#[derive(Clone, Copy, Debug, PartialEq, Eq, Structural)]
pub enum TokenEvent {
    Definition,
    Reference,
    /// Nothing to emit: no signature or definition range, or the definition
    /// of a module (emitted by the module pass).
    Skipped,
}

/// The facts that describe an entity's node.
pub open spec fn kind_facts(e: Entity, d: VNameModel) -> Seq<EntryModel> {
    let nk = "/kythe/node/kind"@;
    let cp = "/kythe/complete"@;
    let sk = "/kythe/subkind"@;
    match e.kind {
        EntityKind::Module => seq![fact(d, nk, "record"@), fact(d, sk, "module"@), fact(d, cp, "definition"@)],
        EntityKind::Adt(AdtKind::Enum) => seq![fact(d, nk, "sum"@), fact(d, cp, "definition"@), fact(d, sk, "enum"@)],
        EntityKind::Adt(AdtKind::Struct) => seq![fact(d, nk, "record"@), fact(d, cp, "definition"@), fact(d, sk, "struct"@)],
        EntityKind::Adt(AdtKind::Union) => seq![fact(d, nk, "record"@), fact(d, cp, "definition"@), fact(d, sk, "union"@)],
        EntityKind::Const => seq![fact(d, nk, "constant"@)],
        EntityKind::Field => seq![fact(d, nk, "variable"@), fact(d, cp, "definition"@), fact(d, sk, "field"@)],
        EntityKind::Function => seq![
            fact(d, nk, "function"@),
            fact(d, cp, if e.complete { "definition"@ } else { "incomplete"@ }),
        ],
        EntityKind::GenericParam => seq![fact(d, nk, "tvar"@)],
        EntityKind::Label => seq![fact(d, nk, "variable"@), fact(d, cp, "definition"@), fact(d, sk, "label"@)],
        EntityKind::Local => seq![fact(d, nk, "variable"@), fact(d, sk, "local"@)],
        EntityKind::Macro => seq![fact(d, nk, "macro"@)],
        EntityKind::Static => seq![
            fact(d, nk, "variable"@),
            fact(d, cp, if e.complete { "definition"@ } else { "incomplete"@ }),
            fact(d, sk, "static"@),
        ],
        EntityKind::Trait => seq![fact(d, nk, "interface"@)],
        EntityKind::TraitAlias => seq![fact(d, nk, "talias"@)],
        EntityKind::TypeAlias => seq![fact(d, nk, "talias"@)],
        EntityKind::Variant(VariantShape::Tuple) => seq![fact(d, nk, "record"@), fact(d, cp, "definition"@), fact(d, sk, "tuplevariant"@)],
        EntityKind::Variant(VariantShape::Record) => seq![fact(d, nk, "record"@), fact(d, cp, "definition"@), fact(d, sk, "structvariant"@)],
        EntityKind::Variant(VariantShape::Unit) => seq![fact(d, nk, "constant"@)],
    }
}

/// The edge kind of a reference: macros are expanded, functions called.
pub open spec fn ref_kind(k: EntityKind) -> Seq<char> {
    if k == EntityKind::Macro {
        "/kythe/edge/ref/expands"@
    } else if k == EntityKind::Function {
        "/kythe/edge/ref/call"@
    } else {
        "/kythe/edge/ref"@
    }
}

/// The `childof` edge to the entity's parent, where the parent has a
/// signature. Generic parameters have none.
pub open spec fn childof_entries(t: Seq<Entity>, i: int, d: VNameModel, corpus: Seq<char>) -> Seq<EntryModel> {
    if t[i].kind == EntityKind::GenericParam {
        Seq::empty()
    } else {
        match t[i].parent {
            Some(p) => match sig_spec(t, p as int) {
                Some(ps) => seq![edge(d, "/kythe/edge/childof"@, base_vname(corpus, ps))],
                None => Seq::empty(),
            },
            None => Seq::empty(),
        }
    }
}

pub open spec fn is_implicit(t: Seq<Entity>, g: int) -> bool {
    0 <= g < t.len() && t[g].implicit
}

/// `tparam.N` edges for generic parameters from `k` on; implicit ones are
/// passed over, and one without a signature still takes its index.
pub open spec fn tparams_from(t: Seq<Entity>, corpus: Seq<char>, d: VNameModel, gens: Seq<usize>, k: int, index: nat) -> Seq<EntryModel>
    decreases gens.len() - k,
{
    if k < 0 || k >= gens.len() {
        Seq::empty()
    } else if is_implicit(t, gens[k] as int) {
        tparams_from(t, corpus, d, gens, k + 1, index)
    } else {
        match sig_spec(t, gens[k] as int) {
            Some(s) => seq![edge(d, "/kythe/edge/tparam."@ + decimal(index), base_vname(corpus, s))]
                + tparams_from(t, corpus, d, gens, k + 1, index + 1),
            None => tparams_from(t, corpus, d, gens, k + 1, index + 1),
        }
    }
}

/// `param.N` edges for parameters from `k` on; one without a signature is
/// passed over and takes no index.
pub open spec fn params_from(t: Seq<Entity>, corpus: Seq<char>, d: VNameModel, ps: Seq<usize>, k: int, index: nat) -> Seq<EntryModel>
    decreases ps.len() - k,
{
    if k < 0 || k >= ps.len() {
        Seq::empty()
    } else {
        match sig_spec(t, ps[k] as int) {
            Some(s) => seq![edge(d, "/kythe/edge/param."@ + decimal(index), base_vname(corpus, s))]
                + params_from(t, corpus, d, ps, k + 1, index + 1),
            None => params_from(t, corpus, d, ps, k + 1, index),
        }
    }
}

/// A function's parameter edges: the `self` parameter first, where it has a
/// signature, then the others.
pub open spec fn param_entries(t: Seq<Entity>, corpus: Seq<char>, e: Entity, d: VNameModel) -> Seq<EntryModel> {
    if e.kind != EntityKind::Function {
        Seq::empty()
    } else {
        match e.self_param {
            Some(sp) => match sig_spec(t, sp as int) {
                Some(s) => seq![edge(d, "/kythe/edge/param."@ + decimal(0), base_vname(corpus, s))]
                    + params_from(t, corpus, d, e.params@, 0, 1),
                None => params_from(t, corpus, d, e.params@, 0, 0),
            },
            None => params_from(t, corpus, d, e.params@, 0, 0),
        }
    }
}

pub open spec fn has_generics(k: EntityKind) -> bool {
    match k {
        EntityKind::Adt(_) | EntityKind::Const | EntityKind::Function | EntityKind::Trait
        | EntityKind::TraitAlias | EntityKind::TypeAlias | EntityKind::Variant(_) => true,
        _ => false,
    }
}

pub open spec fn has_docs(k: EntityKind) -> bool {
    match k {
        EntityKind::GenericParam | EntityKind::Label | EntityKind::Local => false,
        _ => true,
    }
}

pub open spec fn doc_vname(d: VNameModel) -> VNameModel {
    with_signature(d, d.signature + "::(DOC)"@)
}

/// For each resolved link from `k` on whose target has a signature: a
/// `param.N` edge from the documentation node, and where the link's place in
/// the source is known, an anchor there with a `ref/doc` edge.
pub open spec fn doc_ref_entries(t: Seq<Entity>, corpus: Seq<char>, dv: VNameModel, ab: VNameModel, refs: Seq<DocReference>, k: int) -> Seq<EntryModel>
    decreases refs.len() - k,
{
    if k < 0 || k >= refs.len() {
        Seq::empty()
    } else {
        match sig_spec(t, refs[k].reference as int) {
            Some(rs) => seq![edge(dv, "/kythe/edge/param."@ + decimal(k as nat), base_vname(corpus, rs))]
                + match refs[k].range {
                Some(r) => anchor_facts(with_signature(ab, anchor_sig(r.0 as nat, r.1 as nat)), r.0 as nat, r.1 as nat)
                    + seq![edge(with_signature(ab, anchor_sig(r.0 as nat, r.1 as nat)), "/kythe/edge/ref/doc"@, base_vname(corpus, rs))],
                None => Seq::empty(),
            } + doc_ref_entries(t, corpus, dv, ab, refs, k + 1),
            None => doc_ref_entries(t, corpus, dv, ab, refs, k + 1),
        }
    }
}

/// The documentation node of an entity, its text, and its links.
pub open spec fn doc_entries(t: Seq<Entity>, corpus: Seq<char>, e: Entity, d: VNameModel, ab: VNameModel) -> Seq<EntryModel> {
    match e.doc {
        Some(doc) => seq![
            fact(doc_vname(d), "/kythe/node/kind"@, "doc"@),
            edge(doc_vname(d), "/kythe/edge/documents"@, d),
            fact(doc_vname(d), "/kythe/text"@, render_from(doc.text@, doc.links@, 0, 0)),
        ] + doc_ref_entries(t, corpus, doc_vname(d), ab, refs_from(doc.text@, doc.links@, 0, 0), 0),
        None => Seq::empty(),
    }
}

/// What a definition token emits, before its anchor facts.
pub open spec fn definition_entries(t: Seq<Entity>, corpus: Seq<char>, i: int, d: VNameModel, a: VNameModel) -> Seq<EntryModel> {
    seq![edge(a, "/kythe/edge/defines/binding"@, d)] + kind_facts(t[i], d) + childof_entries(t, i, d, corpus)
        + (if has_docs(t[i].kind) { doc_entries(t, corpus, t[i], d, a) } else { Seq::empty() })
        + (if has_generics(t[i].kind) { tparams_from(t, corpus, d, t[i].generics@, 0, 0) } else { Seq::empty() })
        + param_entries(t, corpus, t[i], d) + code_entries(t, corpus, i, d)
}

/// The structured signature of an entity, where it has one.
pub open spec fn code_entries(t: Seq<Entity>, corpus: Seq<char>, i: int, d: VNameModel) -> Seq<EntryModel> {
    match render_spec(t, corpus, i) {
        Some(m) => seq![EntryModel::Code(d, m)],
        None => Seq::empty(),
    }
}

/// Whether a token can be classified: its file and entity are known, and the
/// entity has a signature and a definition range.
pub open spec fn classifiable(t: Seq<Entity>, files: Seq<VName>, tok: Token) -> bool {
    &&& tok.entity < t.len()
    &&& tok.file < files.len()
    &&& sig_spec(t, tok.entity as int) is Some
    &&& t[tok.entity as int].def_range is Some
}

/// The token stands exactly on its entity's defining name.
pub open spec fn at_definition(t: Seq<Entity>, tok: Token) -> bool {
    let e = t[tok.entity as int];
    let r = e.def_range->0;
    &&& tok.file == e.def_file
    &&& tok.start == r.0
    &&& tok.end == r.1
}

pub open spec fn token_event(t: Seq<Entity>, files: Seq<VName>, tok: Token) -> TokenEvent {
    if !classifiable(t, files, tok) {
        TokenEvent::Skipped
    } else if at_definition(t, tok) {
        if t[tok.entity as int].kind == EntityKind::Module {
            TokenEvent::Skipped
        } else {
            TokenEvent::Definition
        }
    } else {
        TokenEvent::Reference
    }
}

/// Everything a token emits.
pub open spec fn token_entries(corpus: Seq<char>, files: Seq<VName>, t: Seq<Entity>, tok: Token) -> Seq<EntryModel> {
    let i = tok.entity as int;
    let d = base_vname(corpus, sig_spec(t, i)->0);
    let a = anchor_vname(files[tok.file as int]@, tok.start as nat, tok.end as nat);
    match token_event(t, files, tok) {
        TokenEvent::Skipped => Seq::empty(),
        TokenEvent::Definition => definition_entries(t, corpus, i, d, a) + anchor_facts(a, tok.start as nat, tok.end as nat),
        TokenEvent::Reference => seq![edge(a, ref_kind(t[i].kind), d)] + anchor_facts(a, tok.start as nat, tok.end as nat),
    }
}

fn emit_kind_facts(out: &mut Vec<Entry>, e: &Entity, d: &VName)
    ensures
        entries_view(final(out)@) == entries_view(old(out)@) + kind_facts(*e, d@),
{
    let nk = "/kythe/node/kind";
    let cp = "/kythe/complete";
    let sk = "/kythe/subkind";
    match e.kind {
        EntityKind::Module => {
            emit_fact(out, d, nk, String::from_str("record"));
            emit_fact(out, d, sk, String::from_str("module"));
            emit_fact(out, d, cp, String::from_str("definition"));
        },
        EntityKind::Adt(AdtKind::Enum) => {
            emit_fact(out, d, nk, String::from_str("sum"));
            emit_fact(out, d, cp, String::from_str("definition"));
            emit_fact(out, d, sk, String::from_str("enum"));
        },
        EntityKind::Adt(AdtKind::Struct) => {
            emit_fact(out, d, nk, String::from_str("record"));
            emit_fact(out, d, cp, String::from_str("definition"));
            emit_fact(out, d, sk, String::from_str("struct"));
        },
        EntityKind::Adt(AdtKind::Union) => {
            emit_fact(out, d, nk, String::from_str("record"));
            emit_fact(out, d, cp, String::from_str("definition"));
            emit_fact(out, d, sk, String::from_str("union"));
        },
        EntityKind::Const => {
            emit_fact(out, d, nk, String::from_str("constant"));
        },
        EntityKind::Field => {
            emit_fact(out, d, nk, String::from_str("variable"));
            emit_fact(out, d, cp, String::from_str("definition"));
            emit_fact(out, d, sk, String::from_str("field"));
        },
        EntityKind::Function => {
            emit_fact(out, d, nk, String::from_str("function"));
            if e.complete {
                emit_fact(out, d, cp, String::from_str("definition"));
            } else {
                emit_fact(out, d, cp, String::from_str("incomplete"));
            }
        },
        EntityKind::GenericParam => {
            emit_fact(out, d, nk, String::from_str("tvar"));
        },
        EntityKind::Label => {
            emit_fact(out, d, nk, String::from_str("variable"));
            emit_fact(out, d, cp, String::from_str("definition"));
            emit_fact(out, d, sk, String::from_str("label"));
        },
        EntityKind::Local => {
            emit_fact(out, d, nk, String::from_str("variable"));
            emit_fact(out, d, sk, String::from_str("local"));
        },
        EntityKind::Macro => {
            emit_fact(out, d, nk, String::from_str("macro"));
        },
        EntityKind::Static => {
            emit_fact(out, d, nk, String::from_str("variable"));
            if e.complete {
                emit_fact(out, d, cp, String::from_str("definition"));
            } else {
                emit_fact(out, d, cp, String::from_str("incomplete"));
            }
            emit_fact(out, d, sk, String::from_str("static"));
        },
        EntityKind::Trait => {
            emit_fact(out, d, nk, String::from_str("interface"));
        },
        EntityKind::TraitAlias | EntityKind::TypeAlias => {
            emit_fact(out, d, nk, String::from_str("talias"));
        },
        EntityKind::Variant(VariantShape::Tuple) => {
            emit_fact(out, d, nk, String::from_str("record"));
            emit_fact(out, d, cp, String::from_str("definition"));
            emit_fact(out, d, sk, String::from_str("tuplevariant"));
        },
        EntityKind::Variant(VariantShape::Record) => {
            emit_fact(out, d, nk, String::from_str("record"));
            emit_fact(out, d, cp, String::from_str("definition"));
            emit_fact(out, d, sk, String::from_str("structvariant"));
        },
        EntityKind::Variant(VariantShape::Unit) => {
            emit_fact(out, d, nk, String::from_str("constant"));
        },
    }
    assert(entries_view(out@) =~= entries_view(old(out)@) + kind_facts(*e, d@));
}

fn emit_childof(out: &mut Vec<Entry>, cache: &mut SignatureCache, t: &Vec<Entity>, corpus: &String, i: usize, d: &VName)
    requires
        i < t@.len(),
        old(cache).valid_for(t@),
    ensures
        final(cache).valid_for(t@),
        entries_view(final(out)@) == entries_view(old(out)@) + childof_entries(t@, i as int, d@, corpus@),
{
    if t[i].kind != EntityKind::GenericParam {
        match t[i].parent {
            Some(p) => match cache.get_signature(t, p) {
                Some(ps) => {
                    let pv = make_base_vname(corpus, ps);
                    emit_edge(out, d, String::from_str("/kythe/edge/childof"), &pv);
                },
                None => {},
            },
            None => {},
        }
    }
    assert(entries_view(out@) =~= entries_view(old(out)@) + childof_entries(t@, i as int, d@, corpus@));
}

fn emit_tparams(out: &mut Vec<Entry>, cache: &mut SignatureCache, t: &Vec<Entity>, corpus: &String, d: &VName, gens: &Vec<usize>)
    requires
        old(cache).valid_for(t@),
    ensures
        final(cache).valid_for(t@),
        entries_view(final(out)@) == entries_view(old(out)@) + tparams_from(t@, corpus@, d@, gens@, 0, 0),
{
    let mut k: usize = 0;
    let mut index: u128 = 0;
    while k < gens.len()
        invariant
            index <= k <= gens@.len(),
            cache.valid_for(t@),
            entries_view(out@) + tparams_from(t@, corpus@, d@, gens@, k as int, index as nat)
                == entries_view(old(out)@) + tparams_from(t@, corpus@, d@, gens@, 0, 0),
        decreases gens@.len() - k,
    {
        let ghost before = entries_view(out@);
        let g = gens[k];
        let implicit = g < t.len() && t[g].implicit;
        if !implicit {
            match cache.get_signature(t, g) {
                Some(s) => {
                    let mut kind = String::from_str("/kythe/edge/tparam.");
                    append_decimal(&mut kind, index);
                    let gv = make_base_vname(corpus, s);
                    emit_edge(out, d, kind, &gv);
                },
                None => {},
            }
            index = index + 1;
        }
        assert(before + tparams_from(t@, corpus@, d@, gens@, k as int, old_index(index, implicit)) =~= entries_view(out@)
            + tparams_from(t@, corpus@, d@, gens@, k as int + 1, index as nat));
        k = k + 1;
    }
}

spec fn old_index(index: u128, implicit: bool) -> nat {
    if implicit {
        index as nat
    } else {
        (index - 1) as nat
    }
}

fn emit_param_list(out: &mut Vec<Entry>, cache: &mut SignatureCache, t: &Vec<Entity>, corpus: &String, d: &VName, ps: &Vec<usize>, first: u64)
    requires
        old(cache).valid_for(t@),
        first <= 1,
    ensures
        final(cache).valid_for(t@),
        entries_view(final(out)@) == entries_view(old(out)@) + params_from(t@, corpus@, d@, ps@, 0, first as nat),
{
    let mut k: usize = 0;
    let mut index: u128 = first as u128;
    while k < ps.len()
        invariant
            index <= k + 1,
            k <= ps@.len(),
            cache.valid_for(t@),
            entries_view(out@) + params_from(t@, corpus@, d@, ps@, k as int, index as nat)
                == entries_view(old(out)@) + params_from(t@, corpus@, d@, ps@, 0, first as nat),
        decreases ps@.len() - k,
    {
        let ghost before = entries_view(out@);
        let ghost index0: u128 = index;
        match cache.get_signature(t, ps[k]) {
            Some(s) => {
                let mut kind = String::from_str("/kythe/edge/param.");
                append_decimal(&mut kind, index);
                let pv = make_base_vname(corpus, s);
                emit_edge(out, d, kind, &pv);
                index = index + 1;
            },
            None => {},
        }
        assert(before + params_from(t@, corpus@, d@, ps@, k as int, index0 as nat) =~= entries_view(out@)
            + params_from(t@, corpus@, d@, ps@, k as int + 1, index as nat));
        k = k + 1;
    }
}

fn emit_params(out: &mut Vec<Entry>, cache: &mut SignatureCache, t: &Vec<Entity>, corpus: &String, i: usize, d: &VName)
    requires
        i < t@.len(),
        old(cache).valid_for(t@),
    ensures
        final(cache).valid_for(t@),
        entries_view(final(out)@) == entries_view(old(out)@) + param_entries(t@, corpus@, t@[i as int], d@),
{
    let e = &t[i];
    if e.kind == EntityKind::Function {
        let mut first: u64 = 0;
        match e.self_param {
            Some(sp) => match cache.get_signature(t, sp) {
                Some(s) => {
                    let mut kind = String::from_str("/kythe/edge/param.");
                    append_decimal(&mut kind, 0);
                    let pv = make_base_vname(corpus, s);
                    emit_edge(out, d, kind, &pv);
                    first = 1;
                },
                None => {},
            },
            None => {},
        }
        emit_param_list(out, cache, t, corpus, d, &e.params, first);
        assert(entries_view(out@) =~= entries_view(old(out)@) + param_entries(t@, corpus@, t@[i as int], d@));
    } else {
        assert(entries_view(out@) =~= entries_view(old(out)@) + param_entries(t@, corpus@, t@[i as int], d@));
    }
}

fn emit_doc_refs(out: &mut Vec<Entry>, cache: &mut SignatureCache, t: &Vec<Entity>, corpus: &String, dv: &VName, ab: &VName, refs: &Vec<DocReference>)
    requires
        old(cache).valid_for(t@),
    ensures
        final(cache).valid_for(t@),
        entries_view(final(out)@) == entries_view(old(out)@) + doc_ref_entries(t@, corpus@, dv@, ab@, refs@, 0),
{
    let mut k: usize = 0;
    while k < refs.len()
        invariant
            k <= refs@.len(),
            cache.valid_for(t@),
            entries_view(out@) + doc_ref_entries(t@, corpus@, dv@, ab@, refs@, k as int)
                == entries_view(old(out)@) + doc_ref_entries(t@, corpus@, dv@, ab@, refs@, 0),
        decreases refs@.len() - k,
    {
        let ghost before = entries_view(out@);
        let r = refs[k];
        match cache.get_signature(t, r.reference) {
            Some(rs) => {
                let rv = make_base_vname(corpus, rs);
                let mut kind = String::from_str("/kythe/edge/param.");
                append_decimal(&mut kind, k as u128);
                emit_edge(out, dv, kind, &rv);
                match r.range {
                    Some(range) => {
                        let ra = vname_with_signature(ab, anchor_sig_string(range.0, range.1));
                        emit_anchor_facts(out, &ra, range.0, range.1);
                        emit_edge(out, &ra, String::from_str("/kythe/edge/ref/doc"), &rv);
                    },
                    None => {},
                }
            },
            None => {},
        }
        assert(before + doc_ref_entries(t@, corpus@, dv@, ab@, refs@, k as int) =~= entries_view(out@)
            + doc_ref_entries(t@, corpus@, dv@, ab@, refs@, k as int + 1));
        k = k + 1;
    }
}

fn emit_docs(out: &mut Vec<Entry>, cache: &mut SignatureCache, t: &Vec<Entity>, corpus: &String, i: usize, d: &VName, ab: &VName)
    requires
        i < t@.len(),
        old(cache).valid_for(t@),
    ensures
        final(cache).valid_for(t@),
        entries_view(final(out)@) == entries_view(old(out)@) + doc_entries(t@, corpus@, t@[i as int], d@, ab@),
{
    match &t[i].doc {
        Some(doc) => {
            let mut dsig = d.signature.clone();
            dsig.append("::(DOC)");
            let dv = vname_with_signature(d, dsig);
            emit_fact(out, &dv, "/kythe/node/kind", String::from_str("doc"));
            emit_edge(out, &dv, String::from_str("/kythe/edge/documents"), d);
            let (text, refs) = process_documentation(doc.text.as_str(), &doc.links);
            emit_fact(out, &dv, "/kythe/text", text);
            emit_doc_refs(out, cache, t, corpus, &dv, ab, &refs);
            assert(entries_view(out@) =~= entries_view(old(out)@) + doc_entries(t@, corpus@, t@[i as int], d@, ab@));
        },
        None => {
            assert(entries_view(out@) =~= entries_view(old(out)@) + doc_entries(t@, corpus@, t@[i as int], d@, ab@));
        },
    }
}

fn emit_code(out: &mut Vec<Entry>, cache: &mut SignatureCache, t: &Vec<Entity>, corpus: &String, i: usize, d: &VName)
    requires
        i < t@.len(),
        old(cache).valid_for(t@),
    ensures
        final(cache).valid_for(t@),
        entries_view(final(out)@) == entries_view(old(out)@) + code_entries(t@, corpus@, i as int, d@),
{
    match render_marked_source(cache, t, corpus, i) {
        Some(m) => {
            push_entry(out, Entry::Code { source: d.copy(), code: m });
        },
        None => {},
    }
    assert(entries_view(out@) =~= entries_view(old(out)@) + code_entries(t@, corpus@, i as int, d@));
}

fn kind_has_docs(k: EntityKind) -> (r: bool)
    ensures
        r == has_docs(k),
{
    match k {
        EntityKind::GenericParam | EntityKind::Label | EntityKind::Local => false,
        _ => true,
    }
}

fn kind_has_generics(k: EntityKind) -> (r: bool)
    ensures
        r == has_generics(k),
{
    match k {
        EntityKind::Adt(_) | EntityKind::Const | EntityKind::Function | EntityKind::Trait
        | EntityKind::TraitAlias | EntityKind::TypeAlias | EntityKind::Variant(_) => true,
        _ => false,
    }
}

fn emit_definition(out: &mut Vec<Entry>, cache: &mut SignatureCache, t: &Vec<Entity>, corpus: &String, i: usize, d: &VName, a: &VName)
    requires
        i < t@.len(),
        old(cache).valid_for(t@),
    ensures
        final(cache).valid_for(t@),
        entries_view(final(out)@) == entries_view(old(out)@) + definition_entries(t@, corpus@, i as int, d@, a@),
{
    let ghost s0 = entries_view(out@);
    emit_edge(out, a, String::from_str("/kythe/edge/defines/binding"), d);
    emit_kind_facts(out, &t[i], d);
    emit_childof(out, cache, t, corpus, i, d);
    if kind_has_docs(t[i].kind) {
        emit_docs(out, cache, t, corpus, i, d, a);
    }
    if kind_has_generics(t[i].kind) {
        emit_tparams(out, cache, t, corpus, d, &t[i].generics);
    }
    emit_params(out, cache, t, corpus, i, d);
    emit_code(out, cache, t, corpus, i, d);
    assert(entries_view(out@) =~= s0 + definition_entries(t@, corpus@, i as int, d@, a@));
}

/// Whether module `m` belongs to the crate whose root module is `root`.
pub open spec fn module_in_crate(t: Seq<Entity>, root: int, m: int) -> bool
    decreases m,
{
    if m < 0 || m >= t.len() || t[m].kind != EntityKind::Module {
        false
    } else if m == root {
        true
    } else {
        match t[m].parent {
            Some(p) => p < m && module_in_crate(t, root, p as int),
            None => false,
        }
    }
}

/// The anchor of module `m`: in its file, named after its signature.
pub open spec fn module_anchor(files: Seq<VName>, e: Entity, sig: Seq<char>) -> VNameModel {
    with_signature(files[e.def_file as int]@, sig + "_anchor"@)
}

/// The anchor of a module: on the name of an inline module, or implicit at
/// 0-0 for a file module.
pub open spec fn module_anchor_entries(e: Entity, ab: VNameModel, d: VNameModel) -> Seq<EntryModel> {
    if e.inline {
        match e.def_range {
            Some(r) => anchor_facts(ab, r.0 as nat, r.1 as nat) + seq![edge(ab, "/kythe/edge/defines/binding"@, d)],
            None => Seq::empty(),
        }
    } else {
        anchor_facts(ab, 0, 0) + seq![edge(ab, "/kythe/edge/defines/implicit"@, d)]
    }
}

fn emit_module_anchor(out: &mut Vec<Entry>, e: &Entity, ab: &VName, d: &VName)
    ensures
        entries_view(final(out)@) == entries_view(old(out)@) + module_anchor_entries(*e, ab@, d@),
{
    if e.inline {
        match e.def_range {
            Some(r) => {
                emit_anchor_facts(out, ab, r.0, r.1);
                emit_edge(out, ab, String::from_str("/kythe/edge/defines/binding"), d);
            },
            None => {},
        }
    } else {
        emit_anchor_facts(out, ab, 0, 0);
        emit_edge(out, ab, String::from_str("/kythe/edge/defines/implicit"), d);
    }
    assert(entries_view(out@) =~= entries_view(old(out)@) + module_anchor_entries(*e, ab@, d@));
}

/// What the module pass emits for module `m`: its node, the `childof` edge
/// to its parent, an implicit anchor at 0-0 for a file module or an anchor
/// on the name of an inline module, and its documentation.
pub open spec fn module_entries(corpus: Seq<char>, files: Seq<VName>, t: Seq<Entity>, root: int, m: int) -> Seq<EntryModel> {
    match sig_spec(t, m) {
        None => Seq::empty(),
        Some(sig) => if t[m].def_file >= files.len() {
            Seq::empty()
        } else {
            let d = base_vname(corpus, sig);
            let ab = module_anchor(files, t[m], sig);
            kind_facts(t[m], d) + (if m == root { Seq::empty() } else { childof_entries(t, m, d, corpus) })
                + module_anchor_entries(t[m], ab, d) + doc_entries(t, corpus, t[m], d, ab) + code_entries(t, corpus, m, d)
        },
    }
}

/// The module pass from entity `m` on, in table order.
pub open spec fn modules_from(corpus: Seq<char>, files: Seq<VName>, t: Seq<Entity>, root: int, m: int) -> Seq<EntryModel>
    decreases t.len() - m,
{
    if m < 0 || m >= t.len() {
        Seq::empty()
    } else if module_in_crate(t, root, m) {
        module_entries(corpus, files, t, root, m) + modules_from(corpus, files, t, root, m + 1)
    } else {
        modules_from(corpus, files, t, root, m + 1)
    }
}

/// The token pass from token `k` on.
pub open spec fn tokens_from(corpus: Seq<char>, files: Seq<VName>, t: Seq<Entity>, toks: Seq<Token>, k: int) -> Seq<EntryModel>
    decreases toks.len() - k,
{
    if k < 0 || k >= toks.len() {
        Seq::empty()
    } else {
        token_entries(corpus, files, t, toks[k]) + tokens_from(corpus, files, t, toks, k + 1)
    }
}

/// The facts of a source file: its kind, language and text.
pub open spec fn file_entries(v: VNameModel, text: Seq<char>) -> Seq<EntryModel> {
    seq![
        fact(v, "/kythe/node/kind"@, "file"@),
        fact(v, "/kythe/language"@, "rust"@),
        fact(v, "/kythe/text"@, text),
    ]
}

/// The identity of a file node: the input's identity without language and
/// signature.
pub open spec fn file_node(v: VNameModel) -> VNameModel {
    VNameModel { language: Seq::empty(), signature: Seq::empty(), ..v }
}

/// The identity of the file node of an input with identity `v`.
pub fn file_node_vname(v: &VName) -> (r: VName)
    ensures
        r@ == file_node(v@),
{
    VName {
        corpus: v.corpus.clone(),
        root: v.root.clone(),
        path: v.path.clone(),
        language: String::new(),
        signature: String::new(),
    }
}

/// A crate root defined in one of the files `source_files`.
pub open spec fn root_in(t: Seq<Entity>, source_files: Seq<usize>, i: int) -> bool {
    is_crate_root(t[i]) && source_files.contains(t[i].def_file)
}

/// The first crate root from entity `i` on whose file is one of
/// `source_files`.
pub open spec fn first_root_from(t: Seq<Entity>, source_files: Seq<usize>, i: int) -> Option<int>
    decreases t.len() - i,
{
    if i < 0 || i >= t.len() {
        None
    } else if root_in(t, source_files, i) {
        Some(i)
    } else {
        first_root_from(t, source_files, i + 1)
    }
}

/// The first crate root, in table order, whose file is one of
/// `source_files`: the root module of the crate being indexed.
pub fn find_root_module(t: &Vec<Entity>, source_files: &Vec<usize>) -> (r: Option<usize>)
    ensures
        r matches Some(i) ==> i < t@.len() && root_in(t@, source_files@, i as int)
            && forall|j: int| 0 <= j < i ==> !root_in(t@, source_files@, j),
        r is None ==> forall|j: int| 0 <= j < t@.len() ==> !root_in(t@, source_files@, j),
        match r {
            Some(i) => first_root_from(t@, source_files@, 0) == Some(i as int),
            None => first_root_from(t@, source_files@, 0) is None,
        },
{
    for i in 0..t.len()
        invariant
            forall|j: int| 0 <= j < i ==> !root_in(t@, source_files@, j),
            first_root_from(t@, source_files@, 0) == first_root_from(t@, source_files@, i as int),
    {
        if t[i].kind == EntityKind::Module && t[i].root_file.is_some() {
            let f = t[i].def_file;
            let mut found = false;
            for k in 0..source_files.len()
                invariant
                    found == exists|m: int| 0 <= m < k && source_files@[m] == f,
            {
                if source_files[k] == f {
                    found = true;
                }
            }
            if found {
                return Some(i);
            }
            assert(!source_files@.contains(f));
        }
    }
    None
}

/// A source file of the crate: the identity of its input and its text.
#[derive(Clone, Debug)]
pub struct SourceFile {
    pub vname: VName,
    pub text: String,
}

/// The file facts of the source files from `k` on.
pub open spec fn files_from(sources: Seq<SourceFile>, k: int) -> Seq<EntryModel>
    decreases sources.len() - k,
{
    if k < 0 || k >= sources.len() {
        Seq::empty()
    } else {
        file_entries(file_node(sources[k].vname@), sources[k].text@) + files_from(sources, k + 1)
    }
}

/// Why a unit cannot be indexed.
#[derive(Clone, Copy, Debug, PartialEq, Eq, Structural)]
pub enum IndexError {
    /// An entity's enclosing scope does not come before it.
    MalformedTable,
    /// The unit has no required inputs.
    NoRequiredInputs,
    /// No crate root is defined in the unit's source files.
    NoRootModule,
}

/// The state of one indexing pass: the unit's inputs, the signatures
/// computed so far, and the entries emitted so far.
pub struct UnitAnalyzer {
    corpus: String,
    files: Vec<VName>,
    entities: Vec<Entity>,
    cache: SignatureCache,
    entries: Vec<Entry>,
}

impl UnitAnalyzer {
    pub closed spec fn corpus(&self) -> Seq<char> {
        self.corpus@
    }

    pub closed spec fn files(&self) -> Seq<VName> {
        self.files@
    }

    pub closed spec fn entities(&self) -> Seq<Entity> {
        self.entities@
    }

    /// The entries emitted so far.
    pub closed spec fn entries(&self) -> Seq<EntryModel> {
        entries_view(self.entries@)
    }

    pub closed spec fn wf(&self) -> bool {
        table_wf(self.entities@) && self.cache.valid_for(self.entities@)
    }

    /// A pass over a unit with the given corpus, file identities (indexed
    /// by file number) and entities. A unit without files (required inputs)
    /// is refused, then one whose entity table is malformed.
    pub fn new(corpus: String, files: Vec<VName>, entities: Vec<Entity>) -> (r: Result<UnitAnalyzer, IndexError>)
        ensures
            r is Ok <==> files@.len() > 0 && table_wf(entities@),
            files@.len() == 0 ==> r == Err::<UnitAnalyzer, IndexError>(IndexError::NoRequiredInputs),
            files@.len() > 0 && !table_wf(entities@) ==> r == Err::<UnitAnalyzer, IndexError>(IndexError::MalformedTable),
            r matches Ok(u) ==> u.wf() && u.corpus() == corpus@ && u.files() == files@ && u.entities()
                == entities@ && u.entries() == Seq::<EntryModel>::empty()
                && forall|k: int| !u.cached(k),
    {
        if files.len() == 0 {
            return Err(IndexError::NoRequiredInputs);
        }
        if !crate::entity::check_table(&entities) {
            return Err(IndexError::MalformedTable);
        }
        let cache = SignatureCache::new(&entities);
        let entries: Vec<Entry> = Vec::new();
        assert(entries_view(entries@) =~= Seq::<EntryModel>::empty());
        Ok(UnitAnalyzer { corpus, files, entities, cache, entries })
    }

    /// Whether the signature of entity `i` is cached.
    pub closed spec fn cached(&self, i: int) -> bool {
        self.cache.cached(i)
    }

    /// A well-formed pass has a well-formed entity table.
    pub proof fn lemma_wf_table(&self)
        requires
            self.wf(),
        ensures
            table_wf(self.entities()),
    {
    }

    /// The signature of entity `i`.
    pub fn get_signature(&mut self, i: usize) -> (r: Option<String>)
        requires
            old(self).wf(),
        ensures
            final(self).wf(),
            final(self).corpus() == old(self).corpus(),
            final(self).files() == old(self).files(),
            final(self).entities() == old(self).entities(),
            final(self).entries() == old(self).entries(),
            crate::signature::opt_text(r) == sig_spec(old(self).entities(), i as int),
            old(self).cached(i as int) ==> *final(self) == *old(self),
            r is Some ==> final(self).cached(i as int),
    {
        self.cache.get_signature(&self.entities, i)
    }

    /// Classifies a token as a definition or a reference of its entity and
    /// emits what it implies.
    pub fn visit_token(&mut self, tok: Token) -> (r: TokenEvent)
        requires
            old(self).wf(),
        ensures
            final(self).wf(),
            final(self).corpus() == old(self).corpus(),
            final(self).files() == old(self).files(),
            final(self).entities() == old(self).entities(),
            r == token_event(old(self).entities(), old(self).files(), tok),
            final(self).entries() == old(self).entries() + token_entries(
                old(self).corpus(),
                old(self).files(),
                old(self).entities(),
                tok,
            ),
    {
        let ghost s0 = entries_view(self.entries@);
        if tok.entity >= self.entities.len() || tok.file >= self.files.len() {
            return TokenEvent::Skipped;
        }
        let sig = match self.cache.get_signature(&self.entities, tok.entity) {
            Some(s) => s,
            None => {
                return TokenEvent::Skipped;
            },
        };
        let (ds, de) = match self.entities[tok.entity].def_range {
            Some(r) => r,
            None => {
                return TokenEvent::Skipped;
            },
        };
        let d = make_base_vname(&self.corpus, sig);
        let a = make_anchor_vname(&self.files[tok.file], tok.start, tok.end);
        let kind = self.entities[tok.entity].kind;
        let event = if tok.file == self.entities[tok.entity].def_file && tok.start == ds && tok.end == de {
            if kind == EntityKind::Module {
                return TokenEvent::Skipped;
            }
            emit_definition(&mut self.entries, &mut self.cache, &self.entities, &self.corpus, tok.entity, &d, &a);
            TokenEvent::Definition
        } else {
            let rk = if kind == EntityKind::Macro {
                "/kythe/edge/ref/expands"
            } else if kind == EntityKind::Function {
                "/kythe/edge/ref/call"
            } else {
                "/kythe/edge/ref"
            };
            emit_edge(&mut self.entries, &a, String::from_str(rk), &d);
            TokenEvent::Reference
        };
        emit_anchor_facts(&mut self.entries, &a, tok.start, tok.end);
        assert(entries_view(self.entries@) =~= s0 + token_entries(self.corpus@, self.files@, self.entities@, tok));
        event
    }

    /// Emits the facts of a source file whose input has identity `vname`
    /// and contents `text`; the file node is that identity without language
    /// and signature.
    pub fn emit_file(&mut self, vname: &VName, text: String)
        requires
            old(self).wf(),
        ensures
            final(self).wf(),
            final(self).corpus() == old(self).corpus(),
            final(self).files() == old(self).files(),
            final(self).entities() == old(self).entities(),
            final(self).entries() == old(self).entries() + file_entries(file_node(vname@), text@),
    {
        let ghost s0 = entries_view(self.entries@);
        let v = file_node_vname(vname);
        emit_fact(&mut self.entries, &v, "/kythe/node/kind", String::from_str("file"));
        emit_fact(&mut self.entries, &v, "/kythe/language", String::from_str("rust"));
        emit_fact(&mut self.entries, &v, "/kythe/text", text);
        assert(entries_view(self.entries@) =~= s0 + file_entries(file_node(vname@), text@));
    }

    /// Emits the node, anchor and documentation of every module of the crate
    /// whose root module is `root`, in table order.
    pub fn emit_modules(&mut self, root: usize)
        requires
            old(self).wf(),
        ensures
            final(self).wf(),
            final(self).corpus() == old(self).corpus(),
            final(self).files() == old(self).files(),
            final(self).entities() == old(self).entities(),
            final(self).entries() == old(self).entries() + modules_from(
                old(self).corpus(),
                old(self).files(),
                old(self).entities(),
                root as int,
                0,
            ),
    {
        let ghost s0 = entries_view(self.entries@);
        let ghost t = self.entities@;
        let n = self.entities.len();
        let mut in_crate: Vec<bool> = Vec::new();
        let mut m: usize = 0;
        while m < n
            invariant
                n == t.len(),
                t == self.entities@,
                m <= n,
                self.wf(),
                self.corpus@ == old(self).corpus@,
                self.files@ == old(self).files@,
                in_crate@.len() == m,
                forall|j: int| 0 <= j < m ==> in_crate@[j] == module_in_crate(t, root as int, j),
                entries_view(self.entries@) + modules_from(self.corpus@, self.files@, t, root as int, m as int)
                    == s0 + modules_from(self.corpus@, self.files@, t, root as int, 0),
            decreases n - m,
        {
            let e = &self.entities[m];
            let belongs = if e.kind != EntityKind::Module {
                false
            } else if m == root {
                true
            } else {
                match e.parent {
                    Some(p) => p < m && in_crate[p],
                    None => false,
                }
            };
            let ghost before = entries_view(self.entries@);
            if belongs {
                self.emit_module(root, m);
            }
            assert(before + modules_from(self.corpus@, self.files@, t, root as int, m as int) =~= entries_view(self.entries@)
                + modules_from(self.corpus@, self.files@, t, root as int, m as int + 1));
            in_crate.push(belongs);
            m = m + 1;
        }
    }

    #[verifier::rlimit(40)]
    fn emit_module(&mut self, root: usize, m: usize)
        requires
            old(self).wf(),
            m < old(self).entities@.len(),
        ensures
            final(self).wf(),
            final(self).corpus@ == old(self).corpus@,
            final(self).files@ == old(self).files@,
            final(self).entities@ == old(self).entities@,
            entries_view(final(self).entries@) == entries_view(old(self).entries@) + module_entries(
                old(self).corpus@,
                old(self).files@,
                old(self).entities@,
                root as int,
                m as int,
            ),
    {
        let ghost s0 = entries_view(self.entries@);
        let sig = match self.cache.get_signature(&self.entities, m) {
            Some(s) => s,
            None => {
                return;
            },
        };
        let f = self.entities[m].def_file;
        if f >= self.files.len() {
            return;
        }
        let mut asig = sig.clone();
        asig.append("_anchor");
        let ab = vname_with_signature(&self.files[f], asig);
        let d = make_base_vname(&self.corpus, sig);
        emit_kind_facts(&mut self.entries, &self.entities[m], &d);
        if m != root {
            emit_childof(&mut self.entries, &mut self.cache, &self.entities, &self.corpus, m, &d);
        }
        emit_module_anchor(&mut self.entries, &self.entities[m], &ab, &d);
        emit_docs(&mut self.entries, &mut self.cache, &self.entities, &self.corpus, m, &d, &ab);
        emit_code(&mut self.entries, &mut self.cache, &self.entities, &self.corpus, m, &d);
        assert(entries_view(self.entries@) =~= s0 + module_entries(self.corpus@, self.files@, self.entities@, root as int, m as int));
    }

    /// Visits every token in order.
    pub fn index_tokens(&mut self, toks: &Vec<Token>)
        requires
            old(self).wf(),
        ensures
            final(self).wf(),
            final(self).corpus() == old(self).corpus(),
            final(self).files() == old(self).files(),
            final(self).entities() == old(self).entities(),
            final(self).entries() == old(self).entries() + tokens_from(
                old(self).corpus(),
                old(self).files(),
                old(self).entities(),
                toks@,
                0,
            ),
    {
        let ghost s0 = self.entries();
        let mut k: usize = 0;
        while k < toks.len()
            invariant
                k <= toks@.len(),
                self.wf(),
                self.corpus() == old(self).corpus(),
                self.files() == old(self).files(),
                self.entities() == old(self).entities(),
                self.entries() + tokens_from(self.corpus(), self.files(), self.entities(), toks@, k as int)
                    == s0 + tokens_from(self.corpus(), self.files(), self.entities(), toks@, 0),
            decreases toks@.len() - k,
        {
            let ghost before = self.entries();
            self.visit_token(toks[k]);
            assert(before + tokens_from(self.corpus(), self.files(), self.entities(), toks@, k as int) =~= self.entries()
                + tokens_from(self.corpus(), self.files(), self.entities(), toks@, k as int + 1));
            k = k + 1;
        }
    }

    /// Emits the facts of every source file, in order.
    pub fn handle_files(&mut self, sources: &Vec<SourceFile>)
        requires
            old(self).wf(),
        ensures
            final(self).wf(),
            final(self).corpus() == old(self).corpus(),
            final(self).files() == old(self).files(),
            final(self).entities() == old(self).entities(),
            final(self).entries() == old(self).entries() + files_from(sources@, 0),
    {
        let ghost s0 = self.entries();
        let mut k: usize = 0;
        while k < sources.len()
            invariant
                k <= sources@.len(),
                self.wf(),
                self.corpus() == old(self).corpus(),
                self.files() == old(self).files(),
                self.entities() == old(self).entities(),
                self.entries() + files_from(sources@, k as int) == s0 + files_from(sources@, 0),
            decreases sources@.len() - k,
        {
            let ghost before = self.entries();
            self.emit_file(&sources[k].vname, sources[k].text.clone());
            assert(before + files_from(sources@, k as int) =~= self.entries() + files_from(sources@, k as int + 1));
            k = k + 1;
        }
    }

    /// Indexes the crate whose root module is `root`: its modules, then
    /// every token.
    pub fn index_crate(&mut self, root: usize, toks: &Vec<Token>)
        requires
            old(self).wf(),
        ensures
            final(self).wf(),
            final(self).corpus() == old(self).corpus(),
            final(self).files() == old(self).files(),
            final(self).entities() == old(self).entities(),
            final(self).entries() == old(self).entries() + unit_entries(
                old(self).corpus(),
                old(self).files(),
                old(self).entities(),
                root as int,
                toks@,
            ),
    {
        let ghost s0 = self.entries();
        self.emit_modules(root);
        self.index_tokens(toks);
        assert(self.entries() =~= s0 + unit_entries(self.corpus(), self.files(), self.entities(), root as int, toks@));
    }

    /// Hands out the entries emitted so far, leaving none.
    pub fn flush(&mut self) -> (r: Vec<Entry>)
        requires
            old(self).wf(),
        ensures
            final(self).wf(),
            final(self).corpus() == old(self).corpus(),
            final(self).files() == old(self).files(),
            final(self).entities() == old(self).entities(),
            final(self).entries() == Seq::<EntryModel>::empty(),
            entries_view(r@) == old(self).entries(),
    {
        let mut out: Vec<Entry> = Vec::new();
        std::mem::swap(&mut out, &mut self.entries);
        assert(entries_view(self.entries@) =~= Seq::<EntryModel>::empty());
        out
    }
}

/// Everything one pass over a unit emits: the module pass, then every
/// token in order.
pub open spec fn unit_entries(corpus: Seq<char>, files: Seq<VName>, t: Seq<Entity>, root: int, toks: Seq<Token>) -> Seq<EntryModel> {
    modules_from(corpus, files, t, root, 0) + tokens_from(corpus, files, t, toks, 0)
}

/// Indexes a unit: the module tree under `root`, then every token. The unit
/// is refused as [`UnitAnalyzer::new`] refuses it.
pub fn index_unit(corpus: String, files: Vec<VName>, entities: Vec<Entity>, root: usize, toks: &Vec<Token>) -> (r: Result<Vec<Entry>, IndexError>)
    ensures
        r is Ok <==> files@.len() > 0 && table_wf(entities@),
        files@.len() == 0 ==> r == Err::<Vec<Entry>, IndexError>(IndexError::NoRequiredInputs),
        files@.len() > 0 && !table_wf(entities@) ==> r == Err::<Vec<Entry>, IndexError>(IndexError::MalformedTable),
        r matches Ok(v) ==> entries_view(v@) == unit_entries(corpus@, files@, entities@, root as int, toks@),
{
    let mut ix = UnitAnalyzer::new(corpus, files, entities)?;
    ix.index_crate(root, toks);
    Ok(ix.flush())
}

/// Indexing is deterministic: the entries of a pass are `unit_entries` of
/// the unit (see the contracts of `index_unit`, `index_crate` and
/// `visit_token`, which hold whatever the signature cache holds), a
/// function of the unit alone, so the same unit gives the same entries in
/// the same order.
pub proof fn lemma_index_deterministic(
    corpus: Seq<char>,
    files: Seq<VName>,
    t: Seq<Entity>,
    root: int,
    toks: Seq<Token>,
    corpus2: Seq<char>,
    files2: Seq<VName>,
    t2: Seq<Entity>,
    toks2: Seq<Token>,
)
    requires
        corpus == corpus2,
        files == files2,
        t == t2,
        toks == toks2,
    ensures
        unit_entries(corpus, files, t, root, toks) == unit_entries(corpus2, files2, t2, root, toks2),
{
}

/// A compilation unit as the archive and the semantic engine describe it.
pub struct CompilationUnit {
    /// The corpus of the unit's identity.
    pub corpus: String,
    /// The identity of each required input, by file number.
    pub files: Vec<VName>,
    /// The file numbers of the crate's own source files.
    pub source_file_ids: Vec<usize>,
    /// The crate's own source files, with their text.
    pub sources: Vec<SourceFile>,
    pub entities: Vec<Entity>,
    /// The resolved identifier tokens of the source files, in order.
    pub tokens: Vec<Token>,
}

/// When a unit can be indexed, and the error otherwise.
pub open spec fn unit_check(u: &CompilationUnit) -> Result<int, IndexError> {
    if u.files@.len() == 0 {
        Err(IndexError::NoRequiredInputs)
    } else if !table_wf(u.entities@) {
        Err(IndexError::MalformedTable)
    } else {
        match first_root_from(u.entities@, u.source_file_ids@, 0) {
            Some(root) => Ok(root),
            None => Err(IndexError::NoRootModule),
        }
    }
}

/// Everything indexing a unit emits: its source files, then its crate.
pub open spec fn cu_entries(u: &CompilationUnit, root: int) -> Seq<EntryModel> {
    files_from(u.sources@, 0) + unit_entries(u.corpus@, u.files@, u.entities@, root, u.tokens@)
}

/// Indexes compilation units one after another, collecting their entries
/// until they are flushed.
pub struct KytheIndexer {
    entries: Vec<Entry>,
}

impl KytheIndexer {
    /// The entries collected and not yet flushed.
    pub closed spec fn pending(&self) -> Seq<EntryModel> {
        entries_view(self.entries@)
    }

    pub fn new() -> (r: KytheIndexer)
        ensures
            r.pending() == Seq::<EntryModel>::empty(),
    {
        let entries: Vec<Entry> = Vec::new();
        assert(entries_view(entries@) =~= Seq::<EntryModel>::empty());
        KytheIndexer { entries }
    }

    /// Indexes one unit. A unit without inputs, with a malformed entity
    /// table, or without a root module in its source files is refused and
    /// adds nothing.
    pub fn index_cu(&mut self, unit: CompilationUnit) -> (r: Result<(), IndexError>)
        ensures
            match unit_check(&unit) {
                Ok(root) => r is Ok && final(self).pending() == old(self).pending() + cu_entries(&unit, root),
                Err(e) => r == Err::<(), IndexError>(e) && final(self).pending() == old(self).pending(),
            },
    {
        if unit.files.len() == 0 {
            return Err(IndexError::NoRequiredInputs);
        }
        if !crate::entity::check_table(&unit.entities) {
            return Err(IndexError::MalformedTable);
        }
        let root = match find_root_module(&unit.entities, &unit.source_file_ids) {
            Some(root) => root,
            None => {
                return Err(IndexError::NoRootModule);
            },
        };
        let ghost u = unit;
        let CompilationUnit { corpus, files, source_file_ids: _, sources, entities, tokens } = unit;
        let mut generator = match UnitAnalyzer::new(corpus, files, entities) {
            Ok(g) => g,
            Err(e) => {
                return Err(e);
            },
        };
        generator.handle_files(&sources);
        generator.index_crate(root, &tokens);
        let mut produced = generator.flush();
        let ghost before = entries_view(self.entries@);
        let ghost added = entries_view(produced@);
        self.entries.append(&mut produced);
        assert(entries_view(self.entries@) =~= before + added);
        assert(added =~= cu_entries(&u, root as int));
        Ok(())
    }

    /// Hands out the collected entries, leaving none.
    pub fn flush(&mut self) -> (r: Vec<Entry>)
        ensures
            entries_view(r@) == old(self).pending(),
            final(self).pending() == Seq::<EntryModel>::empty(),
    {
        let mut out: Vec<Entry> = Vec::new();
        std::mem::swap(&mut out, &mut self.entries);
        assert(entries_view(self.entries@) =~= Seq::<EntryModel>::empty());
        out
    }
}

} // verus!
