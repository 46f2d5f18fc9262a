//! Properties of an indexing pass that relate several of its parts.

use vstd::prelude::*;
use crate::docs::DocReference;
use crate::emit::{anchor_facts, anchor_vname, base_vname, EntryModel};
use crate::entity::{Entity, EntityKind};
use crate::indexer::{
    at_definition, childof_entries, classifiable, code_entries, definition_entries, doc_entries,
    doc_ref_entries, kind_facts, param_entries, params_from, ref_kind, token_entries, token_event,
    tparams_from, TokenEvent, Token,
};
use crate::signature::{is_crate_root, range_text, ranged, segment_spec, sig_spec, tag_spec};
use crate::entity::table_wf;
use crate::text::digit_char;
use crate::text::decimal;
use crate::vname::{VName, VNameModel};

verus! {

/// The edge kinds of a reference.
pub open spec fn is_ref_kind(k: Seq<char>) -> bool {
    k == "/kythe/edge/ref"@ || k == "/kythe/edge/ref/call"@ || k == "/kythe/edge/ref/expands"@
}

pub open spec fn is_ref_edge(e: EntryModel) -> bool {
    match e {
        EntryModel::Edge(_, k, _) => is_ref_kind(k),
        _ => false,
    }
}

pub open spec fn no_ref_edges(s: Seq<EntryModel>) -> bool {
    forall|k: int| 0 <= k < s.len() ==> !is_ref_edge(#[trigger] s[k])
}

proof fn lemma_concat(a: Seq<EntryModel>, b: Seq<EntryModel>)
    requires
        no_ref_edges(a),
        no_ref_edges(b),
    ensures
        no_ref_edges(a + b),
{
    assert forall|k: int| 0 <= k < (a + b).len() implies !is_ref_edge(#[trigger] (a + b)[k]) by {
        if k < a.len() {
            assert((a + b)[k] == a[k]);
        } else {
            assert((a + b)[k] == b[k - a.len()]);
        }
    }
}

/// A kind that starts with `p`, whose thirteenth character is not `r`, is
/// not a reference kind.
proof fn lemma_prefix_not_ref(p: Seq<char>, x: Seq<char>)
    requires
        p.len() >= 13,
        p[12] != 'r',
    ensures
        !is_ref_kind(p + x),
{
    reveal_strlit("/kythe/edge/ref");
    reveal_strlit("/kythe/edge/ref/call");
    reveal_strlit("/kythe/edge/ref/expands");
    assert((p + x)[12] == p[12]);
}

proof fn lemma_literal_kinds()
    ensures
        !is_ref_kind("/kythe/edge/defines/binding"@),
        !is_ref_kind("/kythe/edge/childof"@),
        !is_ref_kind("/kythe/edge/documents"@),
        !is_ref_kind("/kythe/edge/ref/doc"@),
        forall|x: Seq<char>| !is_ref_kind(#[trigger] ("/kythe/edge/param."@ + x)),
        forall|x: Seq<char>| !is_ref_kind(#[trigger] ("/kythe/edge/tparam."@ + x)),
        "/kythe/edge/defines/binding"@ != "/kythe/edge/ref/doc"@,
        "/kythe/edge/childof"@ != "/kythe/edge/ref/doc"@,
        "/kythe/edge/documents"@ != "/kythe/edge/ref/doc"@,
        forall|x: Seq<char>| #[trigger] ("/kythe/edge/param."@ + x) != "/kythe/edge/ref/doc"@,
        forall|x: Seq<char>| #[trigger] ("/kythe/edge/tparam."@ + x) != "/kythe/edge/ref/doc"@,
{
    reveal_strlit("/kythe/edge/ref");
    reveal_strlit("/kythe/edge/ref/call");
    reveal_strlit("/kythe/edge/ref/expands");
    reveal_strlit("/kythe/edge/defines/binding");
    reveal_strlit("/kythe/edge/childof");
    reveal_strlit("/kythe/edge/documents");
    reveal_strlit("/kythe/edge/ref/doc");
    reveal_strlit("/kythe/edge/param.");
    reveal_strlit("/kythe/edge/tparam.");
    assert forall|x: Seq<char>| !is_ref_kind(#[trigger] ("/kythe/edge/param."@ + x)) by {
        lemma_prefix_not_ref("/kythe/edge/param."@, x);
    }
    assert forall|x: Seq<char>| #[trigger] ("/kythe/edge/param."@ + x) != "/kythe/edge/ref/doc"@ by {
        assert(("/kythe/edge/param."@ + x)[12] == 'p');
    }
    assert forall|x: Seq<char>| #[trigger] ("/kythe/edge/tparam."@ + x) != "/kythe/edge/ref/doc"@ by {
        assert(("/kythe/edge/tparam."@ + x)[12] == 't');
    }
    assert("/kythe/edge/defines/binding"@.len() != "/kythe/edge/ref/doc"@.len());
    assert("/kythe/edge/childof"@[12] != "/kythe/edge/ref/doc"@[12]);
    assert("/kythe/edge/documents"@.len() != "/kythe/edge/ref/doc"@.len());
    assert forall|x: Seq<char>| !is_ref_kind(#[trigger] ("/kythe/edge/tparam."@ + x)) by {
        lemma_prefix_not_ref("/kythe/edge/tparam."@, x);
    }
    assert("/kythe/edge/ref/doc"@.len() != "/kythe/edge/ref"@.len());
    assert("/kythe/edge/ref/doc"@[16] != "/kythe/edge/ref/call"@[16]);
    assert("/kythe/edge/ref/doc"@[16] != "/kythe/edge/ref/expands"@[16]);
    assert("/kythe/edge/defines/binding"@[12] != 'r');
    assert("/kythe/edge/childof"@[12] != 'r');
    assert("/kythe/edge/documents"@[12] != 'r');
}

proof fn lemma_tparams(t: Seq<Entity>, corpus: Seq<char>, d: VNameModel, gens: Seq<usize>, k: int, index: nat)
    ensures
        no_ref_edges(tparams_from(t, corpus, d, gens, k, index)),
    decreases gens.len() - k,
{
    lemma_literal_kinds();
    if 0 <= k < gens.len() {
        lemma_tparams(t, corpus, d, gens, k + 1, index);
        lemma_tparams(t, corpus, d, gens, k + 1, index + 1);
        match sig_spec(t, gens[k] as int) {
            Some(s) => {
                let e = seq![EntryModel::Edge(d, "/kythe/edge/tparam."@ + decimal(index), base_vname(corpus, s))];
                assert(no_ref_edges(e));
                lemma_concat(e, tparams_from(t, corpus, d, gens, k + 1, index + 1));
            },
            None => {},
        }
    }
}

proof fn lemma_params(t: Seq<Entity>, corpus: Seq<char>, d: VNameModel, ps: Seq<usize>, k: int, index: nat)
    ensures
        no_ref_edges(params_from(t, corpus, d, ps, k, index)),
    decreases ps.len() - k,
{
    lemma_literal_kinds();
    if 0 <= k < ps.len() {
        lemma_params(t, corpus, d, ps, k + 1, index);
        lemma_params(t, corpus, d, ps, k + 1, index + 1);
        match sig_spec(t, ps[k] as int) {
            Some(s) => {
                let e = seq![EntryModel::Edge(d, "/kythe/edge/param."@ + decimal(index), base_vname(corpus, s))];
                assert(no_ref_edges(e));
                lemma_concat(e, params_from(t, corpus, d, ps, k + 1, index + 1));
            },
            None => {},
        }
    }
}

proof fn lemma_doc_refs(t: Seq<Entity>, corpus: Seq<char>, dv: VNameModel, ab: VNameModel, refs: Seq<DocReference>, k: int)
    ensures
        no_ref_edges(doc_ref_entries(t, corpus, dv, ab, refs, k)),
    decreases refs.len() - k,
{
    lemma_literal_kinds();
    if 0 <= k < refs.len() {
        lemma_doc_refs(t, corpus, dv, ab, refs, k + 1);
        let rest = doc_ref_entries(t, corpus, dv, ab, refs, k + 1);
        match sig_spec(t, refs[k].reference as int) {
            Some(rs) => {
                let e = seq![EntryModel::Edge(dv, "/kythe/edge/param."@ + decimal(k as nat), base_vname(corpus, rs))];
                assert(no_ref_edges(e));
                match refs[k].range {
                    Some(r) => {
                        let ra = crate::emit::with_signature(ab, crate::emit::anchor_sig(r.0 as nat, r.1 as nat));
                        let f = anchor_facts(ra, r.0 as nat, r.1 as nat);
                        let g = seq![EntryModel::Edge(ra, "/kythe/edge/ref/doc"@, base_vname(corpus, rs))];
                        assert(no_ref_edges(f));
                        assert(no_ref_edges(g));
                        lemma_concat(e, f + g);
                        lemma_concat(f, g);
                        lemma_concat(e, f + g);
                        lemma_concat(e + (f + g), rest);
                        assert(e + (f + g) + rest =~= doc_ref_entries(t, corpus, dv, ab, refs, k));
                    },
                    None => {
                        lemma_concat(e, rest);
                        assert(e + Seq::<EntryModel>::empty() + rest =~= e + rest);
                    },
                }
            },
            None => {},
        }
    }
}

proof fn lemma_definition(t: Seq<Entity>, corpus: Seq<char>, i: int, d: VNameModel, a: VNameModel)
    requires
        0 <= i < t.len(),
    ensures
        no_ref_edges(definition_entries(t, corpus, i, d, a)),
{
    lemma_literal_kinds();
    let b = seq![EntryModel::Edge(a, "/kythe/edge/defines/binding"@, d)];
    assert(no_ref_edges(b));
    let kf = kind_facts(t[i], d);
    assert(no_ref_edges(kf));
    let co = childof_entries(t, i, d, corpus);
    assert(no_ref_edges(co));
    let docs = if crate::indexer::has_docs(t[i].kind) { doc_entries(t, corpus, t[i], d, a) } else { Seq::empty() };
    match t[i].doc {
        Some(doc) => {
            let dv = crate::indexer::doc_vname(d);
            let head = seq![
                EntryModel::Fact(dv, "/kythe/node/kind"@, "doc"@),
                EntryModel::Edge(dv, "/kythe/edge/documents"@, d),
                EntryModel::Fact(dv, "/kythe/text"@, crate::docs::render_from(doc.text@, doc.links@, 0, 0)),
            ];
            assert(no_ref_edges(head));
            lemma_doc_refs(t, corpus, dv, a, crate::docs::refs_from(doc.text@, doc.links@, 0, 0), 0);
            lemma_concat(head, doc_ref_entries(t, corpus, dv, a, crate::docs::refs_from(doc.text@, doc.links@, 0, 0), 0));
        },
        None => {},
    }
    assert(no_ref_edges(docs));
    lemma_tparams(t, corpus, d, t[i].generics@, 0, 0);
    let tp = if crate::indexer::has_generics(t[i].kind) { tparams_from(t, corpus, d, t[i].generics@, 0, 0) } else { Seq::empty() };
    assert(no_ref_edges(tp));
    let pe = param_entries(t, corpus, t[i], d);
    lemma_params(t, corpus, d, t[i].params@, 0, 0);
    lemma_params(t, corpus, d, t[i].params@, 0, 1);
    match t[i].self_param {
        Some(sp) => match sig_spec(t, sp as int) {
            Some(s) => {
                let e = seq![EntryModel::Edge(d, "/kythe/edge/param."@ + decimal(0), base_vname(corpus, s))];
                assert(no_ref_edges(e));
                lemma_concat(e, params_from(t, corpus, d, t[i].params@, 0, 1));
            },
            None => {},
        },
        None => {},
    }
    assert(no_ref_edges(pe));
    let ce = code_entries(t, corpus, i, d);
    assert(no_ref_edges(ce));
    lemma_concat(b, kf);
    lemma_concat(b + kf, co);
    lemma_concat(b + kf + co, docs);
    lemma_concat(b + kf + co + docs, tp);
    lemma_concat(b + kf + co + docs + tp, pe);
    lemma_concat(b + kf + co + docs + tp + pe, ce);
}

/// A resolved token takes exactly one branch: it is a definition where it
/// stands on its entity's defining name and a reference elsewhere. A
/// definition emits no reference edge (`ref`, `ref/call`, `ref/expands`),
/// while a reference emits exactly one, from its anchor to its entity.
pub proof fn lemma_definition_reference_partition(corpus: Seq<char>, files: Seq<VName>, t: Seq<Entity>, tok: Token)
    requires
        classifiable(t, files, tok),
        t[tok.entity as int].kind != EntityKind::Module,
    ensures
        token_event(t, files, tok) == TokenEvent::Definition <==> at_definition(t, tok),
        token_event(t, files, tok) == TokenEvent::Reference <==> !at_definition(t, tok),
        at_definition(t, tok) ==> no_ref_edges(token_entries(corpus, files, t, tok)),
        !at_definition(t, tok) ==> token_entries(corpus, files, t, tok)[0] == EntryModel::Edge(
            anchor_vname(files[tok.file as int]@, tok.start as nat, tok.end as nat),
            ref_kind(t[tok.entity as int].kind),
            base_vname(corpus, sig_spec(t, tok.entity as int)->0),
        ) && is_ref_kind(ref_kind(t[tok.entity as int].kind))
            && no_ref_edges(token_entries(corpus, files, t, tok).skip(1)),
{
    let i = tok.entity as int;
    let d = base_vname(corpus, sig_spec(t, i)->0);
    let a = anchor_vname(files[tok.file as int]@, tok.start as nat, tok.end as nat);
    let af = anchor_facts(a, tok.start as nat, tok.end as nat);
    assert(no_ref_edges(af));
    if at_definition(t, tok) {
        lemma_definition(t, corpus, i, d, a);
        lemma_concat(definition_entries(t, corpus, i, d, a), af);
    } else {
        let s = token_entries(corpus, files, t, tok);
        assert(s.skip(1) =~= af);
    }
}

/// A text without `:`.
pub open spec fn colon_free(s: Seq<char>) -> bool {
    forall|k: int| 0 <= k < s.len() ==> s[k] != ':'
}

/// Names and crate root paths hold no `:`, as identifiers and the paths of
/// source files do not.
pub open spec fn names_colon_free(t: Seq<Entity>) -> bool {
    forall|i: int|
        0 <= i < t.len() ==> ((#[trigger] t[i]).name matches Some(n) ==> colon_free(n@)) && (is_crate_root(t[i])
            ==> colon_free(t[i].root_file->0@))
}

/// Distinct crate roots are distinct files.
pub open spec fn roots_distinct(t: Seq<Entity>) -> bool {
    forall|i: int, j: int|
        0 <= i < t.len() && 0 <= j < t.len() && i != j && is_crate_root(#[trigger] t[i]) && is_crate_root(#[trigger] t[j])
            ==> t[i].root_file->0@ != t[j].root_file->0@
}

/// Within one enclosing scope, distinct entities have distinct segments:
/// their kinds, names, or (where the segment carries one) ranges differ.
pub open spec fn siblings_distinct(t: Seq<Entity>) -> bool {
    forall|i: int, j: int|
        0 <= i < t.len() && 0 <= j < t.len() && i != j && !is_crate_root(#[trigger] t[i]) && !is_crate_root(#[trigger] t[j])
            && t[i].parent is Some && t[i].parent == t[j].parent && segment_spec(t[i]) is Some
            ==> segment_spec(t[i]) != segment_spec(t[j])
}

proof fn lemma_digit_not_colon(d: nat)
    requires
        d < 10,
    ensures
        digit_char(d) != ':',
{
    assert(((d + 48) as u8) as char != ':') by {
        let b: u8 = (d + 48) as u8;
        assert(b < 58);
        assert((b as char) as u32 == b as u32);
    }
}

proof fn lemma_decimal_colon_free(n: nat)
    ensures
        colon_free(crate::text::decimal(n)),
    decreases n,
{
    if n < 10 {
        lemma_digit_not_colon(n);
    } else {
        lemma_decimal_colon_free(n / 10);
        lemma_digit_not_colon(n % 10);
    }
}

proof fn lemma_concat_colon_free(a: Seq<char>, b: Seq<char>)
    requires
        colon_free(a),
        colon_free(b),
    ensures
        colon_free(a + b),
{
    assert forall|k: int| 0 <= k < (a + b).len() implies (a + b)[k] != ':' by {
        if k < a.len() {
            assert((a + b)[k] == a[k]);
        } else {
            assert((a + b)[k] == b[k - a.len()]);
        }
    }
}

proof fn lemma_tags_colon_free(k: EntityKind)
    ensures
        colon_free(tag_spec(k)),
{
    reveal_strlit("");
    reveal_strlit("STRUCT(");
    reveal_strlit("ENUM(");
    reveal_strlit("UNION(");
    reveal_strlit("FUNCTION(");
    reveal_strlit("CONST(");
    reveal_strlit("STATIC(");
    reveal_strlit("TRAIT(");
    reveal_strlit("TRAIT_ALIAS(");
    reveal_strlit("TALIAS(");
    reveal_strlit("MACRO(");
    reveal_strlit("FIELD(");
    reveal_strlit("VARIANT(");
    reveal_strlit("TVAR(");
    reveal_strlit("LABEL(");
    reveal_strlit("LOCAL(");
}

proof fn lemma_segment_colon_free(e: Entity)
    requires
        e.name matches Some(n) ==> colon_free(n@),
        segment_spec(e) is Some,
    ensures
        colon_free(segment_spec(e)->0),
{
    lemma_tags_colon_free(e.kind);
    lemma_decimal_colon_free(e.decl_start as nat);
    lemma_decimal_colon_free(e.decl_end as nat);
    let r = range_text(e.decl_start, e.decl_end);
    lemma_concat_colon_free(crate::text::decimal(e.decl_start as nat), seq!['-']);
    lemma_concat_colon_free(crate::text::decimal(e.decl_start as nat) + seq!['-'], crate::text::decimal(e.decl_end as nat));
    assert(colon_free(r));
    if e.kind == EntityKind::Module {
    } else if e.kind == EntityKind::Const && e.name is None {
        lemma_concat_colon_free(tag_spec(e.kind), r);
        lemma_concat_colon_free(tag_spec(e.kind) + r, seq![')']);
    } else {
        let n = e.name->0@;
        lemma_concat_colon_free(tag_spec(e.kind), n);
        if e.kind == EntityKind::Field {
        } else if ranged(e.kind) {
            lemma_concat_colon_free(tag_spec(e.kind) + n, seq!['|']);
            lemma_concat_colon_free(tag_spec(e.kind) + n + seq!['|'], r);
            lemma_concat_colon_free(tag_spec(e.kind) + n + seq!['|'] + r, seq![')']);
        } else {
            lemma_concat_colon_free(tag_spec(e.kind) + n, seq![')']);
        }
    }
}

/// Splitting `a::x` at its last `::`, where `x` holds no `:`.
proof fn lemma_split(a: Seq<char>, x: Seq<char>, b: Seq<char>, y: Seq<char>)
    requires
        a + "::"@ + x == b + "::"@ + y,
        colon_free(x),
        colon_free(y),
    ensures
        x == y,
        a == b,
{
    reveal_strlit("::");
    let l = a + "::"@ + x;
    let r = b + "::"@ + y;
    assert(l.len() == a.len() + 2 + x.len());
    if x.len() < y.len() {
        let q: int = a.len() + 1int;
        assert(l[q] == ':');
        assert(r[q] == y[q - b.len() - 2]);
        assert(false);
    } else if y.len() < x.len() {
        let q: int = b.len() + 1int;
        assert(r[q] == ':');
        assert(l[q] == x[q - a.len() - 2]);
        assert(false);
    } else {
        assert(x =~= l.skip(a.len() + 2int));
        assert(y =~= r.skip(b.len() + 2int));
        assert(a =~= l.take(a.len() as int));
        assert(b =~= r.take(b.len() as int));
    }
}

proof fn lemma_non_root_has_colon(t: Seq<Entity>, j: int)
    requires
        0 <= j < t.len(),
        !is_crate_root(t[j]),
        sig_spec(t, j) is Some,
    ensures
        !colon_free(sig_spec(t, j)->0),
{
    reveal_strlit("::");
    let p = t[j].parent->0 as int;
    let ps = sig_spec(t, p)->0;
    let seg = segment_spec(t[j])->0;
    assert(sig_spec(t, j)->0 == ps + "::"@ + seg);
    assert((ps + "::"@ + seg)[ps.len() as int] == ':');
}

/// Distinct entities of a unit have distinct signatures, where names hold
/// no `:`, crate roots are distinct files, and entities that share an
/// enclosing scope differ in their own segment.
pub proof fn lemma_signatures_unique(t: Seq<Entity>, i: int, j: int)
    requires
        table_wf(t),
        names_colon_free(t),
        roots_distinct(t),
        siblings_distinct(t),
        0 <= i < t.len(),
        0 <= j < t.len(),
        i != j,
        sig_spec(t, i) is Some,
        sig_spec(t, j) is Some,
    ensures
        sig_spec(t, i) != sig_spec(t, j),
    decreases i + j,
{
    let ti = t[i];
    let tj = t[j];
    if sig_spec(t, i) == sig_spec(t, j) {
        if is_crate_root(ti) && is_crate_root(tj) {
            assert(ti.root_file->0@ != tj.root_file->0@);
        } else if is_crate_root(ti) {
            lemma_non_root_has_colon(t, j);
        } else if is_crate_root(tj) {
            lemma_non_root_has_colon(t, i);
        } else {
            let pi = ti.parent->0 as int;
            let pj = tj.parent->0 as int;
            let si = segment_spec(ti)->0;
            let sj = segment_spec(tj)->0;
            lemma_segment_colon_free(ti);
            lemma_segment_colon_free(tj);
            assert(sig_spec(t, i)->0 == sig_spec(t, pi)->0 + "::"@ + si);
            assert(sig_spec(t, j)->0 == sig_spec(t, pj)->0 + "::"@ + sj);
            lemma_split(sig_spec(t, pi)->0, si, sig_spec(t, pj)->0, sj);
            if pi == pj {
                assert(segment_spec(ti) != segment_spec(tj));
            } else {
                lemma_signatures_unique(t, pi, pj);
            }
        }
    }
}

/// No `ref/doc` edge from `a` to `d`.
pub open spec fn no_refdoc_to(s: Seq<EntryModel>, a: VNameModel, d: VNameModel) -> bool {
    forall|k: int| 0 <= k < s.len() ==> #[trigger] s[k] != EntryModel::Edge(a, "/kythe/edge/ref/doc"@, d)
}

/// No edge of kind `ref/doc` at all.
pub open spec fn no_refdoc(s: Seq<EntryModel>) -> bool {
    forall|k: int| 0 <= k < s.len() ==> !((#[trigger] s[k]) matches EntryModel::Edge(_, kind, _) && kind == "/kythe/edge/ref/doc"@)
}

proof fn lemma_concat_to(x: Seq<EntryModel>, y: Seq<EntryModel>, a: VNameModel, d: VNameModel)
    requires
        no_refdoc_to(x, a, d),
        no_refdoc_to(y, a, d),
    ensures
        no_refdoc_to(x + y, a, d),
{
    assert forall|k: int| 0 <= k < (x + y).len() implies #[trigger] (x + y)[k] != EntryModel::Edge(a, "/kythe/edge/ref/doc"@, d) by {
        if k < x.len() {
            assert((x + y)[k] == x[k]);
        } else {
            assert((x + y)[k] == y[k - x.len()]);
        }
    }
}

proof fn lemma_no_refdoc_to(s: Seq<EntryModel>, a: VNameModel, d: VNameModel)
    requires
        no_refdoc(s),
    ensures
        no_refdoc_to(s, a, d),
{
    assert forall|k: int| 0 <= k < s.len() implies #[trigger] s[k] != EntryModel::Edge(a, "/kythe/edge/ref/doc"@, d) by {
        assert(!(s[k] matches EntryModel::Edge(_, kind, _) && kind == "/kythe/edge/ref/doc"@));
    }
}

proof fn lemma_concat_refdoc(x: Seq<EntryModel>, y: Seq<EntryModel>)
    requires
        no_refdoc(x),
        no_refdoc(y),
    ensures
        no_refdoc(x + y),
{
    assert forall|k: int| 0 <= k < (x + y).len() implies !((#[trigger] (x + y)[k]) matches EntryModel::Edge(_, kind, _) && kind == "/kythe/edge/ref/doc"@) by {
        if k < x.len() {
            assert((x + y)[k] == x[k]);
        } else {
            assert((x + y)[k] == y[k - x.len()]);
        }
    }
}

proof fn lemma_tparams_refdoc(t: Seq<Entity>, corpus: Seq<char>, d: VNameModel, gens: Seq<usize>, k: int, index: nat)
    ensures
        no_refdoc(tparams_from(t, corpus, d, gens, k, index)),
    decreases gens.len() - k,
{
    lemma_literal_kinds();
    if 0 <= k < gens.len() {
        lemma_tparams_refdoc(t, corpus, d, gens, k + 1, index);
        lemma_tparams_refdoc(t, corpus, d, gens, k + 1, index + 1);
        match sig_spec(t, gens[k] as int) {
            Some(s) => {
                let e = seq![EntryModel::Edge(d, "/kythe/edge/tparam."@ + decimal(index), base_vname(corpus, s))];
                assert(no_refdoc(e));
                lemma_concat_refdoc(e, tparams_from(t, corpus, d, gens, k + 1, index + 1));
            },
            None => {},
        }
    }
}

proof fn lemma_params_refdoc(t: Seq<Entity>, corpus: Seq<char>, d: VNameModel, ps: Seq<usize>, k: int, index: nat)
    ensures
        no_refdoc(params_from(t, corpus, d, ps, k, index)),
    decreases ps.len() - k,
{
    lemma_literal_kinds();
    if 0 <= k < ps.len() {
        lemma_params_refdoc(t, corpus, d, ps, k + 1, index);
        lemma_params_refdoc(t, corpus, d, ps, k + 1, index + 1);
        match sig_spec(t, ps[k] as int) {
            Some(s) => {
                let e = seq![EntryModel::Edge(d, "/kythe/edge/param."@ + decimal(index), base_vname(corpus, s))];
                assert(no_refdoc(e));
                lemma_concat_refdoc(e, params_from(t, corpus, d, ps, k + 1, index + 1));
            },
            None => {},
        }
    }
}

/// A resolved link whose anchor is `a` itself and whose target is the node
/// `d`.
pub open spec fn points_back(t: Seq<Entity>, corpus: Seq<char>, a: VNameModel, d: VNameModel, r: DocReference) -> bool {
    let rr = r.range->0;
    &&& r.range is Some
    &&& crate::emit::with_signature(a, crate::emit::anchor_sig(rr.0 as nat, rr.1 as nat)) == a
    &&& sig_spec(t, r.reference as int) is Some
    &&& base_vname(corpus, sig_spec(t, r.reference as int)->0) == d
}

proof fn lemma_doc_refs_to(t: Seq<Entity>, corpus: Seq<char>, dv: VNameModel, a: VNameModel, d: VNameModel, refs: Seq<DocReference>, k: int)
    requires
        forall|j: int| 0 <= j < refs.len() ==> !points_back(t, corpus, a, d, #[trigger] refs[j]),
    ensures
        no_refdoc_to(doc_ref_entries(t, corpus, dv, a, refs, k), a, d),
    decreases refs.len() - k,
{
    lemma_literal_kinds();
    if 0 <= k < refs.len() {
        lemma_doc_refs_to(t, corpus, dv, a, d, refs, k + 1);
        let rest = doc_ref_entries(t, corpus, dv, a, refs, k + 1);
        match sig_spec(t, refs[k].reference as int) {
            Some(rs) => {
                let e = seq![EntryModel::Edge(dv, "/kythe/edge/param."@ + decimal(k as nat), base_vname(corpus, rs))];
                assert(no_refdoc_to(e, a, d));
                assert(!points_back(t, corpus, a, d, refs[k]));
                match refs[k].range {
                    Some(r) => {
                        let ra = crate::emit::with_signature(a, crate::emit::anchor_sig(r.0 as nat, r.1 as nat));
                        let f = anchor_facts(ra, r.0 as nat, r.1 as nat);
                        let g = seq![EntryModel::Edge(ra, "/kythe/edge/ref/doc"@, base_vname(corpus, rs))];
                        assert(no_refdoc_to(f, a, d));
                        assert(no_refdoc_to(g, a, d));
                        lemma_concat_to(f, g, a, d);
                        lemma_concat_to(e, f + g, a, d);
                        lemma_concat_to(e + (f + g), rest, a, d);
                        assert(e + (f + g) + rest =~= doc_ref_entries(t, corpus, dv, a, refs, k));
                    },
                    None => {
                        lemma_concat_to(e, rest, a, d);
                        assert(e + Seq::<EntryModel>::empty() + rest =~= e + rest);
                    },
                }
            },
            None => {},
        }
    }
}

/// The entity's documentation has a resolved link that stands on the
/// token's own anchor and points back at the entity.
pub open spec fn doc_points_back(corpus: Seq<char>, files: Seq<VName>, t: Seq<Entity>, tok: Token) -> bool {
    let i = tok.entity as int;
    let d = base_vname(corpus, sig_spec(t, i)->0);
    let a = anchor_vname(files[tok.file as int]@, tok.start as nat, tok.end as nat);
    match t[i].doc {
        Some(doc) => exists|j: int| 0 <= j < crate::docs::refs_from(doc.text@, doc.links@, 0, 0).len()
            && points_back(t, corpus, a, d, #[trigger] crate::docs::refs_from(doc.text@, doc.links@, 0, 0)[j]),
        None => false,
    }
}

/// A definition token emits no reference edge of any kind (`ref`,
/// `ref/call`, `ref/expands`, `ref/doc`) from its anchor to its entity,
/// unless the entity's documentation links back to the entity from that
/// very anchor.
pub proof fn lemma_definition_no_self_reference(corpus: Seq<char>, files: Seq<VName>, t: Seq<Entity>, tok: Token)
    requires
        classifiable(t, files, tok),
        at_definition(t, tok),
        !doc_points_back(corpus, files, t, tok),
    ensures
        forall|k: int| 0 <= k < token_entries(corpus, files, t, tok).len() ==> !((#[trigger] token_entries(corpus, files, t, tok)[k])
            matches EntryModel::Edge(x, kind, y) && x == anchor_vname(files[tok.file as int]@, tok.start as nat, tok.end as nat)
            && y == base_vname(corpus, sig_spec(t, tok.entity as int)->0) && (is_ref_kind(kind) || kind == "/kythe/edge/ref/doc"@)),
{
    let i = tok.entity as int;
    let d = base_vname(corpus, sig_spec(t, i)->0);
    let a = anchor_vname(files[tok.file as int]@, tok.start as nat, tok.end as nat);
    let s = token_entries(corpus, files, t, tok);
    if t[i].kind == EntityKind::Module {
        assert(s.len() == 0);
    } else {
        lemma_definition_reference_partition(corpus, files, t, tok);
        lemma_literal_kinds();
        let b = seq![EntryModel::Edge(a, "/kythe/edge/defines/binding"@, d)];
        let kf = kind_facts(t[i], d);
        let co = childof_entries(t, i, d, corpus);
        assert(no_refdoc(b));
        assert(no_refdoc(kf));
        assert(no_refdoc(co));
        lemma_concat_refdoc(b, kf);
        lemma_concat_refdoc(b + kf, co);
        lemma_no_refdoc_to(b + kf + co, a, d);
        let docs = if crate::indexer::has_docs(t[i].kind) { doc_entries(t, corpus, t[i], d, a) } else { Seq::empty() };
        match t[i].doc {
            Some(doc) => {
                let dv = crate::indexer::doc_vname(d);
                let refs = crate::docs::refs_from(doc.text@, doc.links@, 0, 0);
                let head = seq![
                    EntryModel::Fact(dv, "/kythe/node/kind"@, "doc"@),
                    EntryModel::Edge(dv, "/kythe/edge/documents"@, d),
                    EntryModel::Fact(dv, "/kythe/text"@, crate::docs::render_from(doc.text@, doc.links@, 0, 0)),
                ];
                assert(no_refdoc(head));
                lemma_no_refdoc_to(head, a, d);
                assert forall|j: int| 0 <= j < refs.len() implies !points_back(t, corpus, a, d, #[trigger] refs[j]) by {
                }
                lemma_doc_refs_to(t, corpus, dv, a, d, refs, 0);
                lemma_concat_to(head, doc_ref_entries(t, corpus, dv, a, refs, 0), a, d);
            },
            None => {},
        }
        assert(no_refdoc_to(docs, a, d));
        lemma_tparams_refdoc(t, corpus, d, t[i].generics@, 0, 0);
        let tp = if crate::indexer::has_generics(t[i].kind) { tparams_from(t, corpus, d, t[i].generics@, 0, 0) } else { Seq::empty() };
        assert(no_refdoc(tp));
        lemma_params_refdoc(t, corpus, d, t[i].params@, 0, 0);
        lemma_params_refdoc(t, corpus, d, t[i].params@, 0, 1);
        let pe = param_entries(t, corpus, t[i], d);
        match t[i].self_param {
            Some(sp) => match sig_spec(t, sp as int) {
                Some(x) => {
                    let e = seq![EntryModel::Edge(d, "/kythe/edge/param."@ + decimal(0), base_vname(corpus, x))];
                    assert(no_refdoc(e));
                    lemma_concat_refdoc(e, params_from(t, corpus, d, t[i].params@, 0, 1));
                },
                None => {},
            },
            None => {},
        }
        assert(no_refdoc(pe));
        let ce = code_entries(t, corpus, i, d);
        assert(no_refdoc(ce));
        let af = anchor_facts(a, tok.start as nat, tok.end as nat);
        assert(no_refdoc(af));
        lemma_concat_refdoc(tp, pe);
        lemma_concat_refdoc(tp + pe, ce);
        lemma_concat_refdoc(tp + pe + ce, af);
        lemma_no_refdoc_to(tp + pe + ce + af, a, d);
        lemma_concat_to(b + kf + co, docs, a, d);
        lemma_concat_to(b + kf + co + docs, tp + pe + ce + af, a, d);
        assert(s =~= b + kf + co + docs + (tp + pe + ce + af));
        assert(no_ref_edges(s));
        assert forall|k: int| 0 <= k < s.len() implies !((#[trigger] s[k]) matches EntryModel::Edge(x, kind, y) && x == a && y == d
            && (is_ref_kind(kind) || kind == "/kythe/edge/ref/doc"@)) by {
            assert(!is_ref_edge(s[k]));
            assert(s[k] != EntryModel::Edge(a, "/kythe/edge/ref/doc"@, d));
        }
    }
}

} // verus!
