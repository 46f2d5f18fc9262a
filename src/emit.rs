//! Graph entries and the primitives that append them.

use vstd::prelude::*;
use crate::text::append_decimal;
use crate::text::decimal;
use crate::marked::{MarkedModel, MarkedSource};
use crate::vname::{VName, VNameModel};

verus! {

/// One graph entry: a fact about a node, or an edge between two nodes.
#[derive(Debug, PartialEq, Eq)]
pub enum Entry {
    Fact { source: VName, name: String, value: String },
    /// The structured signature of a node.
    Code { source: VName, code: MarkedSource },
    Edge { source: VName, kind: String, target: VName },
}

/// The mathematical value of an [`Entry`].
pub enum EntryModel {
    Fact(VNameModel, Seq<char>, Seq<char>),
    Code(VNameModel, MarkedModel),
    Edge(VNameModel, Seq<char>, VNameModel),
}

impl View for Entry {
    type V = EntryModel;

    open spec fn view(&self) -> EntryModel {
        match self {
            Entry::Fact { source, name, value } => EntryModel::Fact(source@, name@, value@),
            Entry::Code { source, code } => EntryModel::Code(source@, code@),
            Entry::Edge { source, kind, target } => EntryModel::Edge(source@, kind@, target@),
        }
    }
}

pub open spec fn entries_view(s: Seq<Entry>) -> Seq<EntryModel> {
    s.map_values(|e: Entry| e@)
}

pub open spec fn fact(v: VNameModel, name: Seq<char>, value: Seq<char>) -> EntryModel {
    EntryModel::Fact(v, name, value)
}

pub open spec fn edge(v: VNameModel, kind: Seq<char>, target: VNameModel) -> EntryModel {
    EntryModel::Edge(v, kind, target)
}

/// The identity of a semantic node: the unit's corpus, the language, and
/// the signature.
pub open spec fn base_vname(corpus: Seq<char>, sig: Seq<char>) -> VNameModel {
    VNameModel {
        corpus,
        root: Seq::empty(),
        path: Seq::empty(),
        language: "rust"@,
        signature: sig,
    }
}

pub open spec fn with_signature(v: VNameModel, sig: Seq<char>) -> VNameModel {
    VNameModel { signature: sig, ..v }
}

/// `anchor_<start>_to_<end>`.
pub open spec fn anchor_sig(start: nat, end: nat) -> Seq<char> {
    "anchor_"@ + decimal(start) + "_to_"@ + decimal(end)
}

/// The identity of an anchor over `start..end` in a file.
pub open spec fn anchor_vname(file: VNameModel, start: nat, end: nat) -> VNameModel {
    VNameModel { language: "rust"@, signature: anchor_sig(start, end), ..file }
}

/// The facts every anchor carries.
pub open spec fn anchor_facts(a: VNameModel, start: nat, end: nat) -> Seq<EntryModel> {
    seq![
        fact(a, "/kythe/node/kind"@, "anchor"@),
        fact(a, "/kythe/loc/start"@, decimal(start)),
        fact(a, "/kythe/loc/end"@, decimal(end)),
    ]
}

pub(crate) fn push_entry(out: &mut Vec<Entry>, e: Entry)
    ensures
        entries_view(final(out)@) == entries_view(old(out)@).push(e@),
{
    let ghost e_view = e@;
    out.push(e);
    assert(entries_view(out@) =~= entries_view(old(out)@).push(e_view));
}

pub(crate) fn emit_fact(out: &mut Vec<Entry>, v: &VName, name: &str, value: String)
    ensures
        entries_view(final(out)@) == entries_view(old(out)@).push(fact(v@, name@, value@)),
{
    push_entry(out, Entry::Fact { source: v.copy(), name: String::from_str(name), value });
}

pub(crate) fn emit_edge(out: &mut Vec<Entry>, v: &VName, kind: String, target: &VName)
    ensures
        entries_view(final(out)@) == entries_view(old(out)@).push(edge(v@, kind@, target@)),
{
    push_entry(out, Entry::Edge { source: v.copy(), kind, target: target.copy() });
}

/// The decimal text of `n` as a string.
pub(crate) fn decimal_string(n: u128) -> (r: String)
    ensures
        r@ == decimal(n as nat),
{
    let mut s = String::new();
    append_decimal(&mut s, n);
    assert(s@ =~= decimal(n as nat));
    s
}

pub(crate) fn emit_anchor_facts(out: &mut Vec<Entry>, a: &VName, start: u32, end: u32)
    ensures
        entries_view(final(out)@) == entries_view(old(out)@) + anchor_facts(a@, start as nat, end as nat),
{
    emit_fact(out, a, "/kythe/node/kind", String::from_str("anchor"));
    emit_fact(out, a, "/kythe/loc/start", decimal_string(start as u128));
    emit_fact(out, a, "/kythe/loc/end", decimal_string(end as u128));
    assert(entries_view(out@) =~= entries_view(old(out)@) + anchor_facts(a@, start as nat, end as nat));
}

/// The identity of a semantic node with signature `sig`.
pub(crate) fn make_base_vname(corpus: &String, sig: String) -> (r: VName)
    ensures
        r@ == base_vname(corpus@, sig@),
{
    VName {
        corpus: corpus.clone(),
        root: String::new(),
        path: String::new(),
        language: String::from_str("rust"),
        signature: sig,
    }
}

/// `anchor_<start>_to_<end>`.
pub(crate) fn anchor_sig_string(start: u32, end: u32) -> (r: String)
    ensures
        r@ == anchor_sig(start as nat, end as nat),
{
    let mut sig = String::from_str("anchor_");
    append_decimal(&mut sig, start as u128);
    sig.append("_to_");
    append_decimal(&mut sig, end as u128);
    sig
}

/// A copy of `v` with signature `sig`.
pub(crate) fn vname_with_signature(v: &VName, sig: String) -> (r: VName)
    ensures
        r@ == with_signature(v@, sig@),
{
    VName {
        corpus: v.corpus.clone(),
        root: v.root.clone(),
        path: v.path.clone(),
        language: v.language.clone(),
        signature: sig,
    }
}

/// The identity of an anchor over `start..end` in the file `file`.
pub(crate) fn make_anchor_vname(file: &VName, start: u32, end: u32) -> (r: VName)
    ensures
        r@ == anchor_vname(file@, start as nat, end as nat),
{
    let sig = anchor_sig_string(start, end);
    VName {
        corpus: file.corpus.clone(),
        root: file.root.clone(),
        path: file.path.clone(),
        language: String::from_str("rust"),
        signature: sig,
    }
}

} // verus!
