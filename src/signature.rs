//! Hierarchical signatures: `<parent>::<TAG>(<name>[|<start>-<end>])`.

use vstd::prelude::*;
use crate::entity::{AdtKind, Entity, EntityKind};
use crate::text::{push_char, append_decimal, decimal};

verus! {

/// The tag that opens an entity's segment.
pub open spec fn tag_spec(k: EntityKind) -> Seq<char> {
    match k {
        EntityKind::Module => ""@,
        EntityKind::Adt(AdtKind::Struct) => "STRUCT("@,
        EntityKind::Adt(AdtKind::Enum) => "ENUM("@,
        EntityKind::Adt(AdtKind::Union) => "UNION("@,
        EntityKind::Function => "FUNCTION("@,
        EntityKind::Const => "CONST("@,
        EntityKind::Static => "STATIC("@,
        EntityKind::Trait => "TRAIT("@,
        EntityKind::TraitAlias => "TRAIT_ALIAS("@,
        EntityKind::TypeAlias => "TALIAS("@,
        EntityKind::Macro => "MACRO("@,
        EntityKind::Field => "FIELD("@,
        EntityKind::Variant(_) => "VARIANT("@,
        EntityKind::GenericParam => "TVAR("@,
        EntityKind::Label => "LABEL("@,
        EntityKind::Local => "LOCAL("@,
    }
}

fn tag_text(k: EntityKind) -> (r: &'static str)
    ensures
        r@ == tag_spec(k),
{
    match k {
        EntityKind::Module => "",
        EntityKind::Adt(AdtKind::Struct) => "STRUCT(",
        EntityKind::Adt(AdtKind::Enum) => "ENUM(",
        EntityKind::Adt(AdtKind::Union) => "UNION(",
        EntityKind::Function => "FUNCTION(",
        EntityKind::Const => "CONST(",
        EntityKind::Static => "STATIC(",
        EntityKind::Trait => "TRAIT(",
        EntityKind::TraitAlias => "TRAIT_ALIAS(",
        EntityKind::TypeAlias => "TALIAS(",
        EntityKind::Macro => "MACRO(",
        EntityKind::Field => "FIELD(",
        EntityKind::Variant(_) => "VARIANT(",
        EntityKind::GenericParam => "TVAR(",
        EntityKind::Label => "LABEL(",
        EntityKind::Local => "LOCAL(",
    }
}

/// Kinds whose segment carries the declaration's range after the name.
pub open spec fn ranged(k: EntityKind) -> bool {
    k == EntityKind::Static || k == EntityKind::TypeAlias || k == EntityKind::Label || k
        == EntityKind::Local
}

/// `<start>-<end>`.
pub open spec fn range_text(start: u32, end: u32) -> Seq<char> {
    decimal(start as nat) + seq!['-'] + decimal(end as nat)
}

/// The last segment of an entity's signature. A field's segment is left
/// open, without its closing parenthesis.
pub open spec fn segment_spec(e: Entity) -> Option<Seq<char>> {
    if e.kind == EntityKind::Module {
        match e.name {
            Some(n) => Some(n@),
            None => None,
        }
    } else if e.kind == EntityKind::Const && e.name is None {
        Some(tag_spec(e.kind) + range_text(e.decl_start, e.decl_end) + seq![')'])
    } else {
        match e.name {
            Some(n) => if e.kind == EntityKind::Field {
                Some(tag_spec(e.kind) + n@)
            } else if ranged(e.kind) {
                Some(tag_spec(e.kind) + n@ + seq!['|'] + range_text(e.decl_start, e.decl_end) + seq![')'])
            } else {
                Some(tag_spec(e.kind) + n@ + seq![')'])
            },
            None => None,
        }
    }
}

/// Whether the entity is a crate root: a module with the path of its file.
pub open spec fn is_crate_root(e: Entity) -> bool {
    e.kind == EntityKind::Module && e.root_file is Some
}

/// The signature of entity `i`: a crate root's is its file path, any other
/// entity's is its parent's signature, `::`, and its segment. `None` where
/// there is no parent or segment, or the parent has no signature.
pub open spec fn sig_spec(t: Seq<Entity>, i: int) -> Option<Seq<char>>
    decreases i,
{
    if i < 0 || i >= t.len() {
        None
    } else if is_crate_root(t[i]) {
        Some(t[i].root_file->0@)
    } else {
        match (t[i].parent, segment_spec(t[i])) {
            (Some(p), Some(seg)) => if p < i {
                match sig_spec(t, p as int) {
                    Some(ps) => Some(ps + "::"@ + seg),
                    None => None,
                }
            } else {
                None
            },
            _ => None,
        }
    }
}

/// The view of an optional string.
pub open spec fn opt_text(o: Option<String>) -> Option<Seq<char>> {
    match o {
        Some(s) => Some(s@),
        None => None,
    }
}

/// Signatures computed so far in one indexing pass.
pub struct SignatureCache {
    sigs: Vec<Option<String>>,
}

impl SignatureCache {
    /// Every cached signature is the entity's signature.
    pub closed spec fn valid_for(&self, t: Seq<Entity>) -> bool {
        &&& self.sigs@.len() == t.len()
        &&& forall|k: int| 0 <= k < t.len() ==> ((#[trigger] self.sigs@[k]) matches Some(s)
            ==> sig_spec(t, k) == Some(s@))
    }

    /// Whether the signature of entity `i` is cached.
    pub closed spec fn cached(&self, i: int) -> bool {
        0 <= i < self.sigs@.len() && self.sigs@[i] is Some
    }

    /// An empty cache for the entities of `t`.
    pub fn new(t: &Vec<Entity>) -> (r: SignatureCache)
        ensures
            r.valid_for(t@),
            forall|k: int| !r.cached(k),
    {
        let mut sigs: Vec<Option<String>> = Vec::new();
        for i in 0..t.len()
            invariant
                sigs@.len() == i,
                forall|k: int| 0 <= k < i ==> (#[trigger] sigs@[k]) is None,
        {
            sigs.push(None);
        }
        SignatureCache { sigs }
    }

    /// The signature of entity `i`, from the cache or computed and cached.
    /// A cached signature is returned with the cache left as it was; one
    /// computed is cached; what was cached stays cached.
    pub fn get_signature(&mut self, t: &Vec<Entity>, i: usize) -> (r: Option<String>)
        requires
            old(self).valid_for(t@),
        ensures
            final(self).valid_for(t@),
            opt_text(r) == sig_spec(t@, i as int),
            old(self).cached(i as int) ==> *final(self) == *old(self),
            r is Some ==> final(self).cached(i as int),
            forall|k: int| #[trigger] old(self).cached(k) ==> final(self).cached(k),
        decreases i,
    {
        if i >= t.len() {
            return None;
        }
        match &self.sigs[i] {
            Some(s) => {
                return Some(s.clone());
            },
            None => {},
        }
        let e = &t[i];
        let sig: Option<String> = if e.kind == EntityKind::Module && e.root_file.is_some() {
            match &e.root_file {
                Some(f) => Some(f.clone()),
                None => None,
            }
        } else {
            match e.parent {
                Some(p) => {
                    if p < i {
                        match self.get_signature(t, p) {
                            Some(ps) => {
                                let mut out = ps;
                                out.append("::");
                                if append_segment(&mut out, e) {
                                    Some(out)
                                } else {
                                    None
                                }
                            },
                            None => None,
                        }
                    } else {
                        None
                    }
                },
                None => None,
            }
        };
        proof {
            if !is_crate_root(t@[i as int]) && segment_spec(t@[i as int]) is None {
                assert(sig_spec(t@, i as int) is None);
            }
        }
        match &sig {
            Some(s) => {
                let ghost mid = self.sigs@;
                self.sigs.set(i, Some(s.clone()));
                assert forall|k: int| 0 <= k < mid.len() && mid[k] is Some implies #[trigger] self.sigs@[k] is Some by {
                    if k != i {
                        assert(self.sigs@[k] == mid[k]);
                    }
                }
            },
            None => {},
        }
        sig
    }
}

/// Appends the entity's segment to `out`; `false`, with `out` unspecified,
/// where the entity has none.
fn append_segment(out: &mut String, e: &Entity) -> (ok: bool)
    ensures
        ok == segment_spec(*e) is Some,
        ok ==> final(out)@ == old(out)@ + segment_spec(*e)->0,
{
    if e.kind == EntityKind::Module {
        match &e.name {
            Some(n) => {
                out.append(n.as_str());
                true
            },
            None => false,
        }
    } else if e.kind == EntityKind::Const && e.name.is_none() {
        out.append(tag_text(e.kind));
        append_range(out, e.decl_start, e.decl_end);
        push_char(out, ')');
        assert(out@ =~= old(out)@ + segment_spec(*e)->0);
        true
    } else {
        match &e.name {
            Some(n) => {
                out.append(tag_text(e.kind));
                out.append(n.as_str());
                if e.kind == EntityKind::Field {
                } else if e.kind == EntityKind::Static || e.kind == EntityKind::TypeAlias
                    || e.kind == EntityKind::Label || e.kind == EntityKind::Local {
                    push_char(out, '|');
                    append_range(out, e.decl_start, e.decl_end);
                    push_char(out, ')');
                } else {
                    push_char(out, ')');
                }
                assert(out@ =~= old(out)@ + segment_spec(*e)->0);
                true
            },
            None => false,
        }
    }
}

/// Appends `<start>-<end>`.
pub(crate) fn append_range(out: &mut String, start: u32, end: u32)
    ensures
        final(out)@ == old(out)@ + range_text(start, end),
{
    append_decimal(out, start as u128);
    push_char(out, '-');
    append_decimal(out, end as u128);
    assert(out@ =~= old(out)@ + range_text(start, end));
}

} // verus!
