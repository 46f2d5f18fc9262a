//! The semantic entities of a compilation unit, as the semantic engine
//! reports them: kind, name, enclosing scope and source locations.

use vstd::prelude::*;

verus! {

/// The three record-like type kinds.
#[derive(Clone, Copy, Debug, PartialEq, Eq, Structural)]
pub enum AdtKind {
    Struct,
    Enum,
    Union,
}

/// How an enum variant holds its fields.
#[derive(Clone, Copy, Debug, PartialEq, Eq, Structural)]
pub enum VariantShape {
    Tuple,
    Record,
    Unit,
}

/// How a `self` parameter is taken.
#[derive(Clone, Copy, Debug, PartialEq, Eq, Structural)]
pub enum SelfAccess {
    Shared,
    Exclusive,
    Owned,
}

/// The kinds of entity the indexer knows.
#[derive(Clone, Copy, Debug, PartialEq, Eq, Structural)]
pub enum EntityKind {
    Module,
    Adt(AdtKind),
    Function,
    Const,
    Static,
    Trait,
    TraitAlias,
    TypeAlias,
    Macro,
    Field,
    Variant(VariantShape),
    GenericParam,
    Label,
    Local,
}

/// A link found in documentation text, with what the semantic engine made
/// of it.
#[derive(Clone, Debug)]
pub struct DocLink {
    /// Character offsets of the whole link span in the documentation text.
    pub start: usize,
    pub end: usize,
    /// The entity the link resolves to, if any.
    pub target: Option<usize>,
    /// Where the link text stands in the source file, if known.
    pub source_range: Option<(u32, u32)>,
}

/// The documentation attached to an entity.
#[derive(Clone, Debug)]
pub struct EntityDoc {
    pub text: String,
    /// Links in increasing order of position, not overlapping.
    pub links: Vec<DocLink>,
}

/// Display data used only to render an entity's structured signature.
#[derive(Clone, Debug)]
pub struct EntityDisplay {
    pub is_public: bool,
    /// Functions: `const`, `async`, `unsafe` qualifiers.
    pub is_const: bool,
    pub is_async: bool,
    pub is_unsafe: bool,
    /// Locals: declared `mut`.
    pub is_mut: bool,
    /// Locals that are a `self` parameter, and how it is taken.
    pub self_access: Option<SelfAccess>,
    /// Generic parameters: a `const` parameter.
    pub is_const_param: bool,
    /// Macros: declared with `macro_rules!`.
    pub is_declarative: bool,
    /// The rendered type (of a constant, static, field, local, const
    /// parameter) or return type (of a function); `None` for the unit type.
    pub ty: Option<String>,
    /// The rendered initializer of a constant or static.
    pub value: Option<String>,
    /// Functions: the number of parameters, `self` included.
    pub num_params: usize,
}

/// One semantic entity.
#[derive(Clone, Debug)]
pub struct Entity {
    pub kind: EntityKind,
    /// `None` for anonymous entities such as `const _`.
    pub name: Option<String>,
    /// The entity whose signature encloses this one: the owning module of an
    /// item, the trait or implementing type of an associated item, the
    /// record or variant of a field, the enum of a variant, the owner of a
    /// generic parameter, the body owner of a label or local. `None` for a
    /// crate root, and for an associated item whose implementing type is not
    /// a user-defined type.
    pub parent: Option<usize>,
    /// For a crate root module, the path of its file.
    pub root_file: Option<String>,
    /// The range of the whole declaration.
    pub decl_start: u32,
    pub decl_end: u32,
    /// The file and range of the name that defines the entity, if found.
    pub def_file: usize,
    pub def_range: Option<(u32, u32)>,
    /// A function with a body, or a static with a value.
    pub complete: bool,
    /// A module declared inline as `mod name { ... }` rather than as a file.
    pub inline: bool,
    /// A generic parameter the compiler introduced (such as `impl Trait`).
    pub implicit: bool,
    /// Generic parameters, in declaration order.
    pub generics: Vec<usize>,
    /// Functions: the local of the `self` parameter, if any.
    pub self_param: Option<usize>,
    /// Functions: the locals of the other parameters, in order.
    pub params: Vec<usize>,
    pub doc: Option<EntityDoc>,
    pub display: EntityDisplay,
}

/// Entities are listed so that an enclosing scope comes before what it
/// encloses.
pub open spec fn table_wf(t: Seq<Entity>) -> bool {
    forall|i: int| 0 <= i < t.len() ==> ((#[trigger] t[i]).parent matches Some(p) ==> p < i)
}

/// Checks [`table_wf`].
pub fn check_table(t: &Vec<Entity>) -> (r: bool)
    ensures
        r == table_wf(t@),
{
    for i in 0..t.len()
        invariant
            forall|k: int| 0 <= k < i ==> ((#[trigger] t@[k]).parent matches Some(p) ==> p < k),
    {
        match t[i].parent {
            Some(p) => {
                if p >= i {
                    return false;
                }
            },
            None => {},
        }
    }
    true
}

} // verus!
