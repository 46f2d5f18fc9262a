//! The addressable handle of every graph node.

use vstd::prelude::*;

verus! {

/// A node identity: two identities with equal fields are the same node.
#[derive(Clone, Debug, PartialEq, Eq, Hash, Default)]
pub struct VName {
    pub corpus: String,
    pub root: String,
    pub path: String,
    pub language: String,
    pub signature: String,
}

/// The mathematical value of a [`VName`].
pub struct VNameModel {
    pub corpus: Seq<char>,
    pub root: Seq<char>,
    pub path: Seq<char>,
    pub language: Seq<char>,
    pub signature: Seq<char>,
}

impl View for VName {
    type V = VNameModel;

    open spec fn view(&self) -> VNameModel {
        VNameModel {
            corpus: self.corpus@,
            root: self.root@,
            path: self.path@,
            language: self.language@,
            signature: self.signature@,
        }
    }
}

impl VName {
    /// An identity with every field empty.
    pub fn new() -> (r: VName)
        ensures
            r@ == (VNameModel {
                corpus: Seq::empty(),
                root: Seq::empty(),
                path: Seq::empty(),
                language: Seq::empty(),
                signature: Seq::empty(),
            }),
    {
        VName {
            corpus: String::new(),
            root: String::new(),
            path: String::new(),
            language: String::new(),
            signature: String::new(),
        }
    }

    /// A field-by-field copy.
    pub fn copy(&self) -> (r: VName)
        ensures
            r@ == self@,
    {
        VName {
            corpus: self.corpus.clone(),
            root: self.root.clone(),
            path: self.path.clone(),
            language: self.language.clone(),
            signature: self.signature.clone(),
        }
    }
}

} // verus!
