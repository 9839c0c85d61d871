//! Resource objects and their identities.

use vstd::prelude::*;

verus! {

/// The application payload carried by each watched object: a book record.
pub struct Book {
    pub title: String,
    pub authors: Option<Vec<String>>,
}

/// The stable identity of an object within the watched collection:
/// a namespace plus a name, immutable over the object's lifetime.
pub struct ObjectKey {
    pub namespace: String,
    pub name: String,
}

impl View for ObjectKey {
    type V = (Seq<char>, Seq<char>);

    open spec fn view(&self) -> (Seq<char>, Seq<char>) {
        (self.namespace@, self.name@)
    }
}

impl ObjectKey {
    /// Two keys denote the same object exactly when both components agree.
    pub fn key_eq(&self, other: &ObjectKey) -> (r: bool)
        ensures
            r == (self@ == other@),
    {
        let same = self.namespace == other.namespace && self.name == other.name;
        proof {
            if same {
                assert(self@ == other@);
            }
        }
        same
    }

    /// An equal copy of the key.
    pub fn duplicate(&self) -> (r: ObjectKey)
        ensures
            r == *self,
    {
        ObjectKey { namespace: self.namespace.clone(), name: self.name.clone() }
    }
}

/// One object of the watched collection: its identity, the per-object
/// version assigned by the server on its last mutation, and the payload.
pub struct ResourceObject {
    pub key: ObjectKey,
    pub version: u64,
    pub spec: Book,
}

} // verus!
