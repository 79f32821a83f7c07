//! Traits shared by the records that the repositories store.

use vstd::prelude::*;

verus! {

/// A record with a unique identifier string.
pub trait HasId {
    /// The identifier, as a sequence of characters.
    spec fn spec_id(&self) -> Seq<char>;

    fn id(&self) -> (r: &str)
        ensures
            r@ == self.spec_id(),
    ;
}

/// A record that knows when it was created. Listings put the newest first.
pub trait Dated {
    spec fn spec_recency(&self) -> i64;

    fn recency(&self) -> (r: i64)
        ensures
            r == self.spec_recency(),
    ;
}

/// A post-like record: who wrote it, what it says and when it was created.
pub trait PostEntry {
    spec fn spec_author_id(&self) -> Seq<char>;

    spec fn spec_content(&self) -> Seq<char>;

    spec fn spec_created_at(&self) -> i64;

    fn author_id(&self) -> (r: &str)
        ensures
            r@ == self.spec_author_id(),
    ;

    fn content(&self) -> (r: &str)
        ensures
            r@ == self.spec_content(),
    ;

    fn created_at(&self) -> (r: i64)
        ensures
            r == self.spec_created_at(),
    ;
}

} // verus!
