//! The logical collections of the application.

use vstd::prelude::*;

verus! {

/// A logical collection: each is kept in a namespace of its own.
#[derive(Clone, Copy, Debug, PartialEq, Eq, Hash, Structural)]
pub enum Collection {
    User,
    Post,
    Settings,
}

impl Collection {
    /// The short name of a collection, as it appears in registry keys and
    /// in event payloads.
    pub open spec fn spec_tag(self) -> Seq<char> {
        match self {
            Collection::User => "user"@,
            Collection::Post => "post"@,
            Collection::Settings => "settings"@,
        }
    }

    /// The name under which the registry binds the collection.
    pub open spec fn spec_registry_name(self) -> Seq<char> {
        match self {
            Collection::User => "users"@,
            Collection::Post => "posts"@,
            Collection::Settings => "settings"@,
        }
    }

    /// The prefix that every key of the collection begins with.
    pub open spec fn spec_key_prefix(self) -> Seq<char> {
        match self {
            Collection::User => "user_profile:"@,
            Collection::Post => "post:"@,
            Collection::Settings => "settings:"@,
        }
    }

    /// The short name of a collection.
    pub fn tag(self) -> (r: &'static str)
        ensures
            r@ == self.spec_tag(),
    {
        match self {
            Collection::User => "user",
            Collection::Post => "post",
            Collection::Settings => "settings",
        }
    }

    /// The name under which the registry binds the collection.
    pub fn registry_name(self) -> (r: &'static str)
        ensures
            r@ == self.spec_registry_name(),
    {
        match self {
            Collection::User => "users",
            Collection::Post => "posts",
            Collection::Settings => "settings",
        }
    }

    /// The prefix that every key of the collection begins with.
    pub fn key_prefix(self) -> (r: &'static str)
        ensures
            r@ == self.spec_key_prefix(),
    {
        match self {
            Collection::User => "user_profile:",
            Collection::Post => "post:",
            Collection::Settings => "settings:",
        }
    }
}

} // verus!
