use vstd::prelude::*;

verus! {

/// Thin wrapper around a MongoDB connection string.
pub struct MongoUri(String);

impl View for MongoUri {
    type V = Seq<char>;

    closed spec fn view(&self) -> Seq<char> {
        self.0@
    }
}

impl MongoUri {
    /// Wraps the given string as a connection URI, keeping it verbatim.
    pub fn from_str(value: String) -> (uri: MongoUri)
        ensures
            uri@ == value@,
    {
        MongoUri(value)
    }

    /// The URI as a string slice.
    pub fn as_str(&self) -> (s: &str)
        ensures
            s@ == self@,
    {
        self.0.as_str()
    }
}

} // verus!
