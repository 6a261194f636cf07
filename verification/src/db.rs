use vstd::prelude::*;

verus! {

/// A failed database round trip, reduced to the values the logic looks at.
#[derive(Debug)]
pub enum DbError {
    /// The server rejected the statement; `code` is its SQLSTATE, when it sent one.
    Database { code: Option<String> },
    /// Any other failure (pool, connection, protocol, decoding), with its description.
    Other { message: String },
}

} // verus!
