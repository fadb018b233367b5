//! The sort-order directive applied to a backup listing.

use vstd::prelude::*;

verus! {

/// The canonical ascending token, as the backend expects it.
pub open spec fn asc_token() -> Seq<char> {
    "ASC"@
}

/// The canonical descending token, as the backend expects it.
pub open spec fn desc_token() -> Seq<char> {
    "DESC"@
}

/// A sort order for a backup listing: ascending or descending, each with a
/// canonical string form used both in backend requests and in caller input.
#[derive(Clone, Copy, PartialEq, Eq, Structural, Debug)]
pub enum Sort {
    Asc,
    Desc,
}

impl Sort {
    /// The canonical token of this order, as a sequence of characters.
    pub open spec fn spec_token(self) -> Seq<char> {
        match self {
            Sort::Asc => asc_token(),
            Sort::Desc => desc_token(),
        }
    }

    /// The canonical string representation of this sort order.
    pub fn token(self) -> (r: String)
        ensures
            r@ == self.spec_token(),
    {
        match self {
            Sort::Asc => String::from_str("ASC"),
            Sort::Desc => String::from_str("DESC"),
        }
    }
}

} // verus!
