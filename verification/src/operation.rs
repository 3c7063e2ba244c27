//! The capability and its two variants.

use vstd::prelude::*;

verus! {

/// A binary arithmetic operation, as far as it can be displayed.
///
/// An implementation carries no state that its token depends on from call to
/// call: `name` always returns `symbol`, which is a function of the value.
pub trait Operation {
    /// The token that stands between the two operands of this operation.
    spec fn symbol(&self) -> Seq<char>;

    /// Returns the token that stands between the two operands. It is never
    /// empty.
    fn name(&self) -> (token: String)
        ensures
            token@ == self.symbol(),
            token@.len() > 0,
    ;
}

/// Addition.
pub struct Add;

/// Multiplication.
pub struct Mul;

impl Operation for Add {
    open spec fn symbol(&self) -> Seq<char> {
        " + "@
    }

    /// Returns a plus sign with a space on either side.
    fn name(&self) -> (token: String)
        ensures
            token@ == " + "@,
    {
        proof {
            reveal_strlit(" + ");
        }
        " + ".to_owned()
    }
}

impl Operation for Mul {
    open spec fn symbol(&self) -> Seq<char> {
        " * "@
    }

    /// Returns an asterisk with a space on either side.
    fn name(&self) -> (token: String)
        ensures
            token@ == " * "@,
    {
        proof {
            reveal_strlit(" * ");
        }
        " * ".to_owned()
    }
}

} // verus!
