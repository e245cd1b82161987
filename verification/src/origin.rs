//! Dispatch origins and the check that a call was signed.

use vstd::prelude::*;

verus! {

/// An account of the runtime: the test runtime uses `u64` account identifiers.
pub type AccountId = u64;

/// The block number type of the runtime.
pub type BlockNumber = u64;

/// Where a dispatched call comes from.
#[derive(Clone, Copy, PartialEq, Eq, Debug)]
pub enum Origin {
    /// The root (sudo) origin.
    Root,
    /// A call signed by the given account.
    Signed(AccountId),
    /// An unsigned call (the runtime's `None` origin).
    Unsigned,
}

impl Origin {
    /// The origin of a call signed by `who`.
    pub fn signed(who: AccountId) -> (o: Origin)
        ensures
            o == Origin::Signed(who),
    {
        Origin::Signed(who)
    }
}

/// The error returned when a call needs a signed origin and has none.
#[derive(Clone, Copy, PartialEq, Eq, Debug)]
pub struct BadOrigin;

/// The signer of `o`, if `o` is signed.
pub open spec fn signer_of(o: Origin) -> Option<AccountId> {
    match o {
        Origin::Signed(who) => Some(who),
        _ => None,
    }
}

/// Ensures that `o` is a signed origin and returns its signer.
pub fn ensure_signed(o: Origin) -> (r: Result<AccountId, BadOrigin>)
    ensures
        match signer_of(o) {
            Some(who) => r == Ok::<AccountId, BadOrigin>(who),
            None => r == Err::<AccountId, BadOrigin>(BadOrigin),
        },
{
    match o {
        Origin::Signed(who) => Ok(who),
        _ => Err(BadOrigin),
    }
}

} // verus!
