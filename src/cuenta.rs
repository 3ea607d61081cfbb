//! Participant identifiers and currency amounts.
use vstd::prelude::*;

verus! {

/// A currency amount.
pub type Balance = u128;

/// An opaque 32-byte participant identifier.
#[derive(Clone, Copy, Debug)]
pub struct AccountId(pub [u8; 32]);

impl PartialEq for AccountId {
    fn eq(&self, otra: &AccountId) -> (r: bool)
        ensures
            r == (*self == *otra),
    {
        let mut i: usize = 0;
        while i < 32
            invariant
                0 <= i <= 32,
                forall|j: int| 0 <= j < i ==> self.0[j] == otra.0[j],
            decreases 32 - i,
        {
            if self.0[i] != otra.0[i] {
                return false;
            }
            i = i + 1;
        }
        proof {
            assert(self.0 =~= otra.0);
        }
        true
    }
}

impl vstd::std_specs::cmp::PartialEqSpecImpl for AccountId {
    open spec fn obeys_eq_spec() -> bool {
        true
    }

    open spec fn eq_spec(&self, otra: &AccountId) -> bool {
        *self == *otra
    }
}

impl Eq for AccountId {

}

impl From<[u8; 32]> for AccountId {
    fn from(bytes: [u8; 32]) -> (r: AccountId)
        ensures
            r == AccountId(bytes),
    {
        AccountId(bytes)
    }
}

impl vstd::std_specs::convert::FromSpecImpl<[u8; 32]> for AccountId {
    open spec fn obeys_from_spec() -> bool {
        true
    }

    open spec fn from_spec(bytes: [u8; 32]) -> AccountId {
        AccountId(bytes)
    }
}

} // verus!
