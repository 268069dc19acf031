//! Account and contract addresses, as the ledger writes them (strkeys).

use vstd::prelude::*;

verus! {

/// A Stellar address (account `G...` or contract `C...`), held as its strkey text.
#[derive(Debug)]
pub struct Address {
    pub strkey: String,
}

impl Address {
    /// The address whose strkey is `strkey`.
    pub fn new(strkey: &str) -> (res: Address)
        ensures
            res.strkey@ == strkey@,
    {
        Address { strkey: String::from_str(strkey) }
    }

    /// Whether both values name the same address.
    pub fn same_as(&self, other: &Address) -> (res: bool)
        ensures
            res == (self.strkey@ == other.strkey@),
    {
        self.strkey == other.strkey
    }
}

impl Clone for Address {
    fn clone(&self) -> (res: Self)
        ensures
            res == *self,
    {
        Address { strkey: self.strkey.clone() }
    }
}

} // verus!
