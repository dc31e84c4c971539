use vstd::prelude::*;
use crate::address::Address;

verus! {

/// One account presented alongside a mint-funded deposit: its identity and
/// whether it signed the call.
#[derive(Clone, Copy, Debug, PartialEq, Eq)]
pub struct PresentedAccount {
    /// The account's identity.
    pub key: Address,
    /// Whether the account signed the call.
    pub is_signer: bool,
}

/// The keys of the presented accounts that signed, in presentation order:
/// when the mint authority is a multi-signer construct, these co-signer
/// proofs are passed through to the mint call.
pub open spec fn signer_keys_of(s: Seq<PresentedAccount>) -> Seq<Address>
    decreases s.len(),
{
    if s.len() == 0 {
        Seq::empty()
    } else {
        let rest = signer_keys_of(s.drop_last());
        if s.last().is_signer {
            rest.push(s.last().key)
        } else {
            rest
        }
    }
}

/// Collects the keys of every presented account that signed, keeping their
/// order.
pub fn collect_signer_keys(accounts: &Vec<PresentedAccount>) -> (r: Vec<Address>)
    ensures
        r@ == signer_keys_of(accounts@),
{
    let mut r: Vec<Address> = Vec::new();
    let mut i: usize = 0;
    while i < accounts.len()
        invariant
            i <= accounts@.len(),
            r@ == signer_keys_of(accounts@.take(i as int)),
        decreases accounts@.len() - i,
    {
        proof {
            assert(accounts@.take(i as int + 1).drop_last() =~= accounts@.take(i as int));
            assert(accounts@.take(i as int + 1).last() == accounts@[i as int]);
        }
        if accounts[i].is_signer {
            r.push(accounts[i].key);
        }
        i = i + 1;
    }
    proof {
        assert(accounts@.take(accounts@.len() as int) =~= accounts@);
    }
    r
}

} // verus!
