//! Orders to the settlement gateway. The lifecycle decides which transfer is
//! due; whoever hosts the records carries it out and aborts the whole
//! operation if the gateway refuses.

use vstd::prelude::*;
use crate::identity::Identity;

verus! {

/// Funding of a task's escrow at creation, signed by the creator.
#[derive(Clone, Copy, Debug, PartialEq, Eq)]
pub struct Deposit {
    /// The creator's funding account.
    pub from: Identity,
    /// The escrow account bound to the task.
    pub escrow: Identity,
    /// The creator, who authorizes the transfer.
    pub authority: Identity,
    pub amount: u64,
}

/// Payout of a task's escrow at approval. The escrow account is its own
/// authority: the release is signed with the address derived from the task,
/// never by the creator or the agent.
#[derive(Clone, Copy, Debug, PartialEq, Eq)]
pub struct Release {
    /// The escrow account bound to the task, which also authorizes.
    pub escrow: Identity,
    /// The account that receives the payout.
    pub to: Identity,
    /// The task from whose address the escrow authority is derived.
    pub task: Identity,
    /// The bump of that derivation.
    pub bump: u8,
    pub amount: u64,
}

/// The seed that comes first in the derivation of every escrow address: the
/// ASCII bytes of the word "escrow".
pub open spec fn escrow_seed() -> Seq<u8> {
    seq![101u8, 115u8, 99u8, 114u8, 111u8, 119u8]
}

/// The seeds of the escrow authority of `task` with the given bump: the
/// escrow seed, the task's address, and the bump as one byte.
pub open spec fn authority_seeds(task: Identity, bump: u8) -> Seq<Seq<u8>> {
    seq![escrow_seed(), task@, seq![bump]]
}

impl Release {
    /// The seeds with which the release is signed, in order.
    pub fn signer_seeds(&self) -> (seeds: Vec<Vec<u8>>)
        ensures
            seeds.deep_view() == authority_seeds(self.task, self.bump),
    {
        let mut word: Vec<u8> = Vec::new();
        word.push(101u8);
        word.push(115u8);
        word.push(99u8);
        word.push(114u8);
        word.push(111u8);
        word.push(119u8);
        let mut address: Vec<u8> = Vec::new();
        let mut i: usize = 0;
        while i < 32
            invariant
                i <= 32,
                address@ == self.task@.subrange(0, i as int),
            decreases 32 - i,
        {
            address.push(self.task.bytes[i]);
            i += 1;
            assert(address@ =~= self.task@.subrange(0, i as int));
        }
        assert(address@ =~= self.task@);
        let mut last: Vec<u8> = Vec::new();
        last.push(self.bump);
        let mut seeds: Vec<Vec<u8>> = Vec::new();
        seeds.push(word);
        seeds.push(address);
        seeds.push(last);
        assert(word@ =~= escrow_seed());
        assert(last@ =~= seq![self.bump]);
        assert(seeds.deep_view() =~~= authority_seeds(self.task, self.bump));
        seeds
    }
}

} // verus!
