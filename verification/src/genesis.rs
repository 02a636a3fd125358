use vstd::prelude::*;
use crate::types::{AccountId, Entropy, Gender, Hash256};
use crate::pallet::Pallet;

verus! {

/// The kitties a chain starts with: (owner, DNA, gender) for each.
pub struct GenesisConfig {
    pub kitties: Vec<(AccountId, Hash256, Gender)>,
}

impl Default for GenesisConfig {
    fn default() -> (g: Self)
        ensures
            g.kitties@ == Seq::<(AccountId, Hash256, Gender)>::empty(),
    {
        GenesisConfig { kitties: Vec::new() }
    }
}

impl GenesisConfig {
    /// Mints each configured kitty into `pallet`, in order, whatever each
    /// mint answers. `entropy` is what the chain's randomness gives; the
    /// configured kitties carry their DNA and gender, so it decides nothing.
    pub fn build(&self, pallet: &mut Pallet, entropy: &Entropy)
        requires
            old(pallet).wf(),
        ensures
            final(pallet).wf(),
            final(pallet)@ == old(pallet)@.genesis(self.kitties@, *entropy),
    {
        let ghost start = pallet@;
        let n = self.kitties.len();
        let mut i: usize = 0;
        while i < n
            invariant
                n == self.kitties@.len(),
                i <= n,
                pallet.wf(),
                pallet@ == start.genesis(self.kitties@.take(i as int), *entropy),
            decreases n - i,
        {
            let (acct, dna, gender) = self.kitties[i];
            let _ = pallet.mint(acct, Some(dna), Some(gender), entropy);
            proof {
                let pre = self.kitties@.take(i + 1);
                assert(pre.drop_last() =~= self.kitties@.take(i as int));
                assert(pre.last() == self.kitties@[i as int]);
            }
            i = i + 1;
        }
        assert(self.kitties@.take(n as int) =~= self.kitties@);
    }
}

} // verus!
