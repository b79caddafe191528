use vstd::prelude::*;

verus! {

/// The identity of an account: its 32 raw bytes.
#[derive(Clone, Copy, Debug, Eq)]
pub struct AccountId(pub [u8; 32]);

impl AccountId {
    /// The account's bytes as a sequence.
    pub open spec fn bytes(self) -> Seq<u8> {
        self.0@
    }

    /// Two accounts are the same identity exactly when their bytes agree.
    pub proof fn lemma_same_bytes(a: AccountId, b: AccountId)
        ensures
            a.bytes() == b.bytes() <==> a == b,
    {
        if a.bytes() == b.bytes() {
            assert(a.0 =~= b.0);
        }
    }
}

impl PartialEq for AccountId {
    fn eq(&self, o: &AccountId) -> (r: bool) {
        let mut i: usize = 0;
        while i < 32
            invariant
                0 <= i <= 32,
                forall|j: int| 0 <= j < i ==> self.0@[j] == o.0@[j],
            decreases 32 - i,
        {
            if self.0[i] != o.0[i] {
                proof {
                    AccountId::lemma_same_bytes(*self, *o);
                }
                return false;
            }
            i = i + 1;
        }
        proof {
            assert(self.0@ =~= o.0@);
            AccountId::lemma_same_bytes(*self, *o);
        }
        true
    }
}

impl vstd::std_specs::cmp::PartialEqSpecImpl for AccountId {
    open spec fn obeys_eq_spec() -> bool {
        true
    }

    open spec fn eq_spec(&self, o: &AccountId) -> bool {
        *self == *o
    }
}

} // verus!
