use vstd::prelude::*;

use crate::identity::{id_eq, id_key, Identifier};

verus! {

/// The stored nonce of an identity under a nonce map: zero when the
/// identity has never verified anything.
pub open spec fn stored_nonce(m: Map<(int, Seq<u8>), u64>, k: (int, Seq<u8>)) -> u64 {
    if m.contains_key(k) {
        m[k]
    } else {
        0
    }
}

/// Per-identity monotonic counters: the replay-prevention state of the
/// verification engine. Later writes shadow earlier ones, so the store is
/// read through the map of its entries with the last write winning.
pub struct NonceStore {
    entries: Vec<(Identifier, u64)>,
}

/// The nonce map carried by a sequence of writes, last write winning.
pub open spec fn map_of(s: Seq<(Identifier, u64)>) -> Map<(int, Seq<u8>), u64>
    decreases s.len(),
{
    if s.len() == 0 {
        Map::<(int, Seq<u8>), u64>::empty()
    } else {
        map_of(s.drop_last()).insert(id_key(s.last().0), s.last().1)
    }
}

impl View for NonceStore {
    type V = Map<(int, Seq<u8>), u64>;

    closed spec fn view(&self) -> Map<(int, Seq<u8>), u64> {
        map_of(self.entries@)
    }
}

proof fn lemma_lookup(s: Seq<(Identifier, u64)>, i: int, k: (int, Seq<u8>))
    requires
        0 <= i < s.len(),
        id_key(s[i].0) == k,
        forall|j: int| i < j < s.len() ==> id_key(#[trigger] s[j].0) != k,
    ensures
        map_of(s).contains_key(k),
        map_of(s)[k] == s[i].1,
    decreases s.len(),
{
    if i == s.len() - 1 {
    } else {
        let t = s.drop_last();
        assert(forall|j: int| i < j < t.len() ==> id_key(#[trigger] t[j].0) != k);
        lemma_lookup(t, i, k);
        assert(id_key(s.last().0) != k);
    }
}

proof fn lemma_absent(s: Seq<(Identifier, u64)>, k: (int, Seq<u8>))
    requires
        forall|j: int| 0 <= j < s.len() ==> id_key(#[trigger] s[j].0) != k,
    ensures
        !map_of(s).contains_key(k),
    decreases s.len(),
{
    if s.len() > 0 {
        lemma_absent(s.drop_last(), k);
        assert(id_key(s.last().0) != k);
    }
}

impl NonceStore {
    /// An empty store: every identity's nonce reads as zero.
    pub fn new() -> (s: NonceStore)
        ensures
            s@ == Map::<(int, Seq<u8>), u64>::empty(),
    {
        NonceStore { entries: Vec::new() }
    }

    /// Reads the current nonce of `id`, defaulting to zero when `id` has
    /// never been written.
    pub fn nonce_of(&self, id: &Identifier) -> (r: u64)
        ensures
            r == stored_nonce(self@, id_key(*id)),
    {
        let mut i: usize = self.entries.len();
        while i > 0
            invariant
                i <= self.entries@.len(),
                forall|j: int|
                    i <= j < self.entries@.len() ==> id_key(
                        #[trigger] self.entries@[j].0,
                    ) != id_key(*id),
            decreases i,
        {
            i -= 1;
            if id_eq(&self.entries[i].0, id) {
                proof {
                    lemma_lookup(self.entries@, i as int, id_key(*id));
                }
                return self.entries[i].1;
            }
        }
        proof {
            lemma_absent(self.entries@, id_key(*id));
        }
        0
    }

    /// Writes the nonce of `id`, shadowing any earlier value.
    pub fn set_nonce(&mut self, id: Identifier, n: u64)
        ensures
            final(self)@ == old(self)@.insert(id_key(id), n),
    {
        self.entries.push((id, n));
        proof {
            assert(self.entries@.drop_last() =~= old(self).entries@);
        }
    }
}

} // verus!
