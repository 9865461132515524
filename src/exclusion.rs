use vstd::prelude::*;

verus! {

/// A 32-byte transaction hash, the identifier kept in the exclusion set.
#[derive(Clone, Copy, Debug)]
pub struct TxHash {
    pub bytes: [u8; 32],
}

impl View for TxHash {
    type V = Seq<u8>;

    open spec fn view(&self) -> Seq<u8> {
        self.bytes@
    }
}

impl TxHash {
    pub fn new(bytes: [u8; 32]) -> (r: TxHash)
        ensures
            r@ == bytes@,
    {
        TxHash { bytes }
    }

    /// Byte-wise comparison of two hashes.
    pub fn same_as(&self, other: &TxHash) -> (r: bool)
        ensures
            r == (self@ == other@),
    {
        let mut i: usize = 0;
        while i < 32
            invariant
                i <= 32,
                self@.len() == 32,
                other@.len() == 32,
                forall|k: int| 0 <= k < i ==> self@[k] == other@[k],
            decreases 32 - i,
        {
            if self.bytes[i] != other.bytes[i] {
                assert(self@[i as int] != other@[i as int]);
                return false;
            }
            i = i + 1;
        }
        assert(self@ =~= other@);
        true
    }
}

/// The set of identifiers of transactions already committed to in-flight
/// fundings. Each identifier is stored once.
#[derive(Clone, Debug)]
pub struct FundingExclusion {
    hashes: Vec<TxHash>,
}

/// The identifiers of a list of hashes, as a set.
pub open spec fn hash_set(xs: Seq<TxHash>) -> Set<Seq<u8>> {
    Set::new(|s: Seq<u8>| exists|i: int| 0 <= i < xs.len() && #[trigger] xs[i]@ == s)
}

/// The set `s` after every identifier of `xs` has been inserted.
pub open spec fn with_added(s: Set<Seq<u8>>, xs: Seq<TxHash>) -> Set<Seq<u8>> {
    s.union(hash_set(xs))
}

impl View for FundingExclusion {
    type V = Set<Seq<u8>>;

    closed spec fn view(&self) -> Set<Seq<u8>> {
        hash_set(self.hashes@)
    }
}

impl FundingExclusion {
    /// No identifier is stored twice.
    pub closed spec fn wf(&self) -> bool {
        forall|i: int, j: int|
            0 <= i < self.hashes@.len() && 0 <= j < self.hashes@.len() && i != j
                ==> #[trigger] self.hashes@[i]@ != #[trigger] self.hashes@[j]@
    }

    pub fn new() -> (r: FundingExclusion)
        ensures
            r.wf(),
            r@ == Set::<Seq<u8>>::empty(),
    {
        let r = FundingExclusion { hashes: Vec::new() };
        assert(r@ =~= Set::<Seq<u8>>::empty());
        r
    }

    /// The position of `h` among the stored identifiers, if it is there.
    fn position(&self, h: &TxHash) -> (r: Option<usize>)
        ensures
            match r {
                Some(i) => i < self.hashes@.len() && self.hashes@[i as int]@ == h@,
                None => !self@.contains(h@),
            },
    {
        let mut i: usize = 0;
        while i < self.hashes.len()
            invariant
                i <= self.hashes@.len(),
                forall|k: int| 0 <= k < i ==> self.hashes@[k]@ != h@,
            decreases self.hashes@.len() - i,
        {
            if self.hashes[i].same_as(h) {
                return Some(i);
            }
            i = i + 1;
        }
        None
    }

    pub fn contains(&self, h: &TxHash) -> (r: bool)
        ensures
            r == self@.contains(h@),
    {
        match self.position(h) {
            Some(_) => true,
            None => false,
        }
    }

    /// Inserts an identifier; inserting one that is present changes nothing.
    pub fn insert(&mut self, h: TxHash)
        requires
            old(self).wf(),
        ensures
            final(self).wf(),
            final(self)@ == old(self)@.insert(h@),
    {
        if self.position(&h).is_none() {
            let ghost before = self.hashes@;
            self.hashes.push(h);
            proof {
                lemma_hash_set_push(before, h);
            }
        } else {
            assert(self@ =~= self@.insert(h@));
        }
    }

    /// Removes an identifier; removing one that is absent changes nothing.
    pub fn remove(&mut self, h: &TxHash)
        requires
            old(self).wf(),
        ensures
            final(self).wf(),
            final(self)@ == old(self)@.remove(h@),
    {
        match self.position(h) {
            Some(i) => {
                let ghost before = self.hashes@;
                self.hashes.remove(i);
                proof {
                    let after = self.hashes@;
                    assert(after =~= before.remove(i as int));
                    assert forall|s: Seq<u8>| self@.contains(s) == old(self)@.remove(h@).contains(s)
                        by {
                        if self@.contains(s) {
                            let k = choose|k: int| 0 <= k < after.len() && #[trigger] after[k]@ == s;
                            if k < i {
                                assert(before[k]@ == s);
                            } else {
                                assert(before[k + 1]@ == s);
                            }
                        }
                        if old(self)@.remove(h@).contains(s) {
                            let k = choose|k: int| 0 <= k < before.len() && #[trigger] before[k]@ == s;
                            assert(k != i);
                            if k < i {
                                assert(after[k]@ == s);
                            } else {
                                assert(after[k - 1]@ == s);
                            }
                        }
                    }
                    assert(self@ =~= old(self)@.remove(h@));
                }
            },
            None => {
                assert(self@ =~= self@.remove(h@));
            },
        }
    }

    /// Inserts the identifier of every hash of `txs`.
    pub fn add_txs(&mut self, txs: &Vec<TxHash>)
        requires
            old(self).wf(),
        ensures
            final(self).wf(),
            final(self)@ == with_added(old(self)@, txs@),
    {
        let mut i: usize = 0;
        while i < txs.len()
            invariant
                i <= txs@.len(),
                self.wf(),
                self@ == with_added(old(self)@, txs@.take(i as int)),
            decreases txs@.len() - i,
        {
            proof {
                lemma_hash_set_push(txs@.take(i as int), txs@[i as int]);
                assert(txs@.take(i as int).push(txs@[i as int]) =~= txs@.take(i + 1));
            }
            self.insert(txs[i]);
            assert(with_added(old(self)@, txs@.take(i + 1)) =~= with_added(old(self)@, txs@.take(i as int)).insert(txs@[i as int]@));
            i = i + 1;
        }
        assert(txs@.take(i as int) =~= txs@);
    }
}

/// Adding an identifier and then removing it leaves a set that does not
/// hold it, whatever the set held before.
pub proof fn lemma_add_then_remove(s: Set<Seq<u8>>, x: TxHash)
    ensures
        !with_added(s, seq![x]).remove(x@).contains(x@),
{
}

/// Adding the same identifiers a second time leaves the set as adding them
/// once did.
pub proof fn lemma_add_twice(s: Set<Seq<u8>>, xs: Seq<TxHash>)
    ensures
        with_added(with_added(s, xs), xs) == with_added(s, xs),
{
    assert(with_added(with_added(s, xs), xs) =~= with_added(s, xs));
}

proof fn lemma_hash_set_push(xs: Seq<TxHash>, h: TxHash)
    ensures
        hash_set(xs.push(h)) == hash_set(xs).insert(h@),
{
    let ys = xs.push(h);
    assert forall|s: Seq<u8>| hash_set(ys).contains(s) == hash_set(xs).insert(h@).contains(s) by {
        if hash_set(ys).contains(s) {
            let k = choose|k: int| 0 <= k < ys.len() && #[trigger] ys[k]@ == s;
            if k < xs.len() {
                assert(xs[k]@ == s);
            }
        }
        if hash_set(xs).contains(s) {
            let k = choose|k: int| 0 <= k < xs.len() && #[trigger] xs[k]@ == s;
            assert(ys[k]@ == s);
        }
        if s == h@ {
            assert(ys[xs.len() as int]@ == s);
        }
    }
    assert(hash_set(ys) =~= hash_set(xs).insert(h@));
}

} // verus!
