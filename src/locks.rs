use vstd::prelude::*;

verus! {

/// The keys that are currently held, one entry each.
///
/// A read-modify-write of a key runs while its key is held, so two of them on
/// one key cannot interleave; keys that differ never wait on each other.
pub struct KeyLocks {
    held: Vec<String>,
}

impl View for KeyLocks {
    type V = Set<Seq<char>>;

    closed spec fn view(&self) -> Set<Seq<char>> {
        Set::new(|k: Seq<char>| exists|i: int| 0 <= i < self.held@.len() && self.held@[i]@ == k)
    }
}

impl KeyLocks {
    pub closed spec fn wf(&self) -> bool {
        forall|i: int, j: int|
            0 <= i < j < self.held@.len() ==> (#[trigger] self.held@[i])@ != (#[trigger] self.held@[j])@
    }

    /// A table in which no key is held.
    pub fn new() -> (r: KeyLocks)
        ensures
            r.wf(),
            r@ == Set::<Seq<char>>::empty(),
    {
        let r = KeyLocks { held: Vec::new() };
        assert(r@ =~= Set::<Seq<char>>::empty());
        r
    }

    fn position(&self, key: &String) -> (r: Option<usize>)
        ensures
            match r {
                Some(i) => i < self.held@.len() && self.held@[i as int]@ == key@,
                None => !self@.contains(key@),
            },
    {
        let mut i: usize = 0;
        while i < self.held.len()
            invariant
                i <= self.held@.len(),
                forall|j: int| 0 <= j < i ==> self.held@[j]@ != key@,
            decreases self.held@.len() - i,
        {
            if self.held[i] == *key {
                return Some(i);
            }
            i = i + 1;
        }
        None
    }

    /// Whether `key` is held.
    pub fn is_locked(&self, key: &String) -> (r: bool)
        ensures
            r == self@.contains(key@),
    {
        match self.position(key) {
            Some(i) => {
                assert(self@.contains(key@));
                true
            },
            None => false,
        }
    }

    /// Takes `key` where it is free; returns whether it was taken. A held key
    /// is left as it is, and the caller waits for its release.
    pub fn try_lock(&mut self, key: &String) -> (r: bool)
        requires
            old(self).wf(),
        ensures
            final(self).wf(),
            r == !old(self)@.contains(key@),
            final(self)@ == old(self)@.insert(key@),
    {
        match self.position(key) {
            Some(i) => {
                assert(self@.contains(key@));
                assert(self@.insert(key@) =~= self@);
                false
            },
            None => {
                let ghost before = self.held@;
                self.held.push(key.clone());
                assert(self@ =~= old(self)@.insert(key@)) by {
                    assert forall|k: Seq<char>| self@.contains(k) implies #[trigger] old(self)@.insert(
                        key@,
                    ).contains(k) by {
                        let i = choose|i: int| 0 <= i < self.held@.len() && self.held@[i]@ == k;
                        if i < before.len() {
                            assert(before[i] == self.held@[i]);
                        }
                    }
                    assert forall|k: Seq<char>| #[trigger] old(self)@.insert(key@).contains(k)
                        implies self@.contains(k) by {
                        if k == key@ {
                            assert(self.held@[before.len() as int]@ == k);
                        } else {
                            let i = choose|i: int| 0 <= i < before.len() && before[i]@ == k;
                            assert(self.held@[i] == before[i]);
                        }
                    }
                }
                true
            },
        }
    }

    /// Releases `key`.
    pub fn unlock(&mut self, key: &String)
        requires
            old(self).wf(),
        ensures
            final(self).wf(),
            final(self)@ == old(self)@.remove(key@),
    {
        match self.position(key) {
            Some(i) => {
                let ghost before = self.held@;
                self.held.remove(i);
                assert(self@ =~= old(self)@.remove(key@)) by {
                    assert forall|k: Seq<char>| self@.contains(k) implies #[trigger] old(
                        self,
                    )@.remove(key@).contains(k) by {
                        let j = choose|j: int| 0 <= j < self.held@.len() && self.held@[j]@ == k;
                        if j < i {
                            assert(before[j] == self.held@[j]);
                        } else {
                            assert(before[j + 1] == self.held@[j]);
                        }
                    }
                    assert forall|k: Seq<char>| #[trigger] old(self)@.remove(key@).contains(k)
                        implies self@.contains(k) by {
                        let j = choose|j: int| 0 <= j < before.len() && before[j]@ == k;
                        if j < i {
                            assert(self.held@[j] == before[j]);
                        } else {
                            assert(j != i);
                            assert(self.held@[j - 1] == before[j]);
                        }
                    }
                }
            },
            None => {
                assert(self@.remove(key@) =~= self@);
            },
        }
    }
}

} // verus!
