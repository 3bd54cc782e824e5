//! The visited tracker: the set of URL keys already claimed for processing,
//! shared by a whole crawl run and append-only for its duration.
//!
//! Its one operation, [`VisitedSet::try_claim`], is the crawl's
//! cycle-breaking primitive: a check-and-insert that succeeds exactly when
//! the key was not already present. Two distinct links that normalize to the
//! same URL, and a redirect chain that loops back to an already-claimed URL,
//! both resolve to a failed claim, which the caller answers with a skip.

use vstd::prelude::*;

verus! {

/// The views of a sequence of key strings, in order.
pub open spec fn keys_view(v: Seq<String>) -> Seq<Seq<char>> {
    Seq::new(v.len(), |i: int| v[i]@)
}

/// The set of URL keys claimed so far, viewed as the sequence of keys in
/// claim order (no key appears twice).
pub struct VisitedSet {
    keys: Vec<String>,
}

impl View for VisitedSet {
    type V = Seq<Seq<char>>;

    closed spec fn view(&self) -> Seq<Seq<char>> {
        keys_view(self.keys@)
    }
}

impl VisitedSet {
    /// An empty tracker: no URL has been claimed.
    pub fn new() -> (r: VisitedSet)
        ensures
            r@ == Seq::<Seq<char>>::empty(),
    {
        let r = VisitedSet { keys: Vec::new() };
        proof {
            assert(r@ =~= Seq::<Seq<char>>::empty());
        }
        r
    }

    /// How many URLs have been claimed so far.
    pub fn len(&self) -> (r: usize)
        ensures
            r == self@.len(),
    {
        self.keys.len()
    }

    /// Has this key been claimed already?
    pub fn contains(&self, k: &String) -> (r: bool)
        ensures
            r == self@.contains(k@),
    {
        let n = self.keys.len();
        let mut i: usize = 0;
        while i < n
            invariant
                i <= n,
                n == self.keys@.len(),
                forall|j: int| 0 <= j < i ==> self@[j] != k@,
            decreases n - i,
        {
            if self.keys[i] == *k {
                assert(self@[i as int] == k@);
                return true;
            }
            assert(self@[i as int] != k@);
            i += 1;
        }
        false
    }

    /// Atomic check-and-insert: claims the key and returns `true` exactly
    /// when it was not already present; the caller must skip on `false`.
    /// Entries are never removed.
    pub fn try_claim(&mut self, k: &String) -> (r: bool)
        ensures
            r == !old(self)@.contains(k@),
            r ==> final(self)@ == old(self)@.push(k@),
            !r ==> final(self)@ == old(self)@,
    {
        if self.contains(k) {
            false
        } else {
            self.keys.push(k.clone());
            proof {
                assert(self@ =~= old(self)@.push(k@));
            }
            true
        }
    }
}

} // verus!
