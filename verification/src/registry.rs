//! The platform registry: an immutable mapping from a canonical platform
//! key to one shared adapter instance.

use vstd::prelude::*;

verus! {

/// The mapping described by a list of registrations: later registrations
/// of the same key override earlier ones.
pub open spec fn map_of<A>(entries: Seq<(String, A)>) -> Map<Seq<char>, A>
    decreases entries.len(),
{
    if entries.len() == 0 {
        Map::empty()
    } else {
        map_of(entries.drop_last()).insert(entries.last().0@, entries.last().1)
    }
}

/// A read-only mapping from a platform key (short, case-sensitive string)
/// to one shared adapter instance.
///
/// The registry is built once, by registering every supported platform,
/// and only looked up afterwards; there is no runtime removal. Looking up
/// a key that was never registered yields `None` — a caller-detectable
/// condition distinct from any adapter error — and never a constructed
/// default adapter.
pub struct Registry<A> {
    entries: Vec<(String, A)>,
}

impl<A> View for Registry<A> {
    type V = Map<Seq<char>, A>;

    closed spec fn view(&self) -> Map<Seq<char>, A> {
        map_of(self.entries@)
    }
}

impl<A> Registry<A> {
    /// An empty registry: no platform key resolves.
    pub fn new() -> (r: Registry<A>)
        ensures
            r@ == Map::<Seq<char>, A>::empty(),
    {
        let r = Registry { entries: Vec::new() };
        proof {
            assert(r.entries@.len() == 0);
        }
        r
    }

    /// Registers `adapter` under `key`; a second registration of the same
    /// key replaces the first.
    pub fn register(&mut self, key: String, adapter: A)
        ensures
            final(self)@ == old(self)@.insert(key@, adapter),
    {
        let ghost before = self.entries@;
        self.entries.push((key, adapter));
        proof {
            assert(self.entries@.drop_last() =~= before);
        }
    }

    /// Resolves a platform key to the registered adapter instance.
    ///
    /// Returns a read reference to the adapter registered under `key`, or
    /// `None` exactly when `key` was never registered.
    pub fn lookup(&self, key: &str) -> (r: Option<&A>)
        ensures
            match r {
                Some(a) => self@.contains_key(key@) && *a == self@[key@],
                None => !self@.contains_key(key@),
            },
    {
        let k: String = key.to_owned();
        let mut i: usize = self.entries.len();
        proof {
            assert(self.entries@.take(i as int) =~= self.entries@);
        }
        while i > 0
            invariant
                i <= self.entries@.len(),
                k@ == key@,
                self@.contains_key(key@) <==> map_of(self.entries@.take(i as int)).contains_key(
                    key@,
                ),
                self@.contains_key(key@) ==> self@[key@] == map_of(
                    self.entries@.take(i as int),
                )[key@],
            decreases i,
        {
            i = i - 1;
            let ghost prefix = self.entries@.take(i + 1 as int);
            proof {
                assert(prefix.drop_last() =~= self.entries@.take(i as int));
                assert(prefix.last() == self.entries@[i as int]);
            }
            if self.entries[i].0 == k {
                return Some(&self.entries[i].1);
            }
        }
        proof {
            assert(self.entries@.take(0) =~= Seq::<(String, A)>::empty());
        }
        None
    }
}

} // verus!
