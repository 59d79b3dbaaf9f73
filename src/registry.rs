use vstd::prelude::*;
use vstd::set_lib::lemma_len_subset;

use crate::content::{applied, Content, ContentView, Diff};

verus! {

/// A notification on screen, under the id that addresses it.
pub struct RegistryEntry {
    pub id: u32,
    pub content: Content,
}

/// The notifications currently shown, keyed by id; 0 is never a key.
pub struct Registry {
    entries: Vec<RegistryEntry>,
    model: Ghost<Map<u32, ContentView>>,
}

/// `c` is the smallest positive id that `m` does not hold.
pub open spec fn is_smallest_free(m: Map<u32, ContentView>, c: u32) -> bool {
    &&& c > 0
    &&& !m.contains_key(c)
    &&& forall|k: u32| 0 < k < c ==> m.contains_key(k)
}

impl View for Registry {
    type V = Map<u32, ContentView>;

    closed spec fn view(&self) -> Map<u32, ContentView> {
        self.model@
    }
}

impl Registry {
    /// The entries hold each id of the view once, with its content, and 0 is no key.
    pub closed spec fn wf(&self) -> bool {
        let m = self.model@;
        let e = self.entries@;
        &&& m.dom().finite()
        &&& m.dom().len() == e.len()
        &&& !m.contains_key(0)
        &&& forall|i: int|
            0 <= i < e.len() ==> m.contains_key(#[trigger] e[i].id) && m[e[i].id] == e[i].content@
        &&& forall|i: int, j: int| 0 <= i < j < e.len() ==> e[i].id != e[j].id
        &&& forall|id: u32| #[trigger]
            m.contains_key(id) ==> exists|i: int| 0 <= i < e.len() && e[i].id == id
    }

    /// No notification is ever shown under id 0.
    pub proof fn lemma_zero_never_held(&self)
        requires
            self.wf(),
        ensures
            !self@.contains_key(0),
    {
    }

    /// Finitely many notifications are shown.
    pub proof fn lemma_finite(&self)
        requires
            self.wf(),
        ensures
            self@.dom().finite(),
    {
    }

    pub fn new() -> (r: Registry)
        ensures
            r.wf(),
            r@ == Map::<u32, ContentView>::empty(),
    {
        Registry { entries: Vec::new(), model: Ghost(Map::empty()) }
    }

    fn find(&self, id: u32) -> (r: Option<usize>)
        requires
            self.wf(),
        ensures
            match r {
                Some(i) => i < self.entries@.len() && self.entries@[i as int].id == id,
                None => !self@.contains_key(id),
            },
    {
        let mut i: usize = 0;
        while i < self.entries.len()
            invariant
                i <= self.entries@.len(),
                forall|j: int| 0 <= j < i ==> self.entries@[j].id != id,
            decreases self.entries@.len() - i,
        {
            if self.entries[i].id == id {
                return Some(i);
            }
            i = i + 1;
        }
        None
    }

    /// Whether a notification with this id is shown.
    pub fn contains(&self, id: u32) -> (r: bool)
        requires
            self.wf(),
        ensures
            r == self@.contains_key(id),
    {
        self.find(id).is_some()
    }

    /// What the notification with this id shows.
    pub fn get(&self, id: u32) -> (r: Option<&Content>)
        requires
            self.wf(),
        ensures
            match r {
                Some(c) => self@.contains_key(id) && c@ == self@[id],
                None => !self@.contains_key(id),
            },
    {
        match self.find(id) {
            Some(i) => Some(&self.entries[i].content),
            None => None,
        }
    }

    /// How many notifications are shown.
    pub fn len(&self) -> (r: usize)
        requires
            self.wf(),
        ensures
            r == self@.dom().len(),
    {
        self.entries.len()
    }

    /// Whether no notification is shown: the container is hidden then.
    pub fn is_empty(&self) -> (r: bool)
        requires
            self.wf(),
        ensures
            r == (self@.dom().len() == 0),
            r == (self@ == Map::<u32, ContentView>::empty()),
    {
        proof {
            if self.entries@.len() > 0 {
                assert(self@.contains_key(self.entries@[0].id));
            } else {
                assert(self@ =~= Map::<u32, ContentView>::empty());
            }
        }
        self.entries.len() == 0
    }

    /// The ids shown.
    pub fn ids(&self) -> (r: Vec<u32>)
        requires
            self.wf(),
        ensures
            r@.len() == self@.dom().len(),
            forall|id: u32| self@.contains_key(id) <==> r@.contains(id),
    {
        let mut r: Vec<u32> = Vec::new();
        let mut i: usize = 0;
        while i < self.entries.len()
            invariant
                self.wf(),
                i <= self.entries@.len(),
                r@.len() == i,
                forall|j: int| 0 <= j < i ==> r@[j] == self.entries@[j].id,
            decreases self.entries@.len() - i,
        {
            r.push(self.entries[i].id);
            i = i + 1;
        }
        assert forall|id: u32| self@.contains_key(id) <==> r@.contains(id) by {
            if self@.contains_key(id) {
                let j = choose|j: int| 0 <= j < self.entries@.len() && self.entries@[j].id == id;
                assert(r@[j] == id);
            }
            if r@.contains(id) {
                let j = choose|j: int| 0 <= j < r@.len() && r@[j] == id;
                assert(self@.contains_key(self.entries@[j].id));
            }
        }
        r
    }

    /// The smallest positive id that no shown notification has; none when
    /// every positive id is taken.
    pub fn smallest_free_id(&self) -> (r: Option<u32>)
        requires
            self.wf(),
        ensures
            match r {
                Some(c) => is_smallest_free(self@, c),
                None => self@.dom().len() >= u32::MAX,
            },
    {
        let n = self.entries.len();
        if n as u64 >= 0xFFFF_FFFFu64 {
            return None;
        }
        let mut c: u64 = 1;
        let ghost mut seen: Set<u32> = Set::empty();
        while c <= n as u64 + 1
            invariant
                self.wf(),
                n == self@.dom().len(),
                n < 0xFFFF_FFFFu64,
                1 <= c <= n + 2,
                seen.finite(),
                seen.len() == c - 1,
                forall|k: u32| seen.contains(k) <==> 0 < k < c,
                forall|k: u32| 0 < k < c ==> #[trigger] self@.contains_key(k),
            decreases n + 2 - c,
        {
            if !self.contains(c as u32) {
                return Some(c as u32);
            }
            proof {
                assert(!seen.contains(c as u32));
                seen = seen.insert(c as u32);
            }
            c = c + 1;
        }
        proof {
            assert(seen.subset_of(self@.dom()));
            lemma_len_subset(seen, self@.dom());
        }
        None
    }

    /// Shows a notification under an id that no shown notification has.
    pub fn insert(&mut self, id: u32, content: Content)
        requires
            old(self).wf(),
            id != 0,
            !old(self)@.contains_key(id),
        ensures
            final(self).wf(),
            final(self)@ == old(self)@.insert(id, content@),
    {
        let ghost v = content@;
        let ghost old_e = self.entries@;
        self.entries.push(RegistryEntry { id, content });
        self.model = Ghost(self.model@.insert(id, v));
        proof {
            let m = self.model@;
            let e = self.entries@;
            assert forall|k: u32| #[trigger] m.contains_key(k) implies exists|i: int|
                0 <= i < e.len() && e[i].id == k by {
                if k == id {
                    assert(e[e.len() - 1].id == k);
                } else {
                    assert(old(self)@.contains_key(k));
                    let j = choose|j: int| 0 <= j < old_e.len() && old_e[j].id == k;
                    assert(e[j] == old_e[j]);
                }
            }
        }
    }

    /// Takes the notification with this id off the screen.
    pub fn remove(&mut self, id: u32) -> (r: Option<Content>)
        requires
            old(self).wf(),
        ensures
            final(self).wf(),
            final(self)@ == old(self)@.remove(id),
            match r {
                Some(c) => old(self)@.contains_key(id) && c@ == old(self)@[id],
                None => !old(self)@.contains_key(id),
            },
    {
        match self.find(id) {
            None => {
                assert(self@.remove(id) =~= self@);
                None
            },
            Some(i) => {
                let ghost old_e = self.entries@;
                let e = self.entries.remove(i);
                self.model = Ghost(self.model@.remove(id));
                proof {
                    let m = self.model@;
                    let ne = self.entries@;
                    assert forall|j: int| 0 <= j < ne.len() implies m.contains_key(
                        #[trigger] ne[j].id,
                    ) && m[ne[j].id] == ne[j].content@ by {
                        if j < i {
                            assert(ne[j] == old_e[j]);
                        } else {
                            assert(ne[j] == old_e[j + 1]);
                        }
                    }
                    assert forall|a: int, b: int| 0 <= a < b < ne.len() implies ne[a].id
                        != ne[b].id by {
                        let oa = if a < i {
                            a
                        } else {
                            a + 1
                        };
                        let ob = if b < i {
                            b
                        } else {
                            b + 1
                        };
                        assert(ne[a] == old_e[oa]);
                        assert(ne[b] == old_e[ob]);
                    }
                    assert forall|k: u32| #[trigger] m.contains_key(k) implies exists|j: int|
                        0 <= j < ne.len() && ne[j].id == k by {
                        let j = choose|j: int| 0 <= j < old_e.len() && old_e[j].id == k;
                        if j < i {
                            assert(ne[j].id == k);
                        } else {
                            assert(j != i);
                            assert(ne[j - 1].id == k);
                        }
                    }
                }
                Some(e.content)
            },
        }
    }

    /// Applies an update's difference to the notification with this id.
    pub fn update(&mut self, id: u32, d: Diff)
        requires
            old(self).wf(),
            old(self)@.contains_key(id),
        ensures
            final(self).wf(),
            final(self)@ == old(self)@.insert(id, applied(old(self)@[id], d@)),
    {
        let i = match self.find(id) {
            Some(i) => i,
            None => {
                return;
            },
        };
        let ghost old_e = self.entries@;
        let ghost dv = d@;
        let mut e = self.entries.remove(i);
        e.content.apply(d);
        self.entries.insert(i, e);
        self.model = Ghost(self.model@.insert(id, applied(self.model@[id], dv)));
        proof {
            let ne = self.entries@;
            assert(ne =~= old_e.update(i as int, ne[i as int]));
            let m = self.model@;
            assert forall|k: u32| #[trigger] m.contains_key(k) implies exists|j: int|
                0 <= j < ne.len() && ne[j].id == k by {
                let j = choose|j: int| 0 <= j < old_e.len() && old_e[j].id == k;
                assert(ne[j].id == k);
            }
            assert(m.dom() =~= old(self)@.dom());
        }
    }

    /// Takes every notification off the screen; returns the ids that were shown.
    pub fn clear(&mut self) -> (r: Vec<u32>)
        requires
            old(self).wf(),
        ensures
            final(self).wf(),
            final(self)@ == Map::<u32, ContentView>::empty(),
            r@.len() == old(self)@.dom().len(),
            forall|id: u32| old(self)@.contains_key(id) <==> r@.contains(id),
    {
        let r = self.ids();
        self.entries = Vec::new();
        self.model = Ghost(Map::empty());
        r
    }
}

} // verus!
