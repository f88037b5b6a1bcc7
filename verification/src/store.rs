//! The named lists behind the shell's store commands.
//!
//! The host persists named lists (browsing history, bookmarks) in a store
//! file, and the shell's commands read a list by key, replace it, or append
//! one item to it. This module is the verified core of those commands: an
//! in-memory store of named lists with exactly those operations. An item is
//! kept as an opaque string (the shell stores serialized documents in it);
//! reading and writing the store file is left to the code around the
//! library.

use vstd::prelude::*;

use crate::text::str_eq;

verus! {

/// One named list: its key and its items in order.
pub struct ListEntry {
    pub key: String,
    pub items: Vec<String>,
}

/// Named lists with pairwise-distinct keys.
pub struct ListStore {
    entries: Vec<ListEntry>,
}

impl ListStore {
    /// Well-formed: no key occurs twice.
    pub closed spec fn wf(self) -> bool {
        forall|i: int, j: int|
            0 <= i < j < self.entries@.len() ==> self.entries@[i].key@ != self.entries@[j].key@
    }

    /// Whether a list is stored under `key`.
    pub closed spec fn spec_has(self, key: Seq<char>) -> bool {
        exists|i: int| 0 <= i < self.entries@.len() && self.entries@[i].key@ == key
    }

    /// The list stored under `key`; the empty list where none is.
    pub closed spec fn spec_get(self, key: Seq<char>) -> Seq<Seq<char>> {
        if self.spec_has(key) {
            let i = choose|i: int|
                0 <= i < self.entries@.len() && self.entries@[i].key@ == key;
            self.entries@[i].items.deep_view()
        } else {
            Seq::empty()
        }
    }

    /// An absent key reads as the empty list: with it a caller concludes,
    /// for one, that a push on an absent key yields the one-item list.
    pub proof fn lemma_absent_reads_empty(self, key: Seq<char>)
        requires
            !self.spec_has(key),
        ensures
            self.spec_get(key) == Seq::<Seq<char>>::empty(),
    {
    }

    /// All keys but `key` keep their presence and their list.
    pub open spec fn unchanged_except(pre: ListStore, post: ListStore, key: Seq<char>) -> bool {
        &&& forall|k: Seq<char>|
            k != key ==> (#[trigger] post.spec_has(k)) == pre.spec_has(k)
        &&& forall|k: Seq<char>|
            k != key ==> (#[trigger] post.spec_get(k)) == pre.spec_get(k)
    }

    /// In a well-formed store, the entry found at `i` is the stored list.
    proof fn lemma_get_at(self, key: Seq<char>, i: int)
        requires
            self.wf(),
            0 <= i < self.entries@.len(),
            self.entries@[i].key@ == key,
        ensures
            self.spec_has(key),
            self.spec_get(key) == self.entries@[i].items.deep_view(),
    {
        assert(self.spec_has(key));
        let j = choose|j: int|
            0 <= j < self.entries@.len() && self.entries@[j].key@ == key;
        if i < j {
            assert(self.entries@[i].key@ != self.entries@[j].key@);
        } else if j < i {
            assert(self.entries@[j].key@ != self.entries@[i].key@);
        }
    }

    /// An empty store: nothing under any key.
    pub fn new() -> (r: Self)
        ensures
            r.wf(),
            forall|k: Seq<char>| !(#[trigger] r.spec_has(k)),
            forall|k: Seq<char>| #[trigger] r.spec_get(k) == Seq::<Seq<char>>::empty(),
    {
        ListStore { entries: Vec::new() }
    }

    /// The index of the entry for `key`, where one exists.
    fn find_index(&self, key: &str) -> (r: Option<usize>)
        requires
            self.wf(),
        ensures
            match r {
                Some(i) => i < self.entries@.len() && self.entries@[i as int].key@ == key@,
                None => !self.spec_has(key@),
            },
    {
        let n = self.entries.len();
        let mut i: usize = 0;
        while i < n
            invariant
                n == self.entries@.len(),
                i <= n,
                forall|j: int| 0 <= j < i ==> self.entries@[j].key@ != key@,
            decreases n - i,
        {
            if str_eq(self.entries[i].key.as_str(), key) {
                return Some(i);
            }
            i += 1;
        }
        None
    }

    /// The list stored under `key`, as the host's read command hands it
    /// out: a copy, and the empty list where the key is absent.
    pub fn get_list(&self, key: &str) -> (r: Vec<String>)
        requires
            self.wf(),
        ensures
            r.deep_view() == self.spec_get(key@),
    {
        match self.find_index(key) {
            Some(i) => {
                let r = self.entries[i].items.clone();
                proof {
                    self.lemma_get_at(key@, i as int);
                    let src = self.entries@[i as int].items;
                    assert forall|j: int| 0 <= j < r@.len() implies r@[j]@ == src@[j]@ by {
                        assert(cloned::<String>(src@[j], r@[j]));
                    }
                    assert(r.deep_view() =~= src.deep_view());
                }
                r
            },
            None => {
                let r: Vec<String> = Vec::new();
                proof {
                    assert(r.deep_view() =~= Seq::<Seq<char>>::empty());
                }
                r
            },
        }
    }

    /// Drop the entry for `key`, where one exists; every other key keeps
    /// its list.
    fn remove_key(&mut self, key: &str)
        requires
            old(self).wf(),
        ensures
            final(self).wf(),
            !final(self).spec_has(key@),
            Self::unchanged_except(*old(self), *final(self), key@),
    {
        let idx = self.find_index(key);
        match idx {
            Some(i) => {
                self.entries.remove(i);
                proof {
                    let oe = old(self).entries@;
                    let ne = self.entries@;
                    oe.remove_ensures(i as int);
                    assert forall|k: Seq<char>| k != key@ implies
                        (#[trigger] self.spec_has(k)) == old(self).spec_has(k) by {
                        if old(self).spec_has(k) {
                            let j = choose|j: int| 0 <= j < oe.len() && oe[j].key@ == k;
                            if j < i {
                                assert(ne[j] == oe[j]);
                            } else {
                                assert(j != i);
                                assert(ne[j - 1] == oe[j]);
                            }
                            assert(self.spec_has(k));
                        }
                        if self.spec_has(k) {
                            let j = choose|j: int| 0 <= j < ne.len() && ne[j].key@ == k;
                            if j < i {
                                assert(ne[j] == oe[j]);
                            } else {
                                assert(ne[j] == oe[j + 1]);
                            }
                            assert(old(self).spec_has(k));
                        }
                    }
                    assert forall|k: Seq<char>| k != key@ implies
                        (#[trigger] self.spec_get(k)) == old(self).spec_get(k) by {
                        if old(self).spec_has(k) {
                            let j = choose|j: int| 0 <= j < oe.len() && oe[j].key@ == k;
                            old(self).lemma_get_at(k, j);
                            if j < i {
                                assert(ne[j] == oe[j]);
                                self.lemma_get_at(k, j);
                            } else {
                                assert(j != i);
                                assert(ne[j - 1] == oe[j]);
                                self.lemma_get_at(k, j - 1);
                            }
                        }
                    }
                    assert forall|j: int| 0 <= j < ne.len() implies ne[j].key@ != key@ by {
                        if j < i {
                            assert(ne[j] == oe[j]);
                        } else {
                            assert(ne[j] == oe[j + 1]);
                        }
                    }
                }
            },
            None => {},
        }
    }

    /// Add an entry for a key that is absent; every other key keeps its
    /// list.
    fn append_new(&mut self, key: String, items: Vec<String>)
        requires
            old(self).wf(),
            !old(self).spec_has(key@),
        ensures
            final(self).wf(),
            final(self).spec_has(key@),
            final(self).spec_get(key@) == items.deep_view(),
            Self::unchanged_except(*old(self), *final(self), key@),
    {
        let ghost gkey = key@;
        let ghost gitems = items;
        self.entries.push(ListEntry { key, items });
        proof {
            let oe = old(self).entries@;
            let ne = self.entries@;
            let n = oe.len() as int;
            assert(ne[n].key@ == gkey);
            assert forall|j: int| 0 <= j < n implies ne[j] == oe[j] by {}
            assert(self.spec_has(gkey));
            self.lemma_get_at(gkey, n);
            assert forall|k: Seq<char>| k != gkey implies
                (#[trigger] self.spec_has(k)) == old(self).spec_has(k) by {
                if self.spec_has(k) {
                    let j = choose|j: int| 0 <= j < ne.len() && ne[j].key@ == k;
                    assert(j != n);
                    assert(old(self).spec_has(k));
                }
            }
            assert forall|k: Seq<char>| k != gkey implies
                (#[trigger] self.spec_get(k)) == old(self).spec_get(k) by {
                if old(self).spec_has(k) {
                    let j = choose|j: int| 0 <= j < oe.len() && oe[j].key@ == k;
                    old(self).lemma_get_at(k, j);
                    self.lemma_get_at(k, j);
                }
            }
        }
    }

    /// The keys under which a list is stored, each once, in store order.
    pub fn keys(&self) -> (r: Vec<String>)
        requires
            self.wf(),
        ensures
            forall|k: Seq<char>| #[trigger] self.spec_has(k) <==> r.deep_view().contains(k),
            forall|i: int, j: int|
                0 <= i < j < r.deep_view().len() ==> r.deep_view()[i] != r.deep_view()[j],
    {
        let n = self.entries.len();
        let mut r: Vec<String> = Vec::new();
        let mut i: usize = 0;
        while i < n
            invariant
                n == self.entries@.len(),
                i <= n,
                r@.len() == i,
                forall|j: int| 0 <= j < i ==> r.deep_view()[j] == self.entries@[j].key@,
            decreases n - i,
        {
            let ghost r0 = r@;
            let ghost r0dv = r.deep_view();
            let k = self.entries[i].key.clone();
            proof {
                assert(k@ == self.entries@[i as int].key@);
            }
            r.push(k);
            proof {
                assert forall|j: int| 0 <= j < i + 1 implies r.deep_view()[j]
                    == self.entries@[j].key@ by {
                    assert(r@ == r0.push(k));
                    assert(r.deep_view()[j] == r@[j]@);
                    if j < i {
                        assert(r@[j] == r0[j]);
                        assert(r0dv[j] == r0[j]@);
                    } else {
                        assert(r@[j] == k);
                    }
                }
            }
            i += 1;
        }
        proof {
            assert forall|k: Seq<char>| #[trigger] self.spec_has(k) <==> r.deep_view().contains(
                k,
            ) by {
                if self.spec_has(k) {
                    let j = choose|j: int|
                        0 <= j < self.entries@.len() && self.entries@[j].key@ == k;
                    assert(r.deep_view()[j] == k);
                }
                if r.deep_view().contains(k) {
                    let j = choose|j: int| 0 <= j < r.deep_view().len() && r.deep_view()[j] == k;
                    assert(self.entries@[j].key@ == k);
                }
            }
        }
        r
    }

    /// Replace the list stored under `key`, creating it where absent, as
    /// the host's write command does.
    pub fn set_list(&mut self, key: String, items: Vec<String>)
        requires
            old(self).wf(),
        ensures
            final(self).wf(),
            final(self).spec_has(key@),
            final(self).spec_get(key@) == items.deep_view(),
            Self::unchanged_except(*old(self), *final(self), key@),
    {
        self.remove_key(key.as_str());
        self.append_new(key, items);
    }

    /// Append one item to the list stored under `key`: an absent key, as
    /// the host's append command treats it, starts from the empty list.
    pub fn push_list(&mut self, key: String, item: String)
        requires
            old(self).wf(),
        ensures
            final(self).wf(),
            final(self).spec_has(key@),
            final(self).spec_get(key@) == old(self).spec_get(key@).push(item@),
            Self::unchanged_except(*old(self), *final(self), key@),
    {
        let ghost gitem = item@;
        let mut items = self.get_list(key.as_str());
        let ghost before = items.deep_view();
        items.push(item);
        proof {
            assert(items.deep_view() =~= before.push(gitem));
        }
        self.set_list(key, items);
    }
}

} // verus!
