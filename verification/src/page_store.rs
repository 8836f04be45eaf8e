//! Drawings saved per plan page: at most one entry for each page id. A new
//! outline replaces the page's earlier one; segments accumulate.
use vstd::prelude::*;
use vstd::string::*;
use crate::text::str_eq;

verus! {

/// Saved values keyed by page id, each page id at most once.
pub struct PageStore<T> {
    pub entries: Vec<(String, T)>,
}

/// Index of the entry for page `k`, or -1 when the page has none.
pub open spec fn find_key<T>(e: Seq<(String, T)>, k: Seq<char>) -> int
    decreases e.len(),
{
    if e.len() == 0 {
        -1
    } else if e.last().0@ == k {
        e.len() - 1
    } else {
        find_key(e.drop_last(), k)
    }
}

/// No page id occurs twice.
pub open spec fn keys_unique<T>(e: Seq<(String, T)>) -> bool {
    forall|i: int, j: int|
        0 <= i < e.len() && 0 <= j < e.len() && i != j ==> #[trigger] e[i].0@ != #[trigger] e[j].0@
}

/// `find_key` finds the one entry of a page, and -1 means the page has none.
pub proof fn lemma_find_key<T>(e: Seq<(String, T)>, k: Seq<char>)
    requires
        keys_unique(e),
    ensures
        -1 <= find_key(e, k) < e.len(),
        find_key(e, k) >= 0 ==> e[find_key(e, k)].0@ == k,
        forall|i: int| 0 <= i < e.len() && #[trigger] e[i].0@ == k ==> i == find_key(e, k),
    decreases e.len(),
{
    if e.len() > 0 {
        let d = e.drop_last();
        assert(keys_unique(d)) by {
            assert forall|i: int, j: int|
                0 <= i < d.len() && 0 <= j < d.len() && i != j implies #[trigger] d[i].0@
                != #[trigger] d[j].0@ by {
                assert(d[i] == e[i] && d[j] == e[j]);
            }
        }
        lemma_find_key(d, k);
        assert forall|i: int| 0 <= i < e.len() && #[trigger] e[i].0@ == k implies i == find_key(
            e,
            k,
        ) by {
            if i < e.len() - 1 {
                assert(d[i] == e[i]);
                if e.last().0@ == k {
                    assert(e[e.len() - 1].0@ == e[i].0@);
                }
            }
        }
        if e.last().0@ != k && find_key(d, k) >= 0 {
            assert(d[find_key(d, k)] == e[find_key(d, k)]);
        }
    }
}

impl<T> PageStore<T> {
    /// Whether no page id occurs twice.
    pub open spec fn wf(&self) -> bool {
        keys_unique(self.entries@)
    }

    /// An empty store.
    pub fn new() -> (s: Self)
        ensures
            s.wf(),
            s.entries@.len() == 0,
    {
        PageStore { entries: Vec::new() }
    }

    /// Position of the entry for `page_id`, if the page has one.
    pub fn position(&self, page_id: &str) -> (r: Option<usize>)
        requires
            self.wf(),
        ensures
            -1 <= find_key(self.entries@, page_id@) < self.entries@.len(),
            r is None <==> find_key(self.entries@, page_id@) < 0,
            r matches Some(i) ==> i as int == find_key(self.entries@, page_id@),
    {
        proof {
            lemma_find_key(self.entries@, page_id@);
        }
        let mut i: usize = 0;
        while i < self.entries.len()
            invariant
                self.wf(),
                i <= self.entries@.len(),
                forall|j: int| 0 <= j < i ==> self.entries@[j].0@ != page_id@,
                -1 <= find_key(self.entries@, page_id@) < self.entries@.len(),
                find_key(self.entries@, page_id@) >= 0 ==> self.entries@[find_key(
                    self.entries@,
                    page_id@,
                )].0@ == page_id@,
                forall|j: int|
                    0 <= j < self.entries@.len() && #[trigger] self.entries@[j].0@ == page_id@ ==> j
                        == find_key(self.entries@, page_id@),
            decreases self.entries@.len() - i,
        {
            if str_eq(self.entries[i].0.as_str(), page_id) {
                return Some(i);
            }
            i = i + 1;
        }
        None
    }

    /// The value saved for `page_id`, if any.
    pub fn get(&self, page_id: &str) -> (r: Option<&T>)
        requires
            self.wf(),
        ensures
            find_key(self.entries@, page_id@) < 0 ==> r is None,
            find_key(self.entries@, page_id@) >= 0 ==> r == Some(
                &self.entries@[find_key(self.entries@, page_id@)].1,
            ),
    {
        match self.position(page_id) {
            Some(i) => Some(&self.entries[i].1),
            None => None,
        }
    }

    /// Saves `value` for `page_id`: it replaces the page's earlier value, or
    /// is added at the end when the page had none.
    pub fn insert(&mut self, page_id: String, value: T)
        requires
            old(self).wf(),
        ensures
            final(self).wf(),
            find_key(old(self).entries@, page_id@) >= 0 ==> final(self).entries@ == old(
                self,
            ).entries@.update(
                find_key(old(self).entries@, page_id@),
                (old(self).entries@[find_key(old(self).entries@, page_id@)].0, value),
            ),
            find_key(old(self).entries@, page_id@) < 0 ==> final(self).entries@ == old(
                self,
            ).entries@.push((page_id, value)),
    {
        proof {
            lemma_find_key(self.entries@, page_id@);
        }
        match self.position(page_id.as_str()) {
            Some(i) => {
                assert(i as int == find_key(old(self).entries@, page_id@));
                let (key, _) = self.entries.remove(i);
                self.entries.insert(i, (key, value));
                assert(self.entries@ =~= old(self).entries@.update(
                    i as int,
                    (old(self).entries@[i as int].0, value),
                ));
                assert(keys_unique(self.entries@)) by {
                    assert forall|a: int, b: int|
                        0 <= a < self.entries@.len() && 0 <= b < self.entries@.len() && a != b
                            implies #[trigger] self.entries@[a].0@
                        != #[trigger] self.entries@[b].0@ by {
                        assert(self.entries@[a].0 == old(self).entries@[a].0);
                        assert(self.entries@[b].0 == old(self).entries@[b].0);
                    }
                }
            },
            None => {
                self.entries.push((page_id, value));
                assert(keys_unique(self.entries@)) by {
                    let n = old(self).entries@.len() as int;
                    assert forall|a: int, b: int|
                        0 <= a < self.entries@.len() && 0 <= b < self.entries@.len() && a != b
                            implies #[trigger] self.entries@[a].0@
                        != #[trigger] self.entries@[b].0@ by {
                        if a < n && b < n {
                            assert(self.entries@[a] == old(self).entries@[a]);
                            assert(self.entries@[b] == old(self).entries@[b]);
                        } else if a == n {
                            assert(self.entries@[b] == old(self).entries@[b]);
                        } else {
                            assert(self.entries@[a] == old(self).entries@[a]);
                        }
                    }
                }
            },
        }
    }
}

impl<E> PageStore<Vec<E>> {
    /// Adds `item` to the list of `page_id`: at the end of the page's list,
    /// or as a new list of one when the page had none.
    pub fn append(&mut self, page_id: String, item: E)
        requires
            old(self).wf(),
        ensures
            final(self).wf(),
            find_key(old(self).entries@, page_id@) >= 0 ==> {
                let i = find_key(old(self).entries@, page_id@);
                &&& final(self).entries@.len() == old(self).entries@.len()
                &&& final(self).entries@[i].0 == old(self).entries@[i].0
                &&& final(self).entries@[i].1@ == old(self).entries@[i].1@.push(item)
                &&& forall|j: int|
                    #![trigger old(self).entries@[j]]
                    0 <= j < old(self).entries@.len() && j != i ==> final(self).entries@[j] == old(
                        self,
                    ).entries@[j]
            },
            find_key(old(self).entries@, page_id@) < 0 ==> {
                &&& final(self).entries@.len() == old(self).entries@.len() + 1
                &&& final(self).entries@.drop_last() == old(self).entries@
                &&& final(self).entries@.last().0 == page_id
                &&& final(self).entries@.last().1@ == seq![item]
            },
    {
        proof {
            lemma_find_key(self.entries@, page_id@);
        }
        match self.position(page_id.as_str()) {
            Some(i) => {
                assert(i as int == find_key(old(self).entries@, page_id@));
                let (key, mut items) = self.entries.remove(i);
                items.push(item);
                self.entries.insert(i, (key, items));
                assert forall|j: int|
                    0 <= j < old(self).entries@.len() && j != i implies #[trigger] self.entries@[j]
                    == old(self).entries@[j] by {
                    if j < i {
                        assert(self.entries@[j] == old(self).entries@[j]);
                    } else {
                        assert(self.entries@[j] == old(self).entries@[j]);
                    }
                }
                assert(keys_unique(self.entries@)) by {
                    assert forall|a: int, b: int|
                        0 <= a < self.entries@.len() && 0 <= b < self.entries@.len() && a != b
                            implies #[trigger] self.entries@[a].0@
                        != #[trigger] self.entries@[b].0@ by {
                        assert(self.entries@[a].0 == old(self).entries@[a].0);
                        assert(self.entries@[b].0 == old(self).entries@[b].0);
                    }
                }
            },
            None => {
                let mut items: Vec<E> = Vec::new();
                items.push(item);
                assert(items@ =~= seq![item]);
                self.entries.push((page_id, items));
                assert(self.entries@.drop_last() =~= old(self).entries@);
                assert(keys_unique(self.entries@)) by {
                    let n = old(self).entries@.len() as int;
                    assert forall|a: int, b: int|
                        0 <= a < self.entries@.len() && 0 <= b < self.entries@.len() && a != b
                            implies #[trigger] self.entries@[a].0@
                        != #[trigger] self.entries@[b].0@ by {
                        if a < n && b < n {
                            assert(self.entries@[a] == old(self).entries@[a]);
                            assert(self.entries@[b] == old(self).entries@[b]);
                        } else if a == n {
                            assert(self.entries@[b] == old(self).entries@[b]);
                        } else {
                            assert(self.entries@[a] == old(self).entries@[a]);
                        }
                    }
                }
            },
        }
    }
}

/// What is saved for a page is what was last saved for it: after saving
/// `value` for `k`, looking `k` up finds `value`, and every other page
/// finds what it found before.
pub proof fn lemma_insert_then_find<T>(e: Seq<(String, T)>, key: String, value: T, other: Seq<char>)
    requires
        keys_unique(e),
    ensures
        ({
            let after = if find_key(e, key@) >= 0 {
                e.update(find_key(e, key@), (e[find_key(e, key@)].0, value))
            } else {
                e.push((key, value))
            };
            &&& keys_unique(after)
            &&& find_key(after, key@) >= 0
            &&& after[find_key(after, key@)].1 == value
            &&& other != key@ ==> (find_key(after, other) >= 0 <==> find_key(e, other) >= 0)
            &&& other != key@ && find_key(e, other) >= 0 ==> after[find_key(after, other)]
                == e[find_key(e, other)]
        }),
{
    lemma_find_key(e, key@);
    lemma_find_key(e, other);
    let after = if find_key(e, key@) >= 0 {
        e.update(find_key(e, key@), (e[find_key(e, key@)].0, value))
    } else {
        e.push((key, value))
    };
    assert(keys_unique(after)) by {
        assert forall|a: int, b: int|
            0 <= a < after.len() && 0 <= b < after.len() && a != b implies #[trigger] after[a].0@
            != #[trigger] after[b].0@ by {
            if find_key(e, key@) >= 0 {
                assert(after[a].0 == e[a].0 && after[b].0 == e[b].0);
            } else if a < e.len() && b < e.len() {
                assert(after[a] == e[a] && after[b] == e[b]);
            } else if a == e.len() {
                assert(after[b] == e[b]);
            } else {
                assert(after[a] == e[a]);
            }
        }
    }
    lemma_find_key(after, key@);
    lemma_find_key(after, other);
    let ik = if find_key(e, key@) >= 0 {
        find_key(e, key@)
    } else {
        e.len() as int
    };
    assert(after[ik].0@ == key@);
    if other != key@ {
        if find_key(e, other) >= 0 {
            let io = find_key(e, other);
            assert(after[io] == e[io]);
        }
        if find_key(after, other) >= 0 {
            let ia = find_key(after, other);
            if ia < e.len() {
                assert(after[ia].0 == e[ia].0);
            }
        }
    }
}

} // verus!
