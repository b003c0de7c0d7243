//! An in-memory title cache: one rendered artifact per distinct title, no
//! expiry, no size bound.

use vstd::prelude::*;

verus! {

/// One cached artifact together with the title it was rendered for.
pub struct CacheEntry {
    pub title: String,
    pub artifact: Vec<u8>,
}

/// Maps each title to the bytes that were stored for it last.
pub struct TitleCache {
    entries: Vec<CacheEntry>,
}

/// Whether some entry of `entries` is keyed by `title`.
spec fn holds_title(entries: Seq<CacheEntry>, title: Seq<char>) -> bool {
    exists|i: int| 0 <= i < entries.len() && #[trigger] entries[i].title@ == title
}

/// The position of an entry keyed by `title`.
spec fn position_of(entries: Seq<CacheEntry>, title: Seq<char>) -> int {
    choose|i: int| 0 <= i < entries.len() && #[trigger] entries[i].title@ == title
}

/// The mapping that a sequence of entries stands for.
spec fn entries_map(entries: Seq<CacheEntry>) -> Map<Seq<char>, Seq<u8>> {
    Map::new(
        |title: Seq<char>| holds_title(entries, title),
        |title: Seq<char>| entries[position_of(entries, title)].artifact@,
    )
}

/// No two entries share a title.
spec fn distinct_titles(entries: Seq<CacheEntry>) -> bool {
    forall|i: int, j: int|
        0 <= i < entries.len() && 0 <= j < entries.len() && #[trigger] entries[i].title@
            == #[trigger] entries[j].title@ ==> i == j
}

impl TitleCache {
    /// The cache as a mapping from title to artifact.
    pub closed spec fn view(&self) -> Map<Seq<char>, Seq<u8>> {
        entries_map(self.entries@)
    }

    /// Key uniqueness: one entry per distinct title.
    pub closed spec fn wf(&self) -> bool {
        distinct_titles(self.entries@)
    }

    /// An empty cache.
    pub fn new() -> (cache: TitleCache)
        ensures
            cache.wf(),
            cache@ == Map::<Seq<char>, Seq<u8>>::empty(),
    {
        let cache = TitleCache { entries: Vec::new() };
        assert(cache@ =~= Map::<Seq<char>, Seq<u8>>::empty());
        cache
    }

    fn find(&self, title: &String) -> (found: Option<usize>)
        requires
            self.wf(),
        ensures
            match found {
                Some(i) => i < self.entries@.len() && self.entries@[i as int].title@ == title@,
                None => !holds_title(self.entries@, title@),
            },
    {
        let mut i: usize = 0;
        while i < self.entries.len()
            invariant
                i <= self.entries@.len(),
                forall|k: int| 0 <= k < i ==> self.entries@[k].title@ != title@,
            decreases self.entries@.len() - i,
        {
            if self.entries[i].title == *title {
                return Some(i);
            }
            i += 1;
        }
        None
    }

    /// Looks `title` up. A hit returns the bytes stored for exactly that
    /// title; a miss returns `None`.
    pub fn get(&self, title: &String) -> (found: Option<Vec<u8>>)
        requires
            self.wf(),
        ensures
            match found {
                Some(bytes) => self@.contains_key(title@) && bytes@ == self@[title@],
                None => !self@.contains_key(title@),
            },
    {
        match self.find(title) {
            Some(i) => {
                let bytes = self.entries[i].artifact.clone();
                assert(bytes@ =~= self.entries@[i as int].artifact@);
                Some(bytes)
            },
            None => None,
        }
    }

    /// Whether an artifact is stored for `title`.
    pub fn contains(&self, title: &String) -> (present: bool)
        requires
            self.wf(),
        ensures
            present == self@.contains_key(title@),
    {
        self.find(title).is_some()
    }

    /// Stores `artifact` under `title`, replacing what was stored for that
    /// title before. Every other title keeps its artifact.
    pub fn put(&mut self, title: String, artifact: Vec<u8>)
        requires
            old(self).wf(),
        ensures
            final(self).wf(),
            final(self)@ == old(self)@.insert(title@, artifact@),
    {
        let ghost before = self.entries@;
        let ghost key = title@;
        let ghost value = artifact@;
        match self.find(&title) {
            Some(i) => {
                self.entries.set(i, CacheEntry { title, artifact });
                proof {
                    let after = self.entries@;
                    assert forall|t: Seq<char>| holds_title(after, t) == holds_title(
                        before,
                        t,
                    ) by {
                        if holds_title(after, t) {
                            let k = position_of(after, t);
                            assert(before[k].title@ == t);
                        }
                        if holds_title(before, t) {
                            let k = position_of(before, t);
                            assert(after[k].title@ == t);
                        }
                    }
                    assert forall|t: Seq<char>| holds_title(after, t) implies entries_map(after)[t]
                        == before_or(before, key, value, t) by {
                        let k = position_of(after, t);
                        let l = position_of(before, t);
                        assert(before[k].title@ == t);
                        assert(k == l);
                    }
                    assert(entries_map(after) =~= entries_map(before).insert(key, value));
                }
            },
            None => {
                self.entries.push(CacheEntry { title, artifact });
                proof {
                    let after = self.entries@;
                    let n = before.len() as int;
                    assert(after[n].title@ == key);
                    assert forall|t: Seq<char>| holds_title(after, t) == (t == key || holds_title(
                        before,
                        t,
                    )) by {
                        if holds_title(after, t) {
                            let k = position_of(after, t);
                            if k < n {
                                assert(before[k].title@ == t);
                            }
                        }
                        if holds_title(before, t) {
                            let k = position_of(before, t);
                            assert(after[k].title@ == t);
                        }
                    }
                    assert forall|t: Seq<char>| holds_title(after, t) implies entries_map(after)[t]
                        == before_or(before, key, value, t) by {
                        let k = position_of(after, t);
                        if t != key {
                            let l = position_of(before, t);
                            assert(before[k].title@ == t);
                            assert(k == l);
                        }
                    }
                    assert(entries_map(after) =~= entries_map(before).insert(key, value));
                }
            },
        }
    }
}

/// What a cache that held `before` holds for `title` once `value` has been
/// stored under `key`.
spec fn before_or(
    before: Seq<CacheEntry>,
    key: Seq<char>,
    value: Seq<u8>,
    title: Seq<char>,
) -> Seq<u8> {
    if title == key {
        value
    } else {
        entries_map(before)[title]
    }
}

} // verus!
