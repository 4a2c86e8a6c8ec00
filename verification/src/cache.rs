use vstd::prelude::*;

verus! {

/// A recorded failure of an external fetch, kept so that later paint passes
/// observe the settled outcome instead of reading again.
#[derive(Debug)]
pub struct LoadError {
    pub message: String,
}

/// The state of one cache entry: a read is in flight, or it settled with
/// bytes, or it settled with a failure.
#[derive(Debug)]
pub enum FetchState {
    InFlight,
    Loaded(Vec<u8>),
    Failed(LoadError),
}

/// The mathematical model of an entry. A failure is modelled as bare
/// failure: its message is carried for logging only.
pub enum FetchModel {
    InFlight,
    Loaded(Seq<u8>),
    Failed,
}

impl FetchState {
    pub open spec fn model(self) -> FetchModel {
        match self {
            FetchState::InFlight => FetchModel::InFlight,
            FetchState::Loaded(b) => FetchModel::Loaded(b@),
            FetchState::Failed(_) => FetchModel::Failed,
        }
    }
}

/// The model of a settled outcome.
pub open spec fn result_model(r: Result<Vec<u8>, LoadError>) -> FetchModel {
    match r {
        Ok(b) => FetchModel::Loaded(b@),
        Err(_) => FetchModel::Failed,
    }
}

/// What a requester must do next.
#[derive(Debug)]
pub enum FetchDirective {
    /// The key was not in the cache: an entry is now in flight and this
    /// caller, alone, must perform the read and hand the outcome to
    /// `complete`.
    StartRead,
    /// An earlier request already started the read; draw nothing and
    /// observe the settled entry on a later pass.
    Wait,
    /// The settled outcome recorded for this key.
    Ready(Result<Vec<u8>, LoadError>),
}

/// A session-scoped cache of externally fetched byte payloads, keyed by
/// location identifier. Entries are created on first request and reused by
/// every later request with the same key; a key is read at most once.
pub struct AssetCache {
    entries: Vec<(String, FetchState)>,
}

impl AssetCache {
    /// Keys are unique.
    pub closed spec fn wf(self) -> bool {
        forall|i: int, j: int|
            0 <= i < j < self.entries@.len() ==> self.entries@[i].0@ != self.entries@[j].0@
    }

    /// Whether the cache holds an entry for this key.
    pub closed spec fn has(self, k: Seq<char>) -> bool {
        exists|i: int| 0 <= i < self.entries@.len() && self.entries@[i].0@ == k
    }

    /// The model of the entry for a key the cache holds.
    pub closed spec fn state_of(self, k: Seq<char>) -> FetchModel {
        let i = choose|i: int| 0 <= i < self.entries@.len() && self.entries@[i].0@ == k;
        self.entries@[i].1.model()
    }

    /// An empty cache.
    pub fn new() -> (r: AssetCache)
        ensures
            r.wf(),
            forall|k: Seq<char>| !r.has(k),
    {
        AssetCache { entries: Vec::new() }
    }

    /// The index of the entry for a key, if any.
    fn find_index(&self, key: &String) -> (r: Option<usize>)
        ensures
            r matches Some(i) ==> i < self.entries@.len() && self.entries@[i as int].0@ == key@,
            r is None ==> !self.has(key@),
    {
        let mut i: usize = 0;
        while i < self.entries.len()
            invariant
                i <= self.entries@.len(),
                forall|j: int| 0 <= j < i ==> self.entries@[j].0@ != key@,
            decreases self.entries@.len() - i,
        {
            if self.entries[i].0 == *key {
                return Some(i);
            }
            i = i + 1;
        }
        None
    }

    /// Looks the key up and, on a miss, installs an in-flight entry.
    ///
    /// At most one fetch per key: exactly the caller that finds no entry is
    /// told to read, and it leaves the entry in flight, so any concurrent or
    /// later request for the same key is told to wait or is handed the
    /// settled outcome that the single read produced. A request never
    /// changes a cache that already holds its key.
    pub fn request(&mut self, key: &String) -> (r: FetchDirective)
        requires
            old(self).wf(),
        ensures
            final(self).wf(),
            !old(self).has(key@) ==> r is StartRead && final(self).has(key@)
                && final(self).state_of(key@) == FetchModel::InFlight,
            !old(self).has(key@) ==> forall|k2: Seq<char>|
                k2 != key@ ==> final(self).has(k2) == old(self).has(k2) && (old(self).has(k2)
                    ==> final(self).state_of(k2) == old(self).state_of(k2)),
            old(self).has(key@) ==> *final(self) == *old(self),
            old(self).has(key@) && old(self).state_of(key@) == FetchModel::InFlight ==> r is Wait,
            old(self).has(key@) && old(self).state_of(key@) != FetchModel::InFlight ==> (r
                matches FetchDirective::Ready(res) && result_model(res) == old(self).state_of(
                key@)),
    {
        match self.find_index(key) {
            Some(i) => {
                proof {
                    lemma_key_pinned(*self, key@, i as int);
                }
                match &self.entries[i].1 {
                    FetchState::InFlight => FetchDirective::Wait,
                    FetchState::Loaded(b) => {
                        let bytes = b.clone();
                        proof {
                            assert forall|k: int| 0 <= k < bytes@.len() implies bytes@[k]
                                == b@[k] by {
                                assert(cloned::<u8>(b@[k], bytes@[k]));
                            }
                            assert(bytes@ =~= b@);
                        }
                        FetchDirective::Ready(Ok(bytes))
                    },
                    FetchState::Failed(e) => {
                        let msg = e.message.clone();
                        FetchDirective::Ready(Err(LoadError { message: msg }))
                    },
                }
            },
            None => {
                let ghost pre = self.entries@;
                self.entries.push((key.clone(), FetchState::InFlight));
                proof {
                    assert forall|i: int, j: int|
                        0 <= i < j < self.entries@.len() implies self.entries@[i].0@
                        != self.entries@[j].0@ by {
                        if j == pre.len() {
                            assert(self.entries@[i].0@ != key@);
                        }
                    }
                    assert(self.entries@[pre.len() as int].0@ == key@);
                    lemma_key_pinned(*self, key@, pre.len() as int);
                    assert forall|k2: Seq<char>| k2 != key@ implies self.has(k2) == old(
                        self).has(k2) && (old(self).has(k2) ==> self.state_of(k2) == old(
                        self).state_of(k2)) by {
                        if old(self).has(k2) {
                            let j = choose|j: int| 0 <= j < pre.len() && pre[j].0@ == k2;
                            assert(self.entries@[j].0@ == k2);
                            lemma_key_pinned(*self, k2, j);
                            lemma_key_pinned(*old(self), k2, j);
                        } else if self.has(k2) {
                            let j = choose|j: int|
                                0 <= j < self.entries@.len() && self.entries@[j].0@ == k2;
                            assert(0 <= j < pre.len() && pre[j].0@ == k2);
                        }
                    }
                }
                FetchDirective::StartRead
            },
        }
    }

    /// Records the outcome of the single read for a key whose entry is in
    /// flight. The entry settles and every other entry stays as it was.
    pub fn complete(&mut self, key: &String, outcome: Result<Vec<u8>, LoadError>)
        requires
            old(self).wf(),
            old(self).has(key@),
            old(self).state_of(key@) == FetchModel::InFlight,
        ensures
            final(self).wf(),
            final(self).has(key@),
            final(self).state_of(key@) == result_model(outcome),
            forall|k2: Seq<char>|
                k2 != key@ ==> final(self).has(k2) == old(self).has(k2) && (old(self).has(k2)
                    ==> final(self).state_of(k2) == old(self).state_of(k2)),
    {
        let settled = match outcome {
            Ok(b) => FetchState::Loaded(b),
            Err(e) => FetchState::Failed(e),
        };
        match self.find_index(key) {
            Some(i) => {
                let ghost pre = self.entries@;
                let (k0, _) = self.entries.remove(i);
                self.entries.push((k0, settled));
                proof {
                    let n = pre.len() as int;
                    assert(self.entries@.len() == n);
                    assert forall|a: int, b: int|
                        0 <= a < b < self.entries@.len() implies self.entries@[a].0@
                        != self.entries@[b].0@ by {
                        assert(self.entries@[a].0@ == pre[map_back(a, i as int, n)].0@);
                        assert(self.entries@[b].0@ == pre[map_back(b, i as int, n)].0@);
                    }
                    assert(self.entries@[n - 1].0@ == key@);
                    lemma_key_pinned(*self, key@, n - 1);
                    lemma_key_pinned(*old(self), key@, i as int);
                    assert(self.entries@[n - 1].1.model() == result_model(outcome));
                    assert forall|k2: Seq<char>| k2 != key@ implies self.has(k2) == old(
                        self).has(k2) && (old(self).has(k2) ==> self.state_of(k2) == old(
                        self).state_of(k2)) by {
                        if old(self).has(k2) {
                            let j = choose|j: int| 0 <= j < n && pre[j].0@ == k2;
                            let j2 = map_fwd(j, i as int, n);
                            assert(self.entries@[j2] == pre[j]);
                            lemma_key_pinned(*self, k2, j2);
                            lemma_key_pinned(*old(self), k2, j);
                        } else if self.has(k2) {
                            let j2 = choose|j2: int|
                                0 <= j2 < self.entries@.len() && self.entries@[j2].0@ == k2;
                            let j = map_back(j2, i as int, n);
                            assert(pre[j].0@ == k2);
                        }
                    }
                }
            },
            None => {
                proof {
                    assert(false);
                }
            },
        }
    }
}

/// Where an index of the reordered entry list comes from in the old one:
/// the removed entry went to the back, the tail moved up by one.
spec fn map_back(a: int, i: int, n: int) -> int {
    if a == n - 1 {
        i
    } else if a < i {
        a
    } else {
        a + 1
    }
}

/// The inverse direction of `map_back` for indices other than the removed
/// one.
spec fn map_fwd(j: int, i: int, n: int) -> int {
    if j == i {
        n - 1
    } else if j < i {
        j
    } else {
        j - 1
    }
}

/// With unique keys, any index holding a key determines `state_of` for it.
proof fn lemma_key_pinned(c: AssetCache, k: Seq<char>, i: int)
    requires
        c.wf(),
        0 <= i < c.entries@.len(),
        c.entries@[i].0@ == k,
    ensures
        c.has(k),
        c.state_of(k) == c.entries@[i].1.model(),
{
    assert(c.has(k));
    let j = choose|j: int| 0 <= j < c.entries@.len() && c.entries@[j].0@ == k;
    if j != i {
        if j < i {
            assert(c.entries@[j].0@ != c.entries@[i].0@);
        } else {
            assert(c.entries@[i].0@ != c.entries@[j].0@);
        }
    }
}

} // verus!
