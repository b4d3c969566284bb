//! An index that answers "which is the most specific entry that covers this
//! query?".
//!
//! Entries are kept in the order in which they were added. Each holds either
//! an object (a record) or an error, such as a redirect. Among the entries
//! whose key covers a query, the one with the highest rank wins; at equal
//! rank a record wins over an error, and between two of a kind the one that
//! was added later.

use crate::response::Rfc9083Error;
use std::sync::Arc;
use vstd::prelude::*;

verus! {

/// What is stored under a key.
pub enum Stored<T> {
    /// An object.
    Record(Arc<T>),
    /// An error to answer with, most often a redirect.
    Error(Arc<Rfc9083Error>),
}

/// A key and what is stored under it.
pub struct Entry<K, T> {
    pub key: K,
    pub value: Stored<T>,
}

/// A key of an index: it says which queries it covers, and how specifically.
pub trait MatchKey: Sized {
    /// What is looked up.
    type Query: ?Sized;

    /// What a query asks for, as a mathematical value.
    type Asked;

    /// What the query asks for.
    spec fn asked(q: &Self::Query) -> Self::Asked;

    /// Whether both keys name the same thing.
    spec fn same(&self, other: &Self) -> bool;

    /// Whether the key covers the query.
    spec fn covers(&self, q: Self::Asked) -> bool;

    /// How specific the key is for a query that it covers; higher is more
    /// specific.
    spec fn rank(&self, q: Self::Asked) -> nat;

    fn is_same(&self, other: &Self) -> (r: bool)
        ensures
            r == self.same(other),
    ;

    fn is_covering(&self, q: &Self::Query) -> (r: bool)
        ensures
            r == self.covers(Self::asked(q)),
    ;

    fn specificity(&self, q: &Self::Query) -> (r: u64)
        requires
            self.covers(Self::asked(q)),
        ensures
            r == self.rank(Self::asked(q)),
    ;

    fn duplicate(&self) -> (r: Self)
        ensures
            r == *self,
    ;
}

/// `Arc::clone`: another handle to the same shared value.
#[verifier::external_body]
pub(crate) fn share<T>(a: &Arc<T>) -> (r: Arc<T>)
    ensures
        r == *a,
{
    Arc::clone(a)
}

/// Whether entry `i` exists and covers the query.
pub open spec fn is_candidate<K: MatchKey, T>(
    entries: Seq<Entry<K, T>>,
    q: K::Asked,
    i: int,
) -> bool {
    0 <= i < entries.len() && entries[i].key.covers(q)
}

/// Whether entry `i` is preferred to entry `j` for the query: by rank, then a
/// record before an error, then the later one.
pub open spec fn beats<K: MatchKey, T>(
    entries: Seq<Entry<K, T>>,
    q: K::Asked,
    i: int,
    j: int,
) -> bool {
    let a = entries[i];
    let b = entries[j];
    ||| a.key.rank(q) > b.key.rank(q)
    ||| a.key.rank(q) == b.key.rank(q) && a.value is Record && b.value is Error
    ||| a.key.rank(q) == b.key.rank(q) && (a.value is Record <==> b.value is Record) && i > j
}

/// Whether entry `i` covers the query and is preferred to every other entry
/// that does.
pub open spec fn is_best<K: MatchKey, T>(entries: Seq<Entry<K, T>>, q: K::Asked, i: int) -> bool {
    &&& is_candidate(entries, q, i)
    &&& forall|j: int| is_candidate(entries, q, j) && j != i ==> beats(entries, q, i, j)
}

/// Whether no entry covers the query.
pub open spec fn no_candidate<K: MatchKey, T>(entries: Seq<Entry<K, T>>, q: K::Asked) -> bool {
    forall|j: int| !is_candidate(entries, q, j)
}

/// At most one entry is the best for a query.
pub proof fn lemma_best_is_unique<K: MatchKey, T>(
    entries: Seq<Entry<K, T>>,
    q: K::Asked,
    i: int,
    j: int,
)
    requires
        is_best(entries, q, i),
        is_best(entries, q, j),
    ensures
        i == j,
{
    if i != j {
        assert(beats(entries, q, i, j));
        assert(beats(entries, q, j, i));
    }
}

/// The best entry is at least as specific as any entry that covers the query.
pub proof fn lemma_best_is_most_specific<K: MatchKey, T>(
    entries: Seq<Entry<K, T>>,
    q: K::Asked,
    i: int,
    j: int,
)
    requires
        is_best(entries, q, i),
        is_candidate(entries, q, j),
    ensures
        entries[i].key.rank(q) >= entries[j].key.rank(q),
{
    if i != j {
        assert(beats(entries, q, i, j));
    }
}

/// Whether an entry is stored under `key` and is of the kind asked for.
pub open spec fn is_slot<K: MatchKey, T>(e: Entry<K, T>, key: K, record: bool) -> bool {
    e.key.same(&key) && (e.value is Record <==> record)
}

/// `entries` without those stored under `key` that are of the kind asked for.
pub open spec fn without_slot<K: MatchKey, T>(
    entries: Seq<Entry<K, T>>,
    key: K,
    record: bool,
) -> Seq<Entry<K, T>>
    decreases entries.len(),
{
    if entries.len() == 0 {
        entries
    } else {
        let before = without_slot(entries.drop_last(), key, record);
        if is_slot(entries.last(), key, record) {
            before
        } else {
            before.push(entries.last())
        }
    }
}

/// `entries` without those stored under `key`, of either kind.
pub open spec fn without_key<K: MatchKey, T>(entries: Seq<Entry<K, T>>, key: K) -> Seq<
    Entry<K, T>,
> {
    without_slot(without_slot(entries, key, true), key, false)
}

/// `entries` after an object was stored under `key`: it takes the place of any
/// object stored under that key and stands last.
pub open spec fn put_record<K: MatchKey, T>(entries: Seq<Entry<K, T>>, key: K, value: T) -> Seq<
    Entry<K, T>,
> {
    without_slot(entries, key, true).push(Entry { key, value: Stored::Record(Arc::new(value)) })
}

/// `entries` after an error was stored under `key`: it takes the place of any
/// error stored under that key and stands last.
pub open spec fn put_error<K: MatchKey, T>(
    entries: Seq<Entry<K, T>>,
    key: K,
    error: Rfc9083Error,
) -> Seq<Entry<K, T>> {
    without_slot(entries, key, false).push(Entry { key, value: Stored::Error(Arc::new(error)) })
}

/// An index of entries in the order in which they were added.
pub struct Index<K, T> {
    entries: Vec<Entry<K, T>>,
}

impl<K: MatchKey, T> View for Index<K, T> {
    type V = Seq<Entry<K, T>>;

    closed spec fn view(&self) -> Seq<Entry<K, T>> {
        self.entries@
    }
}

impl<K: MatchKey, T> Index<K, T> {
    /// An index without entries.
    pub fn new() -> (r: Self)
        ensures
            r@.len() == 0,
    {
        Index { entries: Vec::new() }
    }

    /// The number of entries.
    pub fn len(&self) -> (r: usize)
        ensures
            r == self@.len(),
    {
        self.entries.len()
    }

    /// The entry at `i`.
    pub fn get(&self, i: usize) -> (r: &Entry<K, T>)
        requires
            i < self@.len(),
        ensures
            *r == self@[i as int],
    {
        &self.entries[i]
    }

    /// The index of the most specific entry that covers `q`, or `None` if no
    /// entry covers it.
    pub fn most_specific(&self, q: &K::Query) -> (r: Option<usize>)
        ensures
            match r {
                Some(i) => is_best(self@, K::asked(q), i as int),
                None => no_candidate(self@, K::asked(q)),
            },
    {
        let ghost asked = K::asked(q);
        let mut best: Option<usize> = None;
        let mut best_rank: u64 = 0;
        let mut i: usize = 0;
        while i < self.entries.len()
            invariant
                i <= self.entries.len(),
                asked == K::asked(q),
                match best {
                    Some(b) => {
                        &&& b < i
                        &&& is_candidate(self@, asked, b as int)
                        &&& best_rank == self@[b as int].key.rank(asked)
                        &&& forall|j: int|
                            0 <= j < i && is_candidate(self@, asked, j) && j != b ==> beats(
                                self@,
                                asked,
                                b as int,
                                j,
                            )
                    },
                    None => forall|j: int| 0 <= j < i ==> !is_candidate(self@, asked, j),
                },
            decreases self.entries.len() - i,
        {
            let e = &self.entries[i];
            if e.key.is_covering(q) {
                let rank = e.key.specificity(q);
                let takes = match best {
                    None => true,
                    Some(b) => {
                        let old_is_record = matches!(self.entries[b].value, Stored::Record(_));
                        let new_is_record = matches!(e.value, Stored::Record(_));
                        rank > best_rank || (rank == best_rank && (new_is_record || !old_is_record))
                    },
                };
                if takes {
                    best = Some(i);
                    best_rank = rank;
                }
            }
            i += 1;
        }
        best
    }

    /// A copy of the entries but those stored under `key` that are of the
    /// kind asked for.
    fn copy_without(&self, key: &K, record: bool) -> (r: Vec<Entry<K, T>>)
        ensures
            r@ == without_slot(self@, *key, record),
    {
        let mut kept: Vec<Entry<K, T>> = Vec::new();
        let mut i: usize = 0;
        while i < self.entries.len()
            invariant
                i <= self.entries.len(),
                kept@ == without_slot(self@.take(i as int), *key, record),
            decreases self.entries.len() - i,
        {
            let e = &self.entries[i];
            proof {
                let next = self@.take(i as int + 1);
                assert(next.drop_last() =~= self@.take(i as int));
                assert(next.last() == self@[i as int]);
            }
            let is_record = matches!(e.value, Stored::Record(_));
            if !(e.key.is_same(key) && is_record == record) {
                let value = match &e.value {
                    Stored::Record(a) => Stored::Record(share(a)),
                    Stored::Error(a) => Stored::Error(share(a)),
                };
                kept.push(Entry { key: e.key.duplicate(), value });
            }
            i += 1;
        }
        assert(self@.take(self@.len() as int) =~= self@);
        kept
    }

    /// A copy of the index: the same entries in the same order.
    pub fn duplicate(&self) -> (r: Self)
        ensures
            r@ == self@,
    {
        let mut copy: Vec<Entry<K, T>> = Vec::new();
        let mut i: usize = 0;
        while i < self.entries.len()
            invariant
                i <= self.entries.len(),
                copy@ == self@.take(i as int),
            decreases self.entries.len() - i,
        {
            let e = &self.entries[i];
            let value = match &e.value {
                Stored::Record(a) => Stored::Record(share(a)),
                Stored::Error(a) => Stored::Error(share(a)),
            };
            copy.push(Entry { key: e.key.duplicate(), value });
            assert(copy@ =~= self@.take(i as int + 1));
            i += 1;
        }
        assert(self@.take(self@.len() as int) =~= self@);
        Index { entries: copy }
    }

    /// Stores an object under `key`, in place of any object stored under it.
    pub fn add_record(&mut self, key: K, value: T)
        ensures
            final(self)@ == put_record(old(self)@, key, value),
    {
        let mut kept = self.copy_without(&key, true);
        kept.push(Entry { key, value: Stored::Record(Arc::new(value)) });
        self.entries = kept;
    }

    /// Stores an error under `key`, in place of any error stored under it.
    pub fn add_error(&mut self, key: K, error: Rfc9083Error)
        ensures
            final(self)@ == put_error(old(self)@, key, error),
    {
        let mut kept = self.copy_without(&key, false);
        kept.push(Entry { key, value: Stored::Error(Arc::new(error)) });
        self.entries = kept;
    }

    /// Removes what is stored under `key`, object and error.
    pub fn remove(&mut self, key: &K)
        ensures
            final(self)@ == without_key(old(self)@, *key),
    {
        let kept = self.copy_without(key, true);
        self.entries = kept;
        let kept = self.copy_without(key, false);
        self.entries = kept;
    }
}

} // verus!
