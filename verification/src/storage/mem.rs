//! The store: one index per object class, read through snapshots and
//! written through transactions.
//!
//! A transaction works on a private copy of the indices. Committing it puts
//! that copy in place of the store's content in one step, so that a snapshot
//! taken from the store holds either everything that a transaction wrote or
//! nothing of it. Of two commits the later one wins.

use crate::ip::{common_block, spec_common_block, Cidr, IpAddr};
use crate::response::{Autnum, Domain, Entity, Nameserver, Network, Rfc9083Error};
use crate::storage::data::{AutnumId, DomainId, EntityId, NameserverId, NetworkId, NetworkIdType};
use crate::storage::index::{
    beats, is_best, is_candidate, lemma_best_is_most_specific, lemma_best_is_unique, no_candidate,
    put_error, put_record, share, without_key, Entry, Index, MatchKey, Stored,
};
use crate::storage::keys::{
    is_label_suffix, label_suffixes, lemma_label_suffixes, HandleKey, NameKey,
};
use std::sync::Arc;
use vstd::prelude::*;

verus! {

/// The outcome of a lookup.
pub enum Lookup<'a, T> {
    /// The object that answers the query.
    Found(&'a T),
    /// Where the query is to be sent instead.
    Redirect(&'a String),
    /// Nothing answers the query.
    NotFound,
}

/// What a [`Lookup`] stands for.
pub ghost enum Answer<T> {
    Found(T),
    Redirect(Seq<char>),
    NotFound,
}

impl<'a, T> View for Lookup<'a, T> {
    type V = Answer<T>;

    open spec fn view(&self) -> Answer<T> {
        match self {
            Lookup::Found(t) => Answer::Found(**t),
            Lookup::Redirect(u) => Answer::Redirect(u@),
            Lookup::NotFound => Answer::NotFound,
        }
    }
}

/// How a stored value answers: an object is found; an error that is a
/// redirect with a target sends the query there; any other error answers as
/// nothing found.
pub open spec fn outcome<T>(value: Stored<T>) -> Answer<T> {
    match value {
        Stored::Record(a) => Answer::Found(*a),
        Stored::Error(e) => match e.spec_redirect_url() {
            Some(u) => Answer::Redirect(u@),
            None => Answer::NotFound,
        },
    }
}

/// The position of the entry that answers the query: the most specific one
/// that covers it.
pub open spec fn found_at<K: MatchKey, T>(entries: Seq<Entry<K, T>>, q: K::Asked) -> Option<int> {
    if exists|i: int| is_best(entries, q, i) {
        Some(choose|i: int| is_best(entries, q, i))
    } else {
        None
    }
}

/// The answer of an index to a query.
pub open spec fn answer<K: MatchKey, T>(entries: Seq<Entry<K, T>>, q: K::Asked) -> Answer<T> {
    match found_at(entries, q) {
        Some(i) => outcome(entries[i].value),
        None => Answer::NotFound,
    }
}

/// Among the first `n` entries, if one covers the query then one of those is
/// preferred to all the others that do.
proof fn lemma_best_exists_upto<K: MatchKey, T>(entries: Seq<Entry<K, T>>, q: K::Asked, n: int)
    requires
        0 <= n <= entries.len(),
    ensures
        (forall|j: int| 0 <= j < n ==> !is_candidate(entries, q, j)) || (exists|b: int|
            0 <= b < n && is_candidate(entries, q, b) && forall|j: int|
                0 <= j < n && is_candidate(entries, q, j) && j != b ==> beats(entries, q, b, j)),
    decreases n,
{
    if n > 0 {
        lemma_best_exists_upto(entries, q, n - 1);
        let i = n - 1;
        if forall|j: int| 0 <= j < n - 1 ==> !is_candidate(entries, q, j) {
            if is_candidate(entries, q, i) {
                assert(forall|j: int|
                    0 <= j < n && is_candidate(entries, q, j) && j != i ==> beats(
                        entries,
                        q,
                        i,
                        j,
                    ));
            }
        } else {
            let b = choose|b: int|
                0 <= b < n - 1 && is_candidate(entries, q, b) && forall|j: int|
                    0 <= j < n - 1 && is_candidate(entries, q, j) && j != b ==> beats(
                        entries,
                        q,
                        b,
                        j,
                    );
            if is_candidate(entries, q, i) && beats(entries, q, i, b) {
                assert(forall|j: int|
                    0 <= j < n && is_candidate(entries, q, j) && j != i ==> beats(
                        entries,
                        q,
                        i,
                        j,
                    ));
            } else {
                assert(forall|j: int|
                    0 <= j < n && is_candidate(entries, q, j) && j != b ==> beats(
                        entries,
                        q,
                        b,
                        j,
                    ));
            }
        }
    }
}

/// The entry that answers is the best one; where none answers, no entry
/// covers the query.
pub proof fn lemma_found_at<K: MatchKey, T>(entries: Seq<Entry<K, T>>, q: K::Asked)
    ensures
        match found_at(entries, q) {
            Some(i) => is_best(entries, q, i),
            None => no_candidate(entries, q),
        },
{
    lemma_best_exists_upto(entries, q, entries.len() as int);
    if !(forall|j: int| 0 <= j < entries.len() ==> !is_candidate(entries, q, j)) {
        let b = choose|b: int|
            0 <= b < entries.len() && is_candidate(entries, q, b) && forall|j: int|
                0 <= j < entries.len() && is_candidate(entries, q, j) && j != b ==> beats(
                    entries,
                    q,
                    b,
                    j,
                );
        assert(is_best(entries, q, b));
    }
}

/// Looks `q` up in an index.
pub fn lookup<'a, K: MatchKey, T>(index: &'a Index<K, T>, q: &K::Query) -> (r: Lookup<'a, T>)
    ensures
        r@ == answer(index@, K::asked(q)),
{
    proof {
        lemma_found_at(index@, K::asked(q));
    }
    match index.most_specific(q) {
        None => Lookup::NotFound,
        Some(i) => {
            proof {
                lemma_best_is_unique(index@, K::asked(q), i as int, found_at(index@, K::asked(q))->0);
            }
            match &index.get(i).value {
                Stored::Record(a) => Lookup::Found(&**a),
                Stored::Error(e) => match e.redirect_url() {
                    Some(u) => Lookup::Redirect(u),
                    None => Lookup::NotFound,
                },
            }
        },
    }
}

/// What a store holds: the entries of each index, in the order in which they
/// were added.
pub ghost struct StoreView {
    pub domains: Seq<Entry<NameKey, Domain>>,
    pub nameservers: Seq<Entry<NameKey, Nameserver>>,
    pub entities: Seq<Entry<HandleKey, Entity>>,
    pub autnums: Seq<Entry<AutnumId, Autnum>>,
    pub networks: Seq<Entry<Cidr, Network>>,
}

/// The indices of a store.
pub struct StoreData {
    domains: Index<NameKey, Domain>,
    nameservers: Index<NameKey, Nameserver>,
    entities: Index<HandleKey, Entity>,
    autnums: Index<AutnumId, Autnum>,
    networks: Index<Cidr, Network>,
}

impl View for StoreData {
    type V = StoreView;

    closed spec fn view(&self) -> StoreView {
        StoreView {
            domains: self.domains@,
            nameservers: self.nameservers@,
            entities: self.entities@,
            autnums: self.autnums@,
            networks: self.networks@,
        }
    }
}

/// The key under which a domain is stored: its LDH name.
pub open spec fn domain_key(id: DomainId) -> NameKey {
    NameKey { name: id.ldh_name }
}

/// The key under which a name server is stored: its LDH name.
pub open spec fn nameserver_key(id: NameserverId) -> NameKey {
    NameKey { name: id.ldh_name }
}

/// The key under which an entity is stored: its handle.
pub open spec fn entity_key(id: EntityId) -> HandleKey {
    HandleKey { handle: id.handle }
}

/// The key under which a network is stored: its CIDR block, or for a range
/// the smallest block that holds both ends. There is none for a block whose
/// prefix is longer than its family allows, nor for a range whose ends are of
/// two families or in the wrong order.
pub open spec fn network_key(id: NetworkId) -> Option<Cidr> {
    match id.network_id {
        NetworkIdType::Cidr(c) => if c.wf() {
            Some(c)
        } else {
            None
        },
        NetworkIdType::Range { start_address, end_address } => if start_address.same_family(
            end_address,
        ) && start_address.value() <= end_address.value() {
            Some(spec_common_block(start_address, end_address))
        } else {
            None
        },
    }
}

/// The key under which a network is stored, if the identifier is a valid
/// one.
pub fn cidr_of(id: &NetworkId) -> (r: Option<Cidr>)
    ensures
        r == network_key(*id),
{
    match &id.network_id {
        NetworkIdType::Cidr(c) => if c.is_valid() {
            Some(*c)
        } else {
            None
        },
        NetworkIdType::Range { start_address, end_address } => {
            let ordered = match (start_address, end_address) {
                (IpAddr::V4(a), IpAddr::V4(b)) => *a <= *b,
                (IpAddr::V6(a), IpAddr::V6(b)) => *a <= *b,
                _ => false,
            };
            if ordered {
                Some(common_block(start_address, end_address))
            } else {
                None
            }
        },
    }
}

/// The answer to the lookup of a name server: that of the name servers, or
/// else the redirect that answers for the domain of the same name.
pub open spec fn nameserver_answer(store: StoreView, ldh: Seq<char>) -> Answer<Nameserver> {
    match answer(store.nameservers, ldh) {
        Answer::NotFound => match answer(store.domains, ldh) {
            Answer::Redirect(u) => Answer::Redirect(u),
            _ => Answer::NotFound,
        },
        a => a,
    }
}

impl StoreData {
    /// Indices without entries.
    pub fn new() -> (r: Self)
        ensures
            r@.domains.len() == 0,
            r@.nameservers.len() == 0,
            r@.entities.len() == 0,
            r@.autnums.len() == 0,
            r@.networks.len() == 0,
    {
        StoreData {
            domains: Index::new(),
            nameservers: Index::new(),
            entities: Index::new(),
            autnums: Index::new(),
            networks: Index::new(),
        }
    }

    /// A copy that holds the same entries.
    pub fn duplicate(&self) -> (r: Self)
        ensures
            r@ == self@,
    {
        StoreData {
            domains: self.domains.duplicate(),
            nameservers: self.nameservers.duplicate(),
            entities: self.entities.duplicate(),
            autnums: self.autnums.duplicate(),
            networks: self.networks.duplicate(),
        }
    }

    /// The domain stored under the longest suffix of `ldh` that has an entry:
    /// `a.b.example` is looked for under `a.b.example`, `b.example`, `example`
    /// and the empty name.
    pub fn get_domain(&self, ldh: &str) -> (r: Lookup<'_, Domain>)
        ensures
            r@ == answer(self@.domains, ldh@),
    {
        lookup(&self.domains, ldh)
    }

    /// The name server stored under the longest suffix of `ldh` that has an
    /// entry. Where the name servers have no answer, a redirect that answers
    /// for the domain of that name answers for the name server too.
    pub fn get_nameserver(&self, ldh: &str) -> (r: Lookup<'_, Nameserver>)
        ensures
            r@ == nameserver_answer(self@, ldh@),
    {
        match lookup(&self.nameservers, ldh) {
            Lookup::NotFound => match lookup(&self.domains, ldh) {
                Lookup::Redirect(u) => Lookup::Redirect(u),
                _ => Lookup::NotFound,
            },
            found => found,
        }
    }

    /// The entity stored under `handle`, or else what is stored for the
    /// registry tag of the handle.
    pub fn get_entity(&self, handle: &str) -> (r: Lookup<'_, Entity>)
        ensures
            r@ == answer(self@.entities, handle@),
    {
        lookup(&self.entities, handle)
    }

    /// What is stored for the narrowest range that holds `autnum`.
    pub fn get_autnum(&self, autnum: u32) -> (r: Lookup<'_, Autnum>)
        ensures
            r@ == answer(self@.autnums, autnum),
    {
        lookup(&self.autnums, &autnum)
    }

    /// What is stored for the block with the longest prefix that holds `ip`.
    pub fn get_network(&self, ip: &IpAddr) -> (r: Lookup<'_, Network>)
        ensures
            r@ == answer(self@.networks, Cidr::spec_host(*ip)),
    {
        let q = Cidr::host(*ip);
        lookup(&self.networks, &q)
    }

    /// What is stored for the block with the longest prefix that holds the
    /// whole of `cidr`.
    pub fn get_network_by_cidr(&self, cidr: &Cidr) -> (r: Lookup<'_, Network>)
        ensures
            r@ == answer(self@.networks, *cidr),
    {
        lookup(&self.networks, cidr)
    }
}

/// A transaction: a private copy of a store's content that takes writes.
pub struct Tx {
    data: StoreData,
}

impl View for Tx {
    type V = StoreView;

    closed spec fn view(&self) -> StoreView {
        self.data@
    }
}

impl Tx {
    /// The content as this transaction sees it, its own writes included.
    pub fn data(&self) -> (r: &StoreData)
        ensures
            r@ == self@,
    {
        &self.data
    }

    /// Stores a domain under its LDH name, in place of any domain stored
    /// under that name.
    pub fn add_domain(&mut self, id: &DomainId, domain: Domain)
        ensures
            final(self)@ == (StoreView {
                domains: put_record(old(self)@.domains, domain_key(*id), domain),
                ..old(self)@
            }),
    {
        self.data.domains.add_record(NameKey { name: id.ldh_name.clone() }, domain);
    }

    /// Stores an error, such as a redirect, under the LDH name of a domain,
    /// in place of any error stored under that name.
    pub fn add_domain_err(&mut self, id: &DomainId, error: Rfc9083Error)
        ensures
            final(self)@ == (StoreView {
                domains: put_error(old(self)@.domains, domain_key(*id), error),
                ..old(self)@
            }),
    {
        self.data.domains.add_error(NameKey { name: id.ldh_name.clone() }, error);
    }

    /// Removes what is stored under the LDH name of a domain.
    pub fn remove_domain(&mut self, id: &DomainId)
        ensures
            final(self)@ == (StoreView {
                domains: without_key(old(self)@.domains, domain_key(*id)),
                ..old(self)@
            }),
    {
        let key = NameKey { name: id.ldh_name.clone() };
        self.data.domains.remove(&key);
    }

    /// Stores a name server under its LDH name.
    pub fn add_nameserver(&mut self, id: &NameserverId, nameserver: Nameserver)
        ensures
            final(self)@ == (StoreView {
                nameservers: put_record(old(self)@.nameservers, nameserver_key(*id), nameserver),
                ..old(self)@
            }),
    {
        self.data.nameservers.add_record(NameKey { name: id.ldh_name.clone() }, nameserver);
    }

    /// Stores an error under the LDH name of a name server.
    pub fn add_nameserver_err(&mut self, id: &NameserverId, error: Rfc9083Error)
        ensures
            final(self)@ == (StoreView {
                nameservers: put_error(old(self)@.nameservers, nameserver_key(*id), error),
                ..old(self)@
            }),
    {
        self.data.nameservers.add_error(NameKey { name: id.ldh_name.clone() }, error);
    }

    /// Removes what is stored under the LDH name of a name server.
    pub fn remove_nameserver(&mut self, id: &NameserverId)
        ensures
            final(self)@ == (StoreView {
                nameservers: without_key(old(self)@.nameservers, nameserver_key(*id)),
                ..old(self)@
            }),
    {
        let key = NameKey { name: id.ldh_name.clone() };
        self.data.nameservers.remove(&key);
    }

    /// Stores an entity under its handle.
    pub fn add_entity(&mut self, id: &EntityId, entity: Entity)
        ensures
            final(self)@ == (StoreView {
                entities: put_record(old(self)@.entities, entity_key(*id), entity),
                ..old(self)@
            }),
    {
        self.data.entities.add_record(HandleKey { handle: id.handle.clone() }, entity);
    }

    /// Stores an error under a handle; under `-TAG` it answers for every
    /// handle of that tag.
    pub fn add_entity_err(&mut self, id: &EntityId, error: Rfc9083Error)
        ensures
            final(self)@ == (StoreView {
                entities: put_error(old(self)@.entities, entity_key(*id), error),
                ..old(self)@
            }),
    {
        self.data.entities.add_error(HandleKey { handle: id.handle.clone() }, error);
    }

    /// Removes what is stored under a handle.
    pub fn remove_entity(&mut self, id: &EntityId)
        ensures
            final(self)@ == (StoreView {
                entities: without_key(old(self)@.entities, entity_key(*id)),
                ..old(self)@
            }),
    {
        let key = HandleKey { handle: id.handle.clone() };
        self.data.entities.remove(&key);
    }

    /// Stores a range of AS numbers.
    pub fn add_autnum(&mut self, id: &AutnumId, autnum: Autnum)
        ensures
            final(self)@ == (StoreView {
                autnums: put_record(old(self)@.autnums, *id, autnum),
                ..old(self)@
            }),
    {
        self.data.autnums.add_record(*id, autnum);
    }

    /// Stores an error for a range of AS numbers.
    pub fn add_autnum_err(&mut self, id: &AutnumId, error: Rfc9083Error)
        ensures
            final(self)@ == (StoreView {
                autnums: put_error(old(self)@.autnums, *id, error),
                ..old(self)@
            }),
    {
        self.data.autnums.add_error(*id, error);
    }

    /// Removes what is stored for a range of AS numbers.
    pub fn remove_autnum(&mut self, id: &AutnumId)
        ensures
            final(self)@ == (StoreView {
                autnums: without_key(old(self)@.autnums, *id),
                ..old(self)@
            }),
    {
        self.data.autnums.remove(id);
    }

    /// Stores a network under the block of `id`. Nothing is stored, and
    /// `false` returned, where the identifier has no block.
    pub fn add_network(&mut self, id: &NetworkId, network: Network) -> (added: bool)
        ensures
            added == network_key(*id) is Some,
            final(self)@ == match network_key(*id) {
                Some(key) => StoreView {
                    networks: put_record(old(self)@.networks, key, network),
                    ..old(self)@
                },
                None => old(self)@,
            },
    {
        match cidr_of(id) {
            Some(key) => {
                self.data.networks.add_record(key, network);
                true
            },
            None => false,
        }
    }

    /// Stores an error under the block of `id`. Nothing is stored, and
    /// `false` returned, where the identifier has no block.
    pub fn add_network_err(&mut self, id: &NetworkId, error: Rfc9083Error) -> (added: bool)
        ensures
            added == network_key(*id) is Some,
            final(self)@ == match network_key(*id) {
                Some(key) => StoreView {
                    networks: put_error(old(self)@.networks, key, error),
                    ..old(self)@
                },
                None => old(self)@,
            },
    {
        match cidr_of(id) {
            Some(key) => {
                self.data.networks.add_error(key, error);
                true
            },
            None => false,
        }
    }

    /// Removes what is stored under the block of `id`, if it has one.
    pub fn remove_network(&mut self, id: &NetworkId)
        ensures
            final(self)@ == match network_key(*id) {
                Some(key) => StoreView {
                    networks: without_key(old(self)@.networks, key),
                    ..old(self)@
                },
                None => old(self)@,
            },
    {
        match cidr_of(id) {
            Some(key) => {
                self.data.networks.remove(&key);
            },
            None => {},
        }
    }

    /// Gives the transaction up: nothing of it reaches the store.
    pub fn rollback(self) {
    }
}

/// The store.
pub struct Mem {
    current: Arc<StoreData>,
}

impl View for Mem {
    type V = StoreView;

    closed spec fn view(&self) -> StoreView {
        (*self.current)@
    }
}

impl Mem {
    /// An empty store.
    pub fn new() -> (r: Self)
        ensures
            r@.domains.len() == 0,
            r@.nameservers.len() == 0,
            r@.entities.len() == 0,
            r@.autnums.len() == 0,
            r@.networks.len() == 0,
    {
        Mem { current: Arc::new(StoreData::new()) }
    }

    /// The content of the store at this moment. It stays as it is whatever is
    /// committed later.
    pub fn snapshot(&self) -> (r: Arc<StoreData>)
        ensures
            (*r)@ == self@,
    {
        share(&self.current)
    }

    /// The content of the store, to read from.
    pub fn data(&self) -> (r: &StoreData)
        ensures
            r@ == self@,
    {
        &*self.current
    }

    /// Looks a domain up; see [`StoreData::get_domain`].
    pub fn get_domain(&self, ldh: &str) -> (r: Lookup<'_, Domain>)
        ensures
            r@ == answer(self@.domains, ldh@),
    {
        self.current.get_domain(ldh)
    }

    /// Looks a name server up; see [`StoreData::get_nameserver`].
    pub fn get_nameserver(&self, ldh: &str) -> (r: Lookup<'_, Nameserver>)
        ensures
            r@ == nameserver_answer(self@, ldh@),
    {
        self.current.get_nameserver(ldh)
    }

    /// Looks an entity up; see [`StoreData::get_entity`].
    pub fn get_entity(&self, handle: &str) -> (r: Lookup<'_, Entity>)
        ensures
            r@ == answer(self@.entities, handle@),
    {
        self.current.get_entity(handle)
    }

    /// Looks an AS number up; see [`StoreData::get_autnum`].
    pub fn get_autnum(&self, autnum: u32) -> (r: Lookup<'_, Autnum>)
        ensures
            r@ == answer(self@.autnums, autnum),
    {
        self.current.get_autnum(autnum)
    }

    /// Looks an IP address up; see [`StoreData::get_network`].
    pub fn get_network(&self, ip: &IpAddr) -> (r: Lookup<'_, Network>)
        ensures
            r@ == answer(self@.networks, Cidr::spec_host(*ip)),
    {
        self.current.get_network(ip)
    }

    /// Looks a block up; see [`StoreData::get_network_by_cidr`].
    pub fn get_network_by_cidr(&self, cidr: &Cidr) -> (r: Lookup<'_, Network>)
        ensures
            r@ == answer(self@.networks, *cidr),
    {
        self.current.get_network_by_cidr(cidr)
    }

    /// A transaction that starts from the present content of the store.
    pub fn new_tx(&self) -> (tx: Tx)
        ensures
            tx@ == self@,
    {
        Tx { data: self.current.duplicate() }
    }

    /// Puts the content of the transaction in place of the store's.
    pub fn commit(&mut self, tx: Tx)
        ensures
            final(self)@ == tx@,
    {
        self.current = Arc::new(tx.data);
    }
}

/// Where any entry covers a query, the entry that answers covers it too and
/// is at least as specific as each of those.
pub proof fn law_most_specific<K: MatchKey, T>(entries: Seq<Entry<K, T>>, q: K::Asked, j: int)
    requires
        0 <= j < entries.len(),
        entries[j].key.covers(q),
    ensures
        found_at(entries, q) matches Some(i) && 0 <= i < entries.len() && entries[i].key.covers(q)
            && entries[i].key.rank(q) >= entries[j].key.rank(q),
{
    lemma_found_at(entries, q);
    assert(is_candidate(entries, q, j));
    lemma_best_is_most_specific(entries, q, found_at(entries, q)->0, j);
}

/// For every AS number and every stored range that holds it, the lookup of
/// the number is answered by a stored range that holds it and is no wider.
pub proof fn law_autnum_narrowest(store: StoreView, autnum: u32, j: int)
    requires
        0 <= j < store.autnums.len(),
        store.autnums[j].key.holds(autnum),
    ensures
        found_at(store.autnums, autnum) matches Some(i) && 0 <= i < store.autnums.len()
            && store.autnums[i].key.holds(autnum) && store.autnums[i].key.width()
            <= store.autnums[j].key.width(),
{
    law_most_specific(store.autnums, autnum, j);
}

/// For every IP address and every stored block that holds it, the lookup of
/// the address is answered by a stored block that holds it and whose prefix is
/// no shorter.
pub proof fn law_network_longest_prefix(store: StoreView, ip: IpAddr, j: int)
    requires
        0 <= j < store.networks.len(),
        store.networks[j].key.contains(Cidr::spec_host(ip)),
    ensures
        found_at(store.networks, Cidr::spec_host(ip)) matches Some(i) && 0 <= i
            < store.networks.len() && store.networks[i].key.contains(Cidr::spec_host(ip))
            && store.networks[i].key.prefix_len >= store.networks[j].key.prefix_len,
{
    law_most_specific(store.networks, Cidr::spec_host(ip), j);
}

/// For every block asked for and every stored block that holds the whole of
/// it, the lookup is answered by a stored block that holds it, whose prefix is
/// no longer than that of the block asked for and no shorter than that of the
/// other.
pub proof fn law_network_by_cidr(store: StoreView, cidr: Cidr, j: int)
    requires
        0 <= j < store.networks.len(),
        store.networks[j].key.contains(cidr),
    ensures
        found_at(store.networks, cidr) matches Some(i) && 0 <= i < store.networks.len()
            && store.networks[i].key.contains(cidr) && store.networks[j].key.prefix_len
            <= store.networks[i].key.prefix_len <= cidr.prefix_len,
{
    law_most_specific(store.networks, cidr, j);
}

/// For every name and every stored suffix of it, the lookup of the name is
/// answered by a stored suffix that is no shorter.
pub proof fn law_domain_longest_suffix(store: StoreView, ldh: Seq<char>, j: int)
    requires
        0 <= j < store.domains.len(),
        is_label_suffix(store.domains[j].key.name@, ldh),
    ensures
        found_at(store.domains, ldh) matches Some(i) && 0 <= i < store.domains.len()
            && is_label_suffix(store.domains[i].key.name@, ldh) && store.domains[i].key.name@.len()
            >= store.domains[j].key.name@.len(),
{
    law_most_specific(store.domains, ldh, j);
}

/// At one key an object answers before an error: where the entry that
/// answers is an error, no object is stored under a key as specific as its
/// own.
pub proof fn law_record_before_error<K: MatchKey, T>(
    entries: Seq<Entry<K, T>>,
    q: K::Asked,
    j: int,
)
    requires
        0 <= j < entries.len(),
        entries[j].key.covers(q),
        entries[j].value is Record,
        found_at(entries, q) matches Some(i) && entries[i].value is Error,
    ensures
        entries[found_at(entries, q)->0].key.rank(q) > entries[j].key.rank(q),
{
    lemma_found_at(entries, q);
    let i = found_at(entries, q)->0;
    assert(is_candidate(entries, q, j));
    assert(beats(entries, q, i, j));
}

/// Whether an entry is stored under the name `name`.
pub open spec fn has_name<T>(entries: Seq<Entry<NameKey, T>>, name: Seq<char>) -> bool {
    exists|j: int| 0 <= j < entries.len() && (#[trigger] entries[j]).key.name@ == name
}

/// A name is looked for under itself, then under what follows each of its
/// dots, then under the empty name; the entry that answers is stored under
/// the first of these that has an entry.
pub proof fn law_domain_first_suffix<T>(entries: Seq<Entry<NameKey, T>>, ldh: Seq<char>)
    requires
        found_at(entries, ldh) is Some,
    ensures
        exists|k: int|
            0 <= k < label_suffixes(ldh).len() && #[trigger] label_suffixes(ldh)[k]
                == entries[found_at(entries, ldh)->0].key.name@ && forall|e: int|
                0 <= e < k ==> !has_name(entries, #[trigger] label_suffixes(ldh)[e]),
{
    lemma_found_at(entries, ldh);
    lemma_label_suffixes(ldh);
    let i = found_at(entries, ldh)->0;
    let all = label_suffixes(ldh);
    let name = entries[i].key.name@;
    assert(is_label_suffix(name, ldh));
    assert(all.contains(name));
    let k = choose|k: int| 0 <= k < all.len() && all[k] == name;
    assert forall|e: int| 0 <= e < k implies !has_name(entries, #[trigger] all[e]) by {
        if has_name(entries, all[e]) {
            let j = choose|j: int| 0 <= j < entries.len() && (#[trigger] entries[j]).key.name@
                == all[e];
            assert(is_label_suffix(all[e], ldh));
            assert(is_candidate(entries, ldh, j));
            assert(all[e].len() > all[k].len());
            lemma_best_is_most_specific(entries, ldh, i, j);
        }
    }
}

} // verus!
