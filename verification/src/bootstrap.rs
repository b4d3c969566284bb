//! Loading the bootstrap registries of IANA into the store.
//!
//! A registry is `{"services": [[keys, urls], ...]}`. Each key gets a
//! redirect to the first of the URLs of its entry that begins with
//! `https://`, or to the first URL if none does.

use crate::client::{https, is_https};
use crate::ip::{cidr_of_text, ip_of_text, parse_cidr, parse_ip_chars, Cidr};
use crate::json::{
    get_member, lemma_array_view, lemma_object_view, member_of, values_of, Json, JsonValue,
};
use crate::lenient::{all_strings, texts_of, VectorStringish};
use crate::response::Rfc9083Error;
use crate::storage::data::{AutnumId, DomainId, EntityId, NetworkId, NetworkIdType};
use crate::storage::index::put_error;
use crate::storage::keys::{HandleKey, NameKey};
use crate::storage::mem::{network_key, StoreView, Tx};
use crate::text::{chars_of, number_of_text, parse_decimal, split, split_chars};
use vstd::prelude::*;
use vstd::string::StringExecFns;

verus! {

/// The registries.
#[derive(Debug, Clone, Copy, PartialEq, Eq, Structural)]
pub enum BootstrapKind {
    /// Top-level domains.
    Dns,
    /// IPv4 or IPv6 address space.
    Ip,
    /// AS numbers.
    Asn,
    /// Tags of entity handles.
    ObjectTags,
}

/// Why a registry was not read.
#[derive(Debug, Clone, Copy, PartialEq, Eq, Structural)]
pub enum BootstrapError {
    /// The document is no object with an array `services`.
    NoServices,
    /// An entry is not made of arrays of strings, keys and URLs.
    BadEntry,
    /// A key is none of the kind of the registry.
    BadKey,
}

/// What a redirect is stored under.
#[derive(Debug, PartialEq, Eq)]
pub enum BootstrapKey {
    Domain(String),
    Network(NetworkId),
    Autnum(AutnumId),
    Tag(String),
}

/// A key and the URL that it is redirected to.
#[derive(Debug, PartialEq, Eq)]
pub struct BootstrapRecord {
    pub key: BootstrapKey,
    pub url: String,
}

/// What a [`BootstrapKey`] stands for.
pub ghost enum KeyView {
    Domain(Seq<char>),
    Network(NetworkId),
    Autnum(AutnumId),
    Tag(Seq<char>),
}

/// What a [`BootstrapRecord`] stands for.
pub ghost struct RecordView {
    pub key: KeyView,
    pub url: Seq<char>,
}

impl View for BootstrapKey {
    type V = KeyView;

    open spec fn view(&self) -> KeyView {
        match self {
            BootstrapKey::Domain(n) => KeyView::Domain(n@),
            BootstrapKey::Network(n) => KeyView::Network(*n),
            BootstrapKey::Autnum(a) => KeyView::Autnum(*a),
            BootstrapKey::Tag(t) => KeyView::Tag(t@),
        }
    }
}

impl View for BootstrapRecord {
    type V = RecordView;

    open spec fn view(&self) -> RecordView {
        RecordView { key: self.key@, url: self.url@ }
    }
}

impl DeepView for BootstrapRecord {
    type V = RecordView;

    open spec fn deep_view(&self) -> RecordView {
        self@
    }
}

/// The first of the URLs that begins with `https://`.
pub open spec fn first_https(urls: Seq<Seq<char>>) -> Option<Seq<char>>
    decreases urls.len(),
{
    if urls.len() == 0 {
        None
    } else {
        match first_https(urls.drop_last()) {
            Some(u) => Some(u),
            None => if is_https(urls.last()) {
                Some(urls.last())
            } else {
                None
            },
        }
    }
}

/// The URL to redirect to: the first that begins with `https://`, or the
/// first of all if none does; none of no URLs.
pub open spec fn chosen_url(urls: Seq<Seq<char>>) -> Option<Seq<char>> {
    match first_https(urls) {
        Some(u) => Some(u),
        None => if urls.len() > 0 {
            Some(urls[0])
        } else {
            None
        },
    }
}

/// The range of AS numbers that a key stands for: one number, or two with a
/// hyphen between them of which the first is not the greater.
pub open spec fn asn_key(text: Seq<char>) -> Option<AutnumId> {
    let p = split(text, '-');
    if p.len() == 1 {
        match number_of_text(p[0], u32::MAX as nat) {
            Some(n) => Some(AutnumId { start_autnum: n as u32, end_autnum: n as u32 }),
            None => None,
        }
    } else if p.len() == 2 {
        match (number_of_text(p[0], u32::MAX as nat), number_of_text(p[1], u32::MAX as nat)) {
            (Some(a), Some(b)) => if a <= b {
                Some(AutnumId { start_autnum: a as u32, end_autnum: b as u32 })
            } else {
                None
            },
            _ => None,
        }
    } else {
        None
    }
}

/// The network that a key stands for: a CIDR block, or the range of two
/// addresses with a hyphen between them; in either case one that the store
/// has a block for.
pub open spec fn ip_key(text: Seq<char>) -> Option<NetworkId> {
    let id = match cidr_of_text(text) {
        Some(c) => Some(NetworkId { network_id: NetworkIdType::Cidr(c) }),
        None => {
            let p = split(text, '-');
            if p.len() == 2 {
                match (ip_of_text(p[0]), ip_of_text(p[1])) {
                    (Some(a), Some(b)) => Some(
                        NetworkId {
                            network_id: NetworkIdType::Range { start_address: a, end_address: b },
                        },
                    ),
                    _ => None,
                }
            } else {
                None
            }
        },
    };
    match id {
        Some(n) => if network_key(n) is Some {
            Some(n)
        } else {
            None
        },
        None => None,
    }
}

/// The key of a registry of the kind `kind` that a text stands for.
pub open spec fn key_of(kind: BootstrapKind, text: Seq<char>) -> Option<KeyView> {
    match kind {
        BootstrapKind::Dns => Some(KeyView::Domain(text)),
        BootstrapKind::ObjectTags => Some(KeyView::Tag(text)),
        BootstrapKind::Asn => match asn_key(text) {
            Some(a) => Some(KeyView::Autnum(a)),
            None => None,
        },
        BootstrapKind::Ip => match ip_key(text) {
            Some(n) => Some(KeyView::Network(n)),
            None => None,
        },
    }
}

/// The records of the keys of an entry, all with the URL of the entry; the
/// first key that is none of the kind makes the entry fail.
pub open spec fn key_records(kind: BootstrapKind, keys: Seq<Seq<char>>, url: Seq<char>) -> Result<
    Seq<RecordView>,
    BootstrapError,
>
    decreases keys.len(),
{
    if keys.len() == 0 {
        Ok(Seq::empty())
    } else {
        match key_records(kind, keys.drop_last(), url) {
            Err(e) => Err(e),
            Ok(records) => match key_of(kind, keys.last()) {
                Some(key) => Ok(records.push(RecordView { key, url })),
                None => Err(BootstrapError::BadKey),
            },
        }
    }
}

/// The texts of a JSON array of strings.
pub open spec fn string_array(j: JsonValue) -> Option<Seq<Seq<char>>> {
    match j {
        JsonValue::Array(a) => if all_strings(a) {
            Some(texts_of(a))
        } else {
            None
        },
        _ => None,
    }
}

/// The keys and the URLs of an entry: its two arrays; of an entry of tags
/// with three arrays, the second and the third.
pub open spec fn entry_parts(kind: BootstrapKind, j: JsonValue) -> Option<(JsonValue, JsonValue)> {
    match j {
        JsonValue::Array(parts) => if parts.len() == 2 {
            Some((parts[0], parts[1]))
        } else if parts.len() == 3 && kind == BootstrapKind::ObjectTags {
            Some((parts[1], parts[2]))
        } else {
            None
        },
        _ => None,
    }
}

/// The records of an entry. An entry without URLs has none.
pub open spec fn entry_records(kind: BootstrapKind, j: JsonValue) -> Result<
    Seq<RecordView>,
    BootstrapError,
> {
    match entry_parts(kind, j) {
        Some((keys, urls)) => match (string_array(keys), string_array(urls)) {
            (Some(k), Some(u)) => match chosen_url(u) {
                Some(url) => key_records(kind, k, url),
                None => Ok(Seq::empty()),
            },
            _ => Err(BootstrapError::BadEntry),
        },
        None => Err(BootstrapError::BadEntry),
    }
}

/// The records of the entries, in their order; the first entry that fails
/// makes all fail.
pub open spec fn service_records(kind: BootstrapKind, services: Seq<JsonValue>) -> Result<
    Seq<RecordView>,
    BootstrapError,
>
    decreases services.len(),
{
    if services.len() == 0 {
        Ok(Seq::empty())
    } else {
        match service_records(kind, services.drop_last()) {
            Err(e) => Err(e),
            Ok(records) => match entry_records(kind, services.last()) {
                Ok(more) => Ok(records + more),
                Err(e) => Err(e),
            },
        }
    }
}

/// The records of a registry.
pub open spec fn records_of(kind: BootstrapKind, doc: JsonValue) -> Result<
    Seq<RecordView>,
    BootstrapError,
> {
    match doc {
        JsonValue::Object(members) => match member_of(members, "services"@) {
            Some(JsonValue::Array(services)) => service_records(kind, services),
            _ => Err(BootstrapError::NoServices),
        },
        _ => Err(BootstrapError::NoServices),
    }
}

/// The URL to redirect to.
pub fn choose_url(urls: &Vec<String>) -> (r: Option<&String>)
    ensures
        r is Some <==> chosen_url(urls.deep_view()) is Some,
        r matches Some(u) ==> chosen_url(urls.deep_view()) == Some(u@),
{
    let ghost all = urls.deep_view();
    let mut i: usize = 0;
    assert(all.take(0) =~= Seq::empty());
    while i < urls.len()
        invariant
            i <= urls.len(),
            all == urls.deep_view(),
            first_https(all.take(i as int)) is None,
        decreases urls.len() - i,
    {
        proof {
            let next = all.take(i as int + 1);
            assert(next.drop_last() =~= all.take(i as int));
            assert(next.last() == urls@[i as int]@);
        }
        if https(urls[i].as_str()) {
            proof {
                lemma_first_https_stays(all, i as int + 1);
            }
            return Some(&urls[i]);
        }
        i += 1;
    }
    assert(all.take(urls.len() as int) =~= all);
    if urls.len() > 0 {
        assert(all[0] == urls@[0]@);
        Some(&urls[0])
    } else {
        None
    }
}

/// A first URL with `https://` stays the first when more URLs follow.
proof fn lemma_first_https_stays(urls: Seq<Seq<char>>, k: int)
    requires
        0 <= k <= urls.len(),
        first_https(urls.take(k)) is Some,
    ensures
        first_https(urls) == first_https(urls.take(k)),
    decreases urls.len() - k,
{
    if k < urls.len() {
        let next = urls.take(k + 1);
        assert(next.drop_last() =~= urls.take(k));
        lemma_first_https_stays(urls, k + 1);
    } else {
        assert(urls.take(k) =~= urls);
    }
}

/// The range of AS numbers that a key stands for.
fn read_asn_key(text: &str) -> (r: Option<AutnumId>)
    ensures
        r == asn_key(text@),
{
    let chars = chars_of(text);
    let pieces = split_chars(&chars, '-');
    let ghost p = split(text@, '-');
    if pieces.len() == 1 {
        assert(p[0] =~= pieces@[0]@);
        match parse_decimal(&pieces[0], u32::MAX as u64) {
            Some(n) => Some(AutnumId { start_autnum: n as u32, end_autnum: n as u32 }),
            None => None,
        }
    } else if pieces.len() == 2 {
        assert(p[0] =~= pieces@[0]@);
        assert(p[1] =~= pieces@[1]@);
        match (
            parse_decimal(&pieces[0], u32::MAX as u64),
            parse_decimal(&pieces[1], u32::MAX as u64),
        ) {
            (Some(a), Some(b)) => if a <= b {
                Some(AutnumId { start_autnum: a as u32, end_autnum: b as u32 })
            } else {
                None
            },
            _ => None,
        }
    } else {
        None
    }
}

/// The network that a key stands for.
fn read_ip_key(text: &str) -> (r: Option<NetworkId>)
    ensures
        r == ip_key(text@),
{
    let id = match parse_cidr(text) {
        Some(c) => Some(NetworkId { network_id: NetworkIdType::Cidr(c) }),
        None => {
            let chars = chars_of(text);
            let pieces = split_chars(&chars, '-');
            let ghost p = split(text@, '-');
            if pieces.len() == 2 {
                assert(p[0] =~= pieces@[0]@);
                assert(p[1] =~= pieces@[1]@);
                match (parse_ip_chars(&pieces[0]), parse_ip_chars(&pieces[1])) {
                    (Some(a), Some(b)) => Some(
                        NetworkId {
                            network_id: NetworkIdType::Range { start_address: a, end_address: b },
                        },
                    ),
                    _ => None,
                }
            } else {
                None
            }
        },
    };
    match id {
        Some(n) => if crate::storage::mem::cidr_of(&n).is_some() {
            Some(n)
        } else {
            None
        },
        None => None,
    }
}

/// The key of a registry of the kind `kind` that a text stands for.
fn read_key(kind: BootstrapKind, text: &str) -> (r: Option<BootstrapKey>)
    ensures
        r is Some <==> key_of(kind, text@) is Some,
        r matches Some(k) ==> key_of(kind, text@) == Some(k@),
{
    match kind {
        BootstrapKind::Dns => Some(BootstrapKey::Domain(text.to_owned())),
        BootstrapKind::ObjectTags => Some(BootstrapKey::Tag(text.to_owned())),
        BootstrapKind::Asn => match read_asn_key(text) {
            Some(a) => Some(BootstrapKey::Autnum(a)),
            None => None,
        },
        BootstrapKind::Ip => match read_ip_key(text) {
            Some(n) => Some(BootstrapKey::Network(n)),
            None => None,
        },
    }
}

/// The strings of a JSON array of strings.
fn read_strings(j: &Json) -> (r: Option<Vec<String>>)
    ensures
        r.deep_view() == string_array(j@),
{
    match j {
        Json::Array(items) => {
            proof {
                lemma_array_view(*j);
            }
            match VectorStringish::visit_seq(items) {
                Some(v) => Some(v.into_vec()),
                None => None,
            }
        },
        _ => None,
    }
}

/// Adds the records of an entry to `records`.
#[verifier::loop_isolation(false)]
fn read_entry(kind: BootstrapKind, j: &Json, records: &mut Vec<BootstrapRecord>) -> (r: Result<
    (),
    BootstrapError,
>)
    ensures
        match entry_records(kind, j@) {
            Ok(more) => r is Ok && final(records).deep_view() == old(records).deep_view() + more,
            Err(e) => r == Err::<(), BootstrapError>(e),
        },
{
    let ghost start = records.deep_view();
    let (keys_json, urls_json) = match j {
        Json::Array(parts) => {
            proof {
                lemma_array_view(*j);
            }
            if parts.len() == 2 {
                (&parts[0], &parts[1])
            } else if parts.len() == 3 && kind == BootstrapKind::ObjectTags {
                (&parts[1], &parts[2])
            } else {
                return Err(BootstrapError::BadEntry);
            }
        },
        _ => {
            return Err(BootstrapError::BadEntry);
        },
    };
    let (keys, urls) = match (read_strings(keys_json), read_strings(urls_json)) {
        (Some(k), Some(u)) => (k, u),
        _ => {
            return Err(BootstrapError::BadEntry);
        },
    };
    let url = match choose_url(&urls) {
        Some(u) => u,
        None => {
            assert(records.deep_view() =~= start + Seq::<RecordView>::empty());
            return Ok(());
        },
    };
    let ghost all = keys.deep_view();
    let mut i: usize = 0;
    assert(all.take(0) =~= Seq::empty());
    assert(records.deep_view() =~= start + Seq::<RecordView>::empty());
    while i < keys.len()
        invariant
            i <= keys.len(),
            all == keys.deep_view(),
            key_records(kind, all.take(i as int), url@) is Ok,
            records.deep_view() == start + key_records(kind, all.take(i as int), url@)->Ok_0,
        decreases keys.len() - i,
    {
        proof {
            let next = all.take(i as int + 1);
            assert(next.drop_last() =~= all.take(i as int));
            assert(next.last() == keys@[i as int]@);
        }
        match read_key(kind, keys[i].as_str()) {
            Some(key) => {
                let ghost before = records.deep_view();
                let record = BootstrapRecord { key, url: url.clone() };
                records.push(record);
                assert(records.deep_view() =~= before.push(record@));
                assert(records.deep_view() =~= start + key_records(
                    kind,
                    all.take(i as int + 1),
                    url@,
                )->Ok_0);
            },
            None => {
                proof {
                    assert(key_records(kind, all.take(i as int + 1), url@) == Err::<
                        Seq<RecordView>,
                        BootstrapError,
                    >(BootstrapError::BadKey));
                    lemma_key_records_fail(kind, all, i as int + 1, url@);
                }
                return Err(BootstrapError::BadKey);
            },
        }
        i += 1;
    }
    assert(all.take(keys.len() as int) =~= all);
    Ok(())
}

/// Keys that fail at some point fail as a whole, in the same way.
proof fn lemma_key_records_fail(kind: BootstrapKind, keys: Seq<Seq<char>>, k: int, url: Seq<char>)
    requires
        0 <= k <= keys.len(),
        key_records(kind, keys.take(k), url) is Err,
    ensures
        key_records(kind, keys, url) == key_records(kind, keys.take(k), url),
    decreases keys.len() - k,
{
    if k < keys.len() {
        let next = keys.take(k + 1);
        assert(next.drop_last() =~= keys.take(k));
        lemma_key_records_fail(kind, keys, k + 1, url);
    } else {
        assert(keys.take(k) =~= keys);
    }
}

/// Entries that fail at some point fail as a whole, in the same way.
proof fn lemma_service_records_fail(kind: BootstrapKind, services: Seq<JsonValue>, k: int)
    requires
        0 <= k <= services.len(),
        service_records(kind, services.take(k)) is Err,
    ensures
        service_records(kind, services) == service_records(kind, services.take(k)),
    decreases services.len() - k,
{
    if k < services.len() {
        let next = services.take(k + 1);
        assert(next.drop_last() =~= services.take(k));
        lemma_service_records_fail(kind, services, k + 1);
    } else {
        assert(services.take(k) =~= services);
    }
}

/// Reads the records of a registry.
#[verifier::loop_isolation(false)]
pub fn read_registry(kind: BootstrapKind, doc: &Json) -> (r: Result<
    Vec<BootstrapRecord>,
    BootstrapError,
>)
    ensures
        match records_of(kind, doc@) {
            Ok(records) => r matches Ok(v) && v.deep_view() == records,
            Err(e) => r matches Err(x) && x == e,
        },
{
    let services = match doc {
        Json::Object(members) => {
            proof {
                lemma_object_view(*doc);
            }
            match get_member(members, "services") {
                Some(Json::Array(services)) => {
                    proof {
                        lemma_array_view(Json::Array(*services));
                    }
                    services
                },
                _ => {
                    return Err(BootstrapError::NoServices);
                },
            }
        },
        _ => {
            return Err(BootstrapError::NoServices);
        },
    };
    let ghost all = values_of(services@);
    let mut records: Vec<BootstrapRecord> = Vec::new();
    let mut i: usize = 0;
    assert(all.take(0) =~= Seq::empty());
    assert(records.deep_view() =~= Seq::empty());
    while i < services.len()
        invariant
            i <= services.len(),
            all == values_of(services@),
            service_records(kind, all.take(i as int)) == Ok::<Seq<RecordView>, BootstrapError>(
                records.deep_view(),
            ),
        decreases services.len() - i,
    {
        proof {
            let next = all.take(i as int + 1);
            assert(next.drop_last() =~= all.take(i as int));
            assert(next.last() == services@[i as int]@);
        }
        match read_entry(kind, &services[i], &mut records) {
            Ok(()) => {},
            Err(e) => {
                proof {
                    assert(service_records(kind, all.take(i as int + 1)) == Err::<
                        Seq<RecordView>,
                        BootstrapError,
                    >(e));
                    lemma_service_records_fail(kind, all, i as int + 1);
                }
                return Err(e);
            },
        }
        i += 1;
    }
    assert(all.take(services.len() as int) =~= all);
    Ok(records)
}

/// The store after `error` was stored for a key: a domain under its name, a
/// network under its block, a range of AS numbers as it is, and a tag under
/// `handle`.
pub open spec fn with_redirect(
    store: StoreView,
    key: BootstrapKey,
    handle: String,
    error: Rfc9083Error,
) -> StoreView {
    match key {
        BootstrapKey::Domain(name) => StoreView {
            domains: put_error(store.domains, NameKey { name }, error),
            ..store
        },
        BootstrapKey::Network(id) => match network_key(id) {
            Some(block) => StoreView { networks: put_error(store.networks, block, error), ..store },
            None => store,
        },
        BootstrapKey::Autnum(id) => StoreView {
            autnums: put_error(store.autnums, id, error),
            ..store
        },
        BootstrapKey::Tag(tag) => StoreView {
            entities: put_error(store.entities, HandleKey { handle }, error),
            ..store
        },
    }
}

/// Whether `after` is `before` with a redirect to the URL of the record
/// stored for its key; for a tag, under the handle that is a hyphen followed
/// by the tag.
pub open spec fn stores(before: StoreView, after: StoreView, record: BootstrapRecord) -> bool {
    exists|error: Rfc9083Error, handle: String|
        error.is_redirect_to(record.url@) && (record.key matches BootstrapKey::Tag(tag) ==> handle@
            == "-"@ + tag@) && after == #[trigger] with_redirect(before, record.key, handle, error)
}

/// Whether `states` are the states of a store while the records are stored
/// one after the other, from `before` to `after`.
pub open spec fn is_trace(
    states: Seq<StoreView>,
    before: StoreView,
    after: StoreView,
    records: Seq<BootstrapRecord>,
) -> bool {
    &&& states.len() == records.len() + 1
    &&& states[0] == before
    &&& states.last() == after
    &&& forall|i: int|
        0 <= i < records.len() ==> stores(#[trigger] states[i], states[i + 1], records[i])
}

/// Whether `after` is `before` with the records stored one after the other.
pub open spec fn loaded(before: StoreView, after: StoreView, records: Seq<BootstrapRecord>) -> bool {
    exists|states: Seq<StoreView>| is_trace(states, before, after, records)
}

/// Stores a redirect to the URL of the record for its key.
pub fn insert(tx: &mut Tx, record: &BootstrapRecord)
    ensures
        stores(old(tx)@, final(tx)@, *record),
{
    let error = Rfc9083Error::redirect(record.url.clone());
    let mut handle = "-".to_owned();
    match &record.key {
        BootstrapKey::Domain(name) => {
            let id = DomainId { ldh_name: name.clone(), unicode_name: None };
            tx.add_domain_err(&id, error);
        },
        BootstrapKey::Network(id) => {
            let _ = tx.add_network_err(id, error);
        },
        BootstrapKey::Autnum(id) => {
            tx.add_autnum_err(id, error);
        },
        BootstrapKey::Tag(tag) => {
            handle.append(tag.as_str());
            let id = EntityId { handle: handle.clone() };
            tx.add_entity_err(&id, error);
        },
    }
    assert(tx@ == with_redirect(old(tx)@, record.key, handle, error));
}

/// Stores a redirect for each of the records, in their order.
pub fn load(tx: &mut Tx, records: &Vec<BootstrapRecord>)
    ensures
        loaded(old(tx)@, final(tx)@, records@),
{
    let ghost mut states: Seq<StoreView> = seq![tx@];
    let mut i: usize = 0;
    while i < records.len()
        invariant
            i <= records.len(),
            states.len() == i + 1,
            states[0] == old(tx)@,
            states.last() == tx@,
            forall|k: int| 0 <= k < i ==> stores(#[trigger] states[k], states[k + 1], records@[k]),
        decreases records.len() - i,
    {
        insert(tx, &records[i]);
        proof {
            let before = states;
            states = states.push(tx@);
            assert forall|k: int| 0 <= k < i + 1 implies stores(
                #[trigger] states[k],
                states[k + 1],
                records@[k],
            ) by {
                if k < i {
                    assert(states[k] == before[k]);
                    assert(states[k + 1] == before[k + 1]);
                }
            }
        }
        i += 1;
    }
    assert(is_trace(states, old(tx)@, tx@, records@));
}

/// Reads a registry and stores a redirect for each of its records. Nothing
/// is stored of a registry that does not read.
pub fn load_registry(tx: &mut Tx, kind: BootstrapKind, doc: &Json) -> (r: Result<
    usize,
    BootstrapError,
>)
    ensures
        match records_of(kind, doc@) {
            Ok(views) => r matches Ok(n) && n == views.len() && exists|records: Seq<
                BootstrapRecord,
            >|
                records.len() == views.len() && (forall|i: int|
                    0 <= i < records.len() ==> (#[trigger] records[i])@ == views[i]) && loaded(
                    old(tx)@,
                    final(tx)@,
                    records,
                ),
            Err(e) => r == Err::<usize, BootstrapError>(e) && final(tx)@ == old(tx)@,
        },
{
    match read_registry(kind, doc) {
        Ok(records) => {
            load(tx, &records);
            proof {
                let views = records_of(kind, doc@)->Ok_0;
                assert(records@.len() == records.deep_view().len());
                assert forall|i: int| 0 <= i < records@.len() implies (#[trigger] records@[i])@
                    == views[i] by {
                    assert(records.deep_view()[i] == records@[i]@);
                }
            }
            Ok(records.len())
        },
        Err(e) => Err(e),
    }
}

} // verus!
