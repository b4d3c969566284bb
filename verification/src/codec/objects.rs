//! How the objects of a response are read from JSON and written to it.
//!
//! An object is read member by member: each member that is known is read as
//! the kind of value that it is, and the members that are not known are kept
//! as they are. It is written as its known members, in a fixed order,
//! followed by the members that were kept.

use crate::check::RdapStructure;
use crate::codec::{
    distinct, field_fault, field_json, field_matches, field_plain, field_readable, field_reads,
    field_rereads, field_settled, keep_unknown, keys_of, lemma_field_read_again,
    lemma_field_rereadable, lemma_field_round_trip, lemma_object_read_again,
    lemma_object_round_trip, lemma_required_read_again, lemma_required_rereadable,
    lemma_required_round_trip, lemma_written_push, names, no_known, object_json, read_field,
    read_required, required_json, required_readable, required_reads, without_keys,
    write_field, write_kept, write_required, written, Codec, Field, Path,
};
use crate::decode::{discriminate, kind_of};
use crate::json::{lemma_object_view, member_of, members_of, Json, JsonValue};
use crate::lenient::{Boolish, Numberish, VectorStringish};
use crate::response::{
    Autnum, Cidr0Cidr, Common, Domain, DomainSearchResults, Entity, EntitySearchResults, Event,
    Help, IpAddresses, Link, Nameserver, NameserverSearchResults, Network, Notice, ObjectRef,
    PublicId, RdapResponse, Rfc9083Error, SecureDns,
};
use vstd::prelude::*;

verus! {

impl Link {
    /// The keys of the members that are known.
    pub open spec fn keys() -> Seq<Seq<char>> {
        seq!["value"@, "rel"@, "href"@, "type"@, "title"@]
    }

    /// What is written for the members that are known.
    pub open spec fn fields(x: Link) -> Seq<Field> {
        seq![
            field_json::<String>("value"@, x.value),
            field_json::<String>("rel"@, x.rel),
            field_json::<String>("href"@, x.href),
            field_json::<String>("type"@, x.media_type),
            field_json::<String>("title"@, x.title),
        ]
    }

    /// No key stands twice among the keys that are known.
    pub proof fn lemma_keys()
        ensures
            distinct(Link::keys()),
    {
        reveal_strlit("value");
        reveal_strlit("rel");
        reveal_strlit("href");
        reveal_strlit("type");
        reveal_strlit("title");
        assert("value"@[0] == 'v');
        assert("title"@[0] == 't');
        assert("href"@[0] == 'h');
        assert("type"@[0] == 't');
        assert("value"@.len() == 5);
        assert("rel"@.len() == 3);
        assert("href"@.len() == 4);
        assert("type"@.len() == 4);
        assert("title"@.len() == 5);
    }
}

impl Codec for Link {
    open spec fn readable(j: JsonValue) -> bool {
        j matches JsonValue::Object(m) && field_readable::<String>(m, "value"@)
            && field_readable::<String>(m, "rel"@)
            && field_readable::<String>(m, "href"@)
            && field_readable::<String>(m, "type"@)
            && field_readable::<String>(m, "title"@)
    }

    open spec fn reads(j: JsonValue, x: Self) -> bool {
        j matches JsonValue::Object(m) && field_reads::<String>(m, "value"@, x.value)
            && field_reads::<String>(m, "rel"@, x.rel)
            && field_reads::<String>(m, "href"@, x.href)
            && field_reads::<String>(m, "type"@, x.media_type)
            && field_reads::<String>(m, "title"@, x.title)
            && members_of(x.unknown_keys@) == without_keys(m, Link::keys())
    }

    open spec fn fault(j: JsonValue) -> Path {
        match j {
            JsonValue::Object(m) => {
                if !field_readable::<String>(m, "value"@) {
                    field_fault::<String>(m, "value"@)
                } else if !field_readable::<String>(m, "rel"@) {
                    field_fault::<String>(m, "rel"@)
                } else if !field_readable::<String>(m, "href"@) {
                    field_fault::<String>(m, "href"@)
                } else if !field_readable::<String>(m, "type"@) {
                    field_fault::<String>(m, "type"@)
                } else if !field_readable::<String>(m, "title"@) {
                    field_fault::<String>(m, "title"@)
                } else {
                    Seq::empty()
                }
            },
            _ => Seq::empty(),
        }
    }

    open spec fn json(x: Self) -> JsonValue {
        object_json(Link::fields(x), members_of(x.unknown_keys@))
    }

    open spec fn plain(x: Self) -> bool {
        field_plain::<String>(x.value)
            && field_plain::<String>(x.rel)
            && field_plain::<String>(x.href)
            && field_plain::<String>(x.media_type)
            && field_plain::<String>(x.title)
    }

    fn decode(j: &Json) -> (r: Result<Self, Vec<String>>) {
        let m = match j {
            Json::Object(m) => m,
            _ => {
                return Err(crate::codec::here());
            },
        };
        proof {
            lemma_object_view(*j);
        }
        let f0 = read_field::<String>(m, "value")?;
        let f1 = read_field::<String>(m, "rel")?;
        let f2 = read_field::<String>(m, "href")?;
        let f3 = read_field::<String>(m, "type")?;
        let f4 = read_field::<String>(m, "title")?;
        let keys: Vec<&str> = vec!["value", "rel", "href", "type", "title"];
        assert(names(keys@) =~= Link::keys());
        let kept = keep_unknown(m, keys.as_slice());
        Ok(Link {
            value: f0,
            rel: f1,
            href: f2,
            media_type: f3,
            title: f4,
            unknown_keys: kept,
        })
    }

    fn encode(&self) -> (j: Json) {
        let mut out: Vec<(String, Json)> = Vec::new();
        let ghost mut fields: Seq<Field> = Seq::empty();
        assert(members_of(out@) =~= written(fields));
        write_field::<String>(&mut out, "value", &self.value);
        proof {
            lemma_written_push(fields, field_json::<String>("value"@, self.value));
            fields = fields.push(field_json::<String>("value"@, self.value));
        }
        write_field::<String>(&mut out, "rel", &self.rel);
        proof {
            lemma_written_push(fields, field_json::<String>("rel"@, self.rel));
            fields = fields.push(field_json::<String>("rel"@, self.rel));
        }
        write_field::<String>(&mut out, "href", &self.href);
        proof {
            lemma_written_push(fields, field_json::<String>("href"@, self.href));
            fields = fields.push(field_json::<String>("href"@, self.href));
        }
        write_field::<String>(&mut out, "type", &self.media_type);
        proof {
            lemma_written_push(fields, field_json::<String>("type"@, self.media_type));
            fields = fields.push(field_json::<String>("type"@, self.media_type));
        }
        write_field::<String>(&mut out, "title", &self.title);
        proof {
            lemma_written_push(fields, field_json::<String>("title"@, self.title));
            fields = fields.push(field_json::<String>("title"@, self.title));
        }
        assert(fields =~= Link::fields(*self));
        write_kept(&mut out, &self.unknown_keys);
        let j = Json::Object(out);
        proof {
            lemma_object_view(j);
        }
        j
    }

    #[verifier::rlimit(60)]
    proof fn round_trip(j: JsonValue, x: Self) {
        let m = j->Object_0;
        let fields = Link::fields(x);
        lemma_field_round_trip::<String>(m, "value"@, x.value);
        lemma_field_round_trip::<String>(m, "rel"@, x.rel);
        lemma_field_round_trip::<String>(m, "href"@, x.href);
        lemma_field_round_trip::<String>(m, "type"@, x.media_type);
        lemma_field_round_trip::<String>(m, "title"@, x.title);
        Link::lemma_keys();
        assert(keys_of(fields) =~= Link::keys());
        assert(fields[0] == field_json::<String>("value"@, x.value));
        assert(fields[1] == field_json::<String>("rel"@, x.rel));
        assert(fields[2] == field_json::<String>("href"@, x.href));
        assert(fields[3] == field_json::<String>("type"@, x.media_type));
        assert(fields[4] == field_json::<String>("title"@, x.title));
        assert forall|i: int| 0 <= i < fields.len() implies field_matches(#[trigger] fields[i], m) by {
            if i == 0 {
                assert(field_matches(fields[0], m));
            } else if i == 1 {
                assert(field_matches(fields[1], m));
            } else if i == 2 {
                assert(field_matches(fields[2], m));
            } else if i == 3 {
                assert(field_matches(fields[3], m));
            } else if i == 4 {
                assert(field_matches(fields[4], m));
            }
        }
        lemma_object_round_trip(m, fields);
    }

    open spec fn rereads(x: Self) -> bool {
        field_rereads::<String>(x.value)
            && field_rereads::<String>(x.rel)
            && field_rereads::<String>(x.href)
            && field_rereads::<String>(x.media_type)
            && field_rereads::<String>(x.title)
            && no_known(members_of(x.unknown_keys@), Link::keys())
    }

    open spec fn settled(x: Self, y: Self) -> bool {
        field_settled::<String>(x.value, y.value)
            && field_settled::<String>(x.rel, y.rel)
            && field_settled::<String>(x.href, y.href)
            && field_settled::<String>(x.media_type, y.media_type)
            && field_settled::<String>(x.title, y.title)
            && members_of(y.unknown_keys@) == members_of(x.unknown_keys@)
    }

    #[verifier::rlimit(60)]
    proof fn read_again(x: Self, y: Self) {
        let fields = Link::fields(x);
        let kept = members_of(x.unknown_keys@);
        let m = written(fields) + kept;
        Link::lemma_keys();
        assert(keys_of(fields) =~= Link::keys());
        lemma_object_read_again(fields, kept);
        assert(fields[0] == field_json::<String>("value"@, x.value));
        assert(member_of(m, "value"@) == fields[0].1);
        lemma_field_read_again::<String>(m, "value"@, x.value, y.value);
        assert(fields[1] == field_json::<String>("rel"@, x.rel));
        assert(member_of(m, "rel"@) == fields[1].1);
        lemma_field_read_again::<String>(m, "rel"@, x.rel, y.rel);
        assert(fields[2] == field_json::<String>("href"@, x.href));
        assert(member_of(m, "href"@) == fields[2].1);
        lemma_field_read_again::<String>(m, "href"@, x.href, y.href);
        assert(fields[3] == field_json::<String>("type"@, x.media_type));
        assert(member_of(m, "type"@) == fields[3].1);
        lemma_field_read_again::<String>(m, "type"@, x.media_type, y.media_type);
        assert(fields[4] == field_json::<String>("title"@, x.title));
        assert(member_of(m, "title"@) == fields[4].1);
        lemma_field_read_again::<String>(m, "title"@, x.title, y.title);
    }

    #[verifier::rlimit(60)]
    proof fn rereadable(x: Self) {
        let fields = Link::fields(x);
        let kept = members_of(x.unknown_keys@);
        let m = written(fields) + kept;
        Link::lemma_keys();
        assert(keys_of(fields) =~= Link::keys());
        lemma_object_read_again(fields, kept);
        assert(fields[0] == field_json::<String>("value"@, x.value));
        assert(member_of(m, "value"@) == fields[0].1);
        lemma_field_rereadable::<String>(m, "value"@, x.value);
        assert(fields[1] == field_json::<String>("rel"@, x.rel));
        assert(member_of(m, "rel"@) == fields[1].1);
        lemma_field_rereadable::<String>(m, "rel"@, x.rel);
        assert(fields[2] == field_json::<String>("href"@, x.href));
        assert(member_of(m, "href"@) == fields[2].1);
        lemma_field_rereadable::<String>(m, "href"@, x.href);
        assert(fields[3] == field_json::<String>("type"@, x.media_type));
        assert(member_of(m, "type"@) == fields[3].1);
        lemma_field_rereadable::<String>(m, "type"@, x.media_type);
        assert(fields[4] == field_json::<String>("title"@, x.title));
        assert(member_of(m, "title"@) == fields[4].1);
        lemma_field_rereadable::<String>(m, "title"@, x.title);
    }
}

impl Event {
    /// The keys of the members that are known.
    pub open spec fn keys() -> Seq<Seq<char>> {
        seq!["eventAction"@, "eventActor"@, "eventDate"@]
    }

    /// What is written for the members that are known.
    pub open spec fn fields(x: Event) -> Seq<Field> {
        seq![
            field_json::<String>("eventAction"@, x.event_action),
            field_json::<String>("eventActor"@, x.event_actor),
            field_json::<String>("eventDate"@, x.event_date),
        ]
    }

    /// No key stands twice among the keys that are known.
    pub proof fn lemma_keys()
        ensures
            distinct(Event::keys()),
    {
        reveal_strlit("eventAction");
        reveal_strlit("eventActor");
        reveal_strlit("eventDate");
        assert("eventAction"@.len() == 11);
        assert("eventActor"@.len() == 10);
        assert("eventDate"@.len() == 9);
    }
}

impl Codec for Event {
    open spec fn readable(j: JsonValue) -> bool {
        j matches JsonValue::Object(m) && field_readable::<String>(m, "eventAction"@)
            && field_readable::<String>(m, "eventActor"@)
            && field_readable::<String>(m, "eventDate"@)
    }

    open spec fn reads(j: JsonValue, x: Self) -> bool {
        j matches JsonValue::Object(m) && field_reads::<String>(m, "eventAction"@, x.event_action)
            && field_reads::<String>(m, "eventActor"@, x.event_actor)
            && field_reads::<String>(m, "eventDate"@, x.event_date)
            && members_of(x.unknown_keys@) == without_keys(m, Event::keys())
    }

    open spec fn fault(j: JsonValue) -> Path {
        match j {
            JsonValue::Object(m) => {
                if !field_readable::<String>(m, "eventAction"@) {
                    field_fault::<String>(m, "eventAction"@)
                } else if !field_readable::<String>(m, "eventActor"@) {
                    field_fault::<String>(m, "eventActor"@)
                } else if !field_readable::<String>(m, "eventDate"@) {
                    field_fault::<String>(m, "eventDate"@)
                } else {
                    Seq::empty()
                }
            },
            _ => Seq::empty(),
        }
    }

    open spec fn json(x: Self) -> JsonValue {
        object_json(Event::fields(x), members_of(x.unknown_keys@))
    }

    open spec fn plain(x: Self) -> bool {
        field_plain::<String>(x.event_action)
            && field_plain::<String>(x.event_actor)
            && field_plain::<String>(x.event_date)
    }

    fn decode(j: &Json) -> (r: Result<Self, Vec<String>>) {
        let m = match j {
            Json::Object(m) => m,
            _ => {
                return Err(crate::codec::here());
            },
        };
        proof {
            lemma_object_view(*j);
        }
        let f0 = read_field::<String>(m, "eventAction")?;
        let f1 = read_field::<String>(m, "eventActor")?;
        let f2 = read_field::<String>(m, "eventDate")?;
        let keys: Vec<&str> = vec!["eventAction", "eventActor", "eventDate"];
        assert(names(keys@) =~= Event::keys());
        let kept = keep_unknown(m, keys.as_slice());
        Ok(Event {
            event_action: f0,
            event_actor: f1,
            event_date: f2,
            unknown_keys: kept,
        })
    }

    fn encode(&self) -> (j: Json) {
        let mut out: Vec<(String, Json)> = Vec::new();
        let ghost mut fields: Seq<Field> = Seq::empty();
        assert(members_of(out@) =~= written(fields));
        write_field::<String>(&mut out, "eventAction", &self.event_action);
        proof {
            lemma_written_push(fields, field_json::<String>("eventAction"@, self.event_action));
            fields = fields.push(field_json::<String>("eventAction"@, self.event_action));
        }
        write_field::<String>(&mut out, "eventActor", &self.event_actor);
        proof {
            lemma_written_push(fields, field_json::<String>("eventActor"@, self.event_actor));
            fields = fields.push(field_json::<String>("eventActor"@, self.event_actor));
        }
        write_field::<String>(&mut out, "eventDate", &self.event_date);
        proof {
            lemma_written_push(fields, field_json::<String>("eventDate"@, self.event_date));
            fields = fields.push(field_json::<String>("eventDate"@, self.event_date));
        }
        assert(fields =~= Event::fields(*self));
        write_kept(&mut out, &self.unknown_keys);
        let j = Json::Object(out);
        proof {
            lemma_object_view(j);
        }
        j
    }

    #[verifier::rlimit(60)]
    proof fn round_trip(j: JsonValue, x: Self) {
        let m = j->Object_0;
        let fields = Event::fields(x);
        lemma_field_round_trip::<String>(m, "eventAction"@, x.event_action);
        lemma_field_round_trip::<String>(m, "eventActor"@, x.event_actor);
        lemma_field_round_trip::<String>(m, "eventDate"@, x.event_date);
        Event::lemma_keys();
        assert(keys_of(fields) =~= Event::keys());
        assert(fields[0] == field_json::<String>("eventAction"@, x.event_action));
        assert(fields[1] == field_json::<String>("eventActor"@, x.event_actor));
        assert(fields[2] == field_json::<String>("eventDate"@, x.event_date));
        assert forall|i: int| 0 <= i < fields.len() implies field_matches(#[trigger] fields[i], m) by {
            if i == 0 {
                assert(field_matches(fields[0], m));
            } else if i == 1 {
                assert(field_matches(fields[1], m));
            } else if i == 2 {
                assert(field_matches(fields[2], m));
            }
        }
        lemma_object_round_trip(m, fields);
    }

    open spec fn rereads(x: Self) -> bool {
        field_rereads::<String>(x.event_action)
            && field_rereads::<String>(x.event_actor)
            && field_rereads::<String>(x.event_date)
            && no_known(members_of(x.unknown_keys@), Event::keys())
    }

    open spec fn settled(x: Self, y: Self) -> bool {
        field_settled::<String>(x.event_action, y.event_action)
            && field_settled::<String>(x.event_actor, y.event_actor)
            && field_settled::<String>(x.event_date, y.event_date)
            && members_of(y.unknown_keys@) == members_of(x.unknown_keys@)
    }

    #[verifier::rlimit(60)]
    proof fn read_again(x: Self, y: Self) {
        let fields = Event::fields(x);
        let kept = members_of(x.unknown_keys@);
        let m = written(fields) + kept;
        Event::lemma_keys();
        assert(keys_of(fields) =~= Event::keys());
        lemma_object_read_again(fields, kept);
        assert(fields[0] == field_json::<String>("eventAction"@, x.event_action));
        assert(member_of(m, "eventAction"@) == fields[0].1);
        lemma_field_read_again::<String>(m, "eventAction"@, x.event_action, y.event_action);
        assert(fields[1] == field_json::<String>("eventActor"@, x.event_actor));
        assert(member_of(m, "eventActor"@) == fields[1].1);
        lemma_field_read_again::<String>(m, "eventActor"@, x.event_actor, y.event_actor);
        assert(fields[2] == field_json::<String>("eventDate"@, x.event_date));
        assert(member_of(m, "eventDate"@) == fields[2].1);
        lemma_field_read_again::<String>(m, "eventDate"@, x.event_date, y.event_date);
    }

    #[verifier::rlimit(60)]
    proof fn rereadable(x: Self) {
        let fields = Event::fields(x);
        let kept = members_of(x.unknown_keys@);
        let m = written(fields) + kept;
        Event::lemma_keys();
        assert(keys_of(fields) =~= Event::keys());
        lemma_object_read_again(fields, kept);
        assert(fields[0] == field_json::<String>("eventAction"@, x.event_action));
        assert(member_of(m, "eventAction"@) == fields[0].1);
        lemma_field_rereadable::<String>(m, "eventAction"@, x.event_action);
        assert(fields[1] == field_json::<String>("eventActor"@, x.event_actor));
        assert(member_of(m, "eventActor"@) == fields[1].1);
        lemma_field_rereadable::<String>(m, "eventActor"@, x.event_actor);
        assert(fields[2] == field_json::<String>("eventDate"@, x.event_date));
        assert(member_of(m, "eventDate"@) == fields[2].1);
        lemma_field_rereadable::<String>(m, "eventDate"@, x.event_date);
    }
}

impl PublicId {
    /// The keys of the members that are known.
    pub open spec fn keys() -> Seq<Seq<char>> {
        seq!["type"@, "identifier"@]
    }

    /// What is written for the members that are known.
    pub open spec fn fields(x: PublicId) -> Seq<Field> {
        seq![
            field_json::<String>("type"@, x.id_type),
            field_json::<String>("identifier"@, x.identifier),
        ]
    }

    /// No key stands twice among the keys that are known.
    pub proof fn lemma_keys()
        ensures
            distinct(PublicId::keys()),
    {
        reveal_strlit("type");
        reveal_strlit("identifier");
        assert("type"@.len() == 4);
        assert("identifier"@.len() == 10);
    }
}

impl Codec for PublicId {
    open spec fn readable(j: JsonValue) -> bool {
        j matches JsonValue::Object(m) && field_readable::<String>(m, "type"@)
            && field_readable::<String>(m, "identifier"@)
    }

    open spec fn reads(j: JsonValue, x: Self) -> bool {
        j matches JsonValue::Object(m) && field_reads::<String>(m, "type"@, x.id_type)
            && field_reads::<String>(m, "identifier"@, x.identifier)
            && members_of(x.unknown_keys@) == without_keys(m, PublicId::keys())
    }

    open spec fn fault(j: JsonValue) -> Path {
        match j {
            JsonValue::Object(m) => {
                if !field_readable::<String>(m, "type"@) {
                    field_fault::<String>(m, "type"@)
                } else if !field_readable::<String>(m, "identifier"@) {
                    field_fault::<String>(m, "identifier"@)
                } else {
                    Seq::empty()
                }
            },
            _ => Seq::empty(),
        }
    }

    open spec fn json(x: Self) -> JsonValue {
        object_json(PublicId::fields(x), members_of(x.unknown_keys@))
    }

    open spec fn plain(x: Self) -> bool {
        field_plain::<String>(x.id_type)
            && field_plain::<String>(x.identifier)
    }

    fn decode(j: &Json) -> (r: Result<Self, Vec<String>>) {
        let m = match j {
            Json::Object(m) => m,
            _ => {
                return Err(crate::codec::here());
            },
        };
        proof {
            lemma_object_view(*j);
        }
        let f0 = read_field::<String>(m, "type")?;
        let f1 = read_field::<String>(m, "identifier")?;
        let keys: Vec<&str> = vec!["type", "identifier"];
        assert(names(keys@) =~= PublicId::keys());
        let kept = keep_unknown(m, keys.as_slice());
        Ok(PublicId {
            id_type: f0,
            identifier: f1,
            unknown_keys: kept,
        })
    }

    fn encode(&self) -> (j: Json) {
        let mut out: Vec<(String, Json)> = Vec::new();
        let ghost mut fields: Seq<Field> = Seq::empty();
        assert(members_of(out@) =~= written(fields));
        write_field::<String>(&mut out, "type", &self.id_type);
        proof {
            lemma_written_push(fields, field_json::<String>("type"@, self.id_type));
            fields = fields.push(field_json::<String>("type"@, self.id_type));
        }
        write_field::<String>(&mut out, "identifier", &self.identifier);
        proof {
            lemma_written_push(fields, field_json::<String>("identifier"@, self.identifier));
            fields = fields.push(field_json::<String>("identifier"@, self.identifier));
        }
        assert(fields =~= PublicId::fields(*self));
        write_kept(&mut out, &self.unknown_keys);
        let j = Json::Object(out);
        proof {
            lemma_object_view(j);
        }
        j
    }

    #[verifier::rlimit(60)]
    proof fn round_trip(j: JsonValue, x: Self) {
        let m = j->Object_0;
        let fields = PublicId::fields(x);
        lemma_field_round_trip::<String>(m, "type"@, x.id_type);
        lemma_field_round_trip::<String>(m, "identifier"@, x.identifier);
        PublicId::lemma_keys();
        assert(keys_of(fields) =~= PublicId::keys());
        assert(fields[0] == field_json::<String>("type"@, x.id_type));
        assert(fields[1] == field_json::<String>("identifier"@, x.identifier));
        assert forall|i: int| 0 <= i < fields.len() implies field_matches(#[trigger] fields[i], m) by {
            if i == 0 {
                assert(field_matches(fields[0], m));
            } else if i == 1 {
                assert(field_matches(fields[1], m));
            }
        }
        lemma_object_round_trip(m, fields);
    }

    open spec fn rereads(x: Self) -> bool {
        field_rereads::<String>(x.id_type)
            && field_rereads::<String>(x.identifier)
            && no_known(members_of(x.unknown_keys@), PublicId::keys())
    }

    open spec fn settled(x: Self, y: Self) -> bool {
        field_settled::<String>(x.id_type, y.id_type)
            && field_settled::<String>(x.identifier, y.identifier)
            && members_of(y.unknown_keys@) == members_of(x.unknown_keys@)
    }

    #[verifier::rlimit(60)]
    proof fn read_again(x: Self, y: Self) {
        let fields = PublicId::fields(x);
        let kept = members_of(x.unknown_keys@);
        let m = written(fields) + kept;
        PublicId::lemma_keys();
        assert(keys_of(fields) =~= PublicId::keys());
        lemma_object_read_again(fields, kept);
        assert(fields[0] == field_json::<String>("type"@, x.id_type));
        assert(member_of(m, "type"@) == fields[0].1);
        lemma_field_read_again::<String>(m, "type"@, x.id_type, y.id_type);
        assert(fields[1] == field_json::<String>("identifier"@, x.identifier));
        assert(member_of(m, "identifier"@) == fields[1].1);
        lemma_field_read_again::<String>(m, "identifier"@, x.identifier, y.identifier);
    }

    #[verifier::rlimit(60)]
    proof fn rereadable(x: Self) {
        let fields = PublicId::fields(x);
        let kept = members_of(x.unknown_keys@);
        let m = written(fields) + kept;
        PublicId::lemma_keys();
        assert(keys_of(fields) =~= PublicId::keys());
        lemma_object_read_again(fields, kept);
        assert(fields[0] == field_json::<String>("type"@, x.id_type));
        assert(member_of(m, "type"@) == fields[0].1);
        lemma_field_rereadable::<String>(m, "type"@, x.id_type);
        assert(fields[1] == field_json::<String>("identifier"@, x.identifier));
        assert(member_of(m, "identifier"@) == fields[1].1);
        lemma_field_rereadable::<String>(m, "identifier"@, x.identifier);
    }
}

impl ObjectRef {
    /// The keys of the members that are known.
    pub open spec fn keys() -> Seq<Seq<char>> {
        seq!["handle"@]
    }

    /// What is written for the members that are known.
    pub open spec fn fields(x: ObjectRef) -> Seq<Field> {
        seq![
            field_json::<String>("handle"@, x.handle),
        ]
    }

    /// No key stands twice among the keys that are known.
    pub proof fn lemma_keys()
        ensures
            distinct(ObjectRef::keys()),
    {
        reveal_strlit("handle");
        assert("handle"@.len() == 6);
    }
}

impl Codec for ObjectRef {
    open spec fn readable(j: JsonValue) -> bool {
        j matches JsonValue::Object(m) && field_readable::<String>(m, "handle"@)
    }

    open spec fn reads(j: JsonValue, x: Self) -> bool {
        j matches JsonValue::Object(m) && field_reads::<String>(m, "handle"@, x.handle)
            && members_of(x.unknown_keys@) == without_keys(m, ObjectRef::keys())
    }

    open spec fn fault(j: JsonValue) -> Path {
        match j {
            JsonValue::Object(m) => {
                if !field_readable::<String>(m, "handle"@) {
                    field_fault::<String>(m, "handle"@)
                } else {
                    Seq::empty()
                }
            },
            _ => Seq::empty(),
        }
    }

    open spec fn json(x: Self) -> JsonValue {
        object_json(ObjectRef::fields(x), members_of(x.unknown_keys@))
    }

    open spec fn plain(x: Self) -> bool {
        field_plain::<String>(x.handle)
    }

    fn decode(j: &Json) -> (r: Result<Self, Vec<String>>) {
        let m = match j {
            Json::Object(m) => m,
            _ => {
                return Err(crate::codec::here());
            },
        };
        proof {
            lemma_object_view(*j);
        }
        let f0 = read_field::<String>(m, "handle")?;
        let keys: Vec<&str> = vec!["handle"];
        assert(names(keys@) =~= ObjectRef::keys());
        let kept = keep_unknown(m, keys.as_slice());
        Ok(ObjectRef {
            handle: f0,
            unknown_keys: kept,
        })
    }

    fn encode(&self) -> (j: Json) {
        let mut out: Vec<(String, Json)> = Vec::new();
        let ghost mut fields: Seq<Field> = Seq::empty();
        assert(members_of(out@) =~= written(fields));
        write_field::<String>(&mut out, "handle", &self.handle);
        proof {
            lemma_written_push(fields, field_json::<String>("handle"@, self.handle));
            fields = fields.push(field_json::<String>("handle"@, self.handle));
        }
        assert(fields =~= ObjectRef::fields(*self));
        write_kept(&mut out, &self.unknown_keys);
        let j = Json::Object(out);
        proof {
            lemma_object_view(j);
        }
        j
    }

    #[verifier::rlimit(60)]
    proof fn round_trip(j: JsonValue, x: Self) {
        let m = j->Object_0;
        let fields = ObjectRef::fields(x);
        lemma_field_round_trip::<String>(m, "handle"@, x.handle);
        ObjectRef::lemma_keys();
        assert(keys_of(fields) =~= ObjectRef::keys());
        assert(fields[0] == field_json::<String>("handle"@, x.handle));
        assert forall|i: int| 0 <= i < fields.len() implies field_matches(#[trigger] fields[i], m) by {
            if i == 0 {
                assert(field_matches(fields[0], m));
            }
        }
        lemma_object_round_trip(m, fields);
    }

    open spec fn rereads(x: Self) -> bool {
        field_rereads::<String>(x.handle)
            && no_known(members_of(x.unknown_keys@), ObjectRef::keys())
    }

    open spec fn settled(x: Self, y: Self) -> bool {
        field_settled::<String>(x.handle, y.handle)
            && members_of(y.unknown_keys@) == members_of(x.unknown_keys@)
    }

    #[verifier::rlimit(60)]
    proof fn read_again(x: Self, y: Self) {
        let fields = ObjectRef::fields(x);
        let kept = members_of(x.unknown_keys@);
        let m = written(fields) + kept;
        ObjectRef::lemma_keys();
        assert(keys_of(fields) =~= ObjectRef::keys());
        lemma_object_read_again(fields, kept);
        assert(fields[0] == field_json::<String>("handle"@, x.handle));
        assert(member_of(m, "handle"@) == fields[0].1);
        lemma_field_read_again::<String>(m, "handle"@, x.handle, y.handle);
    }

    #[verifier::rlimit(60)]
    proof fn rereadable(x: Self) {
        let fields = ObjectRef::fields(x);
        let kept = members_of(x.unknown_keys@);
        let m = written(fields) + kept;
        ObjectRef::lemma_keys();
        assert(keys_of(fields) =~= ObjectRef::keys());
        lemma_object_read_again(fields, kept);
        assert(fields[0] == field_json::<String>("handle"@, x.handle));
        assert(member_of(m, "handle"@) == fields[0].1);
        lemma_field_rereadable::<String>(m, "handle"@, x.handle);
    }
}

impl Notice {
    /// The keys of the members that are known.
    pub open spec fn keys() -> Seq<Seq<char>> {
        seq!["title"@, "description"@, "links"@]
    }

    /// What is written for the members that are known.
    pub open spec fn fields(x: Notice) -> Seq<Field> {
        seq![
            field_json::<String>("title"@, x.title),
            field_json::<VectorStringish>("description"@, x.description),
            field_json::<Vec<Link>>("links"@, x.links),
        ]
    }

    /// No key stands twice among the keys that are known.
    pub proof fn lemma_keys()
        ensures
            distinct(Notice::keys()),
    {
        reveal_strlit("title");
        reveal_strlit("description");
        reveal_strlit("links");
        assert("title"@[0] == 't');
        assert("links"@[0] == 'l');
        assert("title"@.len() == 5);
        assert("description"@.len() == 11);
        assert("links"@.len() == 5);
    }
}

impl Codec for Notice {
    open spec fn readable(j: JsonValue) -> bool {
        j matches JsonValue::Object(m) && field_readable::<String>(m, "title"@)
            && field_readable::<VectorStringish>(m, "description"@)
            && field_readable::<Vec<Link>>(m, "links"@)
    }

    open spec fn reads(j: JsonValue, x: Self) -> bool {
        j matches JsonValue::Object(m) && field_reads::<String>(m, "title"@, x.title)
            && field_reads::<VectorStringish>(m, "description"@, x.description)
            && field_reads::<Vec<Link>>(m, "links"@, x.links)
            && members_of(x.unknown_keys@) == without_keys(m, Notice::keys())
    }

    open spec fn fault(j: JsonValue) -> Path {
        match j {
            JsonValue::Object(m) => {
                if !field_readable::<String>(m, "title"@) {
                    field_fault::<String>(m, "title"@)
                } else if !field_readable::<VectorStringish>(m, "description"@) {
                    field_fault::<VectorStringish>(m, "description"@)
                } else if !field_readable::<Vec<Link>>(m, "links"@) {
                    field_fault::<Vec<Link>>(m, "links"@)
                } else {
                    Seq::empty()
                }
            },
            _ => Seq::empty(),
        }
    }

    open spec fn json(x: Self) -> JsonValue {
        object_json(Notice::fields(x), members_of(x.unknown_keys@))
    }

    open spec fn plain(x: Self) -> bool {
        field_plain::<String>(x.title)
            && field_plain::<VectorStringish>(x.description)
            && field_plain::<Vec<Link>>(x.links)
    }

    fn decode(j: &Json) -> (r: Result<Self, Vec<String>>) {
        let m = match j {
            Json::Object(m) => m,
            _ => {
                return Err(crate::codec::here());
            },
        };
        proof {
            lemma_object_view(*j);
        }
        let f0 = read_field::<String>(m, "title")?;
        let f1 = read_field::<VectorStringish>(m, "description")?;
        let f2 = read_field::<Vec<Link>>(m, "links")?;
        let keys: Vec<&str> = vec!["title", "description", "links"];
        assert(names(keys@) =~= Notice::keys());
        let kept = keep_unknown(m, keys.as_slice());
        Ok(Notice {
            title: f0,
            description: f1,
            links: f2,
            unknown_keys: kept,
        })
    }

    fn encode(&self) -> (j: Json) {
        let mut out: Vec<(String, Json)> = Vec::new();
        let ghost mut fields: Seq<Field> = Seq::empty();
        assert(members_of(out@) =~= written(fields));
        write_field::<String>(&mut out, "title", &self.title);
        proof {
            lemma_written_push(fields, field_json::<String>("title"@, self.title));
            fields = fields.push(field_json::<String>("title"@, self.title));
        }
        write_field::<VectorStringish>(&mut out, "description", &self.description);
        proof {
            lemma_written_push(fields, field_json::<VectorStringish>("description"@, self.description));
            fields = fields.push(field_json::<VectorStringish>("description"@, self.description));
        }
        write_field::<Vec<Link>>(&mut out, "links", &self.links);
        proof {
            lemma_written_push(fields, field_json::<Vec<Link>>("links"@, self.links));
            fields = fields.push(field_json::<Vec<Link>>("links"@, self.links));
        }
        assert(fields =~= Notice::fields(*self));
        write_kept(&mut out, &self.unknown_keys);
        let j = Json::Object(out);
        proof {
            lemma_object_view(j);
        }
        j
    }

    #[verifier::rlimit(60)]
    proof fn round_trip(j: JsonValue, x: Self) {
        let m = j->Object_0;
        let fields = Notice::fields(x);
        lemma_field_round_trip::<String>(m, "title"@, x.title);
        lemma_field_round_trip::<VectorStringish>(m, "description"@, x.description);
        lemma_field_round_trip::<Vec<Link>>(m, "links"@, x.links);
        Notice::lemma_keys();
        assert(keys_of(fields) =~= Notice::keys());
        assert(fields[0] == field_json::<String>("title"@, x.title));
        assert(fields[1] == field_json::<VectorStringish>("description"@, x.description));
        assert(fields[2] == field_json::<Vec<Link>>("links"@, x.links));
        assert forall|i: int| 0 <= i < fields.len() implies field_matches(#[trigger] fields[i], m) by {
            if i == 0 {
                assert(field_matches(fields[0], m));
            } else if i == 1 {
                assert(field_matches(fields[1], m));
            } else if i == 2 {
                assert(field_matches(fields[2], m));
            }
        }
        lemma_object_round_trip(m, fields);
    }

    open spec fn rereads(x: Self) -> bool {
        field_rereads::<String>(x.title)
            && field_rereads::<VectorStringish>(x.description)
            && field_rereads::<Vec<Link>>(x.links)
            && no_known(members_of(x.unknown_keys@), Notice::keys())
    }

    open spec fn settled(x: Self, y: Self) -> bool {
        field_settled::<String>(x.title, y.title)
            && field_settled::<VectorStringish>(x.description, y.description)
            && field_settled::<Vec<Link>>(x.links, y.links)
            && members_of(y.unknown_keys@) == members_of(x.unknown_keys@)
    }

    #[verifier::rlimit(60)]
    proof fn read_again(x: Self, y: Self) {
        let fields = Notice::fields(x);
        let kept = members_of(x.unknown_keys@);
        let m = written(fields) + kept;
        Notice::lemma_keys();
        assert(keys_of(fields) =~= Notice::keys());
        lemma_object_read_again(fields, kept);
        assert(fields[0] == field_json::<String>("title"@, x.title));
        assert(member_of(m, "title"@) == fields[0].1);
        lemma_field_read_again::<String>(m, "title"@, x.title, y.title);
        assert(fields[1] == field_json::<VectorStringish>("description"@, x.description));
        assert(member_of(m, "description"@) == fields[1].1);
        lemma_field_read_again::<VectorStringish>(m, "description"@, x.description, y.description);
        assert(fields[2] == field_json::<Vec<Link>>("links"@, x.links));
        assert(member_of(m, "links"@) == fields[2].1);
        lemma_field_read_again::<Vec<Link>>(m, "links"@, x.links, y.links);
    }

    #[verifier::rlimit(60)]
    proof fn rereadable(x: Self) {
        let fields = Notice::fields(x);
        let kept = members_of(x.unknown_keys@);
        let m = written(fields) + kept;
        Notice::lemma_keys();
        assert(keys_of(fields) =~= Notice::keys());
        lemma_object_read_again(fields, kept);
        assert(fields[0] == field_json::<String>("title"@, x.title));
        assert(member_of(m, "title"@) == fields[0].1);
        lemma_field_rereadable::<String>(m, "title"@, x.title);
        assert(fields[1] == field_json::<VectorStringish>("description"@, x.description));
        assert(member_of(m, "description"@) == fields[1].1);
        lemma_field_rereadable::<VectorStringish>(m, "description"@, x.description);
        assert(fields[2] == field_json::<Vec<Link>>("links"@, x.links));
        assert(member_of(m, "links"@) == fields[2].1);
        lemma_field_rereadable::<Vec<Link>>(m, "links"@, x.links);
    }
}

impl SecureDns {
    /// The keys of the members that are known.
    pub open spec fn keys() -> Seq<Seq<char>> {
        seq!["zoneSigned"@, "delegationSigned"@, "maxSigLife"@]
    }

    /// What is written for the members that are known.
    pub open spec fn fields(x: SecureDns) -> Seq<Field> {
        seq![
            field_json::<Boolish>("zoneSigned"@, x.zone_signed),
            field_json::<Boolish>("delegationSigned"@, x.delegation_signed),
            field_json::<Numberish<u64>>("maxSigLife"@, x.max_sig_life),
        ]
    }

    /// No key stands twice among the keys that are known.
    pub proof fn lemma_keys()
        ensures
            distinct(SecureDns::keys()),
    {
        reveal_strlit("zoneSigned");
        reveal_strlit("delegationSigned");
        reveal_strlit("maxSigLife");
        assert("zoneSigned"@[0] == 'z');
        assert("maxSigLife"@[0] == 'm');
        assert("zoneSigned"@.len() == 10);
        assert("delegationSigned"@.len() == 16);
        assert("maxSigLife"@.len() == 10);
    }
}

impl Codec for SecureDns {
    open spec fn readable(j: JsonValue) -> bool {
        j matches JsonValue::Object(m) && field_readable::<Boolish>(m, "zoneSigned"@)
            && field_readable::<Boolish>(m, "delegationSigned"@)
            && field_readable::<Numberish<u64>>(m, "maxSigLife"@)
    }

    open spec fn reads(j: JsonValue, x: Self) -> bool {
        j matches JsonValue::Object(m) && field_reads::<Boolish>(m, "zoneSigned"@, x.zone_signed)
            && field_reads::<Boolish>(m, "delegationSigned"@, x.delegation_signed)
            && field_reads::<Numberish<u64>>(m, "maxSigLife"@, x.max_sig_life)
            && members_of(x.unknown_keys@) == without_keys(m, SecureDns::keys())
    }

    open spec fn fault(j: JsonValue) -> Path {
        match j {
            JsonValue::Object(m) => {
                if !field_readable::<Boolish>(m, "zoneSigned"@) {
                    field_fault::<Boolish>(m, "zoneSigned"@)
                } else if !field_readable::<Boolish>(m, "delegationSigned"@) {
                    field_fault::<Boolish>(m, "delegationSigned"@)
                } else if !field_readable::<Numberish<u64>>(m, "maxSigLife"@) {
                    field_fault::<Numberish<u64>>(m, "maxSigLife"@)
                } else {
                    Seq::empty()
                }
            },
            _ => Seq::empty(),
        }
    }

    open spec fn json(x: Self) -> JsonValue {
        object_json(SecureDns::fields(x), members_of(x.unknown_keys@))
    }

    open spec fn plain(x: Self) -> bool {
        field_plain::<Boolish>(x.zone_signed)
            && field_plain::<Boolish>(x.delegation_signed)
            && field_plain::<Numberish<u64>>(x.max_sig_life)
    }

    fn decode(j: &Json) -> (r: Result<Self, Vec<String>>) {
        let m = match j {
            Json::Object(m) => m,
            _ => {
                return Err(crate::codec::here());
            },
        };
        proof {
            lemma_object_view(*j);
        }
        let f0 = read_field::<Boolish>(m, "zoneSigned")?;
        let f1 = read_field::<Boolish>(m, "delegationSigned")?;
        let f2 = read_field::<Numberish<u64>>(m, "maxSigLife")?;
        let keys: Vec<&str> = vec!["zoneSigned", "delegationSigned", "maxSigLife"];
        assert(names(keys@) =~= SecureDns::keys());
        let kept = keep_unknown(m, keys.as_slice());
        Ok(SecureDns {
            zone_signed: f0,
            delegation_signed: f1,
            max_sig_life: f2,
            unknown_keys: kept,
        })
    }

    fn encode(&self) -> (j: Json) {
        let mut out: Vec<(String, Json)> = Vec::new();
        let ghost mut fields: Seq<Field> = Seq::empty();
        assert(members_of(out@) =~= written(fields));
        write_field::<Boolish>(&mut out, "zoneSigned", &self.zone_signed);
        proof {
            lemma_written_push(fields, field_json::<Boolish>("zoneSigned"@, self.zone_signed));
            fields = fields.push(field_json::<Boolish>("zoneSigned"@, self.zone_signed));
        }
        write_field::<Boolish>(&mut out, "delegationSigned", &self.delegation_signed);
        proof {
            lemma_written_push(fields, field_json::<Boolish>("delegationSigned"@, self.delegation_signed));
            fields = fields.push(field_json::<Boolish>("delegationSigned"@, self.delegation_signed));
        }
        write_field::<Numberish<u64>>(&mut out, "maxSigLife", &self.max_sig_life);
        proof {
            lemma_written_push(fields, field_json::<Numberish<u64>>("maxSigLife"@, self.max_sig_life));
            fields = fields.push(field_json::<Numberish<u64>>("maxSigLife"@, self.max_sig_life));
        }
        assert(fields =~= SecureDns::fields(*self));
        write_kept(&mut out, &self.unknown_keys);
        let j = Json::Object(out);
        proof {
            lemma_object_view(j);
        }
        j
    }

    #[verifier::rlimit(60)]
    proof fn round_trip(j: JsonValue, x: Self) {
        let m = j->Object_0;
        let fields = SecureDns::fields(x);
        lemma_field_round_trip::<Boolish>(m, "zoneSigned"@, x.zone_signed);
        lemma_field_round_trip::<Boolish>(m, "delegationSigned"@, x.delegation_signed);
        lemma_field_round_trip::<Numberish<u64>>(m, "maxSigLife"@, x.max_sig_life);
        SecureDns::lemma_keys();
        assert(keys_of(fields) =~= SecureDns::keys());
        assert(fields[0] == field_json::<Boolish>("zoneSigned"@, x.zone_signed));
        assert(fields[1] == field_json::<Boolish>("delegationSigned"@, x.delegation_signed));
        assert(fields[2] == field_json::<Numberish<u64>>("maxSigLife"@, x.max_sig_life));
        assert forall|i: int| 0 <= i < fields.len() implies field_matches(#[trigger] fields[i], m) by {
            if i == 0 {
                assert(field_matches(fields[0], m));
            } else if i == 1 {
                assert(field_matches(fields[1], m));
            } else if i == 2 {
                assert(field_matches(fields[2], m));
            }
        }
        lemma_object_round_trip(m, fields);
    }

    open spec fn rereads(x: Self) -> bool {
        field_rereads::<Boolish>(x.zone_signed)
            && field_rereads::<Boolish>(x.delegation_signed)
            && field_rereads::<Numberish<u64>>(x.max_sig_life)
            && no_known(members_of(x.unknown_keys@), SecureDns::keys())
    }

    open spec fn settled(x: Self, y: Self) -> bool {
        field_settled::<Boolish>(x.zone_signed, y.zone_signed)
            && field_settled::<Boolish>(x.delegation_signed, y.delegation_signed)
            && field_settled::<Numberish<u64>>(x.max_sig_life, y.max_sig_life)
            && members_of(y.unknown_keys@) == members_of(x.unknown_keys@)
    }

    #[verifier::rlimit(60)]
    proof fn read_again(x: Self, y: Self) {
        let fields = SecureDns::fields(x);
        let kept = members_of(x.unknown_keys@);
        let m = written(fields) + kept;
        SecureDns::lemma_keys();
        assert(keys_of(fields) =~= SecureDns::keys());
        lemma_object_read_again(fields, kept);
        assert(fields[0] == field_json::<Boolish>("zoneSigned"@, x.zone_signed));
        assert(member_of(m, "zoneSigned"@) == fields[0].1);
        lemma_field_read_again::<Boolish>(m, "zoneSigned"@, x.zone_signed, y.zone_signed);
        assert(fields[1] == field_json::<Boolish>("delegationSigned"@, x.delegation_signed));
        assert(member_of(m, "delegationSigned"@) == fields[1].1);
        lemma_field_read_again::<Boolish>(m, "delegationSigned"@, x.delegation_signed, y.delegation_signed);
        assert(fields[2] == field_json::<Numberish<u64>>("maxSigLife"@, x.max_sig_life));
        assert(member_of(m, "maxSigLife"@) == fields[2].1);
        lemma_field_read_again::<Numberish<u64>>(m, "maxSigLife"@, x.max_sig_life, y.max_sig_life);
    }

    #[verifier::rlimit(60)]
    proof fn rereadable(x: Self) {
        let fields = SecureDns::fields(x);
        let kept = members_of(x.unknown_keys@);
        let m = written(fields) + kept;
        SecureDns::lemma_keys();
        assert(keys_of(fields) =~= SecureDns::keys());
        lemma_object_read_again(fields, kept);
        assert(fields[0] == field_json::<Boolish>("zoneSigned"@, x.zone_signed));
        assert(member_of(m, "zoneSigned"@) == fields[0].1);
        lemma_field_rereadable::<Boolish>(m, "zoneSigned"@, x.zone_signed);
        assert(fields[1] == field_json::<Boolish>("delegationSigned"@, x.delegation_signed));
        assert(member_of(m, "delegationSigned"@) == fields[1].1);
        lemma_field_rereadable::<Boolish>(m, "delegationSigned"@, x.delegation_signed);
        assert(fields[2] == field_json::<Numberish<u64>>("maxSigLife"@, x.max_sig_life));
        assert(member_of(m, "maxSigLife"@) == fields[2].1);
        lemma_field_rereadable::<Numberish<u64>>(m, "maxSigLife"@, x.max_sig_life);
    }
}

impl IpAddresses {
    /// The keys of the members that are known.
    pub open spec fn keys() -> Seq<Seq<char>> {
        seq!["v4"@, "v6"@]
    }

    /// What is written for the members that are known.
    pub open spec fn fields(x: IpAddresses) -> Seq<Field> {
        seq![
            field_json::<VectorStringish>("v4"@, x.v4),
            field_json::<VectorStringish>("v6"@, x.v6),
        ]
    }

    /// No key stands twice among the keys that are known.
    pub proof fn lemma_keys()
        ensures
            distinct(IpAddresses::keys()),
    {
        reveal_strlit("v4");
        reveal_strlit("v6");
        assert("v4"@[1] == '4');
        assert("v6"@[1] == '6');
        assert("v4"@.len() == 2);
        assert("v6"@.len() == 2);
    }
}

impl Codec for IpAddresses {
    open spec fn readable(j: JsonValue) -> bool {
        j matches JsonValue::Object(m) && field_readable::<VectorStringish>(m, "v4"@)
            && field_readable::<VectorStringish>(m, "v6"@)
    }

    open spec fn reads(j: JsonValue, x: Self) -> bool {
        j matches JsonValue::Object(m) && field_reads::<VectorStringish>(m, "v4"@, x.v4)
            && field_reads::<VectorStringish>(m, "v6"@, x.v6)
            && members_of(x.unknown_keys@) == without_keys(m, IpAddresses::keys())
    }

    open spec fn fault(j: JsonValue) -> Path {
        match j {
            JsonValue::Object(m) => {
                if !field_readable::<VectorStringish>(m, "v4"@) {
                    field_fault::<VectorStringish>(m, "v4"@)
                } else if !field_readable::<VectorStringish>(m, "v6"@) {
                    field_fault::<VectorStringish>(m, "v6"@)
                } else {
                    Seq::empty()
                }
            },
            _ => Seq::empty(),
        }
    }

    open spec fn json(x: Self) -> JsonValue {
        object_json(IpAddresses::fields(x), members_of(x.unknown_keys@))
    }

    open spec fn plain(x: Self) -> bool {
        field_plain::<VectorStringish>(x.v4)
            && field_plain::<VectorStringish>(x.v6)
    }

    fn decode(j: &Json) -> (r: Result<Self, Vec<String>>) {
        let m = match j {
            Json::Object(m) => m,
            _ => {
                return Err(crate::codec::here());
            },
        };
        proof {
            lemma_object_view(*j);
        }
        let f0 = read_field::<VectorStringish>(m, "v4")?;
        let f1 = read_field::<VectorStringish>(m, "v6")?;
        let keys: Vec<&str> = vec!["v4", "v6"];
        assert(names(keys@) =~= IpAddresses::keys());
        let kept = keep_unknown(m, keys.as_slice());
        Ok(IpAddresses {
            v4: f0,
            v6: f1,
            unknown_keys: kept,
        })
    }

    fn encode(&self) -> (j: Json) {
        let mut out: Vec<(String, Json)> = Vec::new();
        let ghost mut fields: Seq<Field> = Seq::empty();
        assert(members_of(out@) =~= written(fields));
        write_field::<VectorStringish>(&mut out, "v4", &self.v4);
        proof {
            lemma_written_push(fields, field_json::<VectorStringish>("v4"@, self.v4));
            fields = fields.push(field_json::<VectorStringish>("v4"@, self.v4));
        }
        write_field::<VectorStringish>(&mut out, "v6", &self.v6);
        proof {
            lemma_written_push(fields, field_json::<VectorStringish>("v6"@, self.v6));
            fields = fields.push(field_json::<VectorStringish>("v6"@, self.v6));
        }
        assert(fields =~= IpAddresses::fields(*self));
        write_kept(&mut out, &self.unknown_keys);
        let j = Json::Object(out);
        proof {
            lemma_object_view(j);
        }
        j
    }

    #[verifier::rlimit(60)]
    proof fn round_trip(j: JsonValue, x: Self) {
        let m = j->Object_0;
        let fields = IpAddresses::fields(x);
        lemma_field_round_trip::<VectorStringish>(m, "v4"@, x.v4);
        lemma_field_round_trip::<VectorStringish>(m, "v6"@, x.v6);
        IpAddresses::lemma_keys();
        assert(keys_of(fields) =~= IpAddresses::keys());
        assert(fields[0] == field_json::<VectorStringish>("v4"@, x.v4));
        assert(fields[1] == field_json::<VectorStringish>("v6"@, x.v6));
        assert forall|i: int| 0 <= i < fields.len() implies field_matches(#[trigger] fields[i], m) by {
            if i == 0 {
                assert(field_matches(fields[0], m));
            } else if i == 1 {
                assert(field_matches(fields[1], m));
            }
        }
        lemma_object_round_trip(m, fields);
    }

    open spec fn rereads(x: Self) -> bool {
        field_rereads::<VectorStringish>(x.v4)
            && field_rereads::<VectorStringish>(x.v6)
            && no_known(members_of(x.unknown_keys@), IpAddresses::keys())
    }

    open spec fn settled(x: Self, y: Self) -> bool {
        field_settled::<VectorStringish>(x.v4, y.v4)
            && field_settled::<VectorStringish>(x.v6, y.v6)
            && members_of(y.unknown_keys@) == members_of(x.unknown_keys@)
    }

    #[verifier::rlimit(60)]
    proof fn read_again(x: Self, y: Self) {
        let fields = IpAddresses::fields(x);
        let kept = members_of(x.unknown_keys@);
        let m = written(fields) + kept;
        IpAddresses::lemma_keys();
        assert(keys_of(fields) =~= IpAddresses::keys());
        lemma_object_read_again(fields, kept);
        assert(fields[0] == field_json::<VectorStringish>("v4"@, x.v4));
        assert(member_of(m, "v4"@) == fields[0].1);
        lemma_field_read_again::<VectorStringish>(m, "v4"@, x.v4, y.v4);
        assert(fields[1] == field_json::<VectorStringish>("v6"@, x.v6));
        assert(member_of(m, "v6"@) == fields[1].1);
        lemma_field_read_again::<VectorStringish>(m, "v6"@, x.v6, y.v6);
    }

    #[verifier::rlimit(60)]
    proof fn rereadable(x: Self) {
        let fields = IpAddresses::fields(x);
        let kept = members_of(x.unknown_keys@);
        let m = written(fields) + kept;
        IpAddresses::lemma_keys();
        assert(keys_of(fields) =~= IpAddresses::keys());
        lemma_object_read_again(fields, kept);
        assert(fields[0] == field_json::<VectorStringish>("v4"@, x.v4));
        assert(member_of(m, "v4"@) == fields[0].1);
        lemma_field_rereadable::<VectorStringish>(m, "v4"@, x.v4);
        assert(fields[1] == field_json::<VectorStringish>("v6"@, x.v6));
        assert(member_of(m, "v6"@) == fields[1].1);
        lemma_field_rereadable::<VectorStringish>(m, "v6"@, x.v6);
    }
}

impl Cidr0Cidr {
    /// The keys of the members that are known.
    pub open spec fn keys() -> Seq<Seq<char>> {
        seq!["v4prefix"@, "v6prefix"@, "length"@]
    }

    /// What is written for the members that are known.
    pub open spec fn fields(x: Cidr0Cidr) -> Seq<Field> {
        seq![
            field_json::<String>("v4prefix"@, x.v4prefix),
            field_json::<String>("v6prefix"@, x.v6prefix),
            field_json::<Numberish<u8>>("length"@, x.length),
        ]
    }

    /// No key stands twice among the keys that are known.
    pub proof fn lemma_keys()
        ensures
            distinct(Cidr0Cidr::keys()),
    {
        reveal_strlit("v4prefix");
        reveal_strlit("v6prefix");
        reveal_strlit("length");
        assert("v4prefix"@[1] == '4');
        assert("v6prefix"@[1] == '6');
        assert("v4prefix"@.len() == 8);
        assert("v6prefix"@.len() == 8);
        assert("length"@.len() == 6);
    }
}

impl Codec for Cidr0Cidr {
    open spec fn readable(j: JsonValue) -> bool {
        j matches JsonValue::Object(m) && field_readable::<String>(m, "v4prefix"@)
            && field_readable::<String>(m, "v6prefix"@)
            && field_readable::<Numberish<u8>>(m, "length"@)
    }

    open spec fn reads(j: JsonValue, x: Self) -> bool {
        j matches JsonValue::Object(m) && field_reads::<String>(m, "v4prefix"@, x.v4prefix)
            && field_reads::<String>(m, "v6prefix"@, x.v6prefix)
            && field_reads::<Numberish<u8>>(m, "length"@, x.length)
            && members_of(x.unknown_keys@) == without_keys(m, Cidr0Cidr::keys())
    }

    open spec fn fault(j: JsonValue) -> Path {
        match j {
            JsonValue::Object(m) => {
                if !field_readable::<String>(m, "v4prefix"@) {
                    field_fault::<String>(m, "v4prefix"@)
                } else if !field_readable::<String>(m, "v6prefix"@) {
                    field_fault::<String>(m, "v6prefix"@)
                } else if !field_readable::<Numberish<u8>>(m, "length"@) {
                    field_fault::<Numberish<u8>>(m, "length"@)
                } else {
                    Seq::empty()
                }
            },
            _ => Seq::empty(),
        }
    }

    open spec fn json(x: Self) -> JsonValue {
        object_json(Cidr0Cidr::fields(x), members_of(x.unknown_keys@))
    }

    open spec fn plain(x: Self) -> bool {
        field_plain::<String>(x.v4prefix)
            && field_plain::<String>(x.v6prefix)
            && field_plain::<Numberish<u8>>(x.length)
    }

    fn decode(j: &Json) -> (r: Result<Self, Vec<String>>) {
        let m = match j {
            Json::Object(m) => m,
            _ => {
                return Err(crate::codec::here());
            },
        };
        proof {
            lemma_object_view(*j);
        }
        let f0 = read_field::<String>(m, "v4prefix")?;
        let f1 = read_field::<String>(m, "v6prefix")?;
        let f2 = read_field::<Numberish<u8>>(m, "length")?;
        let keys: Vec<&str> = vec!["v4prefix", "v6prefix", "length"];
        assert(names(keys@) =~= Cidr0Cidr::keys());
        let kept = keep_unknown(m, keys.as_slice());
        Ok(Cidr0Cidr {
            v4prefix: f0,
            v6prefix: f1,
            length: f2,
            unknown_keys: kept,
        })
    }

    fn encode(&self) -> (j: Json) {
        let mut out: Vec<(String, Json)> = Vec::new();
        let ghost mut fields: Seq<Field> = Seq::empty();
        assert(members_of(out@) =~= written(fields));
        write_field::<String>(&mut out, "v4prefix", &self.v4prefix);
        proof {
            lemma_written_push(fields, field_json::<String>("v4prefix"@, self.v4prefix));
            fields = fields.push(field_json::<String>("v4prefix"@, self.v4prefix));
        }
        write_field::<String>(&mut out, "v6prefix", &self.v6prefix);
        proof {
            lemma_written_push(fields, field_json::<String>("v6prefix"@, self.v6prefix));
            fields = fields.push(field_json::<String>("v6prefix"@, self.v6prefix));
        }
        write_field::<Numberish<u8>>(&mut out, "length", &self.length);
        proof {
            lemma_written_push(fields, field_json::<Numberish<u8>>("length"@, self.length));
            fields = fields.push(field_json::<Numberish<u8>>("length"@, self.length));
        }
        assert(fields =~= Cidr0Cidr::fields(*self));
        write_kept(&mut out, &self.unknown_keys);
        let j = Json::Object(out);
        proof {
            lemma_object_view(j);
        }
        j
    }

    #[verifier::rlimit(60)]
    proof fn round_trip(j: JsonValue, x: Self) {
        let m = j->Object_0;
        let fields = Cidr0Cidr::fields(x);
        lemma_field_round_trip::<String>(m, "v4prefix"@, x.v4prefix);
        lemma_field_round_trip::<String>(m, "v6prefix"@, x.v6prefix);
        lemma_field_round_trip::<Numberish<u8>>(m, "length"@, x.length);
        Cidr0Cidr::lemma_keys();
        assert(keys_of(fields) =~= Cidr0Cidr::keys());
        assert(fields[0] == field_json::<String>("v4prefix"@, x.v4prefix));
        assert(fields[1] == field_json::<String>("v6prefix"@, x.v6prefix));
        assert(fields[2] == field_json::<Numberish<u8>>("length"@, x.length));
        assert forall|i: int| 0 <= i < fields.len() implies field_matches(#[trigger] fields[i], m) by {
            if i == 0 {
                assert(field_matches(fields[0], m));
            } else if i == 1 {
                assert(field_matches(fields[1], m));
            } else if i == 2 {
                assert(field_matches(fields[2], m));
            }
        }
        lemma_object_round_trip(m, fields);
    }

    open spec fn rereads(x: Self) -> bool {
        field_rereads::<String>(x.v4prefix)
            && field_rereads::<String>(x.v6prefix)
            && field_rereads::<Numberish<u8>>(x.length)
            && no_known(members_of(x.unknown_keys@), Cidr0Cidr::keys())
    }

    open spec fn settled(x: Self, y: Self) -> bool {
        field_settled::<String>(x.v4prefix, y.v4prefix)
            && field_settled::<String>(x.v6prefix, y.v6prefix)
            && field_settled::<Numberish<u8>>(x.length, y.length)
            && members_of(y.unknown_keys@) == members_of(x.unknown_keys@)
    }

    #[verifier::rlimit(60)]
    proof fn read_again(x: Self, y: Self) {
        let fields = Cidr0Cidr::fields(x);
        let kept = members_of(x.unknown_keys@);
        let m = written(fields) + kept;
        Cidr0Cidr::lemma_keys();
        assert(keys_of(fields) =~= Cidr0Cidr::keys());
        lemma_object_read_again(fields, kept);
        assert(fields[0] == field_json::<String>("v4prefix"@, x.v4prefix));
        assert(member_of(m, "v4prefix"@) == fields[0].1);
        lemma_field_read_again::<String>(m, "v4prefix"@, x.v4prefix, y.v4prefix);
        assert(fields[1] == field_json::<String>("v6prefix"@, x.v6prefix));
        assert(member_of(m, "v6prefix"@) == fields[1].1);
        lemma_field_read_again::<String>(m, "v6prefix"@, x.v6prefix, y.v6prefix);
        assert(fields[2] == field_json::<Numberish<u8>>("length"@, x.length));
        assert(member_of(m, "length"@) == fields[2].1);
        lemma_field_read_again::<Numberish<u8>>(m, "length"@, x.length, y.length);
    }

    #[verifier::rlimit(60)]
    proof fn rereadable(x: Self) {
        let fields = Cidr0Cidr::fields(x);
        let kept = members_of(x.unknown_keys@);
        let m = written(fields) + kept;
        Cidr0Cidr::lemma_keys();
        assert(keys_of(fields) =~= Cidr0Cidr::keys());
        lemma_object_read_again(fields, kept);
        assert(fields[0] == field_json::<String>("v4prefix"@, x.v4prefix));
        assert(member_of(m, "v4prefix"@) == fields[0].1);
        lemma_field_rereadable::<String>(m, "v4prefix"@, x.v4prefix);
        assert(fields[1] == field_json::<String>("v6prefix"@, x.v6prefix));
        assert(member_of(m, "v6prefix"@) == fields[1].1);
        lemma_field_rereadable::<String>(m, "v6prefix"@, x.v6prefix);
        assert(fields[2] == field_json::<Numberish<u8>>("length"@, x.length));
        assert(member_of(m, "length"@) == fields[2].1);
        lemma_field_rereadable::<Numberish<u8>>(m, "length"@, x.length);
    }
}

impl Entity {
    /// The keys of the members that are known.
    pub open spec fn keys() -> Seq<Seq<char>> {
        seq!["objectClassName"@, "rdapConformance"@, "notices"@, "links"@, "events"@, "status"@, "port43"@, "lang"@, "handle"@, "roles"@, "publicIds"@, "vcardArray"@, "entities"@]
    }

    /// What is written for the members that are known.
    pub open spec fn fields(x: Entity) -> Seq<Field> {
        seq![
            field_json::<String>("objectClassName"@, x.common.object_class_name),
            field_json::<Vec<String>>("rdapConformance"@, x.common.rdap_conformance),
            field_json::<Vec<Notice>>("notices"@, x.common.notices),
            field_json::<Vec<Link>>("links"@, x.common.links),
            field_json::<Vec<Event>>("events"@, x.common.events),
            field_json::<VectorStringish>("status"@, x.common.status),
            field_json::<String>("port43"@, x.common.port_43),
            field_json::<String>("lang"@, x.common.lang),
            field_json::<String>("handle"@, x.handle),
            field_json::<VectorStringish>("roles"@, x.roles),
            field_json::<Vec<PublicId>>("publicIds"@, x.public_ids),
            field_json::<Vec<Json>>("vcardArray"@, x.vcard_array),
            field_json::<Vec<ObjectRef>>("entities"@, x.entities),
        ]
    }

    /// No key stands twice among the keys that are known.
    pub proof fn lemma_keys()
        ensures
            distinct(Entity::keys()),
    {
        reveal_strlit("objectClassName");
        reveal_strlit("rdapConformance");
        reveal_strlit("notices");
        reveal_strlit("links");
        reveal_strlit("events");
        reveal_strlit("status");
        reveal_strlit("port43");
        reveal_strlit("lang");
        reveal_strlit("handle");
        reveal_strlit("roles");
        reveal_strlit("publicIds");
        reveal_strlit("vcardArray");
        reveal_strlit("entities");
        assert("objectClassName"@[0] == 'o');
        assert("rdapConformance"@[0] == 'r');
        assert("links"@[0] == 'l');
        assert("roles"@[0] == 'r');
        assert("events"@[0] == 'e');
        assert("status"@[0] == 's');
        assert("port43"@[0] == 'p');
        assert("handle"@[0] == 'h');
        assert("objectClassName"@.len() == 15);
        assert("rdapConformance"@.len() == 15);
        assert("notices"@.len() == 7);
        assert("links"@.len() == 5);
        assert("events"@.len() == 6);
        assert("status"@.len() == 6);
        assert("port43"@.len() == 6);
        assert("lang"@.len() == 4);
        assert("handle"@.len() == 6);
        assert("roles"@.len() == 5);
        assert("publicIds"@.len() == 9);
        assert("vcardArray"@.len() == 10);
        assert("entities"@.len() == 8);
    }
}

impl Codec for Entity {
    open spec fn readable(j: JsonValue) -> bool {
        j matches JsonValue::Object(m) && field_readable::<String>(m, "objectClassName"@)
            && field_readable::<Vec<String>>(m, "rdapConformance"@)
            && field_readable::<Vec<Notice>>(m, "notices"@)
            && field_readable::<Vec<Link>>(m, "links"@)
            && field_readable::<Vec<Event>>(m, "events"@)
            && field_readable::<VectorStringish>(m, "status"@)
            && field_readable::<String>(m, "port43"@)
            && field_readable::<String>(m, "lang"@)
            && field_readable::<String>(m, "handle"@)
            && field_readable::<VectorStringish>(m, "roles"@)
            && field_readable::<Vec<PublicId>>(m, "publicIds"@)
            && field_readable::<Vec<Json>>(m, "vcardArray"@)
            && field_readable::<Vec<ObjectRef>>(m, "entities"@)
    }

    open spec fn reads(j: JsonValue, x: Self) -> bool {
        j matches JsonValue::Object(m) && field_reads::<String>(m, "objectClassName"@, x.common.object_class_name)
            && field_reads::<Vec<String>>(m, "rdapConformance"@, x.common.rdap_conformance)
            && field_reads::<Vec<Notice>>(m, "notices"@, x.common.notices)
            && field_reads::<Vec<Link>>(m, "links"@, x.common.links)
            && field_reads::<Vec<Event>>(m, "events"@, x.common.events)
            && field_reads::<VectorStringish>(m, "status"@, x.common.status)
            && field_reads::<String>(m, "port43"@, x.common.port_43)
            && field_reads::<String>(m, "lang"@, x.common.lang)
            && field_reads::<String>(m, "handle"@, x.handle)
            && field_reads::<VectorStringish>(m, "roles"@, x.roles)
            && field_reads::<Vec<PublicId>>(m, "publicIds"@, x.public_ids)
            && field_reads::<Vec<Json>>(m, "vcardArray"@, x.vcard_array)
            && field_reads::<Vec<ObjectRef>>(m, "entities"@, x.entities)
            && members_of(x.common.unknown_keys@) == without_keys(m, Entity::keys())
    }

    open spec fn fault(j: JsonValue) -> Path {
        match j {
            JsonValue::Object(m) => {
                if !field_readable::<String>(m, "objectClassName"@) {
                    field_fault::<String>(m, "objectClassName"@)
                } else if !field_readable::<Vec<String>>(m, "rdapConformance"@) {
                    field_fault::<Vec<String>>(m, "rdapConformance"@)
                } else if !field_readable::<Vec<Notice>>(m, "notices"@) {
                    field_fault::<Vec<Notice>>(m, "notices"@)
                } else if !field_readable::<Vec<Link>>(m, "links"@) {
                    field_fault::<Vec<Link>>(m, "links"@)
                } else if !field_readable::<Vec<Event>>(m, "events"@) {
                    field_fault::<Vec<Event>>(m, "events"@)
                } else if !field_readable::<VectorStringish>(m, "status"@) {
                    field_fault::<VectorStringish>(m, "status"@)
                } else if !field_readable::<String>(m, "port43"@) {
                    field_fault::<String>(m, "port43"@)
                } else if !field_readable::<String>(m, "lang"@) {
                    field_fault::<String>(m, "lang"@)
                } else if !field_readable::<String>(m, "handle"@) {
                    field_fault::<String>(m, "handle"@)
                } else if !field_readable::<VectorStringish>(m, "roles"@) {
                    field_fault::<VectorStringish>(m, "roles"@)
                } else if !field_readable::<Vec<PublicId>>(m, "publicIds"@) {
                    field_fault::<Vec<PublicId>>(m, "publicIds"@)
                } else if !field_readable::<Vec<Json>>(m, "vcardArray"@) {
                    field_fault::<Vec<Json>>(m, "vcardArray"@)
                } else if !field_readable::<Vec<ObjectRef>>(m, "entities"@) {
                    field_fault::<Vec<ObjectRef>>(m, "entities"@)
                } else {
                    Seq::empty()
                }
            },
            _ => Seq::empty(),
        }
    }

    open spec fn json(x: Self) -> JsonValue {
        object_json(Entity::fields(x), members_of(x.common.unknown_keys@))
    }

    open spec fn plain(x: Self) -> bool {
        field_plain::<String>(x.common.object_class_name)
            && field_plain::<Vec<String>>(x.common.rdap_conformance)
            && field_plain::<Vec<Notice>>(x.common.notices)
            && field_plain::<Vec<Link>>(x.common.links)
            && field_plain::<Vec<Event>>(x.common.events)
            && field_plain::<VectorStringish>(x.common.status)
            && field_plain::<String>(x.common.port_43)
            && field_plain::<String>(x.common.lang)
            && field_plain::<String>(x.handle)
            && field_plain::<VectorStringish>(x.roles)
            && field_plain::<Vec<PublicId>>(x.public_ids)
            && field_plain::<Vec<Json>>(x.vcard_array)
            && field_plain::<Vec<ObjectRef>>(x.entities)
    }

    fn decode(j: &Json) -> (r: Result<Self, Vec<String>>) {
        let m = match j {
            Json::Object(m) => m,
            _ => {
                return Err(crate::codec::here());
            },
        };
        proof {
            lemma_object_view(*j);
        }
        let f0 = read_field::<String>(m, "objectClassName")?;
        let f1 = read_field::<Vec<String>>(m, "rdapConformance")?;
        let f2 = read_field::<Vec<Notice>>(m, "notices")?;
        let f3 = read_field::<Vec<Link>>(m, "links")?;
        let f4 = read_field::<Vec<Event>>(m, "events")?;
        let f5 = read_field::<VectorStringish>(m, "status")?;
        let f6 = read_field::<String>(m, "port43")?;
        let f7 = read_field::<String>(m, "lang")?;
        let f8 = read_field::<String>(m, "handle")?;
        let f9 = read_field::<VectorStringish>(m, "roles")?;
        let f10 = read_field::<Vec<PublicId>>(m, "publicIds")?;
        let f11 = read_field::<Vec<Json>>(m, "vcardArray")?;
        let f12 = read_field::<Vec<ObjectRef>>(m, "entities")?;
        let keys: Vec<&str> = vec!["objectClassName", "rdapConformance", "notices", "links", "events", "status", "port43", "lang", "handle", "roles", "publicIds", "vcardArray", "entities"];
        assert(names(keys@) =~= Entity::keys());
        let kept = keep_unknown(m, keys.as_slice());
        let common = Common {
            object_class_name: f0,
            rdap_conformance: f1,
            notices: f2,
            links: f3,
            events: f4,
            status: f5,
            port_43: f6,
            lang: f7,
            unknown_keys: kept,
        };
        Ok(Entity {
            common,
            handle: f8,
            roles: f9,
            public_ids: f10,
            vcard_array: f11,
            entities: f12,
        })
    }

    fn encode(&self) -> (j: Json) {
        let mut out: Vec<(String, Json)> = Vec::new();
        let ghost mut fields: Seq<Field> = Seq::empty();
        assert(members_of(out@) =~= written(fields));
        write_field::<String>(&mut out, "objectClassName", &self.common.object_class_name);
        proof {
            lemma_written_push(fields, field_json::<String>("objectClassName"@, self.common.object_class_name));
            fields = fields.push(field_json::<String>("objectClassName"@, self.common.object_class_name));
        }
        write_field::<Vec<String>>(&mut out, "rdapConformance", &self.common.rdap_conformance);
        proof {
            lemma_written_push(fields, field_json::<Vec<String>>("rdapConformance"@, self.common.rdap_conformance));
            fields = fields.push(field_json::<Vec<String>>("rdapConformance"@, self.common.rdap_conformance));
        }
        write_field::<Vec<Notice>>(&mut out, "notices", &self.common.notices);
        proof {
            lemma_written_push(fields, field_json::<Vec<Notice>>("notices"@, self.common.notices));
            fields = fields.push(field_json::<Vec<Notice>>("notices"@, self.common.notices));
        }
        write_field::<Vec<Link>>(&mut out, "links", &self.common.links);
        proof {
            lemma_written_push(fields, field_json::<Vec<Link>>("links"@, self.common.links));
            fields = fields.push(field_json::<Vec<Link>>("links"@, self.common.links));
        }
        write_field::<Vec<Event>>(&mut out, "events", &self.common.events);
        proof {
            lemma_written_push(fields, field_json::<Vec<Event>>("events"@, self.common.events));
            fields = fields.push(field_json::<Vec<Event>>("events"@, self.common.events));
        }
        write_field::<VectorStringish>(&mut out, "status", &self.common.status);
        proof {
            lemma_written_push(fields, field_json::<VectorStringish>("status"@, self.common.status));
            fields = fields.push(field_json::<VectorStringish>("status"@, self.common.status));
        }
        write_field::<String>(&mut out, "port43", &self.common.port_43);
        proof {
            lemma_written_push(fields, field_json::<String>("port43"@, self.common.port_43));
            fields = fields.push(field_json::<String>("port43"@, self.common.port_43));
        }
        write_field::<String>(&mut out, "lang", &self.common.lang);
        proof {
            lemma_written_push(fields, field_json::<String>("lang"@, self.common.lang));
            fields = fields.push(field_json::<String>("lang"@, self.common.lang));
        }
        write_field::<String>(&mut out, "handle", &self.handle);
        proof {
            lemma_written_push(fields, field_json::<String>("handle"@, self.handle));
            fields = fields.push(field_json::<String>("handle"@, self.handle));
        }
        write_field::<VectorStringish>(&mut out, "roles", &self.roles);
        proof {
            lemma_written_push(fields, field_json::<VectorStringish>("roles"@, self.roles));
            fields = fields.push(field_json::<VectorStringish>("roles"@, self.roles));
        }
        write_field::<Vec<PublicId>>(&mut out, "publicIds", &self.public_ids);
        proof {
            lemma_written_push(fields, field_json::<Vec<PublicId>>("publicIds"@, self.public_ids));
            fields = fields.push(field_json::<Vec<PublicId>>("publicIds"@, self.public_ids));
        }
        write_field::<Vec<Json>>(&mut out, "vcardArray", &self.vcard_array);
        proof {
            lemma_written_push(fields, field_json::<Vec<Json>>("vcardArray"@, self.vcard_array));
            fields = fields.push(field_json::<Vec<Json>>("vcardArray"@, self.vcard_array));
        }
        write_field::<Vec<ObjectRef>>(&mut out, "entities", &self.entities);
        proof {
            lemma_written_push(fields, field_json::<Vec<ObjectRef>>("entities"@, self.entities));
            fields = fields.push(field_json::<Vec<ObjectRef>>("entities"@, self.entities));
        }
        assert(fields =~= Entity::fields(*self));
        write_kept(&mut out, &self.common.unknown_keys);
        let j = Json::Object(out);
        proof {
            lemma_object_view(j);
        }
        j
    }

    #[verifier::rlimit(60)]
    proof fn round_trip(j: JsonValue, x: Self) {
        let m = j->Object_0;
        let fields = Entity::fields(x);
        lemma_field_round_trip::<String>(m, "objectClassName"@, x.common.object_class_name);
        lemma_field_round_trip::<Vec<String>>(m, "rdapConformance"@, x.common.rdap_conformance);
        lemma_field_round_trip::<Vec<Notice>>(m, "notices"@, x.common.notices);
        lemma_field_round_trip::<Vec<Link>>(m, "links"@, x.common.links);
        lemma_field_round_trip::<Vec<Event>>(m, "events"@, x.common.events);
        lemma_field_round_trip::<VectorStringish>(m, "status"@, x.common.status);
        lemma_field_round_trip::<String>(m, "port43"@, x.common.port_43);
        lemma_field_round_trip::<String>(m, "lang"@, x.common.lang);
        lemma_field_round_trip::<String>(m, "handle"@, x.handle);
        lemma_field_round_trip::<VectorStringish>(m, "roles"@, x.roles);
        lemma_field_round_trip::<Vec<PublicId>>(m, "publicIds"@, x.public_ids);
        lemma_field_round_trip::<Vec<Json>>(m, "vcardArray"@, x.vcard_array);
        lemma_field_round_trip::<Vec<ObjectRef>>(m, "entities"@, x.entities);
        Entity::lemma_keys();
        assert(keys_of(fields) =~= Entity::keys());
        assert(fields[0] == field_json::<String>("objectClassName"@, x.common.object_class_name));
        assert(fields[1] == field_json::<Vec<String>>("rdapConformance"@, x.common.rdap_conformance));
        assert(fields[2] == field_json::<Vec<Notice>>("notices"@, x.common.notices));
        assert(fields[3] == field_json::<Vec<Link>>("links"@, x.common.links));
        assert(fields[4] == field_json::<Vec<Event>>("events"@, x.common.events));
        assert(fields[5] == field_json::<VectorStringish>("status"@, x.common.status));
        assert(fields[6] == field_json::<String>("port43"@, x.common.port_43));
        assert(fields[7] == field_json::<String>("lang"@, x.common.lang));
        assert(fields[8] == field_json::<String>("handle"@, x.handle));
        assert(fields[9] == field_json::<VectorStringish>("roles"@, x.roles));
        assert(fields[10] == field_json::<Vec<PublicId>>("publicIds"@, x.public_ids));
        assert(fields[11] == field_json::<Vec<Json>>("vcardArray"@, x.vcard_array));
        assert(fields[12] == field_json::<Vec<ObjectRef>>("entities"@, x.entities));
        assert forall|i: int| 0 <= i < fields.len() implies field_matches(#[trigger] fields[i], m) by {
            if i == 0 {
                assert(field_matches(fields[0], m));
            } else if i == 1 {
                assert(field_matches(fields[1], m));
            } else if i == 2 {
                assert(field_matches(fields[2], m));
            } else if i == 3 {
                assert(field_matches(fields[3], m));
            } else if i == 4 {
                assert(field_matches(fields[4], m));
            } else if i == 5 {
                assert(field_matches(fields[5], m));
            } else if i == 6 {
                assert(field_matches(fields[6], m));
            } else if i == 7 {
                assert(field_matches(fields[7], m));
            } else if i == 8 {
                assert(field_matches(fields[8], m));
            } else if i == 9 {
                assert(field_matches(fields[9], m));
            } else if i == 10 {
                assert(field_matches(fields[10], m));
            } else if i == 11 {
                assert(field_matches(fields[11], m));
            } else if i == 12 {
                assert(field_matches(fields[12], m));
            }
        }
        lemma_object_round_trip(m, fields);
    }

    open spec fn rereads(x: Self) -> bool {
        field_rereads::<String>(x.common.object_class_name)
            && field_rereads::<Vec<String>>(x.common.rdap_conformance)
            && field_rereads::<Vec<Notice>>(x.common.notices)
            && field_rereads::<Vec<Link>>(x.common.links)
            && field_rereads::<Vec<Event>>(x.common.events)
            && field_rereads::<VectorStringish>(x.common.status)
            && field_rereads::<String>(x.common.port_43)
            && field_rereads::<String>(x.common.lang)
            && field_rereads::<String>(x.handle)
            && field_rereads::<VectorStringish>(x.roles)
            && field_rereads::<Vec<PublicId>>(x.public_ids)
            && field_rereads::<Vec<Json>>(x.vcard_array)
            && field_rereads::<Vec<ObjectRef>>(x.entities)
            && no_known(members_of(x.common.unknown_keys@), Entity::keys())
    }

    open spec fn settled(x: Self, y: Self) -> bool {
        field_settled::<String>(x.common.object_class_name, y.common.object_class_name)
            && field_settled::<Vec<String>>(x.common.rdap_conformance, y.common.rdap_conformance)
            && field_settled::<Vec<Notice>>(x.common.notices, y.common.notices)
            && field_settled::<Vec<Link>>(x.common.links, y.common.links)
            && field_settled::<Vec<Event>>(x.common.events, y.common.events)
            && field_settled::<VectorStringish>(x.common.status, y.common.status)
            && field_settled::<String>(x.common.port_43, y.common.port_43)
            && field_settled::<String>(x.common.lang, y.common.lang)
            && field_settled::<String>(x.handle, y.handle)
            && field_settled::<VectorStringish>(x.roles, y.roles)
            && field_settled::<Vec<PublicId>>(x.public_ids, y.public_ids)
            && field_settled::<Vec<Json>>(x.vcard_array, y.vcard_array)
            && field_settled::<Vec<ObjectRef>>(x.entities, y.entities)
            && members_of(y.common.unknown_keys@) == members_of(x.common.unknown_keys@)
    }

    #[verifier::rlimit(60)]
    proof fn read_again(x: Self, y: Self) {
        let fields = Entity::fields(x);
        let kept = members_of(x.common.unknown_keys@);
        let m = written(fields) + kept;
        Entity::lemma_keys();
        assert(keys_of(fields) =~= Entity::keys());
        lemma_object_read_again(fields, kept);
        assert(fields[0] == field_json::<String>("objectClassName"@, x.common.object_class_name));
        assert(member_of(m, "objectClassName"@) == fields[0].1);
        lemma_field_read_again::<String>(m, "objectClassName"@, x.common.object_class_name, y.common.object_class_name);
        assert(fields[1] == field_json::<Vec<String>>("rdapConformance"@, x.common.rdap_conformance));
        assert(member_of(m, "rdapConformance"@) == fields[1].1);
        lemma_field_read_again::<Vec<String>>(m, "rdapConformance"@, x.common.rdap_conformance, y.common.rdap_conformance);
        assert(fields[2] == field_json::<Vec<Notice>>("notices"@, x.common.notices));
        assert(member_of(m, "notices"@) == fields[2].1);
        lemma_field_read_again::<Vec<Notice>>(m, "notices"@, x.common.notices, y.common.notices);
        assert(fields[3] == field_json::<Vec<Link>>("links"@, x.common.links));
        assert(member_of(m, "links"@) == fields[3].1);
        lemma_field_read_again::<Vec<Link>>(m, "links"@, x.common.links, y.common.links);
        assert(fields[4] == field_json::<Vec<Event>>("events"@, x.common.events));
        assert(member_of(m, "events"@) == fields[4].1);
        lemma_field_read_again::<Vec<Event>>(m, "events"@, x.common.events, y.common.events);
        assert(fields[5] == field_json::<VectorStringish>("status"@, x.common.status));
        assert(member_of(m, "status"@) == fields[5].1);
        lemma_field_read_again::<VectorStringish>(m, "status"@, x.common.status, y.common.status);
        assert(fields[6] == field_json::<String>("port43"@, x.common.port_43));
        assert(member_of(m, "port43"@) == fields[6].1);
        lemma_field_read_again::<String>(m, "port43"@, x.common.port_43, y.common.port_43);
        assert(fields[7] == field_json::<String>("lang"@, x.common.lang));
        assert(member_of(m, "lang"@) == fields[7].1);
        lemma_field_read_again::<String>(m, "lang"@, x.common.lang, y.common.lang);
        assert(fields[8] == field_json::<String>("handle"@, x.handle));
        assert(member_of(m, "handle"@) == fields[8].1);
        lemma_field_read_again::<String>(m, "handle"@, x.handle, y.handle);
        assert(fields[9] == field_json::<VectorStringish>("roles"@, x.roles));
        assert(member_of(m, "roles"@) == fields[9].1);
        lemma_field_read_again::<VectorStringish>(m, "roles"@, x.roles, y.roles);
        assert(fields[10] == field_json::<Vec<PublicId>>("publicIds"@, x.public_ids));
        assert(member_of(m, "publicIds"@) == fields[10].1);
        lemma_field_read_again::<Vec<PublicId>>(m, "publicIds"@, x.public_ids, y.public_ids);
        assert(fields[11] == field_json::<Vec<Json>>("vcardArray"@, x.vcard_array));
        assert(member_of(m, "vcardArray"@) == fields[11].1);
        lemma_field_read_again::<Vec<Json>>(m, "vcardArray"@, x.vcard_array, y.vcard_array);
        assert(fields[12] == field_json::<Vec<ObjectRef>>("entities"@, x.entities));
        assert(member_of(m, "entities"@) == fields[12].1);
        lemma_field_read_again::<Vec<ObjectRef>>(m, "entities"@, x.entities, y.entities);
    }

    #[verifier::rlimit(60)]
    proof fn rereadable(x: Self) {
        let fields = Entity::fields(x);
        let kept = members_of(x.common.unknown_keys@);
        let m = written(fields) + kept;
        Entity::lemma_keys();
        assert(keys_of(fields) =~= Entity::keys());
        lemma_object_read_again(fields, kept);
        assert(fields[0] == field_json::<String>("objectClassName"@, x.common.object_class_name));
        assert(member_of(m, "objectClassName"@) == fields[0].1);
        lemma_field_rereadable::<String>(m, "objectClassName"@, x.common.object_class_name);
        assert(fields[1] == field_json::<Vec<String>>("rdapConformance"@, x.common.rdap_conformance));
        assert(member_of(m, "rdapConformance"@) == fields[1].1);
        lemma_field_rereadable::<Vec<String>>(m, "rdapConformance"@, x.common.rdap_conformance);
        assert(fields[2] == field_json::<Vec<Notice>>("notices"@, x.common.notices));
        assert(member_of(m, "notices"@) == fields[2].1);
        lemma_field_rereadable::<Vec<Notice>>(m, "notices"@, x.common.notices);
        assert(fields[3] == field_json::<Vec<Link>>("links"@, x.common.links));
        assert(member_of(m, "links"@) == fields[3].1);
        lemma_field_rereadable::<Vec<Link>>(m, "links"@, x.common.links);
        assert(fields[4] == field_json::<Vec<Event>>("events"@, x.common.events));
        assert(member_of(m, "events"@) == fields[4].1);
        lemma_field_rereadable::<Vec<Event>>(m, "events"@, x.common.events);
        assert(fields[5] == field_json::<VectorStringish>("status"@, x.common.status));
        assert(member_of(m, "status"@) == fields[5].1);
        lemma_field_rereadable::<VectorStringish>(m, "status"@, x.common.status);
        assert(fields[6] == field_json::<String>("port43"@, x.common.port_43));
        assert(member_of(m, "port43"@) == fields[6].1);
        lemma_field_rereadable::<String>(m, "port43"@, x.common.port_43);
        assert(fields[7] == field_json::<String>("lang"@, x.common.lang));
        assert(member_of(m, "lang"@) == fields[7].1);
        lemma_field_rereadable::<String>(m, "lang"@, x.common.lang);
        assert(fields[8] == field_json::<String>("handle"@, x.handle));
        assert(member_of(m, "handle"@) == fields[8].1);
        lemma_field_rereadable::<String>(m, "handle"@, x.handle);
        assert(fields[9] == field_json::<VectorStringish>("roles"@, x.roles));
        assert(member_of(m, "roles"@) == fields[9].1);
        lemma_field_rereadable::<VectorStringish>(m, "roles"@, x.roles);
        assert(fields[10] == field_json::<Vec<PublicId>>("publicIds"@, x.public_ids));
        assert(member_of(m, "publicIds"@) == fields[10].1);
        lemma_field_rereadable::<Vec<PublicId>>(m, "publicIds"@, x.public_ids);
        assert(fields[11] == field_json::<Vec<Json>>("vcardArray"@, x.vcard_array));
        assert(member_of(m, "vcardArray"@) == fields[11].1);
        lemma_field_rereadable::<Vec<Json>>(m, "vcardArray"@, x.vcard_array);
        assert(fields[12] == field_json::<Vec<ObjectRef>>("entities"@, x.entities));
        assert(member_of(m, "entities"@) == fields[12].1);
        lemma_field_rereadable::<Vec<ObjectRef>>(m, "entities"@, x.entities);
    }
}

impl Nameserver {
    /// The keys of the members that are known.
    pub open spec fn keys() -> Seq<Seq<char>> {
        seq!["objectClassName"@, "rdapConformance"@, "notices"@, "links"@, "events"@, "status"@, "port43"@, "lang"@, "ldhName"@, "unicodeName"@, "ipAddresses"@, "entities"@]
    }

    /// What is written for the members that are known.
    pub open spec fn fields(x: Nameserver) -> Seq<Field> {
        seq![
            field_json::<String>("objectClassName"@, x.common.object_class_name),
            field_json::<Vec<String>>("rdapConformance"@, x.common.rdap_conformance),
            field_json::<Vec<Notice>>("notices"@, x.common.notices),
            field_json::<Vec<Link>>("links"@, x.common.links),
            field_json::<Vec<Event>>("events"@, x.common.events),
            field_json::<VectorStringish>("status"@, x.common.status),
            field_json::<String>("port43"@, x.common.port_43),
            field_json::<String>("lang"@, x.common.lang),
            field_json::<String>("ldhName"@, x.ldh_name),
            field_json::<String>("unicodeName"@, x.unicode_name),
            field_json::<IpAddresses>("ipAddresses"@, x.ip_addresses),
            field_json::<Vec<ObjectRef>>("entities"@, x.entities),
        ]
    }

    /// No key stands twice among the keys that are known.
    pub proof fn lemma_keys()
        ensures
            distinct(Nameserver::keys()),
    {
        reveal_strlit("objectClassName");
        reveal_strlit("rdapConformance");
        reveal_strlit("notices");
        reveal_strlit("links");
        reveal_strlit("events");
        reveal_strlit("status");
        reveal_strlit("port43");
        reveal_strlit("lang");
        reveal_strlit("ldhName");
        reveal_strlit("unicodeName");
        reveal_strlit("ipAddresses");
        reveal_strlit("entities");
        assert("objectClassName"@[0] == 'o');
        assert("rdapConformance"@[0] == 'r');
        assert("notices"@[0] == 'n');
        assert("ldhName"@[0] == 'l');
        assert("events"@[0] == 'e');
        assert("status"@[0] == 's');
        assert("port43"@[0] == 'p');
        assert("unicodeName"@[0] == 'u');
        assert("ipAddresses"@[0] == 'i');
        assert("objectClassName"@.len() == 15);
        assert("rdapConformance"@.len() == 15);
        assert("notices"@.len() == 7);
        assert("links"@.len() == 5);
        assert("events"@.len() == 6);
        assert("status"@.len() == 6);
        assert("port43"@.len() == 6);
        assert("lang"@.len() == 4);
        assert("ldhName"@.len() == 7);
        assert("unicodeName"@.len() == 11);
        assert("ipAddresses"@.len() == 11);
        assert("entities"@.len() == 8);
    }
}

impl Codec for Nameserver {
    open spec fn readable(j: JsonValue) -> bool {
        j matches JsonValue::Object(m) && field_readable::<String>(m, "objectClassName"@)
            && field_readable::<Vec<String>>(m, "rdapConformance"@)
            && field_readable::<Vec<Notice>>(m, "notices"@)
            && field_readable::<Vec<Link>>(m, "links"@)
            && field_readable::<Vec<Event>>(m, "events"@)
            && field_readable::<VectorStringish>(m, "status"@)
            && field_readable::<String>(m, "port43"@)
            && field_readable::<String>(m, "lang"@)
            && field_readable::<String>(m, "ldhName"@)
            && field_readable::<String>(m, "unicodeName"@)
            && field_readable::<IpAddresses>(m, "ipAddresses"@)
            && field_readable::<Vec<ObjectRef>>(m, "entities"@)
    }

    open spec fn reads(j: JsonValue, x: Self) -> bool {
        j matches JsonValue::Object(m) && field_reads::<String>(m, "objectClassName"@, x.common.object_class_name)
            && field_reads::<Vec<String>>(m, "rdapConformance"@, x.common.rdap_conformance)
            && field_reads::<Vec<Notice>>(m, "notices"@, x.common.notices)
            && field_reads::<Vec<Link>>(m, "links"@, x.common.links)
            && field_reads::<Vec<Event>>(m, "events"@, x.common.events)
            && field_reads::<VectorStringish>(m, "status"@, x.common.status)
            && field_reads::<String>(m, "port43"@, x.common.port_43)
            && field_reads::<String>(m, "lang"@, x.common.lang)
            && field_reads::<String>(m, "ldhName"@, x.ldh_name)
            && field_reads::<String>(m, "unicodeName"@, x.unicode_name)
            && field_reads::<IpAddresses>(m, "ipAddresses"@, x.ip_addresses)
            && field_reads::<Vec<ObjectRef>>(m, "entities"@, x.entities)
            && members_of(x.common.unknown_keys@) == without_keys(m, Nameserver::keys())
    }

    open spec fn fault(j: JsonValue) -> Path {
        match j {
            JsonValue::Object(m) => {
                if !field_readable::<String>(m, "objectClassName"@) {
                    field_fault::<String>(m, "objectClassName"@)
                } else if !field_readable::<Vec<String>>(m, "rdapConformance"@) {
                    field_fault::<Vec<String>>(m, "rdapConformance"@)
                } else if !field_readable::<Vec<Notice>>(m, "notices"@) {
                    field_fault::<Vec<Notice>>(m, "notices"@)
                } else if !field_readable::<Vec<Link>>(m, "links"@) {
                    field_fault::<Vec<Link>>(m, "links"@)
                } else if !field_readable::<Vec<Event>>(m, "events"@) {
                    field_fault::<Vec<Event>>(m, "events"@)
                } else if !field_readable::<VectorStringish>(m, "status"@) {
                    field_fault::<VectorStringish>(m, "status"@)
                } else if !field_readable::<String>(m, "port43"@) {
                    field_fault::<String>(m, "port43"@)
                } else if !field_readable::<String>(m, "lang"@) {
                    field_fault::<String>(m, "lang"@)
                } else if !field_readable::<String>(m, "ldhName"@) {
                    field_fault::<String>(m, "ldhName"@)
                } else if !field_readable::<String>(m, "unicodeName"@) {
                    field_fault::<String>(m, "unicodeName"@)
                } else if !field_readable::<IpAddresses>(m, "ipAddresses"@) {
                    field_fault::<IpAddresses>(m, "ipAddresses"@)
                } else if !field_readable::<Vec<ObjectRef>>(m, "entities"@) {
                    field_fault::<Vec<ObjectRef>>(m, "entities"@)
                } else {
                    Seq::empty()
                }
            },
            _ => Seq::empty(),
        }
    }

    open spec fn json(x: Self) -> JsonValue {
        object_json(Nameserver::fields(x), members_of(x.common.unknown_keys@))
    }

    open spec fn plain(x: Self) -> bool {
        field_plain::<String>(x.common.object_class_name)
            && field_plain::<Vec<String>>(x.common.rdap_conformance)
            && field_plain::<Vec<Notice>>(x.common.notices)
            && field_plain::<Vec<Link>>(x.common.links)
            && field_plain::<Vec<Event>>(x.common.events)
            && field_plain::<VectorStringish>(x.common.status)
            && field_plain::<String>(x.common.port_43)
            && field_plain::<String>(x.common.lang)
            && field_plain::<String>(x.ldh_name)
            && field_plain::<String>(x.unicode_name)
            && field_plain::<IpAddresses>(x.ip_addresses)
            && field_plain::<Vec<ObjectRef>>(x.entities)
    }

    fn decode(j: &Json) -> (r: Result<Self, Vec<String>>) {
        let m = match j {
            Json::Object(m) => m,
            _ => {
                return Err(crate::codec::here());
            },
        };
        proof {
            lemma_object_view(*j);
        }
        let f0 = read_field::<String>(m, "objectClassName")?;
        let f1 = read_field::<Vec<String>>(m, "rdapConformance")?;
        let f2 = read_field::<Vec<Notice>>(m, "notices")?;
        let f3 = read_field::<Vec<Link>>(m, "links")?;
        let f4 = read_field::<Vec<Event>>(m, "events")?;
        let f5 = read_field::<VectorStringish>(m, "status")?;
        let f6 = read_field::<String>(m, "port43")?;
        let f7 = read_field::<String>(m, "lang")?;
        let f8 = read_field::<String>(m, "ldhName")?;
        let f9 = read_field::<String>(m, "unicodeName")?;
        let f10 = read_field::<IpAddresses>(m, "ipAddresses")?;
        let f11 = read_field::<Vec<ObjectRef>>(m, "entities")?;
        let keys: Vec<&str> = vec!["objectClassName", "rdapConformance", "notices", "links", "events", "status", "port43", "lang", "ldhName", "unicodeName", "ipAddresses", "entities"];
        assert(names(keys@) =~= Nameserver::keys());
        let kept = keep_unknown(m, keys.as_slice());
        let common = Common {
            object_class_name: f0,
            rdap_conformance: f1,
            notices: f2,
            links: f3,
            events: f4,
            status: f5,
            port_43: f6,
            lang: f7,
            unknown_keys: kept,
        };
        Ok(Nameserver {
            common,
            ldh_name: f8,
            unicode_name: f9,
            ip_addresses: f10,
            entities: f11,
        })
    }

    fn encode(&self) -> (j: Json) {
        let mut out: Vec<(String, Json)> = Vec::new();
        let ghost mut fields: Seq<Field> = Seq::empty();
        assert(members_of(out@) =~= written(fields));
        write_field::<String>(&mut out, "objectClassName", &self.common.object_class_name);
        proof {
            lemma_written_push(fields, field_json::<String>("objectClassName"@, self.common.object_class_name));
            fields = fields.push(field_json::<String>("objectClassName"@, self.common.object_class_name));
        }
        write_field::<Vec<String>>(&mut out, "rdapConformance", &self.common.rdap_conformance);
        proof {
            lemma_written_push(fields, field_json::<Vec<String>>("rdapConformance"@, self.common.rdap_conformance));
            fields = fields.push(field_json::<Vec<String>>("rdapConformance"@, self.common.rdap_conformance));
        }
        write_field::<Vec<Notice>>(&mut out, "notices", &self.common.notices);
        proof {
            lemma_written_push(fields, field_json::<Vec<Notice>>("notices"@, self.common.notices));
            fields = fields.push(field_json::<Vec<Notice>>("notices"@, self.common.notices));
        }
        write_field::<Vec<Link>>(&mut out, "links", &self.common.links);
        proof {
            lemma_written_push(fields, field_json::<Vec<Link>>("links"@, self.common.links));
            fields = fields.push(field_json::<Vec<Link>>("links"@, self.common.links));
        }
        write_field::<Vec<Event>>(&mut out, "events", &self.common.events);
        proof {
            lemma_written_push(fields, field_json::<Vec<Event>>("events"@, self.common.events));
            fields = fields.push(field_json::<Vec<Event>>("events"@, self.common.events));
        }
        write_field::<VectorStringish>(&mut out, "status", &self.common.status);
        proof {
            lemma_written_push(fields, field_json::<VectorStringish>("status"@, self.common.status));
            fields = fields.push(field_json::<VectorStringish>("status"@, self.common.status));
        }
        write_field::<String>(&mut out, "port43", &self.common.port_43);
        proof {
            lemma_written_push(fields, field_json::<String>("port43"@, self.common.port_43));
            fields = fields.push(field_json::<String>("port43"@, self.common.port_43));
        }
        write_field::<String>(&mut out, "lang", &self.common.lang);
        proof {
            lemma_written_push(fields, field_json::<String>("lang"@, self.common.lang));
            fields = fields.push(field_json::<String>("lang"@, self.common.lang));
        }
        write_field::<String>(&mut out, "ldhName", &self.ldh_name);
        proof {
            lemma_written_push(fields, field_json::<String>("ldhName"@, self.ldh_name));
            fields = fields.push(field_json::<String>("ldhName"@, self.ldh_name));
        }
        write_field::<String>(&mut out, "unicodeName", &self.unicode_name);
        proof {
            lemma_written_push(fields, field_json::<String>("unicodeName"@, self.unicode_name));
            fields = fields.push(field_json::<String>("unicodeName"@, self.unicode_name));
        }
        write_field::<IpAddresses>(&mut out, "ipAddresses", &self.ip_addresses);
        proof {
            lemma_written_push(fields, field_json::<IpAddresses>("ipAddresses"@, self.ip_addresses));
            fields = fields.push(field_json::<IpAddresses>("ipAddresses"@, self.ip_addresses));
        }
        write_field::<Vec<ObjectRef>>(&mut out, "entities", &self.entities);
        proof {
            lemma_written_push(fields, field_json::<Vec<ObjectRef>>("entities"@, self.entities));
            fields = fields.push(field_json::<Vec<ObjectRef>>("entities"@, self.entities));
        }
        assert(fields =~= Nameserver::fields(*self));
        write_kept(&mut out, &self.common.unknown_keys);
        let j = Json::Object(out);
        proof {
            lemma_object_view(j);
        }
        j
    }

    #[verifier::rlimit(60)]
    proof fn round_trip(j: JsonValue, x: Self) {
        let m = j->Object_0;
        let fields = Nameserver::fields(x);
        lemma_field_round_trip::<String>(m, "objectClassName"@, x.common.object_class_name);
        lemma_field_round_trip::<Vec<String>>(m, "rdapConformance"@, x.common.rdap_conformance);
        lemma_field_round_trip::<Vec<Notice>>(m, "notices"@, x.common.notices);
        lemma_field_round_trip::<Vec<Link>>(m, "links"@, x.common.links);
        lemma_field_round_trip::<Vec<Event>>(m, "events"@, x.common.events);
        lemma_field_round_trip::<VectorStringish>(m, "status"@, x.common.status);
        lemma_field_round_trip::<String>(m, "port43"@, x.common.port_43);
        lemma_field_round_trip::<String>(m, "lang"@, x.common.lang);
        lemma_field_round_trip::<String>(m, "ldhName"@, x.ldh_name);
        lemma_field_round_trip::<String>(m, "unicodeName"@, x.unicode_name);
        lemma_field_round_trip::<IpAddresses>(m, "ipAddresses"@, x.ip_addresses);
        lemma_field_round_trip::<Vec<ObjectRef>>(m, "entities"@, x.entities);
        Nameserver::lemma_keys();
        assert(keys_of(fields) =~= Nameserver::keys());
        assert(fields[0] == field_json::<String>("objectClassName"@, x.common.object_class_name));
        assert(fields[1] == field_json::<Vec<String>>("rdapConformance"@, x.common.rdap_conformance));
        assert(fields[2] == field_json::<Vec<Notice>>("notices"@, x.common.notices));
        assert(fields[3] == field_json::<Vec<Link>>("links"@, x.common.links));
        assert(fields[4] == field_json::<Vec<Event>>("events"@, x.common.events));
        assert(fields[5] == field_json::<VectorStringish>("status"@, x.common.status));
        assert(fields[6] == field_json::<String>("port43"@, x.common.port_43));
        assert(fields[7] == field_json::<String>("lang"@, x.common.lang));
        assert(fields[8] == field_json::<String>("ldhName"@, x.ldh_name));
        assert(fields[9] == field_json::<String>("unicodeName"@, x.unicode_name));
        assert(fields[10] == field_json::<IpAddresses>("ipAddresses"@, x.ip_addresses));
        assert(fields[11] == field_json::<Vec<ObjectRef>>("entities"@, x.entities));
        assert forall|i: int| 0 <= i < fields.len() implies field_matches(#[trigger] fields[i], m) by {
            if i == 0 {
                assert(field_matches(fields[0], m));
            } else if i == 1 {
                assert(field_matches(fields[1], m));
            } else if i == 2 {
                assert(field_matches(fields[2], m));
            } else if i == 3 {
                assert(field_matches(fields[3], m));
            } else if i == 4 {
                assert(field_matches(fields[4], m));
            } else if i == 5 {
                assert(field_matches(fields[5], m));
            } else if i == 6 {
                assert(field_matches(fields[6], m));
            } else if i == 7 {
                assert(field_matches(fields[7], m));
            } else if i == 8 {
                assert(field_matches(fields[8], m));
            } else if i == 9 {
                assert(field_matches(fields[9], m));
            } else if i == 10 {
                assert(field_matches(fields[10], m));
            } else if i == 11 {
                assert(field_matches(fields[11], m));
            }
        }
        lemma_object_round_trip(m, fields);
    }

    open spec fn rereads(x: Self) -> bool {
        field_rereads::<String>(x.common.object_class_name)
            && field_rereads::<Vec<String>>(x.common.rdap_conformance)
            && field_rereads::<Vec<Notice>>(x.common.notices)
            && field_rereads::<Vec<Link>>(x.common.links)
            && field_rereads::<Vec<Event>>(x.common.events)
            && field_rereads::<VectorStringish>(x.common.status)
            && field_rereads::<String>(x.common.port_43)
            && field_rereads::<String>(x.common.lang)
            && field_rereads::<String>(x.ldh_name)
            && field_rereads::<String>(x.unicode_name)
            && field_rereads::<IpAddresses>(x.ip_addresses)
            && field_rereads::<Vec<ObjectRef>>(x.entities)
            && no_known(members_of(x.common.unknown_keys@), Nameserver::keys())
    }

    open spec fn settled(x: Self, y: Self) -> bool {
        field_settled::<String>(x.common.object_class_name, y.common.object_class_name)
            && field_settled::<Vec<String>>(x.common.rdap_conformance, y.common.rdap_conformance)
            && field_settled::<Vec<Notice>>(x.common.notices, y.common.notices)
            && field_settled::<Vec<Link>>(x.common.links, y.common.links)
            && field_settled::<Vec<Event>>(x.common.events, y.common.events)
            && field_settled::<VectorStringish>(x.common.status, y.common.status)
            && field_settled::<String>(x.common.port_43, y.common.port_43)
            && field_settled::<String>(x.common.lang, y.common.lang)
            && field_settled::<String>(x.ldh_name, y.ldh_name)
            && field_settled::<String>(x.unicode_name, y.unicode_name)
            && field_settled::<IpAddresses>(x.ip_addresses, y.ip_addresses)
            && field_settled::<Vec<ObjectRef>>(x.entities, y.entities)
            && members_of(y.common.unknown_keys@) == members_of(x.common.unknown_keys@)
    }

    #[verifier::rlimit(60)]
    proof fn read_again(x: Self, y: Self) {
        let fields = Nameserver::fields(x);
        let kept = members_of(x.common.unknown_keys@);
        let m = written(fields) + kept;
        Nameserver::lemma_keys();
        assert(keys_of(fields) =~= Nameserver::keys());
        lemma_object_read_again(fields, kept);
        assert(fields[0] == field_json::<String>("objectClassName"@, x.common.object_class_name));
        assert(member_of(m, "objectClassName"@) == fields[0].1);
        lemma_field_read_again::<String>(m, "objectClassName"@, x.common.object_class_name, y.common.object_class_name);
        assert(fields[1] == field_json::<Vec<String>>("rdapConformance"@, x.common.rdap_conformance));
        assert(member_of(m, "rdapConformance"@) == fields[1].1);
        lemma_field_read_again::<Vec<String>>(m, "rdapConformance"@, x.common.rdap_conformance, y.common.rdap_conformance);
        assert(fields[2] == field_json::<Vec<Notice>>("notices"@, x.common.notices));
        assert(member_of(m, "notices"@) == fields[2].1);
        lemma_field_read_again::<Vec<Notice>>(m, "notices"@, x.common.notices, y.common.notices);
        assert(fields[3] == field_json::<Vec<Link>>("links"@, x.common.links));
        assert(member_of(m, "links"@) == fields[3].1);
        lemma_field_read_again::<Vec<Link>>(m, "links"@, x.common.links, y.common.links);
        assert(fields[4] == field_json::<Vec<Event>>("events"@, x.common.events));
        assert(member_of(m, "events"@) == fields[4].1);
        lemma_field_read_again::<Vec<Event>>(m, "events"@, x.common.events, y.common.events);
        assert(fields[5] == field_json::<VectorStringish>("status"@, x.common.status));
        assert(member_of(m, "status"@) == fields[5].1);
        lemma_field_read_again::<VectorStringish>(m, "status"@, x.common.status, y.common.status);
        assert(fields[6] == field_json::<String>("port43"@, x.common.port_43));
        assert(member_of(m, "port43"@) == fields[6].1);
        lemma_field_read_again::<String>(m, "port43"@, x.common.port_43, y.common.port_43);
        assert(fields[7] == field_json::<String>("lang"@, x.common.lang));
        assert(member_of(m, "lang"@) == fields[7].1);
        lemma_field_read_again::<String>(m, "lang"@, x.common.lang, y.common.lang);
        assert(fields[8] == field_json::<String>("ldhName"@, x.ldh_name));
        assert(member_of(m, "ldhName"@) == fields[8].1);
        lemma_field_read_again::<String>(m, "ldhName"@, x.ldh_name, y.ldh_name);
        assert(fields[9] == field_json::<String>("unicodeName"@, x.unicode_name));
        assert(member_of(m, "unicodeName"@) == fields[9].1);
        lemma_field_read_again::<String>(m, "unicodeName"@, x.unicode_name, y.unicode_name);
        assert(fields[10] == field_json::<IpAddresses>("ipAddresses"@, x.ip_addresses));
        assert(member_of(m, "ipAddresses"@) == fields[10].1);
        lemma_field_read_again::<IpAddresses>(m, "ipAddresses"@, x.ip_addresses, y.ip_addresses);
        assert(fields[11] == field_json::<Vec<ObjectRef>>("entities"@, x.entities));
        assert(member_of(m, "entities"@) == fields[11].1);
        lemma_field_read_again::<Vec<ObjectRef>>(m, "entities"@, x.entities, y.entities);
    }

    #[verifier::rlimit(60)]
    proof fn rereadable(x: Self) {
        let fields = Nameserver::fields(x);
        let kept = members_of(x.common.unknown_keys@);
        let m = written(fields) + kept;
        Nameserver::lemma_keys();
        assert(keys_of(fields) =~= Nameserver::keys());
        lemma_object_read_again(fields, kept);
        assert(fields[0] == field_json::<String>("objectClassName"@, x.common.object_class_name));
        assert(member_of(m, "objectClassName"@) == fields[0].1);
        lemma_field_rereadable::<String>(m, "objectClassName"@, x.common.object_class_name);
        assert(fields[1] == field_json::<Vec<String>>("rdapConformance"@, x.common.rdap_conformance));
        assert(member_of(m, "rdapConformance"@) == fields[1].1);
        lemma_field_rereadable::<Vec<String>>(m, "rdapConformance"@, x.common.rdap_conformance);
        assert(fields[2] == field_json::<Vec<Notice>>("notices"@, x.common.notices));
        assert(member_of(m, "notices"@) == fields[2].1);
        lemma_field_rereadable::<Vec<Notice>>(m, "notices"@, x.common.notices);
        assert(fields[3] == field_json::<Vec<Link>>("links"@, x.common.links));
        assert(member_of(m, "links"@) == fields[3].1);
        lemma_field_rereadable::<Vec<Link>>(m, "links"@, x.common.links);
        assert(fields[4] == field_json::<Vec<Event>>("events"@, x.common.events));
        assert(member_of(m, "events"@) == fields[4].1);
        lemma_field_rereadable::<Vec<Event>>(m, "events"@, x.common.events);
        assert(fields[5] == field_json::<VectorStringish>("status"@, x.common.status));
        assert(member_of(m, "status"@) == fields[5].1);
        lemma_field_rereadable::<VectorStringish>(m, "status"@, x.common.status);
        assert(fields[6] == field_json::<String>("port43"@, x.common.port_43));
        assert(member_of(m, "port43"@) == fields[6].1);
        lemma_field_rereadable::<String>(m, "port43"@, x.common.port_43);
        assert(fields[7] == field_json::<String>("lang"@, x.common.lang));
        assert(member_of(m, "lang"@) == fields[7].1);
        lemma_field_rereadable::<String>(m, "lang"@, x.common.lang);
        assert(fields[8] == field_json::<String>("ldhName"@, x.ldh_name));
        assert(member_of(m, "ldhName"@) == fields[8].1);
        lemma_field_rereadable::<String>(m, "ldhName"@, x.ldh_name);
        assert(fields[9] == field_json::<String>("unicodeName"@, x.unicode_name));
        assert(member_of(m, "unicodeName"@) == fields[9].1);
        lemma_field_rereadable::<String>(m, "unicodeName"@, x.unicode_name);
        assert(fields[10] == field_json::<IpAddresses>("ipAddresses"@, x.ip_addresses));
        assert(member_of(m, "ipAddresses"@) == fields[10].1);
        lemma_field_rereadable::<IpAddresses>(m, "ipAddresses"@, x.ip_addresses);
        assert(fields[11] == field_json::<Vec<ObjectRef>>("entities"@, x.entities));
        assert(member_of(m, "entities"@) == fields[11].1);
        lemma_field_rereadable::<Vec<ObjectRef>>(m, "entities"@, x.entities);
    }
}

impl Autnum {
    /// The keys of the members that are known.
    pub open spec fn keys() -> Seq<Seq<char>> {
        seq!["objectClassName"@, "rdapConformance"@, "notices"@, "links"@, "events"@, "status"@, "port43"@, "lang"@, "startAutnum"@, "endAutnum"@, "entities"@]
    }

    /// What is written for the members that are known.
    pub open spec fn fields(x: Autnum) -> Seq<Field> {
        seq![
            field_json::<String>("objectClassName"@, x.common.object_class_name),
            field_json::<Vec<String>>("rdapConformance"@, x.common.rdap_conformance),
            field_json::<Vec<Notice>>("notices"@, x.common.notices),
            field_json::<Vec<Link>>("links"@, x.common.links),
            field_json::<Vec<Event>>("events"@, x.common.events),
            field_json::<VectorStringish>("status"@, x.common.status),
            field_json::<String>("port43"@, x.common.port_43),
            field_json::<String>("lang"@, x.common.lang),
            field_json::<Numberish<u32>>("startAutnum"@, x.start_autnum),
            field_json::<Numberish<u32>>("endAutnum"@, x.end_autnum),
            field_json::<Vec<ObjectRef>>("entities"@, x.entities),
        ]
    }

    /// No key stands twice among the keys that are known.
    pub proof fn lemma_keys()
        ensures
            distinct(Autnum::keys()),
    {
        reveal_strlit("objectClassName");
        reveal_strlit("rdapConformance");
        reveal_strlit("notices");
        reveal_strlit("links");
        reveal_strlit("events");
        reveal_strlit("status");
        reveal_strlit("port43");
        reveal_strlit("lang");
        reveal_strlit("startAutnum");
        reveal_strlit("endAutnum");
        reveal_strlit("entities");
        assert("objectClassName"@[0] == 'o');
        assert("rdapConformance"@[0] == 'r');
        assert("events"@[0] == 'e');
        assert("status"@[0] == 's');
        assert("port43"@[0] == 'p');
        assert("objectClassName"@.len() == 15);
        assert("rdapConformance"@.len() == 15);
        assert("notices"@.len() == 7);
        assert("links"@.len() == 5);
        assert("events"@.len() == 6);
        assert("status"@.len() == 6);
        assert("port43"@.len() == 6);
        assert("lang"@.len() == 4);
        assert("startAutnum"@.len() == 11);
        assert("endAutnum"@.len() == 9);
        assert("entities"@.len() == 8);
    }
}

impl Codec for Autnum {
    open spec fn readable(j: JsonValue) -> bool {
        j matches JsonValue::Object(m) && field_readable::<String>(m, "objectClassName"@)
            && field_readable::<Vec<String>>(m, "rdapConformance"@)
            && field_readable::<Vec<Notice>>(m, "notices"@)
            && field_readable::<Vec<Link>>(m, "links"@)
            && field_readable::<Vec<Event>>(m, "events"@)
            && field_readable::<VectorStringish>(m, "status"@)
            && field_readable::<String>(m, "port43"@)
            && field_readable::<String>(m, "lang"@)
            && field_readable::<Numberish<u32>>(m, "startAutnum"@)
            && field_readable::<Numberish<u32>>(m, "endAutnum"@)
            && field_readable::<Vec<ObjectRef>>(m, "entities"@)
    }

    open spec fn reads(j: JsonValue, x: Self) -> bool {
        j matches JsonValue::Object(m) && field_reads::<String>(m, "objectClassName"@, x.common.object_class_name)
            && field_reads::<Vec<String>>(m, "rdapConformance"@, x.common.rdap_conformance)
            && field_reads::<Vec<Notice>>(m, "notices"@, x.common.notices)
            && field_reads::<Vec<Link>>(m, "links"@, x.common.links)
            && field_reads::<Vec<Event>>(m, "events"@, x.common.events)
            && field_reads::<VectorStringish>(m, "status"@, x.common.status)
            && field_reads::<String>(m, "port43"@, x.common.port_43)
            && field_reads::<String>(m, "lang"@, x.common.lang)
            && field_reads::<Numberish<u32>>(m, "startAutnum"@, x.start_autnum)
            && field_reads::<Numberish<u32>>(m, "endAutnum"@, x.end_autnum)
            && field_reads::<Vec<ObjectRef>>(m, "entities"@, x.entities)
            && members_of(x.common.unknown_keys@) == without_keys(m, Autnum::keys())
    }

    open spec fn fault(j: JsonValue) -> Path {
        match j {
            JsonValue::Object(m) => {
                if !field_readable::<String>(m, "objectClassName"@) {
                    field_fault::<String>(m, "objectClassName"@)
                } else if !field_readable::<Vec<String>>(m, "rdapConformance"@) {
                    field_fault::<Vec<String>>(m, "rdapConformance"@)
                } else if !field_readable::<Vec<Notice>>(m, "notices"@) {
                    field_fault::<Vec<Notice>>(m, "notices"@)
                } else if !field_readable::<Vec<Link>>(m, "links"@) {
                    field_fault::<Vec<Link>>(m, "links"@)
                } else if !field_readable::<Vec<Event>>(m, "events"@) {
                    field_fault::<Vec<Event>>(m, "events"@)
                } else if !field_readable::<VectorStringish>(m, "status"@) {
                    field_fault::<VectorStringish>(m, "status"@)
                } else if !field_readable::<String>(m, "port43"@) {
                    field_fault::<String>(m, "port43"@)
                } else if !field_readable::<String>(m, "lang"@) {
                    field_fault::<String>(m, "lang"@)
                } else if !field_readable::<Numberish<u32>>(m, "startAutnum"@) {
                    field_fault::<Numberish<u32>>(m, "startAutnum"@)
                } else if !field_readable::<Numberish<u32>>(m, "endAutnum"@) {
                    field_fault::<Numberish<u32>>(m, "endAutnum"@)
                } else if !field_readable::<Vec<ObjectRef>>(m, "entities"@) {
                    field_fault::<Vec<ObjectRef>>(m, "entities"@)
                } else {
                    Seq::empty()
                }
            },
            _ => Seq::empty(),
        }
    }

    open spec fn json(x: Self) -> JsonValue {
        object_json(Autnum::fields(x), members_of(x.common.unknown_keys@))
    }

    open spec fn plain(x: Self) -> bool {
        field_plain::<String>(x.common.object_class_name)
            && field_plain::<Vec<String>>(x.common.rdap_conformance)
            && field_plain::<Vec<Notice>>(x.common.notices)
            && field_plain::<Vec<Link>>(x.common.links)
            && field_plain::<Vec<Event>>(x.common.events)
            && field_plain::<VectorStringish>(x.common.status)
            && field_plain::<String>(x.common.port_43)
            && field_plain::<String>(x.common.lang)
            && field_plain::<Numberish<u32>>(x.start_autnum)
            && field_plain::<Numberish<u32>>(x.end_autnum)
            && field_plain::<Vec<ObjectRef>>(x.entities)
    }

    fn decode(j: &Json) -> (r: Result<Self, Vec<String>>) {
        let m = match j {
            Json::Object(m) => m,
            _ => {
                return Err(crate::codec::here());
            },
        };
        proof {
            lemma_object_view(*j);
        }
        let f0 = read_field::<String>(m, "objectClassName")?;
        let f1 = read_field::<Vec<String>>(m, "rdapConformance")?;
        let f2 = read_field::<Vec<Notice>>(m, "notices")?;
        let f3 = read_field::<Vec<Link>>(m, "links")?;
        let f4 = read_field::<Vec<Event>>(m, "events")?;
        let f5 = read_field::<VectorStringish>(m, "status")?;
        let f6 = read_field::<String>(m, "port43")?;
        let f7 = read_field::<String>(m, "lang")?;
        let f8 = read_field::<Numberish<u32>>(m, "startAutnum")?;
        let f9 = read_field::<Numberish<u32>>(m, "endAutnum")?;
        let f10 = read_field::<Vec<ObjectRef>>(m, "entities")?;
        let keys: Vec<&str> = vec!["objectClassName", "rdapConformance", "notices", "links", "events", "status", "port43", "lang", "startAutnum", "endAutnum", "entities"];
        assert(names(keys@) =~= Autnum::keys());
        let kept = keep_unknown(m, keys.as_slice());
        let common = Common {
            object_class_name: f0,
            rdap_conformance: f1,
            notices: f2,
            links: f3,
            events: f4,
            status: f5,
            port_43: f6,
            lang: f7,
            unknown_keys: kept,
        };
        Ok(Autnum {
            common,
            start_autnum: f8,
            end_autnum: f9,
            entities: f10,
        })
    }

    fn encode(&self) -> (j: Json) {
        let mut out: Vec<(String, Json)> = Vec::new();
        let ghost mut fields: Seq<Field> = Seq::empty();
        assert(members_of(out@) =~= written(fields));
        write_field::<String>(&mut out, "objectClassName", &self.common.object_class_name);
        proof {
            lemma_written_push(fields, field_json::<String>("objectClassName"@, self.common.object_class_name));
            fields = fields.push(field_json::<String>("objectClassName"@, self.common.object_class_name));
        }
        write_field::<Vec<String>>(&mut out, "rdapConformance", &self.common.rdap_conformance);
        proof {
            lemma_written_push(fields, field_json::<Vec<String>>("rdapConformance"@, self.common.rdap_conformance));
            fields = fields.push(field_json::<Vec<String>>("rdapConformance"@, self.common.rdap_conformance));
        }
        write_field::<Vec<Notice>>(&mut out, "notices", &self.common.notices);
        proof {
            lemma_written_push(fields, field_json::<Vec<Notice>>("notices"@, self.common.notices));
            fields = fields.push(field_json::<Vec<Notice>>("notices"@, self.common.notices));
        }
        write_field::<Vec<Link>>(&mut out, "links", &self.common.links);
        proof {
            lemma_written_push(fields, field_json::<Vec<Link>>("links"@, self.common.links));
            fields = fields.push(field_json::<Vec<Link>>("links"@, self.common.links));
        }
        write_field::<Vec<Event>>(&mut out, "events", &self.common.events);
        proof {
            lemma_written_push(fields, field_json::<Vec<Event>>("events"@, self.common.events));
            fields = fields.push(field_json::<Vec<Event>>("events"@, self.common.events));
        }
        write_field::<VectorStringish>(&mut out, "status", &self.common.status);
        proof {
            lemma_written_push(fields, field_json::<VectorStringish>("status"@, self.common.status));
            fields = fields.push(field_json::<VectorStringish>("status"@, self.common.status));
        }
        write_field::<String>(&mut out, "port43", &self.common.port_43);
        proof {
            lemma_written_push(fields, field_json::<String>("port43"@, self.common.port_43));
            fields = fields.push(field_json::<String>("port43"@, self.common.port_43));
        }
        write_field::<String>(&mut out, "lang", &self.common.lang);
        proof {
            lemma_written_push(fields, field_json::<String>("lang"@, self.common.lang));
            fields = fields.push(field_json::<String>("lang"@, self.common.lang));
        }
        write_field::<Numberish<u32>>(&mut out, "startAutnum", &self.start_autnum);
        proof {
            lemma_written_push(fields, field_json::<Numberish<u32>>("startAutnum"@, self.start_autnum));
            fields = fields.push(field_json::<Numberish<u32>>("startAutnum"@, self.start_autnum));
        }
        write_field::<Numberish<u32>>(&mut out, "endAutnum", &self.end_autnum);
        proof {
            lemma_written_push(fields, field_json::<Numberish<u32>>("endAutnum"@, self.end_autnum));
            fields = fields.push(field_json::<Numberish<u32>>("endAutnum"@, self.end_autnum));
        }
        write_field::<Vec<ObjectRef>>(&mut out, "entities", &self.entities);
        proof {
            lemma_written_push(fields, field_json::<Vec<ObjectRef>>("entities"@, self.entities));
            fields = fields.push(field_json::<Vec<ObjectRef>>("entities"@, self.entities));
        }
        assert(fields =~= Autnum::fields(*self));
        write_kept(&mut out, &self.common.unknown_keys);
        let j = Json::Object(out);
        proof {
            lemma_object_view(j);
        }
        j
    }

    #[verifier::rlimit(60)]
    proof fn round_trip(j: JsonValue, x: Self) {
        let m = j->Object_0;
        let fields = Autnum::fields(x);
        lemma_field_round_trip::<String>(m, "objectClassName"@, x.common.object_class_name);
        lemma_field_round_trip::<Vec<String>>(m, "rdapConformance"@, x.common.rdap_conformance);
        lemma_field_round_trip::<Vec<Notice>>(m, "notices"@, x.common.notices);
        lemma_field_round_trip::<Vec<Link>>(m, "links"@, x.common.links);
        lemma_field_round_trip::<Vec<Event>>(m, "events"@, x.common.events);
        lemma_field_round_trip::<VectorStringish>(m, "status"@, x.common.status);
        lemma_field_round_trip::<String>(m, "port43"@, x.common.port_43);
        lemma_field_round_trip::<String>(m, "lang"@, x.common.lang);
        lemma_field_round_trip::<Numberish<u32>>(m, "startAutnum"@, x.start_autnum);
        lemma_field_round_trip::<Numberish<u32>>(m, "endAutnum"@, x.end_autnum);
        lemma_field_round_trip::<Vec<ObjectRef>>(m, "entities"@, x.entities);
        Autnum::lemma_keys();
        assert(keys_of(fields) =~= Autnum::keys());
        assert(fields[0] == field_json::<String>("objectClassName"@, x.common.object_class_name));
        assert(fields[1] == field_json::<Vec<String>>("rdapConformance"@, x.common.rdap_conformance));
        assert(fields[2] == field_json::<Vec<Notice>>("notices"@, x.common.notices));
        assert(fields[3] == field_json::<Vec<Link>>("links"@, x.common.links));
        assert(fields[4] == field_json::<Vec<Event>>("events"@, x.common.events));
        assert(fields[5] == field_json::<VectorStringish>("status"@, x.common.status));
        assert(fields[6] == field_json::<String>("port43"@, x.common.port_43));
        assert(fields[7] == field_json::<String>("lang"@, x.common.lang));
        assert(fields[8] == field_json::<Numberish<u32>>("startAutnum"@, x.start_autnum));
        assert(fields[9] == field_json::<Numberish<u32>>("endAutnum"@, x.end_autnum));
        assert(fields[10] == field_json::<Vec<ObjectRef>>("entities"@, x.entities));
        assert forall|i: int| 0 <= i < fields.len() implies field_matches(#[trigger] fields[i], m) by {
            if i == 0 {
                assert(field_matches(fields[0], m));
            } else if i == 1 {
                assert(field_matches(fields[1], m));
            } else if i == 2 {
                assert(field_matches(fields[2], m));
            } else if i == 3 {
                assert(field_matches(fields[3], m));
            } else if i == 4 {
                assert(field_matches(fields[4], m));
            } else if i == 5 {
                assert(field_matches(fields[5], m));
            } else if i == 6 {
                assert(field_matches(fields[6], m));
            } else if i == 7 {
                assert(field_matches(fields[7], m));
            } else if i == 8 {
                assert(field_matches(fields[8], m));
            } else if i == 9 {
                assert(field_matches(fields[9], m));
            } else if i == 10 {
                assert(field_matches(fields[10], m));
            }
        }
        lemma_object_round_trip(m, fields);
    }

    open spec fn rereads(x: Self) -> bool {
        field_rereads::<String>(x.common.object_class_name)
            && field_rereads::<Vec<String>>(x.common.rdap_conformance)
            && field_rereads::<Vec<Notice>>(x.common.notices)
            && field_rereads::<Vec<Link>>(x.common.links)
            && field_rereads::<Vec<Event>>(x.common.events)
            && field_rereads::<VectorStringish>(x.common.status)
            && field_rereads::<String>(x.common.port_43)
            && field_rereads::<String>(x.common.lang)
            && field_rereads::<Numberish<u32>>(x.start_autnum)
            && field_rereads::<Numberish<u32>>(x.end_autnum)
            && field_rereads::<Vec<ObjectRef>>(x.entities)
            && no_known(members_of(x.common.unknown_keys@), Autnum::keys())
    }

    open spec fn settled(x: Self, y: Self) -> bool {
        field_settled::<String>(x.common.object_class_name, y.common.object_class_name)
            && field_settled::<Vec<String>>(x.common.rdap_conformance, y.common.rdap_conformance)
            && field_settled::<Vec<Notice>>(x.common.notices, y.common.notices)
            && field_settled::<Vec<Link>>(x.common.links, y.common.links)
            && field_settled::<Vec<Event>>(x.common.events, y.common.events)
            && field_settled::<VectorStringish>(x.common.status, y.common.status)
            && field_settled::<String>(x.common.port_43, y.common.port_43)
            && field_settled::<String>(x.common.lang, y.common.lang)
            && field_settled::<Numberish<u32>>(x.start_autnum, y.start_autnum)
            && field_settled::<Numberish<u32>>(x.end_autnum, y.end_autnum)
            && field_settled::<Vec<ObjectRef>>(x.entities, y.entities)
            && members_of(y.common.unknown_keys@) == members_of(x.common.unknown_keys@)
    }

    #[verifier::rlimit(60)]
    proof fn read_again(x: Self, y: Self) {
        let fields = Autnum::fields(x);
        let kept = members_of(x.common.unknown_keys@);
        let m = written(fields) + kept;
        Autnum::lemma_keys();
        assert(keys_of(fields) =~= Autnum::keys());
        lemma_object_read_again(fields, kept);
        assert(fields[0] == field_json::<String>("objectClassName"@, x.common.object_class_name));
        assert(member_of(m, "objectClassName"@) == fields[0].1);
        lemma_field_read_again::<String>(m, "objectClassName"@, x.common.object_class_name, y.common.object_class_name);
        assert(fields[1] == field_json::<Vec<String>>("rdapConformance"@, x.common.rdap_conformance));
        assert(member_of(m, "rdapConformance"@) == fields[1].1);
        lemma_field_read_again::<Vec<String>>(m, "rdapConformance"@, x.common.rdap_conformance, y.common.rdap_conformance);
        assert(fields[2] == field_json::<Vec<Notice>>("notices"@, x.common.notices));
        assert(member_of(m, "notices"@) == fields[2].1);
        lemma_field_read_again::<Vec<Notice>>(m, "notices"@, x.common.notices, y.common.notices);
        assert(fields[3] == field_json::<Vec<Link>>("links"@, x.common.links));
        assert(member_of(m, "links"@) == fields[3].1);
        lemma_field_read_again::<Vec<Link>>(m, "links"@, x.common.links, y.common.links);
        assert(fields[4] == field_json::<Vec<Event>>("events"@, x.common.events));
        assert(member_of(m, "events"@) == fields[4].1);
        lemma_field_read_again::<Vec<Event>>(m, "events"@, x.common.events, y.common.events);
        assert(fields[5] == field_json::<VectorStringish>("status"@, x.common.status));
        assert(member_of(m, "status"@) == fields[5].1);
        lemma_field_read_again::<VectorStringish>(m, "status"@, x.common.status, y.common.status);
        assert(fields[6] == field_json::<String>("port43"@, x.common.port_43));
        assert(member_of(m, "port43"@) == fields[6].1);
        lemma_field_read_again::<String>(m, "port43"@, x.common.port_43, y.common.port_43);
        assert(fields[7] == field_json::<String>("lang"@, x.common.lang));
        assert(member_of(m, "lang"@) == fields[7].1);
        lemma_field_read_again::<String>(m, "lang"@, x.common.lang, y.common.lang);
        assert(fields[8] == field_json::<Numberish<u32>>("startAutnum"@, x.start_autnum));
        assert(member_of(m, "startAutnum"@) == fields[8].1);
        lemma_field_read_again::<Numberish<u32>>(m, "startAutnum"@, x.start_autnum, y.start_autnum);
        assert(fields[9] == field_json::<Numberish<u32>>("endAutnum"@, x.end_autnum));
        assert(member_of(m, "endAutnum"@) == fields[9].1);
        lemma_field_read_again::<Numberish<u32>>(m, "endAutnum"@, x.end_autnum, y.end_autnum);
        assert(fields[10] == field_json::<Vec<ObjectRef>>("entities"@, x.entities));
        assert(member_of(m, "entities"@) == fields[10].1);
        lemma_field_read_again::<Vec<ObjectRef>>(m, "entities"@, x.entities, y.entities);
    }

    #[verifier::rlimit(60)]
    proof fn rereadable(x: Self) {
        let fields = Autnum::fields(x);
        let kept = members_of(x.common.unknown_keys@);
        let m = written(fields) + kept;
        Autnum::lemma_keys();
        assert(keys_of(fields) =~= Autnum::keys());
        lemma_object_read_again(fields, kept);
        assert(fields[0] == field_json::<String>("objectClassName"@, x.common.object_class_name));
        assert(member_of(m, "objectClassName"@) == fields[0].1);
        lemma_field_rereadable::<String>(m, "objectClassName"@, x.common.object_class_name);
        assert(fields[1] == field_json::<Vec<String>>("rdapConformance"@, x.common.rdap_conformance));
        assert(member_of(m, "rdapConformance"@) == fields[1].1);
        lemma_field_rereadable::<Vec<String>>(m, "rdapConformance"@, x.common.rdap_conformance);
        assert(fields[2] == field_json::<Vec<Notice>>("notices"@, x.common.notices));
        assert(member_of(m, "notices"@) == fields[2].1);
        lemma_field_rereadable::<Vec<Notice>>(m, "notices"@, x.common.notices);
        assert(fields[3] == field_json::<Vec<Link>>("links"@, x.common.links));
        assert(member_of(m, "links"@) == fields[3].1);
        lemma_field_rereadable::<Vec<Link>>(m, "links"@, x.common.links);
        assert(fields[4] == field_json::<Vec<Event>>("events"@, x.common.events));
        assert(member_of(m, "events"@) == fields[4].1);
        lemma_field_rereadable::<Vec<Event>>(m, "events"@, x.common.events);
        assert(fields[5] == field_json::<VectorStringish>("status"@, x.common.status));
        assert(member_of(m, "status"@) == fields[5].1);
        lemma_field_rereadable::<VectorStringish>(m, "status"@, x.common.status);
        assert(fields[6] == field_json::<String>("port43"@, x.common.port_43));
        assert(member_of(m, "port43"@) == fields[6].1);
        lemma_field_rereadable::<String>(m, "port43"@, x.common.port_43);
        assert(fields[7] == field_json::<String>("lang"@, x.common.lang));
        assert(member_of(m, "lang"@) == fields[7].1);
        lemma_field_rereadable::<String>(m, "lang"@, x.common.lang);
        assert(fields[8] == field_json::<Numberish<u32>>("startAutnum"@, x.start_autnum));
        assert(member_of(m, "startAutnum"@) == fields[8].1);
        lemma_field_rereadable::<Numberish<u32>>(m, "startAutnum"@, x.start_autnum);
        assert(fields[9] == field_json::<Numberish<u32>>("endAutnum"@, x.end_autnum));
        assert(member_of(m, "endAutnum"@) == fields[9].1);
        lemma_field_rereadable::<Numberish<u32>>(m, "endAutnum"@, x.end_autnum);
        assert(fields[10] == field_json::<Vec<ObjectRef>>("entities"@, x.entities));
        assert(member_of(m, "entities"@) == fields[10].1);
        lemma_field_rereadable::<Vec<ObjectRef>>(m, "entities"@, x.entities);
    }
}

impl Network {
    /// The keys of the members that are known.
    pub open spec fn keys() -> Seq<Seq<char>> {
        seq!["objectClassName"@, "rdapConformance"@, "notices"@, "links"@, "events"@, "status"@, "port43"@, "lang"@, "startAddress"@, "endAddress"@, "ipVersion"@, "cidr0_cidrs"@, "entities"@]
    }

    /// What is written for the members that are known.
    pub open spec fn fields(x: Network) -> Seq<Field> {
        seq![
            field_json::<String>("objectClassName"@, x.common.object_class_name),
            field_json::<Vec<String>>("rdapConformance"@, x.common.rdap_conformance),
            field_json::<Vec<Notice>>("notices"@, x.common.notices),
            field_json::<Vec<Link>>("links"@, x.common.links),
            field_json::<Vec<Event>>("events"@, x.common.events),
            field_json::<VectorStringish>("status"@, x.common.status),
            field_json::<String>("port43"@, x.common.port_43),
            field_json::<String>("lang"@, x.common.lang),
            field_json::<String>("startAddress"@, x.start_address),
            field_json::<String>("endAddress"@, x.end_address),
            field_json::<String>("ipVersion"@, x.ip_version),
            field_json::<Vec<Cidr0Cidr>>("cidr0_cidrs"@, x.cidr0_cidrs),
            field_json::<Vec<ObjectRef>>("entities"@, x.entities),
        ]
    }

    /// No key stands twice among the keys that are known.
    pub proof fn lemma_keys()
        ensures
            distinct(Network::keys()),
    {
        reveal_strlit("objectClassName");
        reveal_strlit("rdapConformance");
        reveal_strlit("notices");
        reveal_strlit("links");
        reveal_strlit("events");
        reveal_strlit("status");
        reveal_strlit("port43");
        reveal_strlit("lang");
        reveal_strlit("startAddress");
        reveal_strlit("endAddress");
        reveal_strlit("ipVersion");
        reveal_strlit("cidr0_cidrs");
        reveal_strlit("entities");
        assert("objectClassName"@[0] == 'o');
        assert("rdapConformance"@[0] == 'r');
        assert("events"@[0] == 'e');
        assert("status"@[0] == 's');
        assert("port43"@[0] == 'p');
        assert("objectClassName"@.len() == 15);
        assert("rdapConformance"@.len() == 15);
        assert("notices"@.len() == 7);
        assert("links"@.len() == 5);
        assert("events"@.len() == 6);
        assert("status"@.len() == 6);
        assert("port43"@.len() == 6);
        assert("lang"@.len() == 4);
        assert("startAddress"@.len() == 12);
        assert("endAddress"@.len() == 10);
        assert("ipVersion"@.len() == 9);
        assert("cidr0_cidrs"@.len() == 11);
        assert("entities"@.len() == 8);
    }
}

impl Codec for Network {
    open spec fn readable(j: JsonValue) -> bool {
        j matches JsonValue::Object(m) && field_readable::<String>(m, "objectClassName"@)
            && field_readable::<Vec<String>>(m, "rdapConformance"@)
            && field_readable::<Vec<Notice>>(m, "notices"@)
            && field_readable::<Vec<Link>>(m, "links"@)
            && field_readable::<Vec<Event>>(m, "events"@)
            && field_readable::<VectorStringish>(m, "status"@)
            && field_readable::<String>(m, "port43"@)
            && field_readable::<String>(m, "lang"@)
            && field_readable::<String>(m, "startAddress"@)
            && field_readable::<String>(m, "endAddress"@)
            && field_readable::<String>(m, "ipVersion"@)
            && field_readable::<Vec<Cidr0Cidr>>(m, "cidr0_cidrs"@)
            && field_readable::<Vec<ObjectRef>>(m, "entities"@)
    }

    open spec fn reads(j: JsonValue, x: Self) -> bool {
        j matches JsonValue::Object(m) && field_reads::<String>(m, "objectClassName"@, x.common.object_class_name)
            && field_reads::<Vec<String>>(m, "rdapConformance"@, x.common.rdap_conformance)
            && field_reads::<Vec<Notice>>(m, "notices"@, x.common.notices)
            && field_reads::<Vec<Link>>(m, "links"@, x.common.links)
            && field_reads::<Vec<Event>>(m, "events"@, x.common.events)
            && field_reads::<VectorStringish>(m, "status"@, x.common.status)
            && field_reads::<String>(m, "port43"@, x.common.port_43)
            && field_reads::<String>(m, "lang"@, x.common.lang)
            && field_reads::<String>(m, "startAddress"@, x.start_address)
            && field_reads::<String>(m, "endAddress"@, x.end_address)
            && field_reads::<String>(m, "ipVersion"@, x.ip_version)
            && field_reads::<Vec<Cidr0Cidr>>(m, "cidr0_cidrs"@, x.cidr0_cidrs)
            && field_reads::<Vec<ObjectRef>>(m, "entities"@, x.entities)
            && members_of(x.common.unknown_keys@) == without_keys(m, Network::keys())
    }

    open spec fn fault(j: JsonValue) -> Path {
        match j {
            JsonValue::Object(m) => {
                if !field_readable::<String>(m, "objectClassName"@) {
                    field_fault::<String>(m, "objectClassName"@)
                } else if !field_readable::<Vec<String>>(m, "rdapConformance"@) {
                    field_fault::<Vec<String>>(m, "rdapConformance"@)
                } else if !field_readable::<Vec<Notice>>(m, "notices"@) {
                    field_fault::<Vec<Notice>>(m, "notices"@)
                } else if !field_readable::<Vec<Link>>(m, "links"@) {
                    field_fault::<Vec<Link>>(m, "links"@)
                } else if !field_readable::<Vec<Event>>(m, "events"@) {
                    field_fault::<Vec<Event>>(m, "events"@)
                } else if !field_readable::<VectorStringish>(m, "status"@) {
                    field_fault::<VectorStringish>(m, "status"@)
                } else if !field_readable::<String>(m, "port43"@) {
                    field_fault::<String>(m, "port43"@)
                } else if !field_readable::<String>(m, "lang"@) {
                    field_fault::<String>(m, "lang"@)
                } else if !field_readable::<String>(m, "startAddress"@) {
                    field_fault::<String>(m, "startAddress"@)
                } else if !field_readable::<String>(m, "endAddress"@) {
                    field_fault::<String>(m, "endAddress"@)
                } else if !field_readable::<String>(m, "ipVersion"@) {
                    field_fault::<String>(m, "ipVersion"@)
                } else if !field_readable::<Vec<Cidr0Cidr>>(m, "cidr0_cidrs"@) {
                    field_fault::<Vec<Cidr0Cidr>>(m, "cidr0_cidrs"@)
                } else if !field_readable::<Vec<ObjectRef>>(m, "entities"@) {
                    field_fault::<Vec<ObjectRef>>(m, "entities"@)
                } else {
                    Seq::empty()
                }
            },
            _ => Seq::empty(),
        }
    }

    open spec fn json(x: Self) -> JsonValue {
        object_json(Network::fields(x), members_of(x.common.unknown_keys@))
    }

    open spec fn plain(x: Self) -> bool {
        field_plain::<String>(x.common.object_class_name)
            && field_plain::<Vec<String>>(x.common.rdap_conformance)
            && field_plain::<Vec<Notice>>(x.common.notices)
            && field_plain::<Vec<Link>>(x.common.links)
            && field_plain::<Vec<Event>>(x.common.events)
            && field_plain::<VectorStringish>(x.common.status)
            && field_plain::<String>(x.common.port_43)
            && field_plain::<String>(x.common.lang)
            && field_plain::<String>(x.start_address)
            && field_plain::<String>(x.end_address)
            && field_plain::<String>(x.ip_version)
            && field_plain::<Vec<Cidr0Cidr>>(x.cidr0_cidrs)
            && field_plain::<Vec<ObjectRef>>(x.entities)
    }

    fn decode(j: &Json) -> (r: Result<Self, Vec<String>>) {
        let m = match j {
            Json::Object(m) => m,
            _ => {
                return Err(crate::codec::here());
            },
        };
        proof {
            lemma_object_view(*j);
        }
        let f0 = read_field::<String>(m, "objectClassName")?;
        let f1 = read_field::<Vec<String>>(m, "rdapConformance")?;
        let f2 = read_field::<Vec<Notice>>(m, "notices")?;
        let f3 = read_field::<Vec<Link>>(m, "links")?;
        let f4 = read_field::<Vec<Event>>(m, "events")?;
        let f5 = read_field::<VectorStringish>(m, "status")?;
        let f6 = read_field::<String>(m, "port43")?;
        let f7 = read_field::<String>(m, "lang")?;
        let f8 = read_field::<String>(m, "startAddress")?;
        let f9 = read_field::<String>(m, "endAddress")?;
        let f10 = read_field::<String>(m, "ipVersion")?;
        let f11 = read_field::<Vec<Cidr0Cidr>>(m, "cidr0_cidrs")?;
        let f12 = read_field::<Vec<ObjectRef>>(m, "entities")?;
        let keys: Vec<&str> = vec!["objectClassName", "rdapConformance", "notices", "links", "events", "status", "port43", "lang", "startAddress", "endAddress", "ipVersion", "cidr0_cidrs", "entities"];
        assert(names(keys@) =~= Network::keys());
        let kept = keep_unknown(m, keys.as_slice());
        let common = Common {
            object_class_name: f0,
            rdap_conformance: f1,
            notices: f2,
            links: f3,
            events: f4,
            status: f5,
            port_43: f6,
            lang: f7,
            unknown_keys: kept,
        };
        Ok(Network {
            common,
            start_address: f8,
            end_address: f9,
            ip_version: f10,
            cidr0_cidrs: f11,
            entities: f12,
        })
    }

    fn encode(&self) -> (j: Json) {
        let mut out: Vec<(String, Json)> = Vec::new();
        let ghost mut fields: Seq<Field> = Seq::empty();
        assert(members_of(out@) =~= written(fields));
        write_field::<String>(&mut out, "objectClassName", &self.common.object_class_name);
        proof {
            lemma_written_push(fields, field_json::<String>("objectClassName"@, self.common.object_class_name));
            fields = fields.push(field_json::<String>("objectClassName"@, self.common.object_class_name));
        }
        write_field::<Vec<String>>(&mut out, "rdapConformance", &self.common.rdap_conformance);
        proof {
            lemma_written_push(fields, field_json::<Vec<String>>("rdapConformance"@, self.common.rdap_conformance));
            fields = fields.push(field_json::<Vec<String>>("rdapConformance"@, self.common.rdap_conformance));
        }
        write_field::<Vec<Notice>>(&mut out, "notices", &self.common.notices);
        proof {
            lemma_written_push(fields, field_json::<Vec<Notice>>("notices"@, self.common.notices));
            fields = fields.push(field_json::<Vec<Notice>>("notices"@, self.common.notices));
        }
        write_field::<Vec<Link>>(&mut out, "links", &self.common.links);
        proof {
            lemma_written_push(fields, field_json::<Vec<Link>>("links"@, self.common.links));
            fields = fields.push(field_json::<Vec<Link>>("links"@, self.common.links));
        }
        write_field::<Vec<Event>>(&mut out, "events", &self.common.events);
        proof {
            lemma_written_push(fields, field_json::<Vec<Event>>("events"@, self.common.events));
            fields = fields.push(field_json::<Vec<Event>>("events"@, self.common.events));
        }
        write_field::<VectorStringish>(&mut out, "status", &self.common.status);
        proof {
            lemma_written_push(fields, field_json::<VectorStringish>("status"@, self.common.status));
            fields = fields.push(field_json::<VectorStringish>("status"@, self.common.status));
        }
        write_field::<String>(&mut out, "port43", &self.common.port_43);
        proof {
            lemma_written_push(fields, field_json::<String>("port43"@, self.common.port_43));
            fields = fields.push(field_json::<String>("port43"@, self.common.port_43));
        }
        write_field::<String>(&mut out, "lang", &self.common.lang);
        proof {
            lemma_written_push(fields, field_json::<String>("lang"@, self.common.lang));
            fields = fields.push(field_json::<String>("lang"@, self.common.lang));
        }
        write_field::<String>(&mut out, "startAddress", &self.start_address);
        proof {
            lemma_written_push(fields, field_json::<String>("startAddress"@, self.start_address));
            fields = fields.push(field_json::<String>("startAddress"@, self.start_address));
        }
        write_field::<String>(&mut out, "endAddress", &self.end_address);
        proof {
            lemma_written_push(fields, field_json::<String>("endAddress"@, self.end_address));
            fields = fields.push(field_json::<String>("endAddress"@, self.end_address));
        }
        write_field::<String>(&mut out, "ipVersion", &self.ip_version);
        proof {
            lemma_written_push(fields, field_json::<String>("ipVersion"@, self.ip_version));
            fields = fields.push(field_json::<String>("ipVersion"@, self.ip_version));
        }
        write_field::<Vec<Cidr0Cidr>>(&mut out, "cidr0_cidrs", &self.cidr0_cidrs);
        proof {
            lemma_written_push(fields, field_json::<Vec<Cidr0Cidr>>("cidr0_cidrs"@, self.cidr0_cidrs));
            fields = fields.push(field_json::<Vec<Cidr0Cidr>>("cidr0_cidrs"@, self.cidr0_cidrs));
        }
        write_field::<Vec<ObjectRef>>(&mut out, "entities", &self.entities);
        proof {
            lemma_written_push(fields, field_json::<Vec<ObjectRef>>("entities"@, self.entities));
            fields = fields.push(field_json::<Vec<ObjectRef>>("entities"@, self.entities));
        }
        assert(fields =~= Network::fields(*self));
        write_kept(&mut out, &self.common.unknown_keys);
        let j = Json::Object(out);
        proof {
            lemma_object_view(j);
        }
        j
    }

    #[verifier::rlimit(60)]
    proof fn round_trip(j: JsonValue, x: Self) {
        let m = j->Object_0;
        let fields = Network::fields(x);
        lemma_field_round_trip::<String>(m, "objectClassName"@, x.common.object_class_name);
        lemma_field_round_trip::<Vec<String>>(m, "rdapConformance"@, x.common.rdap_conformance);
        lemma_field_round_trip::<Vec<Notice>>(m, "notices"@, x.common.notices);
        lemma_field_round_trip::<Vec<Link>>(m, "links"@, x.common.links);
        lemma_field_round_trip::<Vec<Event>>(m, "events"@, x.common.events);
        lemma_field_round_trip::<VectorStringish>(m, "status"@, x.common.status);
        lemma_field_round_trip::<String>(m, "port43"@, x.common.port_43);
        lemma_field_round_trip::<String>(m, "lang"@, x.common.lang);
        lemma_field_round_trip::<String>(m, "startAddress"@, x.start_address);
        lemma_field_round_trip::<String>(m, "endAddress"@, x.end_address);
        lemma_field_round_trip::<String>(m, "ipVersion"@, x.ip_version);
        lemma_field_round_trip::<Vec<Cidr0Cidr>>(m, "cidr0_cidrs"@, x.cidr0_cidrs);
        lemma_field_round_trip::<Vec<ObjectRef>>(m, "entities"@, x.entities);
        Network::lemma_keys();
        assert(keys_of(fields) =~= Network::keys());
        assert(fields[0] == field_json::<String>("objectClassName"@, x.common.object_class_name));
        assert(fields[1] == field_json::<Vec<String>>("rdapConformance"@, x.common.rdap_conformance));
        assert(fields[2] == field_json::<Vec<Notice>>("notices"@, x.common.notices));
        assert(fields[3] == field_json::<Vec<Link>>("links"@, x.common.links));
        assert(fields[4] == field_json::<Vec<Event>>("events"@, x.common.events));
        assert(fields[5] == field_json::<VectorStringish>("status"@, x.common.status));
        assert(fields[6] == field_json::<String>("port43"@, x.common.port_43));
        assert(fields[7] == field_json::<String>("lang"@, x.common.lang));
        assert(fields[8] == field_json::<String>("startAddress"@, x.start_address));
        assert(fields[9] == field_json::<String>("endAddress"@, x.end_address));
        assert(fields[10] == field_json::<String>("ipVersion"@, x.ip_version));
        assert(fields[11] == field_json::<Vec<Cidr0Cidr>>("cidr0_cidrs"@, x.cidr0_cidrs));
        assert(fields[12] == field_json::<Vec<ObjectRef>>("entities"@, x.entities));
        assert forall|i: int| 0 <= i < fields.len() implies field_matches(#[trigger] fields[i], m) by {
            if i == 0 {
                assert(field_matches(fields[0], m));
            } else if i == 1 {
                assert(field_matches(fields[1], m));
            } else if i == 2 {
                assert(field_matches(fields[2], m));
            } else if i == 3 {
                assert(field_matches(fields[3], m));
            } else if i == 4 {
                assert(field_matches(fields[4], m));
            } else if i == 5 {
                assert(field_matches(fields[5], m));
            } else if i == 6 {
                assert(field_matches(fields[6], m));
            } else if i == 7 {
                assert(field_matches(fields[7], m));
            } else if i == 8 {
                assert(field_matches(fields[8], m));
            } else if i == 9 {
                assert(field_matches(fields[9], m));
            } else if i == 10 {
                assert(field_matches(fields[10], m));
            } else if i == 11 {
                assert(field_matches(fields[11], m));
            } else if i == 12 {
                assert(field_matches(fields[12], m));
            }
        }
        lemma_object_round_trip(m, fields);
    }

    open spec fn rereads(x: Self) -> bool {
        field_rereads::<String>(x.common.object_class_name)
            && field_rereads::<Vec<String>>(x.common.rdap_conformance)
            && field_rereads::<Vec<Notice>>(x.common.notices)
            && field_rereads::<Vec<Link>>(x.common.links)
            && field_rereads::<Vec<Event>>(x.common.events)
            && field_rereads::<VectorStringish>(x.common.status)
            && field_rereads::<String>(x.common.port_43)
            && field_rereads::<String>(x.common.lang)
            && field_rereads::<String>(x.start_address)
            && field_rereads::<String>(x.end_address)
            && field_rereads::<String>(x.ip_version)
            && field_rereads::<Vec<Cidr0Cidr>>(x.cidr0_cidrs)
            && field_rereads::<Vec<ObjectRef>>(x.entities)
            && no_known(members_of(x.common.unknown_keys@), Network::keys())
    }

    open spec fn settled(x: Self, y: Self) -> bool {
        field_settled::<String>(x.common.object_class_name, y.common.object_class_name)
            && field_settled::<Vec<String>>(x.common.rdap_conformance, y.common.rdap_conformance)
            && field_settled::<Vec<Notice>>(x.common.notices, y.common.notices)
            && field_settled::<Vec<Link>>(x.common.links, y.common.links)
            && field_settled::<Vec<Event>>(x.common.events, y.common.events)
            && field_settled::<VectorStringish>(x.common.status, y.common.status)
            && field_settled::<String>(x.common.port_43, y.common.port_43)
            && field_settled::<String>(x.common.lang, y.common.lang)
            && field_settled::<String>(x.start_address, y.start_address)
            && field_settled::<String>(x.end_address, y.end_address)
            && field_settled::<String>(x.ip_version, y.ip_version)
            && field_settled::<Vec<Cidr0Cidr>>(x.cidr0_cidrs, y.cidr0_cidrs)
            && field_settled::<Vec<ObjectRef>>(x.entities, y.entities)
            && members_of(y.common.unknown_keys@) == members_of(x.common.unknown_keys@)
    }

    #[verifier::rlimit(60)]
    proof fn read_again(x: Self, y: Self) {
        let fields = Network::fields(x);
        let kept = members_of(x.common.unknown_keys@);
        let m = written(fields) + kept;
        Network::lemma_keys();
        assert(keys_of(fields) =~= Network::keys());
        lemma_object_read_again(fields, kept);
        assert(fields[0] == field_json::<String>("objectClassName"@, x.common.object_class_name));
        assert(member_of(m, "objectClassName"@) == fields[0].1);
        lemma_field_read_again::<String>(m, "objectClassName"@, x.common.object_class_name, y.common.object_class_name);
        assert(fields[1] == field_json::<Vec<String>>("rdapConformance"@, x.common.rdap_conformance));
        assert(member_of(m, "rdapConformance"@) == fields[1].1);
        lemma_field_read_again::<Vec<String>>(m, "rdapConformance"@, x.common.rdap_conformance, y.common.rdap_conformance);
        assert(fields[2] == field_json::<Vec<Notice>>("notices"@, x.common.notices));
        assert(member_of(m, "notices"@) == fields[2].1);
        lemma_field_read_again::<Vec<Notice>>(m, "notices"@, x.common.notices, y.common.notices);
        assert(fields[3] == field_json::<Vec<Link>>("links"@, x.common.links));
        assert(member_of(m, "links"@) == fields[3].1);
        lemma_field_read_again::<Vec<Link>>(m, "links"@, x.common.links, y.common.links);
        assert(fields[4] == field_json::<Vec<Event>>("events"@, x.common.events));
        assert(member_of(m, "events"@) == fields[4].1);
        lemma_field_read_again::<Vec<Event>>(m, "events"@, x.common.events, y.common.events);
        assert(fields[5] == field_json::<VectorStringish>("status"@, x.common.status));
        assert(member_of(m, "status"@) == fields[5].1);
        lemma_field_read_again::<VectorStringish>(m, "status"@, x.common.status, y.common.status);
        assert(fields[6] == field_json::<String>("port43"@, x.common.port_43));
        assert(member_of(m, "port43"@) == fields[6].1);
        lemma_field_read_again::<String>(m, "port43"@, x.common.port_43, y.common.port_43);
        assert(fields[7] == field_json::<String>("lang"@, x.common.lang));
        assert(member_of(m, "lang"@) == fields[7].1);
        lemma_field_read_again::<String>(m, "lang"@, x.common.lang, y.common.lang);
        assert(fields[8] == field_json::<String>("startAddress"@, x.start_address));
        assert(member_of(m, "startAddress"@) == fields[8].1);
        lemma_field_read_again::<String>(m, "startAddress"@, x.start_address, y.start_address);
        assert(fields[9] == field_json::<String>("endAddress"@, x.end_address));
        assert(member_of(m, "endAddress"@) == fields[9].1);
        lemma_field_read_again::<String>(m, "endAddress"@, x.end_address, y.end_address);
        assert(fields[10] == field_json::<String>("ipVersion"@, x.ip_version));
        assert(member_of(m, "ipVersion"@) == fields[10].1);
        lemma_field_read_again::<String>(m, "ipVersion"@, x.ip_version, y.ip_version);
        assert(fields[11] == field_json::<Vec<Cidr0Cidr>>("cidr0_cidrs"@, x.cidr0_cidrs));
        assert(member_of(m, "cidr0_cidrs"@) == fields[11].1);
        lemma_field_read_again::<Vec<Cidr0Cidr>>(m, "cidr0_cidrs"@, x.cidr0_cidrs, y.cidr0_cidrs);
        assert(fields[12] == field_json::<Vec<ObjectRef>>("entities"@, x.entities));
        assert(member_of(m, "entities"@) == fields[12].1);
        lemma_field_read_again::<Vec<ObjectRef>>(m, "entities"@, x.entities, y.entities);
    }

    #[verifier::rlimit(60)]
    proof fn rereadable(x: Self) {
        let fields = Network::fields(x);
        let kept = members_of(x.common.unknown_keys@);
        let m = written(fields) + kept;
        Network::lemma_keys();
        assert(keys_of(fields) =~= Network::keys());
        lemma_object_read_again(fields, kept);
        assert(fields[0] == field_json::<String>("objectClassName"@, x.common.object_class_name));
        assert(member_of(m, "objectClassName"@) == fields[0].1);
        lemma_field_rereadable::<String>(m, "objectClassName"@, x.common.object_class_name);
        assert(fields[1] == field_json::<Vec<String>>("rdapConformance"@, x.common.rdap_conformance));
        assert(member_of(m, "rdapConformance"@) == fields[1].1);
        lemma_field_rereadable::<Vec<String>>(m, "rdapConformance"@, x.common.rdap_conformance);
        assert(fields[2] == field_json::<Vec<Notice>>("notices"@, x.common.notices));
        assert(member_of(m, "notices"@) == fields[2].1);
        lemma_field_rereadable::<Vec<Notice>>(m, "notices"@, x.common.notices);
        assert(fields[3] == field_json::<Vec<Link>>("links"@, x.common.links));
        assert(member_of(m, "links"@) == fields[3].1);
        lemma_field_rereadable::<Vec<Link>>(m, "links"@, x.common.links);
        assert(fields[4] == field_json::<Vec<Event>>("events"@, x.common.events));
        assert(member_of(m, "events"@) == fields[4].1);
        lemma_field_rereadable::<Vec<Event>>(m, "events"@, x.common.events);
        assert(fields[5] == field_json::<VectorStringish>("status"@, x.common.status));
        assert(member_of(m, "status"@) == fields[5].1);
        lemma_field_rereadable::<VectorStringish>(m, "status"@, x.common.status);
        assert(fields[6] == field_json::<String>("port43"@, x.common.port_43));
        assert(member_of(m, "port43"@) == fields[6].1);
        lemma_field_rereadable::<String>(m, "port43"@, x.common.port_43);
        assert(fields[7] == field_json::<String>("lang"@, x.common.lang));
        assert(member_of(m, "lang"@) == fields[7].1);
        lemma_field_rereadable::<String>(m, "lang"@, x.common.lang);
        assert(fields[8] == field_json::<String>("startAddress"@, x.start_address));
        assert(member_of(m, "startAddress"@) == fields[8].1);
        lemma_field_rereadable::<String>(m, "startAddress"@, x.start_address);
        assert(fields[9] == field_json::<String>("endAddress"@, x.end_address));
        assert(member_of(m, "endAddress"@) == fields[9].1);
        lemma_field_rereadable::<String>(m, "endAddress"@, x.end_address);
        assert(fields[10] == field_json::<String>("ipVersion"@, x.ip_version));
        assert(member_of(m, "ipVersion"@) == fields[10].1);
        lemma_field_rereadable::<String>(m, "ipVersion"@, x.ip_version);
        assert(fields[11] == field_json::<Vec<Cidr0Cidr>>("cidr0_cidrs"@, x.cidr0_cidrs));
        assert(member_of(m, "cidr0_cidrs"@) == fields[11].1);
        lemma_field_rereadable::<Vec<Cidr0Cidr>>(m, "cidr0_cidrs"@, x.cidr0_cidrs);
        assert(fields[12] == field_json::<Vec<ObjectRef>>("entities"@, x.entities));
        assert(member_of(m, "entities"@) == fields[12].1);
        lemma_field_rereadable::<Vec<ObjectRef>>(m, "entities"@, x.entities);
    }
}

impl Domain {
    /// The keys of the members that are known.
    pub open spec fn keys() -> Seq<Seq<char>> {
        seq!["objectClassName"@, "rdapConformance"@, "notices"@, "links"@, "events"@, "status"@, "port43"@, "lang"@, "ldhName"@, "unicodeName"@, "nameservers"@, "secureDNS"@, "entities"@, "network"@]
    }

    /// What is written for the members that are known.
    pub open spec fn fields(x: Domain) -> Seq<Field> {
        seq![
            field_json::<String>("objectClassName"@, x.common.object_class_name),
            field_json::<Vec<String>>("rdapConformance"@, x.common.rdap_conformance),
            field_json::<Vec<Notice>>("notices"@, x.common.notices),
            field_json::<Vec<Link>>("links"@, x.common.links),
            field_json::<Vec<Event>>("events"@, x.common.events),
            field_json::<VectorStringish>("status"@, x.common.status),
            field_json::<String>("port43"@, x.common.port_43),
            field_json::<String>("lang"@, x.common.lang),
            field_json::<String>("ldhName"@, x.ldh_name),
            field_json::<String>("unicodeName"@, x.unicode_name),
            field_json::<Vec<Nameserver>>("nameservers"@, x.nameservers),
            field_json::<SecureDns>("secureDNS"@, x.secure_dns),
            field_json::<Vec<ObjectRef>>("entities"@, x.entities),
            field_json::<ObjectRef>("network"@, x.network),
        ]
    }

    /// No key stands twice among the keys that are known.
    pub proof fn lemma_keys()
        ensures
            distinct(Domain::keys()),
    {
        reveal_strlit("objectClassName");
        reveal_strlit("rdapConformance");
        reveal_strlit("notices");
        reveal_strlit("links");
        reveal_strlit("events");
        reveal_strlit("status");
        reveal_strlit("port43");
        reveal_strlit("lang");
        reveal_strlit("ldhName");
        reveal_strlit("unicodeName");
        reveal_strlit("nameservers");
        reveal_strlit("secureDNS");
        reveal_strlit("entities");
        reveal_strlit("network");
        assert("objectClassName"@[0] == 'o');
        assert("rdapConformance"@[0] == 'r');
        assert("notices"@[0] == 'n');
        assert("ldhName"@[0] == 'l');
        assert("notices"@[1] == 'o');
        assert("network"@[1] == 'e');
        assert("events"@[0] == 'e');
        assert("status"@[0] == 's');
        assert("port43"@[0] == 'p');
        assert("network"@[0] == 'n');
        assert("unicodeName"@[0] == 'u');
        assert("nameservers"@[0] == 'n');
        assert("objectClassName"@.len() == 15);
        assert("rdapConformance"@.len() == 15);
        assert("notices"@.len() == 7);
        assert("links"@.len() == 5);
        assert("events"@.len() == 6);
        assert("status"@.len() == 6);
        assert("port43"@.len() == 6);
        assert("lang"@.len() == 4);
        assert("ldhName"@.len() == 7);
        assert("unicodeName"@.len() == 11);
        assert("nameservers"@.len() == 11);
        assert("secureDNS"@.len() == 9);
        assert("entities"@.len() == 8);
        assert("network"@.len() == 7);
    }
}

impl Codec for Domain {
    open spec fn readable(j: JsonValue) -> bool {
        j matches JsonValue::Object(m) && field_readable::<String>(m, "objectClassName"@)
            && field_readable::<Vec<String>>(m, "rdapConformance"@)
            && field_readable::<Vec<Notice>>(m, "notices"@)
            && field_readable::<Vec<Link>>(m, "links"@)
            && field_readable::<Vec<Event>>(m, "events"@)
            && field_readable::<VectorStringish>(m, "status"@)
            && field_readable::<String>(m, "port43"@)
            && field_readable::<String>(m, "lang"@)
            && field_readable::<String>(m, "ldhName"@)
            && field_readable::<String>(m, "unicodeName"@)
            && field_readable::<Vec<Nameserver>>(m, "nameservers"@)
            && field_readable::<SecureDns>(m, "secureDNS"@)
            && field_readable::<Vec<ObjectRef>>(m, "entities"@)
            && field_readable::<ObjectRef>(m, "network"@)
    }

    open spec fn reads(j: JsonValue, x: Self) -> bool {
        j matches JsonValue::Object(m) && field_reads::<String>(m, "objectClassName"@, x.common.object_class_name)
            && field_reads::<Vec<String>>(m, "rdapConformance"@, x.common.rdap_conformance)
            && field_reads::<Vec<Notice>>(m, "notices"@, x.common.notices)
            && field_reads::<Vec<Link>>(m, "links"@, x.common.links)
            && field_reads::<Vec<Event>>(m, "events"@, x.common.events)
            && field_reads::<VectorStringish>(m, "status"@, x.common.status)
            && field_reads::<String>(m, "port43"@, x.common.port_43)
            && field_reads::<String>(m, "lang"@, x.common.lang)
            && field_reads::<String>(m, "ldhName"@, x.ldh_name)
            && field_reads::<String>(m, "unicodeName"@, x.unicode_name)
            && field_reads::<Vec<Nameserver>>(m, "nameservers"@, x.nameservers)
            && field_reads::<SecureDns>(m, "secureDNS"@, x.secure_dns)
            && field_reads::<Vec<ObjectRef>>(m, "entities"@, x.entities)
            && field_reads::<ObjectRef>(m, "network"@, x.network)
            && members_of(x.common.unknown_keys@) == without_keys(m, Domain::keys())
    }

    open spec fn fault(j: JsonValue) -> Path {
        match j {
            JsonValue::Object(m) => {
                if !field_readable::<String>(m, "objectClassName"@) {
                    field_fault::<String>(m, "objectClassName"@)
                } else if !field_readable::<Vec<String>>(m, "rdapConformance"@) {
                    field_fault::<Vec<String>>(m, "rdapConformance"@)
                } else if !field_readable::<Vec<Notice>>(m, "notices"@) {
                    field_fault::<Vec<Notice>>(m, "notices"@)
                } else if !field_readable::<Vec<Link>>(m, "links"@) {
                    field_fault::<Vec<Link>>(m, "links"@)
                } else if !field_readable::<Vec<Event>>(m, "events"@) {
                    field_fault::<Vec<Event>>(m, "events"@)
                } else if !field_readable::<VectorStringish>(m, "status"@) {
                    field_fault::<VectorStringish>(m, "status"@)
                } else if !field_readable::<String>(m, "port43"@) {
                    field_fault::<String>(m, "port43"@)
                } else if !field_readable::<String>(m, "lang"@) {
                    field_fault::<String>(m, "lang"@)
                } else if !field_readable::<String>(m, "ldhName"@) {
                    field_fault::<String>(m, "ldhName"@)
                } else if !field_readable::<String>(m, "unicodeName"@) {
                    field_fault::<String>(m, "unicodeName"@)
                } else if !field_readable::<Vec<Nameserver>>(m, "nameservers"@) {
                    field_fault::<Vec<Nameserver>>(m, "nameservers"@)
                } else if !field_readable::<SecureDns>(m, "secureDNS"@) {
                    field_fault::<SecureDns>(m, "secureDNS"@)
                } else if !field_readable::<Vec<ObjectRef>>(m, "entities"@) {
                    field_fault::<Vec<ObjectRef>>(m, "entities"@)
                } else if !field_readable::<ObjectRef>(m, "network"@) {
                    field_fault::<ObjectRef>(m, "network"@)
                } else {
                    Seq::empty()
                }
            },
            _ => Seq::empty(),
        }
    }

    open spec fn json(x: Self) -> JsonValue {
        object_json(Domain::fields(x), members_of(x.common.unknown_keys@))
    }

    open spec fn plain(x: Self) -> bool {
        field_plain::<String>(x.common.object_class_name)
            && field_plain::<Vec<String>>(x.common.rdap_conformance)
            && field_plain::<Vec<Notice>>(x.common.notices)
            && field_plain::<Vec<Link>>(x.common.links)
            && field_plain::<Vec<Event>>(x.common.events)
            && field_plain::<VectorStringish>(x.common.status)
            && field_plain::<String>(x.common.port_43)
            && field_plain::<String>(x.common.lang)
            && field_plain::<String>(x.ldh_name)
            && field_plain::<String>(x.unicode_name)
            && field_plain::<Vec<Nameserver>>(x.nameservers)
            && field_plain::<SecureDns>(x.secure_dns)
            && field_plain::<Vec<ObjectRef>>(x.entities)
            && field_plain::<ObjectRef>(x.network)
    }

    fn decode(j: &Json) -> (r: Result<Self, Vec<String>>) {
        let m = match j {
            Json::Object(m) => m,
            _ => {
                return Err(crate::codec::here());
            },
        };
        proof {
            lemma_object_view(*j);
        }
        let f0 = read_field::<String>(m, "objectClassName")?;
        let f1 = read_field::<Vec<String>>(m, "rdapConformance")?;
        let f2 = read_field::<Vec<Notice>>(m, "notices")?;
        let f3 = read_field::<Vec<Link>>(m, "links")?;
        let f4 = read_field::<Vec<Event>>(m, "events")?;
        let f5 = read_field::<VectorStringish>(m, "status")?;
        let f6 = read_field::<String>(m, "port43")?;
        let f7 = read_field::<String>(m, "lang")?;
        let f8 = read_field::<String>(m, "ldhName")?;
        let f9 = read_field::<String>(m, "unicodeName")?;
        let f10 = read_field::<Vec<Nameserver>>(m, "nameservers")?;
        let f11 = read_field::<SecureDns>(m, "secureDNS")?;
        let f12 = read_field::<Vec<ObjectRef>>(m, "entities")?;
        let f13 = read_field::<ObjectRef>(m, "network")?;
        let keys: Vec<&str> = vec!["objectClassName", "rdapConformance", "notices", "links", "events", "status", "port43", "lang", "ldhName", "unicodeName", "nameservers", "secureDNS", "entities", "network"];
        assert(names(keys@) =~= Domain::keys());
        let kept = keep_unknown(m, keys.as_slice());
        let common = Common {
            object_class_name: f0,
            rdap_conformance: f1,
            notices: f2,
            links: f3,
            events: f4,
            status: f5,
            port_43: f6,
            lang: f7,
            unknown_keys: kept,
        };
        Ok(Domain {
            common,
            ldh_name: f8,
            unicode_name: f9,
            nameservers: f10,
            secure_dns: f11,
            entities: f12,
            network: f13,
        })
    }

    fn encode(&self) -> (j: Json) {
        let mut out: Vec<(String, Json)> = Vec::new();
        let ghost mut fields: Seq<Field> = Seq::empty();
        assert(members_of(out@) =~= written(fields));
        write_field::<String>(&mut out, "objectClassName", &self.common.object_class_name);
        proof {
            lemma_written_push(fields, field_json::<String>("objectClassName"@, self.common.object_class_name));
            fields = fields.push(field_json::<String>("objectClassName"@, self.common.object_class_name));
        }
        write_field::<Vec<String>>(&mut out, "rdapConformance", &self.common.rdap_conformance);
        proof {
            lemma_written_push(fields, field_json::<Vec<String>>("rdapConformance"@, self.common.rdap_conformance));
            fields = fields.push(field_json::<Vec<String>>("rdapConformance"@, self.common.rdap_conformance));
        }
        write_field::<Vec<Notice>>(&mut out, "notices", &self.common.notices);
        proof {
            lemma_written_push(fields, field_json::<Vec<Notice>>("notices"@, self.common.notices));
            fields = fields.push(field_json::<Vec<Notice>>("notices"@, self.common.notices));
        }
        write_field::<Vec<Link>>(&mut out, "links", &self.common.links);
        proof {
            lemma_written_push(fields, field_json::<Vec<Link>>("links"@, self.common.links));
            fields = fields.push(field_json::<Vec<Link>>("links"@, self.common.links));
        }
        write_field::<Vec<Event>>(&mut out, "events", &self.common.events);
        proof {
            lemma_written_push(fields, field_json::<Vec<Event>>("events"@, self.common.events));
            fields = fields.push(field_json::<Vec<Event>>("events"@, self.common.events));
        }
        write_field::<VectorStringish>(&mut out, "status", &self.common.status);
        proof {
            lemma_written_push(fields, field_json::<VectorStringish>("status"@, self.common.status));
            fields = fields.push(field_json::<VectorStringish>("status"@, self.common.status));
        }
        write_field::<String>(&mut out, "port43", &self.common.port_43);
        proof {
            lemma_written_push(fields, field_json::<String>("port43"@, self.common.port_43));
            fields = fields.push(field_json::<String>("port43"@, self.common.port_43));
        }
        write_field::<String>(&mut out, "lang", &self.common.lang);
        proof {
            lemma_written_push(fields, field_json::<String>("lang"@, self.common.lang));
            fields = fields.push(field_json::<String>("lang"@, self.common.lang));
        }
        write_field::<String>(&mut out, "ldhName", &self.ldh_name);
        proof {
            lemma_written_push(fields, field_json::<String>("ldhName"@, self.ldh_name));
            fields = fields.push(field_json::<String>("ldhName"@, self.ldh_name));
        }
        write_field::<String>(&mut out, "unicodeName", &self.unicode_name);
        proof {
            lemma_written_push(fields, field_json::<String>("unicodeName"@, self.unicode_name));
            fields = fields.push(field_json::<String>("unicodeName"@, self.unicode_name));
        }
        write_field::<Vec<Nameserver>>(&mut out, "nameservers", &self.nameservers);
        proof {
            lemma_written_push(fields, field_json::<Vec<Nameserver>>("nameservers"@, self.nameservers));
            fields = fields.push(field_json::<Vec<Nameserver>>("nameservers"@, self.nameservers));
        }
        write_field::<SecureDns>(&mut out, "secureDNS", &self.secure_dns);
        proof {
            lemma_written_push(fields, field_json::<SecureDns>("secureDNS"@, self.secure_dns));
            fields = fields.push(field_json::<SecureDns>("secureDNS"@, self.secure_dns));
        }
        write_field::<Vec<ObjectRef>>(&mut out, "entities", &self.entities);
        proof {
            lemma_written_push(fields, field_json::<Vec<ObjectRef>>("entities"@, self.entities));
            fields = fields.push(field_json::<Vec<ObjectRef>>("entities"@, self.entities));
        }
        write_field::<ObjectRef>(&mut out, "network", &self.network);
        proof {
            lemma_written_push(fields, field_json::<ObjectRef>("network"@, self.network));
            fields = fields.push(field_json::<ObjectRef>("network"@, self.network));
        }
        assert(fields =~= Domain::fields(*self));
        write_kept(&mut out, &self.common.unknown_keys);
        let j = Json::Object(out);
        proof {
            lemma_object_view(j);
        }
        j
    }

    #[verifier::rlimit(60)]
    proof fn round_trip(j: JsonValue, x: Self) {
        let m = j->Object_0;
        let fields = Domain::fields(x);
        lemma_field_round_trip::<String>(m, "objectClassName"@, x.common.object_class_name);
        lemma_field_round_trip::<Vec<String>>(m, "rdapConformance"@, x.common.rdap_conformance);
        lemma_field_round_trip::<Vec<Notice>>(m, "notices"@, x.common.notices);
        lemma_field_round_trip::<Vec<Link>>(m, "links"@, x.common.links);
        lemma_field_round_trip::<Vec<Event>>(m, "events"@, x.common.events);
        lemma_field_round_trip::<VectorStringish>(m, "status"@, x.common.status);
        lemma_field_round_trip::<String>(m, "port43"@, x.common.port_43);
        lemma_field_round_trip::<String>(m, "lang"@, x.common.lang);
        lemma_field_round_trip::<String>(m, "ldhName"@, x.ldh_name);
        lemma_field_round_trip::<String>(m, "unicodeName"@, x.unicode_name);
        lemma_field_round_trip::<Vec<Nameserver>>(m, "nameservers"@, x.nameservers);
        lemma_field_round_trip::<SecureDns>(m, "secureDNS"@, x.secure_dns);
        lemma_field_round_trip::<Vec<ObjectRef>>(m, "entities"@, x.entities);
        lemma_field_round_trip::<ObjectRef>(m, "network"@, x.network);
        Domain::lemma_keys();
        assert(keys_of(fields) =~= Domain::keys());
        assert(fields[0] == field_json::<String>("objectClassName"@, x.common.object_class_name));
        assert(fields[1] == field_json::<Vec<String>>("rdapConformance"@, x.common.rdap_conformance));
        assert(fields[2] == field_json::<Vec<Notice>>("notices"@, x.common.notices));
        assert(fields[3] == field_json::<Vec<Link>>("links"@, x.common.links));
        assert(fields[4] == field_json::<Vec<Event>>("events"@, x.common.events));
        assert(fields[5] == field_json::<VectorStringish>("status"@, x.common.status));
        assert(fields[6] == field_json::<String>("port43"@, x.common.port_43));
        assert(fields[7] == field_json::<String>("lang"@, x.common.lang));
        assert(fields[8] == field_json::<String>("ldhName"@, x.ldh_name));
        assert(fields[9] == field_json::<String>("unicodeName"@, x.unicode_name));
        assert(fields[10] == field_json::<Vec<Nameserver>>("nameservers"@, x.nameservers));
        assert(fields[11] == field_json::<SecureDns>("secureDNS"@, x.secure_dns));
        assert(fields[12] == field_json::<Vec<ObjectRef>>("entities"@, x.entities));
        assert(fields[13] == field_json::<ObjectRef>("network"@, x.network));
        assert forall|i: int| 0 <= i < fields.len() implies field_matches(#[trigger] fields[i], m) by {
            if i == 0 {
                assert(field_matches(fields[0], m));
            } else if i == 1 {
                assert(field_matches(fields[1], m));
            } else if i == 2 {
                assert(field_matches(fields[2], m));
            } else if i == 3 {
                assert(field_matches(fields[3], m));
            } else if i == 4 {
                assert(field_matches(fields[4], m));
            } else if i == 5 {
                assert(field_matches(fields[5], m));
            } else if i == 6 {
                assert(field_matches(fields[6], m));
            } else if i == 7 {
                assert(field_matches(fields[7], m));
            } else if i == 8 {
                assert(field_matches(fields[8], m));
            } else if i == 9 {
                assert(field_matches(fields[9], m));
            } else if i == 10 {
                assert(field_matches(fields[10], m));
            } else if i == 11 {
                assert(field_matches(fields[11], m));
            } else if i == 12 {
                assert(field_matches(fields[12], m));
            } else if i == 13 {
                assert(field_matches(fields[13], m));
            }
        }
        lemma_object_round_trip(m, fields);
    }

    open spec fn rereads(x: Self) -> bool {
        field_rereads::<String>(x.common.object_class_name)
            && field_rereads::<Vec<String>>(x.common.rdap_conformance)
            && field_rereads::<Vec<Notice>>(x.common.notices)
            && field_rereads::<Vec<Link>>(x.common.links)
            && field_rereads::<Vec<Event>>(x.common.events)
            && field_rereads::<VectorStringish>(x.common.status)
            && field_rereads::<String>(x.common.port_43)
            && field_rereads::<String>(x.common.lang)
            && field_rereads::<String>(x.ldh_name)
            && field_rereads::<String>(x.unicode_name)
            && field_rereads::<Vec<Nameserver>>(x.nameservers)
            && field_rereads::<SecureDns>(x.secure_dns)
            && field_rereads::<Vec<ObjectRef>>(x.entities)
            && field_rereads::<ObjectRef>(x.network)
            && no_known(members_of(x.common.unknown_keys@), Domain::keys())
    }

    open spec fn settled(x: Self, y: Self) -> bool {
        field_settled::<String>(x.common.object_class_name, y.common.object_class_name)
            && field_settled::<Vec<String>>(x.common.rdap_conformance, y.common.rdap_conformance)
            && field_settled::<Vec<Notice>>(x.common.notices, y.common.notices)
            && field_settled::<Vec<Link>>(x.common.links, y.common.links)
            && field_settled::<Vec<Event>>(x.common.events, y.common.events)
            && field_settled::<VectorStringish>(x.common.status, y.common.status)
            && field_settled::<String>(x.common.port_43, y.common.port_43)
            && field_settled::<String>(x.common.lang, y.common.lang)
            && field_settled::<String>(x.ldh_name, y.ldh_name)
            && field_settled::<String>(x.unicode_name, y.unicode_name)
            && field_settled::<Vec<Nameserver>>(x.nameservers, y.nameservers)
            && field_settled::<SecureDns>(x.secure_dns, y.secure_dns)
            && field_settled::<Vec<ObjectRef>>(x.entities, y.entities)
            && field_settled::<ObjectRef>(x.network, y.network)
            && members_of(y.common.unknown_keys@) == members_of(x.common.unknown_keys@)
    }

    #[verifier::rlimit(60)]
    proof fn read_again(x: Self, y: Self) {
        let fields = Domain::fields(x);
        let kept = members_of(x.common.unknown_keys@);
        let m = written(fields) + kept;
        Domain::lemma_keys();
        assert(keys_of(fields) =~= Domain::keys());
        lemma_object_read_again(fields, kept);
        assert(fields[0] == field_json::<String>("objectClassName"@, x.common.object_class_name));
        assert(member_of(m, "objectClassName"@) == fields[0].1);
        lemma_field_read_again::<String>(m, "objectClassName"@, x.common.object_class_name, y.common.object_class_name);
        assert(fields[1] == field_json::<Vec<String>>("rdapConformance"@, x.common.rdap_conformance));
        assert(member_of(m, "rdapConformance"@) == fields[1].1);
        lemma_field_read_again::<Vec<String>>(m, "rdapConformance"@, x.common.rdap_conformance, y.common.rdap_conformance);
        assert(fields[2] == field_json::<Vec<Notice>>("notices"@, x.common.notices));
        assert(member_of(m, "notices"@) == fields[2].1);
        lemma_field_read_again::<Vec<Notice>>(m, "notices"@, x.common.notices, y.common.notices);
        assert(fields[3] == field_json::<Vec<Link>>("links"@, x.common.links));
        assert(member_of(m, "links"@) == fields[3].1);
        lemma_field_read_again::<Vec<Link>>(m, "links"@, x.common.links, y.common.links);
        assert(fields[4] == field_json::<Vec<Event>>("events"@, x.common.events));
        assert(member_of(m, "events"@) == fields[4].1);
        lemma_field_read_again::<Vec<Event>>(m, "events"@, x.common.events, y.common.events);
        assert(fields[5] == field_json::<VectorStringish>("status"@, x.common.status));
        assert(member_of(m, "status"@) == fields[5].1);
        lemma_field_read_again::<VectorStringish>(m, "status"@, x.common.status, y.common.status);
        assert(fields[6] == field_json::<String>("port43"@, x.common.port_43));
        assert(member_of(m, "port43"@) == fields[6].1);
        lemma_field_read_again::<String>(m, "port43"@, x.common.port_43, y.common.port_43);
        assert(fields[7] == field_json::<String>("lang"@, x.common.lang));
        assert(member_of(m, "lang"@) == fields[7].1);
        lemma_field_read_again::<String>(m, "lang"@, x.common.lang, y.common.lang);
        assert(fields[8] == field_json::<String>("ldhName"@, x.ldh_name));
        assert(member_of(m, "ldhName"@) == fields[8].1);
        lemma_field_read_again::<String>(m, "ldhName"@, x.ldh_name, y.ldh_name);
        assert(fields[9] == field_json::<String>("unicodeName"@, x.unicode_name));
        assert(member_of(m, "unicodeName"@) == fields[9].1);
        lemma_field_read_again::<String>(m, "unicodeName"@, x.unicode_name, y.unicode_name);
        assert(fields[10] == field_json::<Vec<Nameserver>>("nameservers"@, x.nameservers));
        assert(member_of(m, "nameservers"@) == fields[10].1);
        lemma_field_read_again::<Vec<Nameserver>>(m, "nameservers"@, x.nameservers, y.nameservers);
        assert(fields[11] == field_json::<SecureDns>("secureDNS"@, x.secure_dns));
        assert(member_of(m, "secureDNS"@) == fields[11].1);
        lemma_field_read_again::<SecureDns>(m, "secureDNS"@, x.secure_dns, y.secure_dns);
        assert(fields[12] == field_json::<Vec<ObjectRef>>("entities"@, x.entities));
        assert(member_of(m, "entities"@) == fields[12].1);
        lemma_field_read_again::<Vec<ObjectRef>>(m, "entities"@, x.entities, y.entities);
        assert(fields[13] == field_json::<ObjectRef>("network"@, x.network));
        assert(member_of(m, "network"@) == fields[13].1);
        lemma_field_read_again::<ObjectRef>(m, "network"@, x.network, y.network);
    }

    #[verifier::rlimit(60)]
    proof fn rereadable(x: Self) {
        let fields = Domain::fields(x);
        let kept = members_of(x.common.unknown_keys@);
        let m = written(fields) + kept;
        Domain::lemma_keys();
        assert(keys_of(fields) =~= Domain::keys());
        lemma_object_read_again(fields, kept);
        assert(fields[0] == field_json::<String>("objectClassName"@, x.common.object_class_name));
        assert(member_of(m, "objectClassName"@) == fields[0].1);
        lemma_field_rereadable::<String>(m, "objectClassName"@, x.common.object_class_name);
        assert(fields[1] == field_json::<Vec<String>>("rdapConformance"@, x.common.rdap_conformance));
        assert(member_of(m, "rdapConformance"@) == fields[1].1);
        lemma_field_rereadable::<Vec<String>>(m, "rdapConformance"@, x.common.rdap_conformance);
        assert(fields[2] == field_json::<Vec<Notice>>("notices"@, x.common.notices));
        assert(member_of(m, "notices"@) == fields[2].1);
        lemma_field_rereadable::<Vec<Notice>>(m, "notices"@, x.common.notices);
        assert(fields[3] == field_json::<Vec<Link>>("links"@, x.common.links));
        assert(member_of(m, "links"@) == fields[3].1);
        lemma_field_rereadable::<Vec<Link>>(m, "links"@, x.common.links);
        assert(fields[4] == field_json::<Vec<Event>>("events"@, x.common.events));
        assert(member_of(m, "events"@) == fields[4].1);
        lemma_field_rereadable::<Vec<Event>>(m, "events"@, x.common.events);
        assert(fields[5] == field_json::<VectorStringish>("status"@, x.common.status));
        assert(member_of(m, "status"@) == fields[5].1);
        lemma_field_rereadable::<VectorStringish>(m, "status"@, x.common.status);
        assert(fields[6] == field_json::<String>("port43"@, x.common.port_43));
        assert(member_of(m, "port43"@) == fields[6].1);
        lemma_field_rereadable::<String>(m, "port43"@, x.common.port_43);
        assert(fields[7] == field_json::<String>("lang"@, x.common.lang));
        assert(member_of(m, "lang"@) == fields[7].1);
        lemma_field_rereadable::<String>(m, "lang"@, x.common.lang);
        assert(fields[8] == field_json::<String>("ldhName"@, x.ldh_name));
        assert(member_of(m, "ldhName"@) == fields[8].1);
        lemma_field_rereadable::<String>(m, "ldhName"@, x.ldh_name);
        assert(fields[9] == field_json::<String>("unicodeName"@, x.unicode_name));
        assert(member_of(m, "unicodeName"@) == fields[9].1);
        lemma_field_rereadable::<String>(m, "unicodeName"@, x.unicode_name);
        assert(fields[10] == field_json::<Vec<Nameserver>>("nameservers"@, x.nameservers));
        assert(member_of(m, "nameservers"@) == fields[10].1);
        lemma_field_rereadable::<Vec<Nameserver>>(m, "nameservers"@, x.nameservers);
        assert(fields[11] == field_json::<SecureDns>("secureDNS"@, x.secure_dns));
        assert(member_of(m, "secureDNS"@) == fields[11].1);
        lemma_field_rereadable::<SecureDns>(m, "secureDNS"@, x.secure_dns);
        assert(fields[12] == field_json::<Vec<ObjectRef>>("entities"@, x.entities));
        assert(member_of(m, "entities"@) == fields[12].1);
        lemma_field_rereadable::<Vec<ObjectRef>>(m, "entities"@, x.entities);
        assert(fields[13] == field_json::<ObjectRef>("network"@, x.network));
        assert(member_of(m, "network"@) == fields[13].1);
        lemma_field_rereadable::<ObjectRef>(m, "network"@, x.network);
    }
}

impl DomainSearchResults {
    /// The keys of the members that are known.
    pub open spec fn keys() -> Seq<Seq<char>> {
        seq!["objectClassName"@, "rdapConformance"@, "notices"@, "links"@, "events"@, "status"@, "port43"@, "lang"@, "domainSearchResults"@]
    }

    /// What is written for the members that are known.
    pub open spec fn fields(x: DomainSearchResults) -> Seq<Field> {
        seq![
            field_json::<String>("objectClassName"@, x.common.object_class_name),
            field_json::<Vec<String>>("rdapConformance"@, x.common.rdap_conformance),
            field_json::<Vec<Notice>>("notices"@, x.common.notices),
            field_json::<Vec<Link>>("links"@, x.common.links),
            field_json::<Vec<Event>>("events"@, x.common.events),
            field_json::<VectorStringish>("status"@, x.common.status),
            field_json::<String>("port43"@, x.common.port_43),
            field_json::<String>("lang"@, x.common.lang),
            required_json::<Vec<Domain>>("domainSearchResults"@, x.results),
        ]
    }

    /// No key stands twice among the keys that are known.
    pub proof fn lemma_keys()
        ensures
            distinct(DomainSearchResults::keys()),
    {
        reveal_strlit("objectClassName");
        reveal_strlit("rdapConformance");
        reveal_strlit("notices");
        reveal_strlit("links");
        reveal_strlit("events");
        reveal_strlit("status");
        reveal_strlit("port43");
        reveal_strlit("lang");
        reveal_strlit("domainSearchResults");
        assert("objectClassName"@[0] == 'o');
        assert("rdapConformance"@[0] == 'r');
        assert("events"@[0] == 'e');
        assert("status"@[0] == 's');
        assert("port43"@[0] == 'p');
        assert("objectClassName"@.len() == 15);
        assert("rdapConformance"@.len() == 15);
        assert("notices"@.len() == 7);
        assert("links"@.len() == 5);
        assert("events"@.len() == 6);
        assert("status"@.len() == 6);
        assert("port43"@.len() == 6);
        assert("lang"@.len() == 4);
        assert("domainSearchResults"@.len() == 19);
    }
}

impl Codec for DomainSearchResults {
    open spec fn readable(j: JsonValue) -> bool {
        j matches JsonValue::Object(m) && field_readable::<String>(m, "objectClassName"@)
            && field_readable::<Vec<String>>(m, "rdapConformance"@)
            && field_readable::<Vec<Notice>>(m, "notices"@)
            && field_readable::<Vec<Link>>(m, "links"@)
            && field_readable::<Vec<Event>>(m, "events"@)
            && field_readable::<VectorStringish>(m, "status"@)
            && field_readable::<String>(m, "port43"@)
            && field_readable::<String>(m, "lang"@)
            && required_readable::<Vec<Domain>>(m, "domainSearchResults"@)
    }

    open spec fn reads(j: JsonValue, x: Self) -> bool {
        j matches JsonValue::Object(m) && field_reads::<String>(m, "objectClassName"@, x.common.object_class_name)
            && field_reads::<Vec<String>>(m, "rdapConformance"@, x.common.rdap_conformance)
            && field_reads::<Vec<Notice>>(m, "notices"@, x.common.notices)
            && field_reads::<Vec<Link>>(m, "links"@, x.common.links)
            && field_reads::<Vec<Event>>(m, "events"@, x.common.events)
            && field_reads::<VectorStringish>(m, "status"@, x.common.status)
            && field_reads::<String>(m, "port43"@, x.common.port_43)
            && field_reads::<String>(m, "lang"@, x.common.lang)
            && required_reads::<Vec<Domain>>(m, "domainSearchResults"@, x.results)
            && members_of(x.common.unknown_keys@) == without_keys(m, DomainSearchResults::keys())
    }

    open spec fn fault(j: JsonValue) -> Path {
        match j {
            JsonValue::Object(m) => {
                if !field_readable::<String>(m, "objectClassName"@) {
                    field_fault::<String>(m, "objectClassName"@)
                } else if !field_readable::<Vec<String>>(m, "rdapConformance"@) {
                    field_fault::<Vec<String>>(m, "rdapConformance"@)
                } else if !field_readable::<Vec<Notice>>(m, "notices"@) {
                    field_fault::<Vec<Notice>>(m, "notices"@)
                } else if !field_readable::<Vec<Link>>(m, "links"@) {
                    field_fault::<Vec<Link>>(m, "links"@)
                } else if !field_readable::<Vec<Event>>(m, "events"@) {
                    field_fault::<Vec<Event>>(m, "events"@)
                } else if !field_readable::<VectorStringish>(m, "status"@) {
                    field_fault::<VectorStringish>(m, "status"@)
                } else if !field_readable::<String>(m, "port43"@) {
                    field_fault::<String>(m, "port43"@)
                } else if !field_readable::<String>(m, "lang"@) {
                    field_fault::<String>(m, "lang"@)
                } else if !required_readable::<Vec<Domain>>(m, "domainSearchResults"@) {
                    field_fault::<Vec<Domain>>(m, "domainSearchResults"@)
                } else {
                    Seq::empty()
                }
            },
            _ => Seq::empty(),
        }
    }

    open spec fn json(x: Self) -> JsonValue {
        object_json(DomainSearchResults::fields(x), members_of(x.common.unknown_keys@))
    }

    open spec fn plain(x: Self) -> bool {
        field_plain::<String>(x.common.object_class_name)
            && field_plain::<Vec<String>>(x.common.rdap_conformance)
            && field_plain::<Vec<Notice>>(x.common.notices)
            && field_plain::<Vec<Link>>(x.common.links)
            && field_plain::<Vec<Event>>(x.common.events)
            && field_plain::<VectorStringish>(x.common.status)
            && field_plain::<String>(x.common.port_43)
            && field_plain::<String>(x.common.lang)
            && <Vec<Domain>>::plain(x.results)
    }

    fn decode(j: &Json) -> (r: Result<Self, Vec<String>>) {
        let m = match j {
            Json::Object(m) => m,
            _ => {
                return Err(crate::codec::here());
            },
        };
        proof {
            lemma_object_view(*j);
        }
        let f0 = read_field::<String>(m, "objectClassName")?;
        let f1 = read_field::<Vec<String>>(m, "rdapConformance")?;
        let f2 = read_field::<Vec<Notice>>(m, "notices")?;
        let f3 = read_field::<Vec<Link>>(m, "links")?;
        let f4 = read_field::<Vec<Event>>(m, "events")?;
        let f5 = read_field::<VectorStringish>(m, "status")?;
        let f6 = read_field::<String>(m, "port43")?;
        let f7 = read_field::<String>(m, "lang")?;
        let f8 = read_required::<Vec<Domain>>(m, "domainSearchResults")?;
        let keys: Vec<&str> = vec!["objectClassName", "rdapConformance", "notices", "links", "events", "status", "port43", "lang", "domainSearchResults"];
        assert(names(keys@) =~= DomainSearchResults::keys());
        let kept = keep_unknown(m, keys.as_slice());
        let common = Common {
            object_class_name: f0,
            rdap_conformance: f1,
            notices: f2,
            links: f3,
            events: f4,
            status: f5,
            port_43: f6,
            lang: f7,
            unknown_keys: kept,
        };
        Ok(DomainSearchResults {
            common,
            results: f8,
        })
    }

    fn encode(&self) -> (j: Json) {
        let mut out: Vec<(String, Json)> = Vec::new();
        let ghost mut fields: Seq<Field> = Seq::empty();
        assert(members_of(out@) =~= written(fields));
        write_field::<String>(&mut out, "objectClassName", &self.common.object_class_name);
        proof {
            lemma_written_push(fields, field_json::<String>("objectClassName"@, self.common.object_class_name));
            fields = fields.push(field_json::<String>("objectClassName"@, self.common.object_class_name));
        }
        write_field::<Vec<String>>(&mut out, "rdapConformance", &self.common.rdap_conformance);
        proof {
            lemma_written_push(fields, field_json::<Vec<String>>("rdapConformance"@, self.common.rdap_conformance));
            fields = fields.push(field_json::<Vec<String>>("rdapConformance"@, self.common.rdap_conformance));
        }
        write_field::<Vec<Notice>>(&mut out, "notices", &self.common.notices);
        proof {
            lemma_written_push(fields, field_json::<Vec<Notice>>("notices"@, self.common.notices));
            fields = fields.push(field_json::<Vec<Notice>>("notices"@, self.common.notices));
        }
        write_field::<Vec<Link>>(&mut out, "links", &self.common.links);
        proof {
            lemma_written_push(fields, field_json::<Vec<Link>>("links"@, self.common.links));
            fields = fields.push(field_json::<Vec<Link>>("links"@, self.common.links));
        }
        write_field::<Vec<Event>>(&mut out, "events", &self.common.events);
        proof {
            lemma_written_push(fields, field_json::<Vec<Event>>("events"@, self.common.events));
            fields = fields.push(field_json::<Vec<Event>>("events"@, self.common.events));
        }
        write_field::<VectorStringish>(&mut out, "status", &self.common.status);
        proof {
            lemma_written_push(fields, field_json::<VectorStringish>("status"@, self.common.status));
            fields = fields.push(field_json::<VectorStringish>("status"@, self.common.status));
        }
        write_field::<String>(&mut out, "port43", &self.common.port_43);
        proof {
            lemma_written_push(fields, field_json::<String>("port43"@, self.common.port_43));
            fields = fields.push(field_json::<String>("port43"@, self.common.port_43));
        }
        write_field::<String>(&mut out, "lang", &self.common.lang);
        proof {
            lemma_written_push(fields, field_json::<String>("lang"@, self.common.lang));
            fields = fields.push(field_json::<String>("lang"@, self.common.lang));
        }
        write_required::<Vec<Domain>>(&mut out, "domainSearchResults", &self.results);
        proof {
            lemma_written_push(fields, required_json::<Vec<Domain>>("domainSearchResults"@, self.results));
            fields = fields.push(required_json::<Vec<Domain>>("domainSearchResults"@, self.results));
        }
        assert(fields =~= DomainSearchResults::fields(*self));
        write_kept(&mut out, &self.common.unknown_keys);
        let j = Json::Object(out);
        proof {
            lemma_object_view(j);
        }
        j
    }

    #[verifier::rlimit(60)]
    proof fn round_trip(j: JsonValue, x: Self) {
        let m = j->Object_0;
        let fields = DomainSearchResults::fields(x);
        lemma_field_round_trip::<String>(m, "objectClassName"@, x.common.object_class_name);
        lemma_field_round_trip::<Vec<String>>(m, "rdapConformance"@, x.common.rdap_conformance);
        lemma_field_round_trip::<Vec<Notice>>(m, "notices"@, x.common.notices);
        lemma_field_round_trip::<Vec<Link>>(m, "links"@, x.common.links);
        lemma_field_round_trip::<Vec<Event>>(m, "events"@, x.common.events);
        lemma_field_round_trip::<VectorStringish>(m, "status"@, x.common.status);
        lemma_field_round_trip::<String>(m, "port43"@, x.common.port_43);
        lemma_field_round_trip::<String>(m, "lang"@, x.common.lang);
        lemma_required_round_trip::<Vec<Domain>>(m, "domainSearchResults"@, x.results);
        DomainSearchResults::lemma_keys();
        assert(keys_of(fields) =~= DomainSearchResults::keys());
        assert(fields[0] == field_json::<String>("objectClassName"@, x.common.object_class_name));
        assert(fields[1] == field_json::<Vec<String>>("rdapConformance"@, x.common.rdap_conformance));
        assert(fields[2] == field_json::<Vec<Notice>>("notices"@, x.common.notices));
        assert(fields[3] == field_json::<Vec<Link>>("links"@, x.common.links));
        assert(fields[4] == field_json::<Vec<Event>>("events"@, x.common.events));
        assert(fields[5] == field_json::<VectorStringish>("status"@, x.common.status));
        assert(fields[6] == field_json::<String>("port43"@, x.common.port_43));
        assert(fields[7] == field_json::<String>("lang"@, x.common.lang));
        assert(fields[8] == required_json::<Vec<Domain>>("domainSearchResults"@, x.results));
        assert forall|i: int| 0 <= i < fields.len() implies field_matches(#[trigger] fields[i], m) by {
            if i == 0 {
                assert(field_matches(fields[0], m));
            } else if i == 1 {
                assert(field_matches(fields[1], m));
            } else if i == 2 {
                assert(field_matches(fields[2], m));
            } else if i == 3 {
                assert(field_matches(fields[3], m));
            } else if i == 4 {
                assert(field_matches(fields[4], m));
            } else if i == 5 {
                assert(field_matches(fields[5], m));
            } else if i == 6 {
                assert(field_matches(fields[6], m));
            } else if i == 7 {
                assert(field_matches(fields[7], m));
            } else if i == 8 {
                assert(field_matches(fields[8], m));
            }
        }
        lemma_object_round_trip(m, fields);
    }

    open spec fn rereads(x: Self) -> bool {
        field_rereads::<String>(x.common.object_class_name)
            && field_rereads::<Vec<String>>(x.common.rdap_conformance)
            && field_rereads::<Vec<Notice>>(x.common.notices)
            && field_rereads::<Vec<Link>>(x.common.links)
            && field_rereads::<Vec<Event>>(x.common.events)
            && field_rereads::<VectorStringish>(x.common.status)
            && field_rereads::<String>(x.common.port_43)
            && field_rereads::<String>(x.common.lang)
            && <Vec<Domain>>::rereads(x.results)
            && no_known(members_of(x.common.unknown_keys@), DomainSearchResults::keys())
    }

    open spec fn settled(x: Self, y: Self) -> bool {
        field_settled::<String>(x.common.object_class_name, y.common.object_class_name)
            && field_settled::<Vec<String>>(x.common.rdap_conformance, y.common.rdap_conformance)
            && field_settled::<Vec<Notice>>(x.common.notices, y.common.notices)
            && field_settled::<Vec<Link>>(x.common.links, y.common.links)
            && field_settled::<Vec<Event>>(x.common.events, y.common.events)
            && field_settled::<VectorStringish>(x.common.status, y.common.status)
            && field_settled::<String>(x.common.port_43, y.common.port_43)
            && field_settled::<String>(x.common.lang, y.common.lang)
            && <Vec<Domain>>::settled(x.results, y.results)
            && members_of(y.common.unknown_keys@) == members_of(x.common.unknown_keys@)
    }

    #[verifier::rlimit(60)]
    proof fn read_again(x: Self, y: Self) {
        let fields = DomainSearchResults::fields(x);
        let kept = members_of(x.common.unknown_keys@);
        let m = written(fields) + kept;
        DomainSearchResults::lemma_keys();
        assert(keys_of(fields) =~= DomainSearchResults::keys());
        lemma_object_read_again(fields, kept);
        assert(fields[0] == field_json::<String>("objectClassName"@, x.common.object_class_name));
        assert(member_of(m, "objectClassName"@) == fields[0].1);
        lemma_field_read_again::<String>(m, "objectClassName"@, x.common.object_class_name, y.common.object_class_name);
        assert(fields[1] == field_json::<Vec<String>>("rdapConformance"@, x.common.rdap_conformance));
        assert(member_of(m, "rdapConformance"@) == fields[1].1);
        lemma_field_read_again::<Vec<String>>(m, "rdapConformance"@, x.common.rdap_conformance, y.common.rdap_conformance);
        assert(fields[2] == field_json::<Vec<Notice>>("notices"@, x.common.notices));
        assert(member_of(m, "notices"@) == fields[2].1);
        lemma_field_read_again::<Vec<Notice>>(m, "notices"@, x.common.notices, y.common.notices);
        assert(fields[3] == field_json::<Vec<Link>>("links"@, x.common.links));
        assert(member_of(m, "links"@) == fields[3].1);
        lemma_field_read_again::<Vec<Link>>(m, "links"@, x.common.links, y.common.links);
        assert(fields[4] == field_json::<Vec<Event>>("events"@, x.common.events));
        assert(member_of(m, "events"@) == fields[4].1);
        lemma_field_read_again::<Vec<Event>>(m, "events"@, x.common.events, y.common.events);
        assert(fields[5] == field_json::<VectorStringish>("status"@, x.common.status));
        assert(member_of(m, "status"@) == fields[5].1);
        lemma_field_read_again::<VectorStringish>(m, "status"@, x.common.status, y.common.status);
        assert(fields[6] == field_json::<String>("port43"@, x.common.port_43));
        assert(member_of(m, "port43"@) == fields[6].1);
        lemma_field_read_again::<String>(m, "port43"@, x.common.port_43, y.common.port_43);
        assert(fields[7] == field_json::<String>("lang"@, x.common.lang));
        assert(member_of(m, "lang"@) == fields[7].1);
        lemma_field_read_again::<String>(m, "lang"@, x.common.lang, y.common.lang);
        assert(fields[8] == required_json::<Vec<Domain>>("domainSearchResults"@, x.results));
        assert(member_of(m, "domainSearchResults"@) == fields[8].1);
        lemma_required_read_again::<Vec<Domain>>(m, "domainSearchResults"@, x.results, y.results);
    }

    #[verifier::rlimit(60)]
    proof fn rereadable(x: Self) {
        let fields = DomainSearchResults::fields(x);
        let kept = members_of(x.common.unknown_keys@);
        let m = written(fields) + kept;
        DomainSearchResults::lemma_keys();
        assert(keys_of(fields) =~= DomainSearchResults::keys());
        lemma_object_read_again(fields, kept);
        assert(fields[0] == field_json::<String>("objectClassName"@, x.common.object_class_name));
        assert(member_of(m, "objectClassName"@) == fields[0].1);
        lemma_field_rereadable::<String>(m, "objectClassName"@, x.common.object_class_name);
        assert(fields[1] == field_json::<Vec<String>>("rdapConformance"@, x.common.rdap_conformance));
        assert(member_of(m, "rdapConformance"@) == fields[1].1);
        lemma_field_rereadable::<Vec<String>>(m, "rdapConformance"@, x.common.rdap_conformance);
        assert(fields[2] == field_json::<Vec<Notice>>("notices"@, x.common.notices));
        assert(member_of(m, "notices"@) == fields[2].1);
        lemma_field_rereadable::<Vec<Notice>>(m, "notices"@, x.common.notices);
        assert(fields[3] == field_json::<Vec<Link>>("links"@, x.common.links));
        assert(member_of(m, "links"@) == fields[3].1);
        lemma_field_rereadable::<Vec<Link>>(m, "links"@, x.common.links);
        assert(fields[4] == field_json::<Vec<Event>>("events"@, x.common.events));
        assert(member_of(m, "events"@) == fields[4].1);
        lemma_field_rereadable::<Vec<Event>>(m, "events"@, x.common.events);
        assert(fields[5] == field_json::<VectorStringish>("status"@, x.common.status));
        assert(member_of(m, "status"@) == fields[5].1);
        lemma_field_rereadable::<VectorStringish>(m, "status"@, x.common.status);
        assert(fields[6] == field_json::<String>("port43"@, x.common.port_43));
        assert(member_of(m, "port43"@) == fields[6].1);
        lemma_field_rereadable::<String>(m, "port43"@, x.common.port_43);
        assert(fields[7] == field_json::<String>("lang"@, x.common.lang));
        assert(member_of(m, "lang"@) == fields[7].1);
        lemma_field_rereadable::<String>(m, "lang"@, x.common.lang);
        assert(fields[8] == required_json::<Vec<Domain>>("domainSearchResults"@, x.results));
        assert(member_of(m, "domainSearchResults"@) == fields[8].1);
        lemma_required_rereadable::<Vec<Domain>>(m, "domainSearchResults"@, x.results);
    }
}

impl EntitySearchResults {
    /// The keys of the members that are known.
    pub open spec fn keys() -> Seq<Seq<char>> {
        seq!["objectClassName"@, "rdapConformance"@, "notices"@, "links"@, "events"@, "status"@, "port43"@, "lang"@, "entitySearchResults"@]
    }

    /// What is written for the members that are known.
    pub open spec fn fields(x: EntitySearchResults) -> Seq<Field> {
        seq![
            field_json::<String>("objectClassName"@, x.common.object_class_name),
            field_json::<Vec<String>>("rdapConformance"@, x.common.rdap_conformance),
            field_json::<Vec<Notice>>("notices"@, x.common.notices),
            field_json::<Vec<Link>>("links"@, x.common.links),
            field_json::<Vec<Event>>("events"@, x.common.events),
            field_json::<VectorStringish>("status"@, x.common.status),
            field_json::<String>("port43"@, x.common.port_43),
            field_json::<String>("lang"@, x.common.lang),
            required_json::<Vec<Entity>>("entitySearchResults"@, x.results),
        ]
    }

    /// No key stands twice among the keys that are known.
    pub proof fn lemma_keys()
        ensures
            distinct(EntitySearchResults::keys()),
    {
        reveal_strlit("objectClassName");
        reveal_strlit("rdapConformance");
        reveal_strlit("notices");
        reveal_strlit("links");
        reveal_strlit("events");
        reveal_strlit("status");
        reveal_strlit("port43");
        reveal_strlit("lang");
        reveal_strlit("entitySearchResults");
        assert("objectClassName"@[0] == 'o');
        assert("rdapConformance"@[0] == 'r');
        assert("events"@[0] == 'e');
        assert("status"@[0] == 's');
        assert("port43"@[0] == 'p');
        assert("objectClassName"@.len() == 15);
        assert("rdapConformance"@.len() == 15);
        assert("notices"@.len() == 7);
        assert("links"@.len() == 5);
        assert("events"@.len() == 6);
        assert("status"@.len() == 6);
        assert("port43"@.len() == 6);
        assert("lang"@.len() == 4);
        assert("entitySearchResults"@.len() == 19);
    }
}

impl Codec for EntitySearchResults {
    open spec fn readable(j: JsonValue) -> bool {
        j matches JsonValue::Object(m) && field_readable::<String>(m, "objectClassName"@)
            && field_readable::<Vec<String>>(m, "rdapConformance"@)
            && field_readable::<Vec<Notice>>(m, "notices"@)
            && field_readable::<Vec<Link>>(m, "links"@)
            && field_readable::<Vec<Event>>(m, "events"@)
            && field_readable::<VectorStringish>(m, "status"@)
            && field_readable::<String>(m, "port43"@)
            && field_readable::<String>(m, "lang"@)
            && required_readable::<Vec<Entity>>(m, "entitySearchResults"@)
    }

    open spec fn reads(j: JsonValue, x: Self) -> bool {
        j matches JsonValue::Object(m) && field_reads::<String>(m, "objectClassName"@, x.common.object_class_name)
            && field_reads::<Vec<String>>(m, "rdapConformance"@, x.common.rdap_conformance)
            && field_reads::<Vec<Notice>>(m, "notices"@, x.common.notices)
            && field_reads::<Vec<Link>>(m, "links"@, x.common.links)
            && field_reads::<Vec<Event>>(m, "events"@, x.common.events)
            && field_reads::<VectorStringish>(m, "status"@, x.common.status)
            && field_reads::<String>(m, "port43"@, x.common.port_43)
            && field_reads::<String>(m, "lang"@, x.common.lang)
            && required_reads::<Vec<Entity>>(m, "entitySearchResults"@, x.results)
            && members_of(x.common.unknown_keys@) == without_keys(m, EntitySearchResults::keys())
    }

    open spec fn fault(j: JsonValue) -> Path {
        match j {
            JsonValue::Object(m) => {
                if !field_readable::<String>(m, "objectClassName"@) {
                    field_fault::<String>(m, "objectClassName"@)
                } else if !field_readable::<Vec<String>>(m, "rdapConformance"@) {
                    field_fault::<Vec<String>>(m, "rdapConformance"@)
                } else if !field_readable::<Vec<Notice>>(m, "notices"@) {
                    field_fault::<Vec<Notice>>(m, "notices"@)
                } else if !field_readable::<Vec<Link>>(m, "links"@) {
                    field_fault::<Vec<Link>>(m, "links"@)
                } else if !field_readable::<Vec<Event>>(m, "events"@) {
                    field_fault::<Vec<Event>>(m, "events"@)
                } else if !field_readable::<VectorStringish>(m, "status"@) {
                    field_fault::<VectorStringish>(m, "status"@)
                } else if !field_readable::<String>(m, "port43"@) {
                    field_fault::<String>(m, "port43"@)
                } else if !field_readable::<String>(m, "lang"@) {
                    field_fault::<String>(m, "lang"@)
                } else if !required_readable::<Vec<Entity>>(m, "entitySearchResults"@) {
                    field_fault::<Vec<Entity>>(m, "entitySearchResults"@)
                } else {
                    Seq::empty()
                }
            },
            _ => Seq::empty(),
        }
    }

    open spec fn json(x: Self) -> JsonValue {
        object_json(EntitySearchResults::fields(x), members_of(x.common.unknown_keys@))
    }

    open spec fn plain(x: Self) -> bool {
        field_plain::<String>(x.common.object_class_name)
            && field_plain::<Vec<String>>(x.common.rdap_conformance)
            && field_plain::<Vec<Notice>>(x.common.notices)
            && field_plain::<Vec<Link>>(x.common.links)
            && field_plain::<Vec<Event>>(x.common.events)
            && field_plain::<VectorStringish>(x.common.status)
            && field_plain::<String>(x.common.port_43)
            && field_plain::<String>(x.common.lang)
            && <Vec<Entity>>::plain(x.results)
    }

    fn decode(j: &Json) -> (r: Result<Self, Vec<String>>) {
        let m = match j {
            Json::Object(m) => m,
            _ => {
                return Err(crate::codec::here());
            },
        };
        proof {
            lemma_object_view(*j);
        }
        let f0 = read_field::<String>(m, "objectClassName")?;
        let f1 = read_field::<Vec<String>>(m, "rdapConformance")?;
        let f2 = read_field::<Vec<Notice>>(m, "notices")?;
        let f3 = read_field::<Vec<Link>>(m, "links")?;
        let f4 = read_field::<Vec<Event>>(m, "events")?;
        let f5 = read_field::<VectorStringish>(m, "status")?;
        let f6 = read_field::<String>(m, "port43")?;
        let f7 = read_field::<String>(m, "lang")?;
        let f8 = read_required::<Vec<Entity>>(m, "entitySearchResults")?;
        let keys: Vec<&str> = vec!["objectClassName", "rdapConformance", "notices", "links", "events", "status", "port43", "lang", "entitySearchResults"];
        assert(names(keys@) =~= EntitySearchResults::keys());
        let kept = keep_unknown(m, keys.as_slice());
        let common = Common {
            object_class_name: f0,
            rdap_conformance: f1,
            notices: f2,
            links: f3,
            events: f4,
            status: f5,
            port_43: f6,
            lang: f7,
            unknown_keys: kept,
        };
        Ok(EntitySearchResults {
            common,
            results: f8,
        })
    }

    fn encode(&self) -> (j: Json) {
        let mut out: Vec<(String, Json)> = Vec::new();
        let ghost mut fields: Seq<Field> = Seq::empty();
        assert(members_of(out@) =~= written(fields));
        write_field::<String>(&mut out, "objectClassName", &self.common.object_class_name);
        proof {
            lemma_written_push(fields, field_json::<String>("objectClassName"@, self.common.object_class_name));
            fields = fields.push(field_json::<String>("objectClassName"@, self.common.object_class_name));
        }
        write_field::<Vec<String>>(&mut out, "rdapConformance", &self.common.rdap_conformance);
        proof {
            lemma_written_push(fields, field_json::<Vec<String>>("rdapConformance"@, self.common.rdap_conformance));
            fields = fields.push(field_json::<Vec<String>>("rdapConformance"@, self.common.rdap_conformance));
        }
        write_field::<Vec<Notice>>(&mut out, "notices", &self.common.notices);
        proof {
            lemma_written_push(fields, field_json::<Vec<Notice>>("notices"@, self.common.notices));
            fields = fields.push(field_json::<Vec<Notice>>("notices"@, self.common.notices));
        }
        write_field::<Vec<Link>>(&mut out, "links", &self.common.links);
        proof {
            lemma_written_push(fields, field_json::<Vec<Link>>("links"@, self.common.links));
            fields = fields.push(field_json::<Vec<Link>>("links"@, self.common.links));
        }
        write_field::<Vec<Event>>(&mut out, "events", &self.common.events);
        proof {
            lemma_written_push(fields, field_json::<Vec<Event>>("events"@, self.common.events));
            fields = fields.push(field_json::<Vec<Event>>("events"@, self.common.events));
        }
        write_field::<VectorStringish>(&mut out, "status", &self.common.status);
        proof {
            lemma_written_push(fields, field_json::<VectorStringish>("status"@, self.common.status));
            fields = fields.push(field_json::<VectorStringish>("status"@, self.common.status));
        }
        write_field::<String>(&mut out, "port43", &self.common.port_43);
        proof {
            lemma_written_push(fields, field_json::<String>("port43"@, self.common.port_43));
            fields = fields.push(field_json::<String>("port43"@, self.common.port_43));
        }
        write_field::<String>(&mut out, "lang", &self.common.lang);
        proof {
            lemma_written_push(fields, field_json::<String>("lang"@, self.common.lang));
            fields = fields.push(field_json::<String>("lang"@, self.common.lang));
        }
        write_required::<Vec<Entity>>(&mut out, "entitySearchResults", &self.results);
        proof {
            lemma_written_push(fields, required_json::<Vec<Entity>>("entitySearchResults"@, self.results));
            fields = fields.push(required_json::<Vec<Entity>>("entitySearchResults"@, self.results));
        }
        assert(fields =~= EntitySearchResults::fields(*self));
        write_kept(&mut out, &self.common.unknown_keys);
        let j = Json::Object(out);
        proof {
            lemma_object_view(j);
        }
        j
    }

    #[verifier::rlimit(60)]
    proof fn round_trip(j: JsonValue, x: Self) {
        let m = j->Object_0;
        let fields = EntitySearchResults::fields(x);
        lemma_field_round_trip::<String>(m, "objectClassName"@, x.common.object_class_name);
        lemma_field_round_trip::<Vec<String>>(m, "rdapConformance"@, x.common.rdap_conformance);
        lemma_field_round_trip::<Vec<Notice>>(m, "notices"@, x.common.notices);
        lemma_field_round_trip::<Vec<Link>>(m, "links"@, x.common.links);
        lemma_field_round_trip::<Vec<Event>>(m, "events"@, x.common.events);
        lemma_field_round_trip::<VectorStringish>(m, "status"@, x.common.status);
        lemma_field_round_trip::<String>(m, "port43"@, x.common.port_43);
        lemma_field_round_trip::<String>(m, "lang"@, x.common.lang);
        lemma_required_round_trip::<Vec<Entity>>(m, "entitySearchResults"@, x.results);
        EntitySearchResults::lemma_keys();
        assert(keys_of(fields) =~= EntitySearchResults::keys());
        assert(fields[0] == field_json::<String>("objectClassName"@, x.common.object_class_name));
        assert(fields[1] == field_json::<Vec<String>>("rdapConformance"@, x.common.rdap_conformance));
        assert(fields[2] == field_json::<Vec<Notice>>("notices"@, x.common.notices));
        assert(fields[3] == field_json::<Vec<Link>>("links"@, x.common.links));
        assert(fields[4] == field_json::<Vec<Event>>("events"@, x.common.events));
        assert(fields[5] == field_json::<VectorStringish>("status"@, x.common.status));
        assert(fields[6] == field_json::<String>("port43"@, x.common.port_43));
        assert(fields[7] == field_json::<String>("lang"@, x.common.lang));
        assert(fields[8] == required_json::<Vec<Entity>>("entitySearchResults"@, x.results));
        assert forall|i: int| 0 <= i < fields.len() implies field_matches(#[trigger] fields[i], m) by {
            if i == 0 {
                assert(field_matches(fields[0], m));
            } else if i == 1 {
                assert(field_matches(fields[1], m));
            } else if i == 2 {
                assert(field_matches(fields[2], m));
            } else if i == 3 {
                assert(field_matches(fields[3], m));
            } else if i == 4 {
                assert(field_matches(fields[4], m));
            } else if i == 5 {
                assert(field_matches(fields[5], m));
            } else if i == 6 {
                assert(field_matches(fields[6], m));
            } else if i == 7 {
                assert(field_matches(fields[7], m));
            } else if i == 8 {
                assert(field_matches(fields[8], m));
            }
        }
        lemma_object_round_trip(m, fields);
    }

    open spec fn rereads(x: Self) -> bool {
        field_rereads::<String>(x.common.object_class_name)
            && field_rereads::<Vec<String>>(x.common.rdap_conformance)
            && field_rereads::<Vec<Notice>>(x.common.notices)
            && field_rereads::<Vec<Link>>(x.common.links)
            && field_rereads::<Vec<Event>>(x.common.events)
            && field_rereads::<VectorStringish>(x.common.status)
            && field_rereads::<String>(x.common.port_43)
            && field_rereads::<String>(x.common.lang)
            && <Vec<Entity>>::rereads(x.results)
            && no_known(members_of(x.common.unknown_keys@), EntitySearchResults::keys())
    }

    open spec fn settled(x: Self, y: Self) -> bool {
        field_settled::<String>(x.common.object_class_name, y.common.object_class_name)
            && field_settled::<Vec<String>>(x.common.rdap_conformance, y.common.rdap_conformance)
            && field_settled::<Vec<Notice>>(x.common.notices, y.common.notices)
            && field_settled::<Vec<Link>>(x.common.links, y.common.links)
            && field_settled::<Vec<Event>>(x.common.events, y.common.events)
            && field_settled::<VectorStringish>(x.common.status, y.common.status)
            && field_settled::<String>(x.common.port_43, y.common.port_43)
            && field_settled::<String>(x.common.lang, y.common.lang)
            && <Vec<Entity>>::settled(x.results, y.results)
            && members_of(y.common.unknown_keys@) == members_of(x.common.unknown_keys@)
    }

    #[verifier::rlimit(60)]
    proof fn read_again(x: Self, y: Self) {
        let fields = EntitySearchResults::fields(x);
        let kept = members_of(x.common.unknown_keys@);
        let m = written(fields) + kept;
        EntitySearchResults::lemma_keys();
        assert(keys_of(fields) =~= EntitySearchResults::keys());
        lemma_object_read_again(fields, kept);
        assert(fields[0] == field_json::<String>("objectClassName"@, x.common.object_class_name));
        assert(member_of(m, "objectClassName"@) == fields[0].1);
        lemma_field_read_again::<String>(m, "objectClassName"@, x.common.object_class_name, y.common.object_class_name);
        assert(fields[1] == field_json::<Vec<String>>("rdapConformance"@, x.common.rdap_conformance));
        assert(member_of(m, "rdapConformance"@) == fields[1].1);
        lemma_field_read_again::<Vec<String>>(m, "rdapConformance"@, x.common.rdap_conformance, y.common.rdap_conformance);
        assert(fields[2] == field_json::<Vec<Notice>>("notices"@, x.common.notices));
        assert(member_of(m, "notices"@) == fields[2].1);
        lemma_field_read_again::<Vec<Notice>>(m, "notices"@, x.common.notices, y.common.notices);
        assert(fields[3] == field_json::<Vec<Link>>("links"@, x.common.links));
        assert(member_of(m, "links"@) == fields[3].1);
        lemma_field_read_again::<Vec<Link>>(m, "links"@, x.common.links, y.common.links);
        assert(fields[4] == field_json::<Vec<Event>>("events"@, x.common.events));
        assert(member_of(m, "events"@) == fields[4].1);
        lemma_field_read_again::<Vec<Event>>(m, "events"@, x.common.events, y.common.events);
        assert(fields[5] == field_json::<VectorStringish>("status"@, x.common.status));
        assert(member_of(m, "status"@) == fields[5].1);
        lemma_field_read_again::<VectorStringish>(m, "status"@, x.common.status, y.common.status);
        assert(fields[6] == field_json::<String>("port43"@, x.common.port_43));
        assert(member_of(m, "port43"@) == fields[6].1);
        lemma_field_read_again::<String>(m, "port43"@, x.common.port_43, y.common.port_43);
        assert(fields[7] == field_json::<String>("lang"@, x.common.lang));
        assert(member_of(m, "lang"@) == fields[7].1);
        lemma_field_read_again::<String>(m, "lang"@, x.common.lang, y.common.lang);
        assert(fields[8] == required_json::<Vec<Entity>>("entitySearchResults"@, x.results));
        assert(member_of(m, "entitySearchResults"@) == fields[8].1);
        lemma_required_read_again::<Vec<Entity>>(m, "entitySearchResults"@, x.results, y.results);
    }

    #[verifier::rlimit(60)]
    proof fn rereadable(x: Self) {
        let fields = EntitySearchResults::fields(x);
        let kept = members_of(x.common.unknown_keys@);
        let m = written(fields) + kept;
        EntitySearchResults::lemma_keys();
        assert(keys_of(fields) =~= EntitySearchResults::keys());
        lemma_object_read_again(fields, kept);
        assert(fields[0] == field_json::<String>("objectClassName"@, x.common.object_class_name));
        assert(member_of(m, "objectClassName"@) == fields[0].1);
        lemma_field_rereadable::<String>(m, "objectClassName"@, x.common.object_class_name);
        assert(fields[1] == field_json::<Vec<String>>("rdapConformance"@, x.common.rdap_conformance));
        assert(member_of(m, "rdapConformance"@) == fields[1].1);
        lemma_field_rereadable::<Vec<String>>(m, "rdapConformance"@, x.common.rdap_conformance);
        assert(fields[2] == field_json::<Vec<Notice>>("notices"@, x.common.notices));
        assert(member_of(m, "notices"@) == fields[2].1);
        lemma_field_rereadable::<Vec<Notice>>(m, "notices"@, x.common.notices);
        assert(fields[3] == field_json::<Vec<Link>>("links"@, x.common.links));
        assert(member_of(m, "links"@) == fields[3].1);
        lemma_field_rereadable::<Vec<Link>>(m, "links"@, x.common.links);
        assert(fields[4] == field_json::<Vec<Event>>("events"@, x.common.events));
        assert(member_of(m, "events"@) == fields[4].1);
        lemma_field_rereadable::<Vec<Event>>(m, "events"@, x.common.events);
        assert(fields[5] == field_json::<VectorStringish>("status"@, x.common.status));
        assert(member_of(m, "status"@) == fields[5].1);
        lemma_field_rereadable::<VectorStringish>(m, "status"@, x.common.status);
        assert(fields[6] == field_json::<String>("port43"@, x.common.port_43));
        assert(member_of(m, "port43"@) == fields[6].1);
        lemma_field_rereadable::<String>(m, "port43"@, x.common.port_43);
        assert(fields[7] == field_json::<String>("lang"@, x.common.lang));
        assert(member_of(m, "lang"@) == fields[7].1);
        lemma_field_rereadable::<String>(m, "lang"@, x.common.lang);
        assert(fields[8] == required_json::<Vec<Entity>>("entitySearchResults"@, x.results));
        assert(member_of(m, "entitySearchResults"@) == fields[8].1);
        lemma_required_rereadable::<Vec<Entity>>(m, "entitySearchResults"@, x.results);
    }
}

impl NameserverSearchResults {
    /// The keys of the members that are known.
    pub open spec fn keys() -> Seq<Seq<char>> {
        seq!["objectClassName"@, "rdapConformance"@, "notices"@, "links"@, "events"@, "status"@, "port43"@, "lang"@, "nameserverSearchResults"@]
    }

    /// What is written for the members that are known.
    pub open spec fn fields(x: NameserverSearchResults) -> Seq<Field> {
        seq![
            field_json::<String>("objectClassName"@, x.common.object_class_name),
            field_json::<Vec<String>>("rdapConformance"@, x.common.rdap_conformance),
            field_json::<Vec<Notice>>("notices"@, x.common.notices),
            field_json::<Vec<Link>>("links"@, x.common.links),
            field_json::<Vec<Event>>("events"@, x.common.events),
            field_json::<VectorStringish>("status"@, x.common.status),
            field_json::<String>("port43"@, x.common.port_43),
            field_json::<String>("lang"@, x.common.lang),
            required_json::<Vec<Nameserver>>("nameserverSearchResults"@, x.results),
        ]
    }

    /// No key stands twice among the keys that are known.
    pub proof fn lemma_keys()
        ensures
            distinct(NameserverSearchResults::keys()),
    {
        reveal_strlit("objectClassName");
        reveal_strlit("rdapConformance");
        reveal_strlit("notices");
        reveal_strlit("links");
        reveal_strlit("events");
        reveal_strlit("status");
        reveal_strlit("port43");
        reveal_strlit("lang");
        reveal_strlit("nameserverSearchResults");
        assert("objectClassName"@[0] == 'o');
        assert("rdapConformance"@[0] == 'r');
        assert("events"@[0] == 'e');
        assert("status"@[0] == 's');
        assert("port43"@[0] == 'p');
        assert("objectClassName"@.len() == 15);
        assert("rdapConformance"@.len() == 15);
        assert("notices"@.len() == 7);
        assert("links"@.len() == 5);
        assert("events"@.len() == 6);
        assert("status"@.len() == 6);
        assert("port43"@.len() == 6);
        assert("lang"@.len() == 4);
        assert("nameserverSearchResults"@.len() == 23);
    }
}

impl Codec for NameserverSearchResults {
    open spec fn readable(j: JsonValue) -> bool {
        j matches JsonValue::Object(m) && field_readable::<String>(m, "objectClassName"@)
            && field_readable::<Vec<String>>(m, "rdapConformance"@)
            && field_readable::<Vec<Notice>>(m, "notices"@)
            && field_readable::<Vec<Link>>(m, "links"@)
            && field_readable::<Vec<Event>>(m, "events"@)
            && field_readable::<VectorStringish>(m, "status"@)
            && field_readable::<String>(m, "port43"@)
            && field_readable::<String>(m, "lang"@)
            && required_readable::<Vec<Nameserver>>(m, "nameserverSearchResults"@)
    }

    open spec fn reads(j: JsonValue, x: Self) -> bool {
        j matches JsonValue::Object(m) && field_reads::<String>(m, "objectClassName"@, x.common.object_class_name)
            && field_reads::<Vec<String>>(m, "rdapConformance"@, x.common.rdap_conformance)
            && field_reads::<Vec<Notice>>(m, "notices"@, x.common.notices)
            && field_reads::<Vec<Link>>(m, "links"@, x.common.links)
            && field_reads::<Vec<Event>>(m, "events"@, x.common.events)
            && field_reads::<VectorStringish>(m, "status"@, x.common.status)
            && field_reads::<String>(m, "port43"@, x.common.port_43)
            && field_reads::<String>(m, "lang"@, x.common.lang)
            && required_reads::<Vec<Nameserver>>(m, "nameserverSearchResults"@, x.results)
            && members_of(x.common.unknown_keys@) == without_keys(m, NameserverSearchResults::keys())
    }

    open spec fn fault(j: JsonValue) -> Path {
        match j {
            JsonValue::Object(m) => {
                if !field_readable::<String>(m, "objectClassName"@) {
                    field_fault::<String>(m, "objectClassName"@)
                } else if !field_readable::<Vec<String>>(m, "rdapConformance"@) {
                    field_fault::<Vec<String>>(m, "rdapConformance"@)
                } else if !field_readable::<Vec<Notice>>(m, "notices"@) {
                    field_fault::<Vec<Notice>>(m, "notices"@)
                } else if !field_readable::<Vec<Link>>(m, "links"@) {
                    field_fault::<Vec<Link>>(m, "links"@)
                } else if !field_readable::<Vec<Event>>(m, "events"@) {
                    field_fault::<Vec<Event>>(m, "events"@)
                } else if !field_readable::<VectorStringish>(m, "status"@) {
                    field_fault::<VectorStringish>(m, "status"@)
                } else if !field_readable::<String>(m, "port43"@) {
                    field_fault::<String>(m, "port43"@)
                } else if !field_readable::<String>(m, "lang"@) {
                    field_fault::<String>(m, "lang"@)
                } else if !required_readable::<Vec<Nameserver>>(m, "nameserverSearchResults"@) {
                    field_fault::<Vec<Nameserver>>(m, "nameserverSearchResults"@)
                } else {
                    Seq::empty()
                }
            },
            _ => Seq::empty(),
        }
    }

    open spec fn json(x: Self) -> JsonValue {
        object_json(NameserverSearchResults::fields(x), members_of(x.common.unknown_keys@))
    }

    open spec fn plain(x: Self) -> bool {
        field_plain::<String>(x.common.object_class_name)
            && field_plain::<Vec<String>>(x.common.rdap_conformance)
            && field_plain::<Vec<Notice>>(x.common.notices)
            && field_plain::<Vec<Link>>(x.common.links)
            && field_plain::<Vec<Event>>(x.common.events)
            && field_plain::<VectorStringish>(x.common.status)
            && field_plain::<String>(x.common.port_43)
            && field_plain::<String>(x.common.lang)
            && <Vec<Nameserver>>::plain(x.results)
    }

    fn decode(j: &Json) -> (r: Result<Self, Vec<String>>) {
        let m = match j {
            Json::Object(m) => m,
            _ => {
                return Err(crate::codec::here());
            },
        };
        proof {
            lemma_object_view(*j);
        }
        let f0 = read_field::<String>(m, "objectClassName")?;
        let f1 = read_field::<Vec<String>>(m, "rdapConformance")?;
        let f2 = read_field::<Vec<Notice>>(m, "notices")?;
        let f3 = read_field::<Vec<Link>>(m, "links")?;
        let f4 = read_field::<Vec<Event>>(m, "events")?;
        let f5 = read_field::<VectorStringish>(m, "status")?;
        let f6 = read_field::<String>(m, "port43")?;
        let f7 = read_field::<String>(m, "lang")?;
        let f8 = read_required::<Vec<Nameserver>>(m, "nameserverSearchResults")?;
        let keys: Vec<&str> = vec!["objectClassName", "rdapConformance", "notices", "links", "events", "status", "port43", "lang", "nameserverSearchResults"];
        assert(names(keys@) =~= NameserverSearchResults::keys());
        let kept = keep_unknown(m, keys.as_slice());
        let common = Common {
            object_class_name: f0,
            rdap_conformance: f1,
            notices: f2,
            links: f3,
            events: f4,
            status: f5,
            port_43: f6,
            lang: f7,
            unknown_keys: kept,
        };
        Ok(NameserverSearchResults {
            common,
            results: f8,
        })
    }

    fn encode(&self) -> (j: Json) {
        let mut out: Vec<(String, Json)> = Vec::new();
        let ghost mut fields: Seq<Field> = Seq::empty();
        assert(members_of(out@) =~= written(fields));
        write_field::<String>(&mut out, "objectClassName", &self.common.object_class_name);
        proof {
            lemma_written_push(fields, field_json::<String>("objectClassName"@, self.common.object_class_name));
            fields = fields.push(field_json::<String>("objectClassName"@, self.common.object_class_name));
        }
        write_field::<Vec<String>>(&mut out, "rdapConformance", &self.common.rdap_conformance);
        proof {
            lemma_written_push(fields, field_json::<Vec<String>>("rdapConformance"@, self.common.rdap_conformance));
            fields = fields.push(field_json::<Vec<String>>("rdapConformance"@, self.common.rdap_conformance));
        }
        write_field::<Vec<Notice>>(&mut out, "notices", &self.common.notices);
        proof {
            lemma_written_push(fields, field_json::<Vec<Notice>>("notices"@, self.common.notices));
            fields = fields.push(field_json::<Vec<Notice>>("notices"@, self.common.notices));
        }
        write_field::<Vec<Link>>(&mut out, "links", &self.common.links);
        proof {
            lemma_written_push(fields, field_json::<Vec<Link>>("links"@, self.common.links));
            fields = fields.push(field_json::<Vec<Link>>("links"@, self.common.links));
        }
        write_field::<Vec<Event>>(&mut out, "events", &self.common.events);
        proof {
            lemma_written_push(fields, field_json::<Vec<Event>>("events"@, self.common.events));
            fields = fields.push(field_json::<Vec<Event>>("events"@, self.common.events));
        }
        write_field::<VectorStringish>(&mut out, "status", &self.common.status);
        proof {
            lemma_written_push(fields, field_json::<VectorStringish>("status"@, self.common.status));
            fields = fields.push(field_json::<VectorStringish>("status"@, self.common.status));
        }
        write_field::<String>(&mut out, "port43", &self.common.port_43);
        proof {
            lemma_written_push(fields, field_json::<String>("port43"@, self.common.port_43));
            fields = fields.push(field_json::<String>("port43"@, self.common.port_43));
        }
        write_field::<String>(&mut out, "lang", &self.common.lang);
        proof {
            lemma_written_push(fields, field_json::<String>("lang"@, self.common.lang));
            fields = fields.push(field_json::<String>("lang"@, self.common.lang));
        }
        write_required::<Vec<Nameserver>>(&mut out, "nameserverSearchResults", &self.results);
        proof {
            lemma_written_push(fields, required_json::<Vec<Nameserver>>("nameserverSearchResults"@, self.results));
            fields = fields.push(required_json::<Vec<Nameserver>>("nameserverSearchResults"@, self.results));
        }
        assert(fields =~= NameserverSearchResults::fields(*self));
        write_kept(&mut out, &self.common.unknown_keys);
        let j = Json::Object(out);
        proof {
            lemma_object_view(j);
        }
        j
    }

    #[verifier::rlimit(60)]
    proof fn round_trip(j: JsonValue, x: Self) {
        let m = j->Object_0;
        let fields = NameserverSearchResults::fields(x);
        lemma_field_round_trip::<String>(m, "objectClassName"@, x.common.object_class_name);
        lemma_field_round_trip::<Vec<String>>(m, "rdapConformance"@, x.common.rdap_conformance);
        lemma_field_round_trip::<Vec<Notice>>(m, "notices"@, x.common.notices);
        lemma_field_round_trip::<Vec<Link>>(m, "links"@, x.common.links);
        lemma_field_round_trip::<Vec<Event>>(m, "events"@, x.common.events);
        lemma_field_round_trip::<VectorStringish>(m, "status"@, x.common.status);
        lemma_field_round_trip::<String>(m, "port43"@, x.common.port_43);
        lemma_field_round_trip::<String>(m, "lang"@, x.common.lang);
        lemma_required_round_trip::<Vec<Nameserver>>(m, "nameserverSearchResults"@, x.results);
        NameserverSearchResults::lemma_keys();
        assert(keys_of(fields) =~= NameserverSearchResults::keys());
        assert(fields[0] == field_json::<String>("objectClassName"@, x.common.object_class_name));
        assert(fields[1] == field_json::<Vec<String>>("rdapConformance"@, x.common.rdap_conformance));
        assert(fields[2] == field_json::<Vec<Notice>>("notices"@, x.common.notices));
        assert(fields[3] == field_json::<Vec<Link>>("links"@, x.common.links));
        assert(fields[4] == field_json::<Vec<Event>>("events"@, x.common.events));
        assert(fields[5] == field_json::<VectorStringish>("status"@, x.common.status));
        assert(fields[6] == field_json::<String>("port43"@, x.common.port_43));
        assert(fields[7] == field_json::<String>("lang"@, x.common.lang));
        assert(fields[8] == required_json::<Vec<Nameserver>>("nameserverSearchResults"@, x.results));
        assert forall|i: int| 0 <= i < fields.len() implies field_matches(#[trigger] fields[i], m) by {
            if i == 0 {
                assert(field_matches(fields[0], m));
            } else if i == 1 {
                assert(field_matches(fields[1], m));
            } else if i == 2 {
                assert(field_matches(fields[2], m));
            } else if i == 3 {
                assert(field_matches(fields[3], m));
            } else if i == 4 {
                assert(field_matches(fields[4], m));
            } else if i == 5 {
                assert(field_matches(fields[5], m));
            } else if i == 6 {
                assert(field_matches(fields[6], m));
            } else if i == 7 {
                assert(field_matches(fields[7], m));
            } else if i == 8 {
                assert(field_matches(fields[8], m));
            }
        }
        lemma_object_round_trip(m, fields);
    }

    open spec fn rereads(x: Self) -> bool {
        field_rereads::<String>(x.common.object_class_name)
            && field_rereads::<Vec<String>>(x.common.rdap_conformance)
            && field_rereads::<Vec<Notice>>(x.common.notices)
            && field_rereads::<Vec<Link>>(x.common.links)
            && field_rereads::<Vec<Event>>(x.common.events)
            && field_rereads::<VectorStringish>(x.common.status)
            && field_rereads::<String>(x.common.port_43)
            && field_rereads::<String>(x.common.lang)
            && <Vec<Nameserver>>::rereads(x.results)
            && no_known(members_of(x.common.unknown_keys@), NameserverSearchResults::keys())
    }

    open spec fn settled(x: Self, y: Self) -> bool {
        field_settled::<String>(x.common.object_class_name, y.common.object_class_name)
            && field_settled::<Vec<String>>(x.common.rdap_conformance, y.common.rdap_conformance)
            && field_settled::<Vec<Notice>>(x.common.notices, y.common.notices)
            && field_settled::<Vec<Link>>(x.common.links, y.common.links)
            && field_settled::<Vec<Event>>(x.common.events, y.common.events)
            && field_settled::<VectorStringish>(x.common.status, y.common.status)
            && field_settled::<String>(x.common.port_43, y.common.port_43)
            && field_settled::<String>(x.common.lang, y.common.lang)
            && <Vec<Nameserver>>::settled(x.results, y.results)
            && members_of(y.common.unknown_keys@) == members_of(x.common.unknown_keys@)
    }

    #[verifier::rlimit(60)]
    proof fn read_again(x: Self, y: Self) {
        let fields = NameserverSearchResults::fields(x);
        let kept = members_of(x.common.unknown_keys@);
        let m = written(fields) + kept;
        NameserverSearchResults::lemma_keys();
        assert(keys_of(fields) =~= NameserverSearchResults::keys());
        lemma_object_read_again(fields, kept);
        assert(fields[0] == field_json::<String>("objectClassName"@, x.common.object_class_name));
        assert(member_of(m, "objectClassName"@) == fields[0].1);
        lemma_field_read_again::<String>(m, "objectClassName"@, x.common.object_class_name, y.common.object_class_name);
        assert(fields[1] == field_json::<Vec<String>>("rdapConformance"@, x.common.rdap_conformance));
        assert(member_of(m, "rdapConformance"@) == fields[1].1);
        lemma_field_read_again::<Vec<String>>(m, "rdapConformance"@, x.common.rdap_conformance, y.common.rdap_conformance);
        assert(fields[2] == field_json::<Vec<Notice>>("notices"@, x.common.notices));
        assert(member_of(m, "notices"@) == fields[2].1);
        lemma_field_read_again::<Vec<Notice>>(m, "notices"@, x.common.notices, y.common.notices);
        assert(fields[3] == field_json::<Vec<Link>>("links"@, x.common.links));
        assert(member_of(m, "links"@) == fields[3].1);
        lemma_field_read_again::<Vec<Link>>(m, "links"@, x.common.links, y.common.links);
        assert(fields[4] == field_json::<Vec<Event>>("events"@, x.common.events));
        assert(member_of(m, "events"@) == fields[4].1);
        lemma_field_read_again::<Vec<Event>>(m, "events"@, x.common.events, y.common.events);
        assert(fields[5] == field_json::<VectorStringish>("status"@, x.common.status));
        assert(member_of(m, "status"@) == fields[5].1);
        lemma_field_read_again::<VectorStringish>(m, "status"@, x.common.status, y.common.status);
        assert(fields[6] == field_json::<String>("port43"@, x.common.port_43));
        assert(member_of(m, "port43"@) == fields[6].1);
        lemma_field_read_again::<String>(m, "port43"@, x.common.port_43, y.common.port_43);
        assert(fields[7] == field_json::<String>("lang"@, x.common.lang));
        assert(member_of(m, "lang"@) == fields[7].1);
        lemma_field_read_again::<String>(m, "lang"@, x.common.lang, y.common.lang);
        assert(fields[8] == required_json::<Vec<Nameserver>>("nameserverSearchResults"@, x.results));
        assert(member_of(m, "nameserverSearchResults"@) == fields[8].1);
        lemma_required_read_again::<Vec<Nameserver>>(m, "nameserverSearchResults"@, x.results, y.results);
    }

    #[verifier::rlimit(60)]
    proof fn rereadable(x: Self) {
        let fields = NameserverSearchResults::fields(x);
        let kept = members_of(x.common.unknown_keys@);
        let m = written(fields) + kept;
        NameserverSearchResults::lemma_keys();
        assert(keys_of(fields) =~= NameserverSearchResults::keys());
        lemma_object_read_again(fields, kept);
        assert(fields[0] == field_json::<String>("objectClassName"@, x.common.object_class_name));
        assert(member_of(m, "objectClassName"@) == fields[0].1);
        lemma_field_rereadable::<String>(m, "objectClassName"@, x.common.object_class_name);
        assert(fields[1] == field_json::<Vec<String>>("rdapConformance"@, x.common.rdap_conformance));
        assert(member_of(m, "rdapConformance"@) == fields[1].1);
        lemma_field_rereadable::<Vec<String>>(m, "rdapConformance"@, x.common.rdap_conformance);
        assert(fields[2] == field_json::<Vec<Notice>>("notices"@, x.common.notices));
        assert(member_of(m, "notices"@) == fields[2].1);
        lemma_field_rereadable::<Vec<Notice>>(m, "notices"@, x.common.notices);
        assert(fields[3] == field_json::<Vec<Link>>("links"@, x.common.links));
        assert(member_of(m, "links"@) == fields[3].1);
        lemma_field_rereadable::<Vec<Link>>(m, "links"@, x.common.links);
        assert(fields[4] == field_json::<Vec<Event>>("events"@, x.common.events));
        assert(member_of(m, "events"@) == fields[4].1);
        lemma_field_rereadable::<Vec<Event>>(m, "events"@, x.common.events);
        assert(fields[5] == field_json::<VectorStringish>("status"@, x.common.status));
        assert(member_of(m, "status"@) == fields[5].1);
        lemma_field_rereadable::<VectorStringish>(m, "status"@, x.common.status);
        assert(fields[6] == field_json::<String>("port43"@, x.common.port_43));
        assert(member_of(m, "port43"@) == fields[6].1);
        lemma_field_rereadable::<String>(m, "port43"@, x.common.port_43);
        assert(fields[7] == field_json::<String>("lang"@, x.common.lang));
        assert(member_of(m, "lang"@) == fields[7].1);
        lemma_field_rereadable::<String>(m, "lang"@, x.common.lang);
        assert(fields[8] == required_json::<Vec<Nameserver>>("nameserverSearchResults"@, x.results));
        assert(member_of(m, "nameserverSearchResults"@) == fields[8].1);
        lemma_required_rereadable::<Vec<Nameserver>>(m, "nameserverSearchResults"@, x.results);
    }
}

impl Rfc9083Error {
    /// The keys of the members that are known.
    pub open spec fn keys() -> Seq<Seq<char>> {
        seq!["objectClassName"@, "rdapConformance"@, "notices"@, "links"@, "events"@, "status"@, "port43"@, "lang"@, "errorCode"@, "title"@, "description"@]
    }

    /// What is written for the members that are known.
    pub open spec fn fields(x: Rfc9083Error) -> Seq<Field> {
        seq![
            field_json::<String>("objectClassName"@, x.common.object_class_name),
            field_json::<Vec<String>>("rdapConformance"@, x.common.rdap_conformance),
            field_json::<Vec<Notice>>("notices"@, x.common.notices),
            field_json::<Vec<Link>>("links"@, x.common.links),
            field_json::<Vec<Event>>("events"@, x.common.events),
            field_json::<VectorStringish>("status"@, x.common.status),
            field_json::<String>("port43"@, x.common.port_43),
            field_json::<String>("lang"@, x.common.lang),
            required_json::<u16>("errorCode"@, x.error_code),
            field_json::<String>("title"@, x.title),
            field_json::<Vec<String>>("description"@, x.description),
        ]
    }

    /// No key stands twice among the keys that are known.
    pub proof fn lemma_keys()
        ensures
            distinct(Rfc9083Error::keys()),
    {
        reveal_strlit("objectClassName");
        reveal_strlit("rdapConformance");
        reveal_strlit("notices");
        reveal_strlit("links");
        reveal_strlit("events");
        reveal_strlit("status");
        reveal_strlit("port43");
        reveal_strlit("lang");
        reveal_strlit("errorCode");
        reveal_strlit("title");
        reveal_strlit("description");
        assert("objectClassName"@[0] == 'o');
        assert("rdapConformance"@[0] == 'r');
        assert("links"@[0] == 'l');
        assert("title"@[0] == 't');
        assert("events"@[0] == 'e');
        assert("status"@[0] == 's');
        assert("port43"@[0] == 'p');
        assert("objectClassName"@.len() == 15);
        assert("rdapConformance"@.len() == 15);
        assert("notices"@.len() == 7);
        assert("links"@.len() == 5);
        assert("events"@.len() == 6);
        assert("status"@.len() == 6);
        assert("port43"@.len() == 6);
        assert("lang"@.len() == 4);
        assert("errorCode"@.len() == 9);
        assert("title"@.len() == 5);
        assert("description"@.len() == 11);
    }
}

impl Codec for Rfc9083Error {
    open spec fn readable(j: JsonValue) -> bool {
        j matches JsonValue::Object(m) && field_readable::<String>(m, "objectClassName"@)
            && field_readable::<Vec<String>>(m, "rdapConformance"@)
            && field_readable::<Vec<Notice>>(m, "notices"@)
            && field_readable::<Vec<Link>>(m, "links"@)
            && field_readable::<Vec<Event>>(m, "events"@)
            && field_readable::<VectorStringish>(m, "status"@)
            && field_readable::<String>(m, "port43"@)
            && field_readable::<String>(m, "lang"@)
            && required_readable::<u16>(m, "errorCode"@)
            && field_readable::<String>(m, "title"@)
            && field_readable::<Vec<String>>(m, "description"@)
    }

    open spec fn reads(j: JsonValue, x: Self) -> bool {
        j matches JsonValue::Object(m) && field_reads::<String>(m, "objectClassName"@, x.common.object_class_name)
            && field_reads::<Vec<String>>(m, "rdapConformance"@, x.common.rdap_conformance)
            && field_reads::<Vec<Notice>>(m, "notices"@, x.common.notices)
            && field_reads::<Vec<Link>>(m, "links"@, x.common.links)
            && field_reads::<Vec<Event>>(m, "events"@, x.common.events)
            && field_reads::<VectorStringish>(m, "status"@, x.common.status)
            && field_reads::<String>(m, "port43"@, x.common.port_43)
            && field_reads::<String>(m, "lang"@, x.common.lang)
            && required_reads::<u16>(m, "errorCode"@, x.error_code)
            && field_reads::<String>(m, "title"@, x.title)
            && field_reads::<Vec<String>>(m, "description"@, x.description)
            && members_of(x.common.unknown_keys@) == without_keys(m, Rfc9083Error::keys())
    }

    open spec fn fault(j: JsonValue) -> Path {
        match j {
            JsonValue::Object(m) => {
                if !field_readable::<String>(m, "objectClassName"@) {
                    field_fault::<String>(m, "objectClassName"@)
                } else if !field_readable::<Vec<String>>(m, "rdapConformance"@) {
                    field_fault::<Vec<String>>(m, "rdapConformance"@)
                } else if !field_readable::<Vec<Notice>>(m, "notices"@) {
                    field_fault::<Vec<Notice>>(m, "notices"@)
                } else if !field_readable::<Vec<Link>>(m, "links"@) {
                    field_fault::<Vec<Link>>(m, "links"@)
                } else if !field_readable::<Vec<Event>>(m, "events"@) {
                    field_fault::<Vec<Event>>(m, "events"@)
                } else if !field_readable::<VectorStringish>(m, "status"@) {
                    field_fault::<VectorStringish>(m, "status"@)
                } else if !field_readable::<String>(m, "port43"@) {
                    field_fault::<String>(m, "port43"@)
                } else if !field_readable::<String>(m, "lang"@) {
                    field_fault::<String>(m, "lang"@)
                } else if !required_readable::<u16>(m, "errorCode"@) {
                    field_fault::<u16>(m, "errorCode"@)
                } else if !field_readable::<String>(m, "title"@) {
                    field_fault::<String>(m, "title"@)
                } else if !field_readable::<Vec<String>>(m, "description"@) {
                    field_fault::<Vec<String>>(m, "description"@)
                } else {
                    Seq::empty()
                }
            },
            _ => Seq::empty(),
        }
    }

    open spec fn json(x: Self) -> JsonValue {
        object_json(Rfc9083Error::fields(x), members_of(x.common.unknown_keys@))
    }

    open spec fn plain(x: Self) -> bool {
        field_plain::<String>(x.common.object_class_name)
            && field_plain::<Vec<String>>(x.common.rdap_conformance)
            && field_plain::<Vec<Notice>>(x.common.notices)
            && field_plain::<Vec<Link>>(x.common.links)
            && field_plain::<Vec<Event>>(x.common.events)
            && field_plain::<VectorStringish>(x.common.status)
            && field_plain::<String>(x.common.port_43)
            && field_plain::<String>(x.common.lang)
            && <u16>::plain(x.error_code)
            && field_plain::<String>(x.title)
            && field_plain::<Vec<String>>(x.description)
    }

    fn decode(j: &Json) -> (r: Result<Self, Vec<String>>) {
        let m = match j {
            Json::Object(m) => m,
            _ => {
                return Err(crate::codec::here());
            },
        };
        proof {
            lemma_object_view(*j);
        }
        let f0 = read_field::<String>(m, "objectClassName")?;
        let f1 = read_field::<Vec<String>>(m, "rdapConformance")?;
        let f2 = read_field::<Vec<Notice>>(m, "notices")?;
        let f3 = read_field::<Vec<Link>>(m, "links")?;
        let f4 = read_field::<Vec<Event>>(m, "events")?;
        let f5 = read_field::<VectorStringish>(m, "status")?;
        let f6 = read_field::<String>(m, "port43")?;
        let f7 = read_field::<String>(m, "lang")?;
        let f8 = read_required::<u16>(m, "errorCode")?;
        let f9 = read_field::<String>(m, "title")?;
        let f10 = read_field::<Vec<String>>(m, "description")?;
        let keys: Vec<&str> = vec!["objectClassName", "rdapConformance", "notices", "links", "events", "status", "port43", "lang", "errorCode", "title", "description"];
        assert(names(keys@) =~= Rfc9083Error::keys());
        let kept = keep_unknown(m, keys.as_slice());
        let common = Common {
            object_class_name: f0,
            rdap_conformance: f1,
            notices: f2,
            links: f3,
            events: f4,
            status: f5,
            port_43: f6,
            lang: f7,
            unknown_keys: kept,
        };
        Ok(Rfc9083Error {
            common,
            error_code: f8,
            title: f9,
            description: f10,
        })
    }

    fn encode(&self) -> (j: Json) {
        let mut out: Vec<(String, Json)> = Vec::new();
        let ghost mut fields: Seq<Field> = Seq::empty();
        assert(members_of(out@) =~= written(fields));
        write_field::<String>(&mut out, "objectClassName", &self.common.object_class_name);
        proof {
            lemma_written_push(fields, field_json::<String>("objectClassName"@, self.common.object_class_name));
            fields = fields.push(field_json::<String>("objectClassName"@, self.common.object_class_name));
        }
        write_field::<Vec<String>>(&mut out, "rdapConformance", &self.common.rdap_conformance);
        proof {
            lemma_written_push(fields, field_json::<Vec<String>>("rdapConformance"@, self.common.rdap_conformance));
            fields = fields.push(field_json::<Vec<String>>("rdapConformance"@, self.common.rdap_conformance));
        }
        write_field::<Vec<Notice>>(&mut out, "notices", &self.common.notices);
        proof {
            lemma_written_push(fields, field_json::<Vec<Notice>>("notices"@, self.common.notices));
            fields = fields.push(field_json::<Vec<Notice>>("notices"@, self.common.notices));
        }
        write_field::<Vec<Link>>(&mut out, "links", &self.common.links);
        proof {
            lemma_written_push(fields, field_json::<Vec<Link>>("links"@, self.common.links));
            fields = fields.push(field_json::<Vec<Link>>("links"@, self.common.links));
        }
        write_field::<Vec<Event>>(&mut out, "events", &self.common.events);
        proof {
            lemma_written_push(fields, field_json::<Vec<Event>>("events"@, self.common.events));
            fields = fields.push(field_json::<Vec<Event>>("events"@, self.common.events));
        }
        write_field::<VectorStringish>(&mut out, "status", &self.common.status);
        proof {
            lemma_written_push(fields, field_json::<VectorStringish>("status"@, self.common.status));
            fields = fields.push(field_json::<VectorStringish>("status"@, self.common.status));
        }
        write_field::<String>(&mut out, "port43", &self.common.port_43);
        proof {
            lemma_written_push(fields, field_json::<String>("port43"@, self.common.port_43));
            fields = fields.push(field_json::<String>("port43"@, self.common.port_43));
        }
        write_field::<String>(&mut out, "lang", &self.common.lang);
        proof {
            lemma_written_push(fields, field_json::<String>("lang"@, self.common.lang));
            fields = fields.push(field_json::<String>("lang"@, self.common.lang));
        }
        write_required::<u16>(&mut out, "errorCode", &self.error_code);
        proof {
            lemma_written_push(fields, required_json::<u16>("errorCode"@, self.error_code));
            fields = fields.push(required_json::<u16>("errorCode"@, self.error_code));
        }
        write_field::<String>(&mut out, "title", &self.title);
        proof {
            lemma_written_push(fields, field_json::<String>("title"@, self.title));
            fields = fields.push(field_json::<String>("title"@, self.title));
        }
        write_field::<Vec<String>>(&mut out, "description", &self.description);
        proof {
            lemma_written_push(fields, field_json::<Vec<String>>("description"@, self.description));
            fields = fields.push(field_json::<Vec<String>>("description"@, self.description));
        }
        assert(fields =~= Rfc9083Error::fields(*self));
        write_kept(&mut out, &self.common.unknown_keys);
        let j = Json::Object(out);
        proof {
            lemma_object_view(j);
        }
        j
    }

    #[verifier::rlimit(60)]
    proof fn round_trip(j: JsonValue, x: Self) {
        let m = j->Object_0;
        let fields = Rfc9083Error::fields(x);
        lemma_field_round_trip::<String>(m, "objectClassName"@, x.common.object_class_name);
        lemma_field_round_trip::<Vec<String>>(m, "rdapConformance"@, x.common.rdap_conformance);
        lemma_field_round_trip::<Vec<Notice>>(m, "notices"@, x.common.notices);
        lemma_field_round_trip::<Vec<Link>>(m, "links"@, x.common.links);
        lemma_field_round_trip::<Vec<Event>>(m, "events"@, x.common.events);
        lemma_field_round_trip::<VectorStringish>(m, "status"@, x.common.status);
        lemma_field_round_trip::<String>(m, "port43"@, x.common.port_43);
        lemma_field_round_trip::<String>(m, "lang"@, x.common.lang);
        lemma_required_round_trip::<u16>(m, "errorCode"@, x.error_code);
        lemma_field_round_trip::<String>(m, "title"@, x.title);
        lemma_field_round_trip::<Vec<String>>(m, "description"@, x.description);
        Rfc9083Error::lemma_keys();
        assert(keys_of(fields) =~= Rfc9083Error::keys());
        assert(fields[0] == field_json::<String>("objectClassName"@, x.common.object_class_name));
        assert(fields[1] == field_json::<Vec<String>>("rdapConformance"@, x.common.rdap_conformance));
        assert(fields[2] == field_json::<Vec<Notice>>("notices"@, x.common.notices));
        assert(fields[3] == field_json::<Vec<Link>>("links"@, x.common.links));
        assert(fields[4] == field_json::<Vec<Event>>("events"@, x.common.events));
        assert(fields[5] == field_json::<VectorStringish>("status"@, x.common.status));
        assert(fields[6] == field_json::<String>("port43"@, x.common.port_43));
        assert(fields[7] == field_json::<String>("lang"@, x.common.lang));
        assert(fields[8] == required_json::<u16>("errorCode"@, x.error_code));
        assert(fields[9] == field_json::<String>("title"@, x.title));
        assert(fields[10] == field_json::<Vec<String>>("description"@, x.description));
        assert forall|i: int| 0 <= i < fields.len() implies field_matches(#[trigger] fields[i], m) by {
            if i == 0 {
                assert(field_matches(fields[0], m));
            } else if i == 1 {
                assert(field_matches(fields[1], m));
            } else if i == 2 {
                assert(field_matches(fields[2], m));
            } else if i == 3 {
                assert(field_matches(fields[3], m));
            } else if i == 4 {
                assert(field_matches(fields[4], m));
            } else if i == 5 {
                assert(field_matches(fields[5], m));
            } else if i == 6 {
                assert(field_matches(fields[6], m));
            } else if i == 7 {
                assert(field_matches(fields[7], m));
            } else if i == 8 {
                assert(field_matches(fields[8], m));
            } else if i == 9 {
                assert(field_matches(fields[9], m));
            } else if i == 10 {
                assert(field_matches(fields[10], m));
            }
        }
        lemma_object_round_trip(m, fields);
    }

    open spec fn rereads(x: Self) -> bool {
        field_rereads::<String>(x.common.object_class_name)
            && field_rereads::<Vec<String>>(x.common.rdap_conformance)
            && field_rereads::<Vec<Notice>>(x.common.notices)
            && field_rereads::<Vec<Link>>(x.common.links)
            && field_rereads::<Vec<Event>>(x.common.events)
            && field_rereads::<VectorStringish>(x.common.status)
            && field_rereads::<String>(x.common.port_43)
            && field_rereads::<String>(x.common.lang)
            && <u16>::rereads(x.error_code)
            && field_rereads::<String>(x.title)
            && field_rereads::<Vec<String>>(x.description)
            && no_known(members_of(x.common.unknown_keys@), Rfc9083Error::keys())
    }

    open spec fn settled(x: Self, y: Self) -> bool {
        field_settled::<String>(x.common.object_class_name, y.common.object_class_name)
            && field_settled::<Vec<String>>(x.common.rdap_conformance, y.common.rdap_conformance)
            && field_settled::<Vec<Notice>>(x.common.notices, y.common.notices)
            && field_settled::<Vec<Link>>(x.common.links, y.common.links)
            && field_settled::<Vec<Event>>(x.common.events, y.common.events)
            && field_settled::<VectorStringish>(x.common.status, y.common.status)
            && field_settled::<String>(x.common.port_43, y.common.port_43)
            && field_settled::<String>(x.common.lang, y.common.lang)
            && <u16>::settled(x.error_code, y.error_code)
            && field_settled::<String>(x.title, y.title)
            && field_settled::<Vec<String>>(x.description, y.description)
            && members_of(y.common.unknown_keys@) == members_of(x.common.unknown_keys@)
    }

    #[verifier::rlimit(60)]
    proof fn read_again(x: Self, y: Self) {
        let fields = Rfc9083Error::fields(x);
        let kept = members_of(x.common.unknown_keys@);
        let m = written(fields) + kept;
        Rfc9083Error::lemma_keys();
        assert(keys_of(fields) =~= Rfc9083Error::keys());
        lemma_object_read_again(fields, kept);
        assert(fields[0] == field_json::<String>("objectClassName"@, x.common.object_class_name));
        assert(member_of(m, "objectClassName"@) == fields[0].1);
        lemma_field_read_again::<String>(m, "objectClassName"@, x.common.object_class_name, y.common.object_class_name);
        assert(fields[1] == field_json::<Vec<String>>("rdapConformance"@, x.common.rdap_conformance));
        assert(member_of(m, "rdapConformance"@) == fields[1].1);
        lemma_field_read_again::<Vec<String>>(m, "rdapConformance"@, x.common.rdap_conformance, y.common.rdap_conformance);
        assert(fields[2] == field_json::<Vec<Notice>>("notices"@, x.common.notices));
        assert(member_of(m, "notices"@) == fields[2].1);
        lemma_field_read_again::<Vec<Notice>>(m, "notices"@, x.common.notices, y.common.notices);
        assert(fields[3] == field_json::<Vec<Link>>("links"@, x.common.links));
        assert(member_of(m, "links"@) == fields[3].1);
        lemma_field_read_again::<Vec<Link>>(m, "links"@, x.common.links, y.common.links);
        assert(fields[4] == field_json::<Vec<Event>>("events"@, x.common.events));
        assert(member_of(m, "events"@) == fields[4].1);
        lemma_field_read_again::<Vec<Event>>(m, "events"@, x.common.events, y.common.events);
        assert(fields[5] == field_json::<VectorStringish>("status"@, x.common.status));
        assert(member_of(m, "status"@) == fields[5].1);
        lemma_field_read_again::<VectorStringish>(m, "status"@, x.common.status, y.common.status);
        assert(fields[6] == field_json::<String>("port43"@, x.common.port_43));
        assert(member_of(m, "port43"@) == fields[6].1);
        lemma_field_read_again::<String>(m, "port43"@, x.common.port_43, y.common.port_43);
        assert(fields[7] == field_json::<String>("lang"@, x.common.lang));
        assert(member_of(m, "lang"@) == fields[7].1);
        lemma_field_read_again::<String>(m, "lang"@, x.common.lang, y.common.lang);
        assert(fields[8] == required_json::<u16>("errorCode"@, x.error_code));
        assert(member_of(m, "errorCode"@) == fields[8].1);
        lemma_required_read_again::<u16>(m, "errorCode"@, x.error_code, y.error_code);
        assert(fields[9] == field_json::<String>("title"@, x.title));
        assert(member_of(m, "title"@) == fields[9].1);
        lemma_field_read_again::<String>(m, "title"@, x.title, y.title);
        assert(fields[10] == field_json::<Vec<String>>("description"@, x.description));
        assert(member_of(m, "description"@) == fields[10].1);
        lemma_field_read_again::<Vec<String>>(m, "description"@, x.description, y.description);
    }

    #[verifier::rlimit(60)]
    proof fn rereadable(x: Self) {
        let fields = Rfc9083Error::fields(x);
        let kept = members_of(x.common.unknown_keys@);
        let m = written(fields) + kept;
        Rfc9083Error::lemma_keys();
        assert(keys_of(fields) =~= Rfc9083Error::keys());
        lemma_object_read_again(fields, kept);
        assert(fields[0] == field_json::<String>("objectClassName"@, x.common.object_class_name));
        assert(member_of(m, "objectClassName"@) == fields[0].1);
        lemma_field_rereadable::<String>(m, "objectClassName"@, x.common.object_class_name);
        assert(fields[1] == field_json::<Vec<String>>("rdapConformance"@, x.common.rdap_conformance));
        assert(member_of(m, "rdapConformance"@) == fields[1].1);
        lemma_field_rereadable::<Vec<String>>(m, "rdapConformance"@, x.common.rdap_conformance);
        assert(fields[2] == field_json::<Vec<Notice>>("notices"@, x.common.notices));
        assert(member_of(m, "notices"@) == fields[2].1);
        lemma_field_rereadable::<Vec<Notice>>(m, "notices"@, x.common.notices);
        assert(fields[3] == field_json::<Vec<Link>>("links"@, x.common.links));
        assert(member_of(m, "links"@) == fields[3].1);
        lemma_field_rereadable::<Vec<Link>>(m, "links"@, x.common.links);
        assert(fields[4] == field_json::<Vec<Event>>("events"@, x.common.events));
        assert(member_of(m, "events"@) == fields[4].1);
        lemma_field_rereadable::<Vec<Event>>(m, "events"@, x.common.events);
        assert(fields[5] == field_json::<VectorStringish>("status"@, x.common.status));
        assert(member_of(m, "status"@) == fields[5].1);
        lemma_field_rereadable::<VectorStringish>(m, "status"@, x.common.status);
        assert(fields[6] == field_json::<String>("port43"@, x.common.port_43));
        assert(member_of(m, "port43"@) == fields[6].1);
        lemma_field_rereadable::<String>(m, "port43"@, x.common.port_43);
        assert(fields[7] == field_json::<String>("lang"@, x.common.lang));
        assert(member_of(m, "lang"@) == fields[7].1);
        lemma_field_rereadable::<String>(m, "lang"@, x.common.lang);
        assert(fields[8] == required_json::<u16>("errorCode"@, x.error_code));
        assert(member_of(m, "errorCode"@) == fields[8].1);
        lemma_required_rereadable::<u16>(m, "errorCode"@, x.error_code);
        assert(fields[9] == field_json::<String>("title"@, x.title));
        assert(member_of(m, "title"@) == fields[9].1);
        lemma_field_rereadable::<String>(m, "title"@, x.title);
        assert(fields[10] == field_json::<Vec<String>>("description"@, x.description));
        assert(member_of(m, "description"@) == fields[10].1);
        lemma_field_rereadable::<Vec<String>>(m, "description"@, x.description);
    }
}

impl Help {
    /// The keys of the members that are known.
    pub open spec fn keys() -> Seq<Seq<char>> {
        seq!["objectClassName"@, "rdapConformance"@, "notices"@, "links"@, "events"@, "status"@, "port43"@, "lang"@]
    }

    /// What is written for the members that are known.
    pub open spec fn fields(x: Help) -> Seq<Field> {
        seq![
            field_json::<String>("objectClassName"@, x.common.object_class_name),
            field_json::<Vec<String>>("rdapConformance"@, x.common.rdap_conformance),
            field_json::<Vec<Notice>>("notices"@, x.common.notices),
            field_json::<Vec<Link>>("links"@, x.common.links),
            field_json::<Vec<Event>>("events"@, x.common.events),
            field_json::<VectorStringish>("status"@, x.common.status),
            field_json::<String>("port43"@, x.common.port_43),
            field_json::<String>("lang"@, x.common.lang),
        ]
    }

    /// No key stands twice among the keys that are known.
    pub proof fn lemma_keys()
        ensures
            distinct(Help::keys()),
    {
        reveal_strlit("objectClassName");
        reveal_strlit("rdapConformance");
        reveal_strlit("notices");
        reveal_strlit("links");
        reveal_strlit("events");
        reveal_strlit("status");
        reveal_strlit("port43");
        reveal_strlit("lang");
        assert("objectClassName"@[0] == 'o');
        assert("rdapConformance"@[0] == 'r');
        assert("events"@[0] == 'e');
        assert("status"@[0] == 's');
        assert("port43"@[0] == 'p');
        assert("objectClassName"@.len() == 15);
        assert("rdapConformance"@.len() == 15);
        assert("notices"@.len() == 7);
        assert("links"@.len() == 5);
        assert("events"@.len() == 6);
        assert("status"@.len() == 6);
        assert("port43"@.len() == 6);
        assert("lang"@.len() == 4);
    }
}

impl Codec for Help {
    open spec fn readable(j: JsonValue) -> bool {
        j matches JsonValue::Object(m) && field_readable::<String>(m, "objectClassName"@)
            && field_readable::<Vec<String>>(m, "rdapConformance"@)
            && field_readable::<Vec<Notice>>(m, "notices"@)
            && field_readable::<Vec<Link>>(m, "links"@)
            && field_readable::<Vec<Event>>(m, "events"@)
            && field_readable::<VectorStringish>(m, "status"@)
            && field_readable::<String>(m, "port43"@)
            && field_readable::<String>(m, "lang"@)
    }

    open spec fn reads(j: JsonValue, x: Self) -> bool {
        j matches JsonValue::Object(m) && field_reads::<String>(m, "objectClassName"@, x.common.object_class_name)
            && field_reads::<Vec<String>>(m, "rdapConformance"@, x.common.rdap_conformance)
            && field_reads::<Vec<Notice>>(m, "notices"@, x.common.notices)
            && field_reads::<Vec<Link>>(m, "links"@, x.common.links)
            && field_reads::<Vec<Event>>(m, "events"@, x.common.events)
            && field_reads::<VectorStringish>(m, "status"@, x.common.status)
            && field_reads::<String>(m, "port43"@, x.common.port_43)
            && field_reads::<String>(m, "lang"@, x.common.lang)
            && members_of(x.common.unknown_keys@) == without_keys(m, Help::keys())
    }

    open spec fn fault(j: JsonValue) -> Path {
        match j {
            JsonValue::Object(m) => {
                if !field_readable::<String>(m, "objectClassName"@) {
                    field_fault::<String>(m, "objectClassName"@)
                } else if !field_readable::<Vec<String>>(m, "rdapConformance"@) {
                    field_fault::<Vec<String>>(m, "rdapConformance"@)
                } else if !field_readable::<Vec<Notice>>(m, "notices"@) {
                    field_fault::<Vec<Notice>>(m, "notices"@)
                } else if !field_readable::<Vec<Link>>(m, "links"@) {
                    field_fault::<Vec<Link>>(m, "links"@)
                } else if !field_readable::<Vec<Event>>(m, "events"@) {
                    field_fault::<Vec<Event>>(m, "events"@)
                } else if !field_readable::<VectorStringish>(m, "status"@) {
                    field_fault::<VectorStringish>(m, "status"@)
                } else if !field_readable::<String>(m, "port43"@) {
                    field_fault::<String>(m, "port43"@)
                } else if !field_readable::<String>(m, "lang"@) {
                    field_fault::<String>(m, "lang"@)
                } else {
                    Seq::empty()
                }
            },
            _ => Seq::empty(),
        }
    }

    open spec fn json(x: Self) -> JsonValue {
        object_json(Help::fields(x), members_of(x.common.unknown_keys@))
    }

    open spec fn plain(x: Self) -> bool {
        field_plain::<String>(x.common.object_class_name)
            && field_plain::<Vec<String>>(x.common.rdap_conformance)
            && field_plain::<Vec<Notice>>(x.common.notices)
            && field_plain::<Vec<Link>>(x.common.links)
            && field_plain::<Vec<Event>>(x.common.events)
            && field_plain::<VectorStringish>(x.common.status)
            && field_plain::<String>(x.common.port_43)
            && field_plain::<String>(x.common.lang)
    }

    fn decode(j: &Json) -> (r: Result<Self, Vec<String>>) {
        let m = match j {
            Json::Object(m) => m,
            _ => {
                return Err(crate::codec::here());
            },
        };
        proof {
            lemma_object_view(*j);
        }
        let f0 = read_field::<String>(m, "objectClassName")?;
        let f1 = read_field::<Vec<String>>(m, "rdapConformance")?;
        let f2 = read_field::<Vec<Notice>>(m, "notices")?;
        let f3 = read_field::<Vec<Link>>(m, "links")?;
        let f4 = read_field::<Vec<Event>>(m, "events")?;
        let f5 = read_field::<VectorStringish>(m, "status")?;
        let f6 = read_field::<String>(m, "port43")?;
        let f7 = read_field::<String>(m, "lang")?;
        let keys: Vec<&str> = vec!["objectClassName", "rdapConformance", "notices", "links", "events", "status", "port43", "lang"];
        assert(names(keys@) =~= Help::keys());
        let kept = keep_unknown(m, keys.as_slice());
        let common = Common {
            object_class_name: f0,
            rdap_conformance: f1,
            notices: f2,
            links: f3,
            events: f4,
            status: f5,
            port_43: f6,
            lang: f7,
            unknown_keys: kept,
        };
        Ok(Help {
            common,
        })
    }

    fn encode(&self) -> (j: Json) {
        let mut out: Vec<(String, Json)> = Vec::new();
        let ghost mut fields: Seq<Field> = Seq::empty();
        assert(members_of(out@) =~= written(fields));
        write_field::<String>(&mut out, "objectClassName", &self.common.object_class_name);
        proof {
            lemma_written_push(fields, field_json::<String>("objectClassName"@, self.common.object_class_name));
            fields = fields.push(field_json::<String>("objectClassName"@, self.common.object_class_name));
        }
        write_field::<Vec<String>>(&mut out, "rdapConformance", &self.common.rdap_conformance);
        proof {
            lemma_written_push(fields, field_json::<Vec<String>>("rdapConformance"@, self.common.rdap_conformance));
            fields = fields.push(field_json::<Vec<String>>("rdapConformance"@, self.common.rdap_conformance));
        }
        write_field::<Vec<Notice>>(&mut out, "notices", &self.common.notices);
        proof {
            lemma_written_push(fields, field_json::<Vec<Notice>>("notices"@, self.common.notices));
            fields = fields.push(field_json::<Vec<Notice>>("notices"@, self.common.notices));
        }
        write_field::<Vec<Link>>(&mut out, "links", &self.common.links);
        proof {
            lemma_written_push(fields, field_json::<Vec<Link>>("links"@, self.common.links));
            fields = fields.push(field_json::<Vec<Link>>("links"@, self.common.links));
        }
        write_field::<Vec<Event>>(&mut out, "events", &self.common.events);
        proof {
            lemma_written_push(fields, field_json::<Vec<Event>>("events"@, self.common.events));
            fields = fields.push(field_json::<Vec<Event>>("events"@, self.common.events));
        }
        write_field::<VectorStringish>(&mut out, "status", &self.common.status);
        proof {
            lemma_written_push(fields, field_json::<VectorStringish>("status"@, self.common.status));
            fields = fields.push(field_json::<VectorStringish>("status"@, self.common.status));
        }
        write_field::<String>(&mut out, "port43", &self.common.port_43);
        proof {
            lemma_written_push(fields, field_json::<String>("port43"@, self.common.port_43));
            fields = fields.push(field_json::<String>("port43"@, self.common.port_43));
        }
        write_field::<String>(&mut out, "lang", &self.common.lang);
        proof {
            lemma_written_push(fields, field_json::<String>("lang"@, self.common.lang));
            fields = fields.push(field_json::<String>("lang"@, self.common.lang));
        }
        assert(fields =~= Help::fields(*self));
        write_kept(&mut out, &self.common.unknown_keys);
        let j = Json::Object(out);
        proof {
            lemma_object_view(j);
        }
        j
    }

    #[verifier::rlimit(60)]
    proof fn round_trip(j: JsonValue, x: Self) {
        let m = j->Object_0;
        let fields = Help::fields(x);
        lemma_field_round_trip::<String>(m, "objectClassName"@, x.common.object_class_name);
        lemma_field_round_trip::<Vec<String>>(m, "rdapConformance"@, x.common.rdap_conformance);
        lemma_field_round_trip::<Vec<Notice>>(m, "notices"@, x.common.notices);
        lemma_field_round_trip::<Vec<Link>>(m, "links"@, x.common.links);
        lemma_field_round_trip::<Vec<Event>>(m, "events"@, x.common.events);
        lemma_field_round_trip::<VectorStringish>(m, "status"@, x.common.status);
        lemma_field_round_trip::<String>(m, "port43"@, x.common.port_43);
        lemma_field_round_trip::<String>(m, "lang"@, x.common.lang);
        Help::lemma_keys();
        assert(keys_of(fields) =~= Help::keys());
        assert(fields[0] == field_json::<String>("objectClassName"@, x.common.object_class_name));
        assert(fields[1] == field_json::<Vec<String>>("rdapConformance"@, x.common.rdap_conformance));
        assert(fields[2] == field_json::<Vec<Notice>>("notices"@, x.common.notices));
        assert(fields[3] == field_json::<Vec<Link>>("links"@, x.common.links));
        assert(fields[4] == field_json::<Vec<Event>>("events"@, x.common.events));
        assert(fields[5] == field_json::<VectorStringish>("status"@, x.common.status));
        assert(fields[6] == field_json::<String>("port43"@, x.common.port_43));
        assert(fields[7] == field_json::<String>("lang"@, x.common.lang));
        assert forall|i: int| 0 <= i < fields.len() implies field_matches(#[trigger] fields[i], m) by {
            if i == 0 {
                assert(field_matches(fields[0], m));
            } else if i == 1 {
                assert(field_matches(fields[1], m));
            } else if i == 2 {
                assert(field_matches(fields[2], m));
            } else if i == 3 {
                assert(field_matches(fields[3], m));
            } else if i == 4 {
                assert(field_matches(fields[4], m));
            } else if i == 5 {
                assert(field_matches(fields[5], m));
            } else if i == 6 {
                assert(field_matches(fields[6], m));
            } else if i == 7 {
                assert(field_matches(fields[7], m));
            }
        }
        lemma_object_round_trip(m, fields);
    }

    open spec fn rereads(x: Self) -> bool {
        field_rereads::<String>(x.common.object_class_name)
            && field_rereads::<Vec<String>>(x.common.rdap_conformance)
            && field_rereads::<Vec<Notice>>(x.common.notices)
            && field_rereads::<Vec<Link>>(x.common.links)
            && field_rereads::<Vec<Event>>(x.common.events)
            && field_rereads::<VectorStringish>(x.common.status)
            && field_rereads::<String>(x.common.port_43)
            && field_rereads::<String>(x.common.lang)
            && no_known(members_of(x.common.unknown_keys@), Help::keys())
    }

    open spec fn settled(x: Self, y: Self) -> bool {
        field_settled::<String>(x.common.object_class_name, y.common.object_class_name)
            && field_settled::<Vec<String>>(x.common.rdap_conformance, y.common.rdap_conformance)
            && field_settled::<Vec<Notice>>(x.common.notices, y.common.notices)
            && field_settled::<Vec<Link>>(x.common.links, y.common.links)
            && field_settled::<Vec<Event>>(x.common.events, y.common.events)
            && field_settled::<VectorStringish>(x.common.status, y.common.status)
            && field_settled::<String>(x.common.port_43, y.common.port_43)
            && field_settled::<String>(x.common.lang, y.common.lang)
            && members_of(y.common.unknown_keys@) == members_of(x.common.unknown_keys@)
    }

    #[verifier::rlimit(60)]
    proof fn read_again(x: Self, y: Self) {
        let fields = Help::fields(x);
        let kept = members_of(x.common.unknown_keys@);
        let m = written(fields) + kept;
        Help::lemma_keys();
        assert(keys_of(fields) =~= Help::keys());
        lemma_object_read_again(fields, kept);
        assert(fields[0] == field_json::<String>("objectClassName"@, x.common.object_class_name));
        assert(member_of(m, "objectClassName"@) == fields[0].1);
        lemma_field_read_again::<String>(m, "objectClassName"@, x.common.object_class_name, y.common.object_class_name);
        assert(fields[1] == field_json::<Vec<String>>("rdapConformance"@, x.common.rdap_conformance));
        assert(member_of(m, "rdapConformance"@) == fields[1].1);
        lemma_field_read_again::<Vec<String>>(m, "rdapConformance"@, x.common.rdap_conformance, y.common.rdap_conformance);
        assert(fields[2] == field_json::<Vec<Notice>>("notices"@, x.common.notices));
        assert(member_of(m, "notices"@) == fields[2].1);
        lemma_field_read_again::<Vec<Notice>>(m, "notices"@, x.common.notices, y.common.notices);
        assert(fields[3] == field_json::<Vec<Link>>("links"@, x.common.links));
        assert(member_of(m, "links"@) == fields[3].1);
        lemma_field_read_again::<Vec<Link>>(m, "links"@, x.common.links, y.common.links);
        assert(fields[4] == field_json::<Vec<Event>>("events"@, x.common.events));
        assert(member_of(m, "events"@) == fields[4].1);
        lemma_field_read_again::<Vec<Event>>(m, "events"@, x.common.events, y.common.events);
        assert(fields[5] == field_json::<VectorStringish>("status"@, x.common.status));
        assert(member_of(m, "status"@) == fields[5].1);
        lemma_field_read_again::<VectorStringish>(m, "status"@, x.common.status, y.common.status);
        assert(fields[6] == field_json::<String>("port43"@, x.common.port_43));
        assert(member_of(m, "port43"@) == fields[6].1);
        lemma_field_read_again::<String>(m, "port43"@, x.common.port_43, y.common.port_43);
        assert(fields[7] == field_json::<String>("lang"@, x.common.lang));
        assert(member_of(m, "lang"@) == fields[7].1);
        lemma_field_read_again::<String>(m, "lang"@, x.common.lang, y.common.lang);
    }

    #[verifier::rlimit(60)]
    proof fn rereadable(x: Self) {
        let fields = Help::fields(x);
        let kept = members_of(x.common.unknown_keys@);
        let m = written(fields) + kept;
        Help::lemma_keys();
        assert(keys_of(fields) =~= Help::keys());
        lemma_object_read_again(fields, kept);
        assert(fields[0] == field_json::<String>("objectClassName"@, x.common.object_class_name));
        assert(member_of(m, "objectClassName"@) == fields[0].1);
        lemma_field_rereadable::<String>(m, "objectClassName"@, x.common.object_class_name);
        assert(fields[1] == field_json::<Vec<String>>("rdapConformance"@, x.common.rdap_conformance));
        assert(member_of(m, "rdapConformance"@) == fields[1].1);
        lemma_field_rereadable::<Vec<String>>(m, "rdapConformance"@, x.common.rdap_conformance);
        assert(fields[2] == field_json::<Vec<Notice>>("notices"@, x.common.notices));
        assert(member_of(m, "notices"@) == fields[2].1);
        lemma_field_rereadable::<Vec<Notice>>(m, "notices"@, x.common.notices);
        assert(fields[3] == field_json::<Vec<Link>>("links"@, x.common.links));
        assert(member_of(m, "links"@) == fields[3].1);
        lemma_field_rereadable::<Vec<Link>>(m, "links"@, x.common.links);
        assert(fields[4] == field_json::<Vec<Event>>("events"@, x.common.events));
        assert(member_of(m, "events"@) == fields[4].1);
        lemma_field_rereadable::<Vec<Event>>(m, "events"@, x.common.events);
        assert(fields[5] == field_json::<VectorStringish>("status"@, x.common.status));
        assert(member_of(m, "status"@) == fields[5].1);
        lemma_field_rereadable::<VectorStringish>(m, "status"@, x.common.status);
        assert(fields[6] == field_json::<String>("port43"@, x.common.port_43));
        assert(member_of(m, "port43"@) == fields[6].1);
        lemma_field_rereadable::<String>(m, "port43"@, x.common.port_43);
        assert(fields[7] == field_json::<String>("lang"@, x.common.lang));
        assert(member_of(m, "lang"@) == fields[7].1);
        lemma_field_rereadable::<String>(m, "lang"@, x.common.lang);
    }
}

impl Codec for RdapResponse {
    /// A document of one of the kinds of response whose members are readable.
    open spec fn readable(j: JsonValue) -> bool {
        match kind_of(j) {
            Ok(RdapStructure::Entity) => Entity::readable(j),
            Ok(RdapStructure::Domain) => Domain::readable(j),
            Ok(RdapStructure::Nameserver) => Nameserver::readable(j),
            Ok(RdapStructure::Autnum) => Autnum::readable(j),
            Ok(RdapStructure::Network) => Network::readable(j),
            Ok(RdapStructure::DomainSearchResults) => DomainSearchResults::readable(j),
            Ok(RdapStructure::EntitySearchResults) => EntitySearchResults::readable(j),
            Ok(RdapStructure::NameserverSearchResults) => NameserverSearchResults::readable(j),
            Ok(RdapStructure::Error) => Rfc9083Error::readable(j),
            Ok(RdapStructure::Help) => Help::readable(j),
            _ => false,
        }
    }

    open spec fn reads(j: JsonValue, x: Self) -> bool {
        match x {
            RdapResponse::Entity(y) => kind_of(j) == Ok::<RdapStructure, crate::decode::DecodeErrorView>(RdapStructure::Entity) && Entity::reads(j, y),
            RdapResponse::Domain(y) => kind_of(j) == Ok::<RdapStructure, crate::decode::DecodeErrorView>(RdapStructure::Domain) && Domain::reads(j, y),
            RdapResponse::Nameserver(y) => kind_of(j) == Ok::<RdapStructure, crate::decode::DecodeErrorView>(RdapStructure::Nameserver) && Nameserver::reads(j, y),
            RdapResponse::Autnum(y) => kind_of(j) == Ok::<RdapStructure, crate::decode::DecodeErrorView>(RdapStructure::Autnum) && Autnum::reads(j, y),
            RdapResponse::Network(y) => kind_of(j) == Ok::<RdapStructure, crate::decode::DecodeErrorView>(RdapStructure::Network) && Network::reads(j, y),
            RdapResponse::DomainSearchResults(y) => kind_of(j) == Ok::<RdapStructure, crate::decode::DecodeErrorView>(RdapStructure::DomainSearchResults) && DomainSearchResults::reads(j, y),
            RdapResponse::EntitySearchResults(y) => kind_of(j) == Ok::<RdapStructure, crate::decode::DecodeErrorView>(RdapStructure::EntitySearchResults) && EntitySearchResults::reads(j, y),
            RdapResponse::NameserverSearchResults(y) => kind_of(j) == Ok::<RdapStructure, crate::decode::DecodeErrorView>(RdapStructure::NameserverSearchResults) && NameserverSearchResults::reads(j, y),
            RdapResponse::ErrorResponse(y) => kind_of(j) == Ok::<RdapStructure, crate::decode::DecodeErrorView>(RdapStructure::Error) && Rfc9083Error::reads(j, y),
            RdapResponse::Help(y) => kind_of(j) == Ok::<RdapStructure, crate::decode::DecodeErrorView>(RdapStructure::Help) && Help::reads(j, y),
        }
    }

    open spec fn fault(j: JsonValue) -> Path {
        match kind_of(j) {
            Ok(RdapStructure::Entity) => Entity::fault(j),
            Ok(RdapStructure::Domain) => Domain::fault(j),
            Ok(RdapStructure::Nameserver) => Nameserver::fault(j),
            Ok(RdapStructure::Autnum) => Autnum::fault(j),
            Ok(RdapStructure::Network) => Network::fault(j),
            Ok(RdapStructure::DomainSearchResults) => DomainSearchResults::fault(j),
            Ok(RdapStructure::EntitySearchResults) => EntitySearchResults::fault(j),
            Ok(RdapStructure::NameserverSearchResults) => NameserverSearchResults::fault(j),
            Ok(RdapStructure::Error) => Rfc9083Error::fault(j),
            Ok(RdapStructure::Help) => Help::fault(j),
            _ => Seq::empty(),
        }
    }

    open spec fn json(x: Self) -> JsonValue {
        match x {
            RdapResponse::Entity(y) => Entity::json(y),
            RdapResponse::Domain(y) => Domain::json(y),
            RdapResponse::Nameserver(y) => Nameserver::json(y),
            RdapResponse::Autnum(y) => Autnum::json(y),
            RdapResponse::Network(y) => Network::json(y),
            RdapResponse::DomainSearchResults(y) => DomainSearchResults::json(y),
            RdapResponse::EntitySearchResults(y) => EntitySearchResults::json(y),
            RdapResponse::NameserverSearchResults(y) => NameserverSearchResults::json(y),
            RdapResponse::ErrorResponse(y) => Rfc9083Error::json(y),
            RdapResponse::Help(y) => Help::json(y),
        }
    }

    open spec fn plain(x: Self) -> bool {
        match x {
            RdapResponse::Entity(y) => Entity::plain(y),
            RdapResponse::Domain(y) => Domain::plain(y),
            RdapResponse::Nameserver(y) => Nameserver::plain(y),
            RdapResponse::Autnum(y) => Autnum::plain(y),
            RdapResponse::Network(y) => Network::plain(y),
            RdapResponse::DomainSearchResults(y) => DomainSearchResults::plain(y),
            RdapResponse::EntitySearchResults(y) => EntitySearchResults::plain(y),
            RdapResponse::NameserverSearchResults(y) => NameserverSearchResults::plain(y),
            RdapResponse::ErrorResponse(y) => Rfc9083Error::plain(y),
            RdapResponse::Help(y) => Help::plain(y),
        }
    }

    fn decode(j: &Json) -> (r: Result<Self, Vec<String>>) {
        match discriminate(j) {
            Ok(RdapStructure::Entity) => match Entity::decode(j) {
                Ok(y) => Ok(RdapResponse::Entity(y)),
                Err(p) => Err(p),
            },
            Ok(RdapStructure::Domain) => match Domain::decode(j) {
                Ok(y) => Ok(RdapResponse::Domain(y)),
                Err(p) => Err(p),
            },
            Ok(RdapStructure::Nameserver) => match Nameserver::decode(j) {
                Ok(y) => Ok(RdapResponse::Nameserver(y)),
                Err(p) => Err(p),
            },
            Ok(RdapStructure::Autnum) => match Autnum::decode(j) {
                Ok(y) => Ok(RdapResponse::Autnum(y)),
                Err(p) => Err(p),
            },
            Ok(RdapStructure::Network) => match Network::decode(j) {
                Ok(y) => Ok(RdapResponse::Network(y)),
                Err(p) => Err(p),
            },
            Ok(RdapStructure::DomainSearchResults) => match DomainSearchResults::decode(j) {
                Ok(y) => Ok(RdapResponse::DomainSearchResults(y)),
                Err(p) => Err(p),
            },
            Ok(RdapStructure::EntitySearchResults) => match EntitySearchResults::decode(j) {
                Ok(y) => Ok(RdapResponse::EntitySearchResults(y)),
                Err(p) => Err(p),
            },
            Ok(RdapStructure::NameserverSearchResults) => match NameserverSearchResults::decode(j) {
                Ok(y) => Ok(RdapResponse::NameserverSearchResults(y)),
                Err(p) => Err(p),
            },
            Ok(RdapStructure::Error) => match Rfc9083Error::decode(j) {
                Ok(y) => Ok(RdapResponse::ErrorResponse(y)),
                Err(p) => Err(p),
            },
            Ok(RdapStructure::Help) => match Help::decode(j) {
                Ok(y) => Ok(RdapResponse::Help(y)),
                Err(p) => Err(p),
            },
            _ => Err(crate::codec::here()),
        }
    }

    fn encode(&self) -> (j: Json) {
        match self {
            RdapResponse::Entity(y) => y.encode(),
            RdapResponse::Domain(y) => y.encode(),
            RdapResponse::Nameserver(y) => y.encode(),
            RdapResponse::Autnum(y) => y.encode(),
            RdapResponse::Network(y) => y.encode(),
            RdapResponse::DomainSearchResults(y) => y.encode(),
            RdapResponse::EntitySearchResults(y) => y.encode(),
            RdapResponse::NameserverSearchResults(y) => y.encode(),
            RdapResponse::ErrorResponse(y) => y.encode(),
            RdapResponse::Help(y) => y.encode(),
        }
    }

    proof fn round_trip(j: JsonValue, x: Self) {
        match x {
            RdapResponse::Entity(y) => Entity::round_trip(j, y),
            RdapResponse::Domain(y) => Domain::round_trip(j, y),
            RdapResponse::Nameserver(y) => Nameserver::round_trip(j, y),
            RdapResponse::Autnum(y) => Autnum::round_trip(j, y),
            RdapResponse::Network(y) => Network::round_trip(j, y),
            RdapResponse::DomainSearchResults(y) => DomainSearchResults::round_trip(j, y),
            RdapResponse::EntitySearchResults(y) => EntitySearchResults::round_trip(j, y),
            RdapResponse::NameserverSearchResults(y) => NameserverSearchResults::round_trip(j, y),
            RdapResponse::ErrorResponse(y) => Rfc9083Error::round_trip(j, y),
            RdapResponse::Help(y) => Help::round_trip(j, y),
        }
    }

    /// What is written for the response is read again as a response of its kind.
    open spec fn rereads(x: Self) -> bool {
        match x {
            RdapResponse::Entity(a) => Entity::rereads(a) && kind_of(Entity::json(a)) == Ok::<RdapStructure, crate::decode::DecodeErrorView>(RdapStructure::Entity),
            RdapResponse::Domain(a) => Domain::rereads(a) && kind_of(Domain::json(a)) == Ok::<RdapStructure, crate::decode::DecodeErrorView>(RdapStructure::Domain),
            RdapResponse::Nameserver(a) => Nameserver::rereads(a) && kind_of(Nameserver::json(a)) == Ok::<RdapStructure, crate::decode::DecodeErrorView>(RdapStructure::Nameserver),
            RdapResponse::Autnum(a) => Autnum::rereads(a) && kind_of(Autnum::json(a)) == Ok::<RdapStructure, crate::decode::DecodeErrorView>(RdapStructure::Autnum),
            RdapResponse::Network(a) => Network::rereads(a) && kind_of(Network::json(a)) == Ok::<RdapStructure, crate::decode::DecodeErrorView>(RdapStructure::Network),
            RdapResponse::DomainSearchResults(a) => DomainSearchResults::rereads(a) && kind_of(DomainSearchResults::json(a)) == Ok::<RdapStructure, crate::decode::DecodeErrorView>(RdapStructure::DomainSearchResults),
            RdapResponse::EntitySearchResults(a) => EntitySearchResults::rereads(a) && kind_of(EntitySearchResults::json(a)) == Ok::<RdapStructure, crate::decode::DecodeErrorView>(RdapStructure::EntitySearchResults),
            RdapResponse::NameserverSearchResults(a) => NameserverSearchResults::rereads(a) && kind_of(NameserverSearchResults::json(a)) == Ok::<RdapStructure, crate::decode::DecodeErrorView>(RdapStructure::NameserverSearchResults),
            RdapResponse::ErrorResponse(a) => Rfc9083Error::rereads(a) && kind_of(Rfc9083Error::json(a)) == Ok::<RdapStructure, crate::decode::DecodeErrorView>(RdapStructure::Error),
            RdapResponse::Help(a) => Help::rereads(a) && kind_of(Help::json(a)) == Ok::<RdapStructure, crate::decode::DecodeErrorView>(RdapStructure::Help),
        }
    }

    open spec fn settled(x: Self, y: Self) -> bool {
        match x {
            RdapResponse::Entity(a) => y matches RdapResponse::Entity(b) && Entity::settled(a, b),
            RdapResponse::Domain(a) => y matches RdapResponse::Domain(b) && Domain::settled(a, b),
            RdapResponse::Nameserver(a) => y matches RdapResponse::Nameserver(b) && Nameserver::settled(a, b),
            RdapResponse::Autnum(a) => y matches RdapResponse::Autnum(b) && Autnum::settled(a, b),
            RdapResponse::Network(a) => y matches RdapResponse::Network(b) && Network::settled(a, b),
            RdapResponse::DomainSearchResults(a) => y matches RdapResponse::DomainSearchResults(b) && DomainSearchResults::settled(a, b),
            RdapResponse::EntitySearchResults(a) => y matches RdapResponse::EntitySearchResults(b) && EntitySearchResults::settled(a, b),
            RdapResponse::NameserverSearchResults(a) => y matches RdapResponse::NameserverSearchResults(b) && NameserverSearchResults::settled(a, b),
            RdapResponse::ErrorResponse(a) => y matches RdapResponse::ErrorResponse(b) && Rfc9083Error::settled(a, b),
            RdapResponse::Help(a) => y matches RdapResponse::Help(b) && Help::settled(a, b),
        }
    }

    proof fn read_again(x: Self, y: Self) {
        match x {
            RdapResponse::Entity(a) => {
                Entity::read_again(a, y->Entity_0);
            },
            RdapResponse::Domain(a) => {
                Domain::read_again(a, y->Domain_0);
            },
            RdapResponse::Nameserver(a) => {
                Nameserver::read_again(a, y->Nameserver_0);
            },
            RdapResponse::Autnum(a) => {
                Autnum::read_again(a, y->Autnum_0);
            },
            RdapResponse::Network(a) => {
                Network::read_again(a, y->Network_0);
            },
            RdapResponse::DomainSearchResults(a) => {
                DomainSearchResults::read_again(a, y->DomainSearchResults_0);
            },
            RdapResponse::EntitySearchResults(a) => {
                EntitySearchResults::read_again(a, y->EntitySearchResults_0);
            },
            RdapResponse::NameserverSearchResults(a) => {
                NameserverSearchResults::read_again(a, y->NameserverSearchResults_0);
            },
            RdapResponse::ErrorResponse(a) => {
                Rfc9083Error::read_again(a, y->ErrorResponse_0);
            },
            RdapResponse::Help(a) => {
                Help::read_again(a, y->Help_0);
            },
        }
    }

    proof fn rereadable(x: Self) {
        match x {
            RdapResponse::Entity(a) => Entity::rereadable(a),
            RdapResponse::Domain(a) => Domain::rereadable(a),
            RdapResponse::Nameserver(a) => Nameserver::rereadable(a),
            RdapResponse::Autnum(a) => Autnum::rereadable(a),
            RdapResponse::Network(a) => Network::rereadable(a),
            RdapResponse::DomainSearchResults(a) => DomainSearchResults::rereadable(a),
            RdapResponse::EntitySearchResults(a) => EntitySearchResults::rereadable(a),
            RdapResponse::NameserverSearchResults(a) => NameserverSearchResults::rereadable(a),
            RdapResponse::ErrorResponse(a) => Rfc9083Error::rereadable(a),
            RdapResponse::Help(a) => Help::rereadable(a),
        }
    }
}

} // verus!
