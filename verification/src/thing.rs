//! Records of the `thing` table and the payload entries they carry.

use vstd::prelude::*;
use crate::payload::{
    entry_keys, entry_values, keys_distinct, lemma_decode_written, FieldModel, FieldSet, PayloadError,
};

verus! {

/// The id of a record: its table and its key.
#[derive(Debug)]
pub struct ThingId {
    pub table: String,
    pub key: String,
}

impl ThingId {
    /// The id of the well-known record `key` in the `thing` table.
    pub fn new_known(key: String) -> (r: ThingId)
        ensures
            r.table@ == "thing"@,
            r.key@ == key@,
    {
        ThingId { table: "thing".to_owned(), key }
    }
}

/// An entry of a payload that lives under a well-known record key.
pub trait KnownPayloadEntry {
    spec fn spec_known() -> Seq<char>;

    /// The entry's record key.
    fn known() -> (r: &'static str)
        ensures
            r@ == Self::spec_known(),
    ;

    /// The entry's full record id, `thing:<key>`, the key it is stored under.
    fn known_full() -> (r: &'static str)
        ensures
            r@ == "thing:"@ + Self::spec_known(),
    ;

    /// The id of the entry's record.
    fn known_id() -> (r: ThingId)
        ensures
            r.table@ == "thing"@,
            r.key@ == Self::spec_known(),
    {
        ThingId::new_known(Self::known().to_owned())
    }
}

/// A record with a well-known key.
pub trait KnownRecord {
    spec fn spec_known() -> Seq<char>;

    /// The record's key.
    fn known() -> (r: &'static str)
        ensures
            r@ == Self::spec_known(),
    ;

    /// The record's id.
    fn known_id() -> (r: ThingId)
        ensures
            r.table@ == "thing"@,
            r.key@ == Self::spec_known(),
    {
        ThingId::new_known(Self::known().to_owned())
    }
}

/// Marks the types that are payloads of a record.
pub trait IsPayload {}

/// The English name of a record.
#[derive(Debug)]
pub struct NameEn(pub String);

/// The English description of a record.
#[derive(Debug)]
pub struct DescriptionEn(pub String);

impl NameEn {
    /// The name as it is displayed.
    pub fn to_text(&self) -> (r: String)
        ensures
            r@ == self.0@,
    {
        self.0.clone()
    }
}

impl KnownPayloadEntry for NameEn {
    open spec fn spec_known() -> Seq<char> {
        "name-en"@
    }

    fn known() -> (r: &'static str) {
        "name-en"
    }

    fn known_full() -> (r: &'static str) {
        proof {
            reveal_strlit("thing:");
            reveal_strlit("name-en");
            reveal_strlit("thing:name-en");
        }
        assert("thing:name-en"@ =~= "thing:"@ + "name-en"@);
        "thing:name-en"
    }
}

impl KnownPayloadEntry for DescriptionEn {
    open spec fn spec_known() -> Seq<char> {
        "description-en"@
    }

    fn known() -> (r: &'static str) {
        "description-en"
    }

    fn known_full() -> (r: &'static str) {
        proof {
            reveal_strlit("thing:");
            reveal_strlit("description-en");
            reveal_strlit("thing:description-en");
        }
        assert("thing:description-en"@ =~= "thing:"@ + "description-en"@);
        "thing:description-en"
    }
}

/// The full record ids of the well-known entries are `thing:` followed by their keys.
proof fn lemma_full_ids()
    ensures
        "thing:"@ + "name-en"@ == "thing:name-en"@,
        "thing:"@ + "description-en"@ == "thing:description-en"@,
        "thing:"@ + "websiteroot"@ == "thing:websiteroot"@,
{
    reveal_strlit("thing:");
    reveal_strlit("name-en");
    reveal_strlit("thing:name-en");
    reveal_strlit("description-en");
    reveal_strlit("thing:description-en");
    reveal_strlit("websiteroot");
    reveal_strlit("thing:websiteroot");
    assert("thing:"@ + "name-en"@ =~= "thing:name-en"@);
    assert("thing:"@ + "description-en"@ =~= "thing:description-en"@);
    assert("thing:"@ + "websiteroot"@ =~= "thing:websiteroot"@);
}

/// Appends `s` to `v`, by text.
fn push_text(v: &mut Vec<String>, s: &str)
    ensures
        final(v).deep_view() == old(v).deep_view().push(s@),
{
    let ghost before = v.deep_view();
    v.push(s.to_owned());
    assert(v.deep_view() =~= before.push(s@));
}

/// How a documented payload's fields are stored: under the full record ids of
/// its entries, which are also the labels in errors; unknown keys are skipped.
pub open spec fn documented_model() -> FieldModel {
    FieldModel {
        keys: seq!["thing:name-en"@, "thing:description-en"@],
        labels: seq!["thing:name-en"@, "thing:description-en"@],
        strict: false,
    }
}

/// A payload with an English name and description.
#[derive(Debug)]
pub struct DocumentedPayload {
    pub name: NameEn,
    pub description: DescriptionEn,
}

/// A decoded documented payload as the texts of its fields, in declaration order.
pub open spec fn documented_result(r: Result<DocumentedPayload, PayloadError>) -> Result<Seq<String>, PayloadError> {
    match r {
        Ok(p) => Ok(seq![p.name.0, p.description.0]),
        Err(e) => Err(e),
    }
}

impl DocumentedPayload {
    /// The fields, keyed by the full record ids of `NameEn` and `DescriptionEn`.
    pub fn field_set() -> (r: FieldSet)
        ensures
            r.wf(),
            r.model() == documented_model(),
            !r.strict,
            r.keys.deep_view() == seq!["thing:name-en"@, "thing:description-en"@],
    {
        proof {
            lemma_full_ids();
        }
        let mut keys: Vec<String> = Vec::new();
        push_text(&mut keys, NameEn::known_full());
        push_text(&mut keys, DescriptionEn::known_full());
        let mut labels: Vec<String> = Vec::new();
        push_text(&mut labels, NameEn::known_full());
        push_text(&mut labels, DescriptionEn::known_full());
        let r = FieldSet { keys, labels, strict: false };
        assert(r.model().keys =~= documented_model().keys);
        assert(r.model().labels =~= documented_model().labels);
        r
    }

    /// Decodes the payload from its stored map, whose values are the texts of the entries.
    pub fn from_map(entries: Vec<(String, String)>) -> (r: Result<DocumentedPayload, PayloadError>)
        ensures
            documented_model().decoded_map(entries@, documented_result(r)),
            forall|a: int, b: int| #[trigger] documented_keys_at(entries@, a, b) ==> (r matches Ok(p)
                && p.name.0 == entries@[a].1 && p.description.0 == entries@[b].1),
    {
        let fields = Self::field_set();
        let decoded = fields.decode_map(entries);
        let r = match decoded {
            Ok(vals) => {
                let ghost all = vals@;
                assert(all.len() == 2);
                let mut vals = vals;
                let description = vals.pop().unwrap();
                let name = vals.pop().unwrap();
                let r = DocumentedPayload { name: NameEn(name), description: DescriptionEn(description) };
                assert(seq![r.name.0, r.description.0] =~= all);
                Ok(r)
            },
            Err(e) => Err(e),
        };
        proof {
            assert forall|a: int, b: int| #[trigger] documented_keys_at(entries@, a, b) implies (r matches Ok(p)
                && p.name.0 == entries@[a].1 && p.description.0 == entries@[b].1) by {
                lemma_documented_skips_unknown(entries@, a, b, r);
            }
        }
        r
    }

    /// Decodes the payload from a sequence of the entries' texts, in field order.
    pub fn from_seq(elements: Vec<String>) -> (r: Result<DocumentedPayload, PayloadError>)
        ensures
            if elements.len() < 2 {
                r matches Err(PayloadError::InvalidLength { index }) && index == 0
            } else {
                r matches Ok(p) && p.name.0 == elements@[0] && p.description.0 == elements@[1]
            },
    {
        let fields = Self::field_set();
        assert(fields.keys@.len() == fields.model().keys.len());
        match fields.decode_seq(elements) {
            Ok(vals) => {
                let mut vals = vals;
                let description = vals.pop().unwrap();
                let name = vals.pop().unwrap();
                Ok(DocumentedPayload { name: NameEn(name), description: DescriptionEn(description) })
            },
            Err(e) => Err(e),
        }
    }

    /// The stored map of the payload: each field under its full record id, in
    /// declaration order.
    pub fn to_entries(self) -> (r: Vec<(String, String)>)
        ensures
            documented_entries(self, r@),
    {
        proof {
            lemma_full_ids();
        }
        let mut v: Vec<(String, String)> = Vec::new();
        v.push((NameEn::known_full().to_owned(), self.name.0));
        v.push((DescriptionEn::known_full().to_owned(), self.description.0));
        v
    }
}

impl IsPayload for DocumentedPayload {}

/// `entries` is the stored map of `p`: the name under `thing:name-en`, then the
/// description under `thing:description-en`.
pub open spec fn documented_entries(p: DocumentedPayload, entries: Seq<(String, String)>) -> bool {
    &&& entries.len() == 2
    &&& entries[0].0@ == "thing:name-en"@
    &&& entries[0].1 == p.name.0
    &&& entries[1].0@ == "thing:description-en"@
    &&& entries[1].1 == p.description.0
}

/// What `to_entries` writes, `from_map` reads back: decoding the stored map of
/// a documented payload succeeds with the same name and description.
pub proof fn lemma_documented_roundtrip(
    p: DocumentedPayload,
    entries: Seq<(String, String)>,
    r: Result<DocumentedPayload, PayloadError>,
)
    requires
        documented_entries(p, entries),
        documented_model().decoded_map(entries, documented_result(r)),
    ensures
        r matches Ok(q) && q.name.0 == p.name.0 && q.description.0 == p.description.0,
{
    reveal_strlit("thing:name-en");
    reveal_strlit("thing:description-en");
    let model = documented_model();
    assert(model.keys[0].len() != model.keys[1].len());
    assert(keys_distinct(model.keys));
    assert(entry_keys(entries) =~= model.keys);
    lemma_decode_written(model, entries, documented_result(r));
    assert(entry_values(entries) =~= seq![p.name.0, p.description.0]);
    let q = r->Ok_0;
    assert(seq![q.name.0, q.description.0][0] == p.name.0);
    assert(seq![q.name.0, q.description.0][1] == p.description.0);
}

/// `entries` holds the name under `thing:name-en` at position `a`, the
/// description under `thing:description-en` at position `b`, and any number of
/// other entries under keys that are neither.
pub open spec fn documented_keys_at(entries: Seq<(String, String)>, a: int, b: int) -> bool {
    &&& 0 <= a < entries.len()
    &&& 0 <= b < entries.len()
    &&& entries[a].0@ == "thing:name-en"@
    &&& entries[b].0@ == "thing:description-en"@
    &&& forall|p: int| 0 <= p < entries.len() && p != a && p != b ==> {
        &&& (#[trigger] entries[p]).0@ != "thing:name-en"@
        &&& entries[p].0@ != "thing:description-en"@
    }
}

/// Unknown keys are skipped: decoding a stored map that holds each of the two
/// documented keys once, beside entries under any other keys, in any order,
/// succeeds with the values found under those two keys.
pub proof fn lemma_documented_skips_unknown(
    entries: Seq<(String, String)>,
    a: int,
    b: int,
    r: Result<DocumentedPayload, PayloadError>,
)
    requires
        documented_keys_at(entries, a, b),
        documented_model().decoded_map(entries, documented_result(r)),
    ensures
        r matches Ok(p) && p.name.0 == entries[a].1 && p.description.0 == entries[b].1,
{
    reveal_strlit("thing:name-en");
    reveal_strlit("thing:description-en");
    let model = documented_model();
    let ks = entry_keys(entries);
    assert(model.keys[0].len() != model.keys[1].len());
    assert(a != b);
    assert forall|p: int| 0 <= p < ks.len() implies #[trigger] model.field_of(ks[p]) == (if p == a {
        Some(0int)
    } else if p == b {
        Some(1int)
    } else {
        None::<int>
    }) by {
        model.lemma_field_of(ks[p]);
        assert(ks[p] == entries[p].0@);
    }
    assert forall|p: int| 0 <= p < ks.len() implies !#[trigger] model.is_bad(ks, p) by {
        if model.is_dup(ks, p) {
            let q = choose|q: int| 0 <= q < p && model.field_of(ks[q]) == model.field_of(ks[p]);
            assert(model.field_of(ks[q]) == model.field_of(ks[p]));
        }
    }
    model.lemma_first_bad(ks);
    assert(model.field_of(ks[a]) == Some(0int));
    assert(model.field_of(ks[b]) == Some(1int));
    assert(model.is_present(ks, 0));
    assert(model.is_present(ks, 1));
    model.lemma_first_missing(ks);
    let p = r->Ok_0;
    let vals = seq![p.name.0, p.description.0];
    assert(model.is_value_of(entries, 0, vals[0]));
    assert(model.is_value_of(entries, 1, vals[1]));
    let pa = choose|t: int|
        0 <= t < entries.len() && #[trigger] model.field_of(entry_keys(entries)[t]) == Some(0int)
            && vals[0] == entries[t].1;
    assert(model.field_of(ks[pa]) == Some(0int));
    let pb = choose|t: int|
        0 <= t < entries.len() && #[trigger] model.field_of(entry_keys(entries)[t]) == Some(1int)
            && vals[1] == entries[t].1;
    assert(model.field_of(ks[pb]) == Some(1int));
}

/// How the website root's payload is read: the root's info under the key
/// `websiteroot` and its name under `name-en`. Unknown keys are rejected and
/// fields are numbered from 1.
pub open spec fn website_root_model() -> FieldModel {
    FieldModel {
        keys: seq!["websiteroot"@, "name-en"@],
        labels: seq!["thing:websiteroot (aka info)"@, "thing:name-en (aka name)"@],
        strict: true,
    }
}

/// What the website root shows.
#[derive(Debug)]
pub struct WebsiteInfo {
    pub show_children: Vec<ThingId>,
}

impl KnownPayloadEntry for WebsiteInfo {
    open spec fn spec_known() -> Seq<char> {
        "websiteroot"@
    }

    fn known() -> (r: &'static str) {
        "websiteroot"
    }

    fn known_full() -> (r: &'static str) {
        proof {
            reveal_strlit("thing:");
            reveal_strlit("websiteroot");
            reveal_strlit("thing:websiteroot");
        }
        assert("thing:websiteroot"@ =~= "thing:"@ + "websiteroot"@);
        "thing:websiteroot"
    }
}

/// The payload of the website's root record.
#[derive(Debug)]
pub struct WebsiteRootPayload {
    pub info: WebsiteInfo,
    pub name: NameEn,
}

impl IsPayload for WebsiteRootPayload {}

impl WebsiteRootPayload {
    /// The fields: the root's info, then its name.
    pub fn field_set() -> (r: FieldSet)
        ensures
            r.wf(),
            r.model() == website_root_model(),
    {
        let mut keys: Vec<String> = Vec::new();
        push_text(&mut keys, WebsiteInfo::known());
        push_text(&mut keys, NameEn::known());
        let mut labels: Vec<String> = Vec::new();
        push_text(&mut labels, "thing:websiteroot (aka info)");
        push_text(&mut labels, "thing:name-en (aka name)");
        let r = FieldSet { keys, labels, strict: true };
        assert(r.model().keys =~= website_root_model().keys);
        assert(r.model().labels =~= website_root_model().labels);
        r
    }

    /// The keys an unknown key is reported against.
    pub fn expected_fields() -> (r: Vec<String>)
        ensures
            r.deep_view() == seq!["thing:websiteroot"@, "thing:name-en"@],
    {
        proof {
            lemma_full_ids();
        }
        let mut v: Vec<String> = Vec::new();
        push_text(&mut v, WebsiteInfo::known_full());
        push_text(&mut v, NameEn::known_full());
        assert(v.deep_view() =~= seq!["thing:websiteroot"@, "thing:name-en"@]);
        v
    }

    /// Picks the values of the two fields out of the stored map; the caller
    /// decodes the info from the first and the name from the second.
    pub fn decode_fields<V>(entries: Vec<(String, V)>) -> (r: Result<(V, V), PayloadError>)
        ensures
            website_root_model().decoded_map(
                entries@,
                match r {
                    Ok(p) => Ok(seq![p.0, p.1]),
                    Err(e) => Err(e),
                },
            ),
    {
        let fields = Self::field_set();
        let decoded = fields.decode_map(entries);
        match decoded {
            Ok(vals) => {
                let ghost all = vals@;
                assert(all.len() == 2);
                let mut vals = vals;
                let name = vals.pop().unwrap();
                let info = vals.pop().unwrap();
                assert(seq![info, name] =~= all);
                Ok((info, name))
            },
            Err(e) => Err(e),
        }
    }

    /// Picks the values of the two fields out of a sequence, info first; a
    /// short sequence is an error at the index of the first missing value.
    pub fn decode_seq_fields<V>(elements: Vec<V>) -> (r: Result<(V, V), PayloadError>)
        ensures
            if elements@.len() < 2 {
                r matches Err(PayloadError::InvalidLength { index }) && index == elements@.len()
            } else {
                r matches Ok(p) && p.0 == elements@[0] && p.1 == elements@[1]
            },
    {
        let fields = Self::field_set();
        assert(fields.keys@.len() == fields.model().keys.len());
        match fields.decode_seq(elements) {
            Ok(vals) => {
                let mut vals = vals;
                let name = vals.pop().unwrap();
                let info = vals.pop().unwrap();
                Ok((info, name))
            },
            Err(e) => Err(e),
        }
    }

    pub fn from_parts(info: WebsiteInfo, name: NameEn) -> (r: WebsiteRootPayload)
        ensures
            r.info == info,
            r.name == name,
    {
        WebsiteRootPayload { info, name }
    }
}

/// A record of the `thing` table.
#[derive(Debug)]
pub struct Thing<P> {
    pub id: ThingId,
    pub debug_name: Option<String>,
    pub payload: P,
}

/// Gives access to a record's payload.
pub trait Payload {
    type Payload;

    fn payload(&self) -> &Self::Payload;
}

impl<P> Payload for Thing<P> {
    type Payload = P;

    fn payload(&self) -> (r: &P)
        ensures
            *r == self.payload,
    {
        &self.payload
    }
}

impl<P> Thing<P> {
    /// The table records of this type live in.
    pub fn table() -> (r: &'static str)
        ensures
            r@ == "thing"@,
    {
        proof {
            reveal_strlit("thing");
        }
        "thing"
    }

    pub fn get_id(&self) -> (r: &ThingId)
        ensures
            *r == self.id,
    {
        &self.id
    }

    /// The name the record was given for debugging, if any.
    pub fn _debug_name(&self) -> (r: Option<String>)
        ensures
            match self.debug_name {
                Some(n) => r matches Some(m) && m@ == n@,
                None => r is None,
            },
    {
        match &self.debug_name {
            Some(n) => Some(n.clone()),
            None => None,
        }
    }
}

/// The website's root record.
pub type WebsiteRoot = Thing<WebsiteRootPayload>;

impl KnownRecord for Thing<WebsiteRootPayload> {
    open spec fn spec_known() -> Seq<char> {
        "websiteroot"@
    }

    fn known() -> (r: &'static str) {
        "websiteroot"
    }
}

/// Why a well-known record could not be loaded.
#[derive(Debug)]
pub enum ThingError {
    /// The database refused the select; the message is its error's.
    CouldntSelect { message: String },
    /// No record has the well-known id.
    KnownRecordNotFound { id: ThingId },
}

impl ThingError {
    /// The message the error is shown with; the id is written `table:key`.
    pub fn message(&self) -> (r: String)
        ensures
            match self {
                ThingError::CouldntSelect { message } => r@ == "Couldn't select data: "@ + message@,
                ThingError::KnownRecordNotFound { id } => r@ == "Couldn't find a known record "@
                    + id.table@ + ":"@ + id.key@,
            },
    {
        match self {
            ThingError::CouldntSelect { message } => {
                let mut r = "Couldn't select data: ".to_owned();
                r.append(message.as_str());
                r
            },
            ThingError::KnownRecordNotFound { id } => {
                let mut r = "Couldn't find a known record ".to_owned();
                r.append(id.table.as_str());
                r.append(":");
                r.append(id.key.as_str());
                r
            },
        }
    }
}

/// The outcome of selecting the well-known record `id`: the record, or
/// `KnownRecordNotFound` with the id when there is none.
pub fn require_found<P>(selected: Option<Thing<P>>, id: ThingId) -> (r: Result<Thing<P>, ThingError>)
    ensures
        match selected {
            Some(t) => r == Ok::<Thing<P>, ThingError>(t),
            None => r matches Err(ThingError::KnownRecordNotFound { id: i }) && i == id,
        },
{
    match selected {
        Some(t) => Ok(t),
        None => Err(ThingError::KnownRecordNotFound { id }),
    }
}

/// Used for creating new records.
#[derive(Debug)]
pub struct ThingBuilder<P> {
    pub payload: P,
}

/// A payload for math problems.
#[derive(Debug)]
pub struct MathProblemPayload {}

/// Pairs of names.
#[derive(Debug)]
pub struct DynamicNames {
    pub pairs: Vec<(String,)>,
}

} // verus!
