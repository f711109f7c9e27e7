use ymap::macro_fields::{
    extract_field_info, payload_impl, AttrParse, DataShape, DeriveInput, Do, FieldDecl, FieldsShape,
};
use ymap::payload::{serialize_fields, FieldKey, FieldSet, PayloadError};
use ymap::thing::{
    require_found, DescriptionEn, DocumentedPayload, KnownPayloadEntry, KnownRecord, NameEn, Thing, ThingError,
    ThingId, WebsiteInfo, WebsiteRoot, WebsiteRootPayload,
};

fn texts(v: &[&str]) -> Vec<String> {
    v.iter().map(|s| s.to_string()).collect()
}

fn entries(v: &[(&str, &str)]) -> Vec<(String, String)> {
    v.iter().map(|(k, x)| (k.to_string(), x.to_string())).collect()
}

fn lenient() -> FieldSet {
    FieldSet { keys: texts(&["a", "b"]), labels: texts(&["A", "B"]), strict: false }
}

#[test]
fn identify_fields() {
    let set = lenient();
    assert_eq!(set.identify_str(&"b".to_string()).unwrap(), FieldKey::Field(1));
    assert_eq!(set.identify_str(&"zz".to_string()).unwrap(), FieldKey::Ignore);
    assert_eq!(set.identify_u64(0).unwrap(), FieldKey::Field(0));
    assert_eq!(set.identify_u64(2).unwrap(), FieldKey::Ignore);
    let strict = FieldSet { strict: true, ..lenient() };
    assert!(matches!(strict.identify_str(&"zz".to_string()), Err(PayloadError::UnknownField { key }) if key == "zz"));
    assert_eq!(strict.identify_u64(1).unwrap(), FieldKey::Field(0));
    assert!(matches!(strict.identify_u64(0), Err(PayloadError::InvalidIndex { value: 0 })));
    assert!(matches!(strict.identify_u64(3), Err(PayloadError::InvalidIndex { value: 3 })));
}

#[test]
fn decode_map_in_any_order() {
    let set = lenient();
    let got = set.decode_map(entries(&[("zz", "ignored"), ("b", "2"), ("a", "1")])).unwrap();
    assert_eq!(got, texts(&["1", "2"]));
}

#[test]
fn decode_map_errors() {
    let set = lenient();
    assert!(matches!(set.decode_map(entries(&[("a", "1"), ("a", "1")])),
        Err(PayloadError::DuplicateField { label }) if label == "A"));
    assert!(matches!(set.decode_map(entries(&[("a", "1")])),
        Err(PayloadError::MissingField { label }) if label == "B"));
    let strict = FieldSet { strict: true, ..lenient() };
    assert!(matches!(strict.decode_map(entries(&[("a", "1"), ("q", "1")])),
        Err(PayloadError::UnknownField { key }) if key == "q"));
}

#[test]
fn decode_seq_lengths() {
    let set = lenient();
    assert_eq!(set.decode_seq(texts(&["1", "2", "3"])).unwrap(), texts(&["1", "2"]));
    assert!(matches!(set.decode_seq(texts(&["1"])), Err(PayloadError::InvalidLength { index: 0 })));
    let strict = FieldSet { strict: true, ..lenient() };
    assert!(matches!(strict.decode_seq(texts(&["1"])), Err(PayloadError::InvalidLength { index: 1 })));
}

#[test]
fn written_fields_read_back() {
    let set = lenient();
    let written = serialize_fields(&set.keys, texts(&["x", "y"]));
    assert_eq!(written, entries(&[("a", "x"), ("b", "y")]));
    assert_eq!(set.decode_map(written).unwrap(), texts(&["x", "y"]));
}

#[test]
fn known_entries() {
    assert_eq!(NameEn::known(), "name-en");
    assert_eq!(NameEn::known_full(), "thing:name-en");
    assert_eq!(DescriptionEn::known_full(), "thing:description-en");
    assert_eq!(WebsiteInfo::known_full(), "thing:websiteroot");
    let id = NameEn::known_id();
    assert_eq!(id.table, "thing");
    assert_eq!(id.key, "name-en");
    assert_eq!(WebsiteRoot::known(), "websiteroot");
    assert_eq!(WebsiteRoot::known_id().key, "websiteroot");
    assert_eq!(Thing::<()>::table(), "thing");
    assert_eq!(NameEn("Jordan".to_string()).to_text(), "Jordan");
}

#[test]
fn documented_payload_roundtrip() {
    let p = DocumentedPayload {
        name: NameEn("Root".to_string()),
        description: DescriptionEn("The root".to_string()),
    };
    let stored = p.to_entries();
    assert_eq!(stored, entries(&[("thing:name-en", "Root"), ("thing:description-en", "The root")]));
    let back = DocumentedPayload::from_map(stored).unwrap();
    assert_eq!(back.name.0, "Root");
    assert_eq!(back.description.0, "The root");
}

#[test]
fn documented_payload_errors() {
    assert!(matches!(DocumentedPayload::from_map(entries(&[("thing:name-en", "n")])),
        Err(PayloadError::MissingField { label }) if label == "thing:description-en"));
    let from_seq = DocumentedPayload::from_seq(texts(&["n", "d"])).unwrap();
    assert_eq!(from_seq.description.0, "d");
    assert!(matches!(DocumentedPayload::from_seq(texts(&["n"])), Err(PayloadError::InvalidLength { index: 0 })));
}

#[test]
fn website_root_fields() {
    let (info, name) = WebsiteRootPayload::decode_fields(entries(&[("name-en", "N"), ("websiteroot", "I")])).unwrap();
    assert_eq!((info.as_str(), name.as_str()), ("I", "N"));
    assert!(matches!(WebsiteRootPayload::decode_fields(entries(&[("thing:name-en", "N")])),
        Err(PayloadError::UnknownField { key }) if key == "thing:name-en"));
    assert!(matches!(WebsiteRootPayload::decode_fields(entries(&[("websiteroot", "I")])),
        Err(PayloadError::MissingField { label }) if label == "thing:name-en (aka name)"));
    assert!(matches!(WebsiteRootPayload::decode_fields(entries(&[("websiteroot", "I"), ("websiteroot", "J")])),
        Err(PayloadError::DuplicateField { label }) if label == "thing:websiteroot (aka info)"));
    assert!(matches!(WebsiteRootPayload::decode_seq_fields(texts(&["I"])), Err(PayloadError::InvalidLength { index: 1 })));
    assert_eq!(WebsiteRootPayload::expected_fields(), texts(&["thing:websiteroot", "thing:name-en"]));
    let root = WebsiteRootPayload::from_parts(WebsiteInfo { show_children: vec![] }, NameEn("N".to_string()));
    assert_eq!(root.name.0, "N");
}

#[test]
fn known_record_lookup() {
    let id = ThingId::new_known("websiteroot".to_string());
    let missing: Result<Thing<()>, ThingError> = require_found(None, id);
    let missing = missing.unwrap_err();
    assert!(matches!(&missing, ThingError::KnownRecordNotFound { id } if id.key == "websiteroot"));
    assert_eq!(missing.message(), "Couldn't find a known record thing:websiteroot");
    assert_eq!(ThingError::CouldntSelect { message: "timeout".to_string() }.message(), "Couldn't select data: timeout");
    let found = Thing { id: ThingId::new_known("k".to_string()), debug_name: Some("dbg".to_string()), payload: 5u8 };
    let found = require_found(Some(found), ThingId::new_known("k".to_string())).unwrap();
    assert_eq!(found.get_id().key, "k");
    assert_eq!(found._debug_name(), Some("dbg".to_string()));
}

fn rename(expr: &str) -> AttrParse {
    AttrParse::Rename { expr: expr.to_string() }
}

fn field(name: &str, attrs: Vec<AttrParse>) -> FieldDecl {
    FieldDecl { name: name.to_string(), ty: "String".to_string(), attrs }
}

#[test]
fn derive_reads_renamed_fields() {
    let fields = FieldsShape::Named(vec![field("name", vec![rename("\"thing:name-en\"")]), field("n", vec![rename("x")])]);
    let got = extract_field_info(fields).unwrap();
    assert_eq!(got.len(), 2);
    assert_eq!(got[0].written_name, "name");
    assert_eq!(got[0].ty, "String");
    assert_eq!(got[0].renamed_link, "\"thing:name-en\"");
    assert_eq!(got[1].renamed_link, "x");
    let spaced = extract_field_info(FieldsShape::Named(vec![field("s", vec![rename("a+b")])])).unwrap();
    assert_eq!(spaced[0].renamed_link, "a+b");
}

#[test]
fn derive_refusals() {
    let msg = |f: FieldsShape| extract_field_info(f).unwrap_err().message;
    assert_eq!(msg(FieldsShape::Unit), "Only works on named fields");
    assert_eq!(msg(FieldsShape::Unnamed), "Only works on named fields");
    assert_eq!(msg(FieldsShape::Named(vec![field("a", vec![])])), "Must provide a rename(fn) attr");
    assert_eq!(msg(FieldsShape::Named(vec![field("a", vec![rename("x"), rename("y")])])), "Cannot rename twice");
    assert_eq!(
        msg(FieldsShape::Named(vec![field("a", vec![AttrParse::Invalid { message: "Unknown field: `other`".to_string() }])])),
        "Unknown field: `other`"
    );
    assert!(extract_field_info(FieldsShape::Named(vec![field("a", vec![rename("1 +")])])).is_err());
    let on_enum = payload_impl(DeriveInput { name: "E".to_string(), data: DataShape::Enum }, Do::Serialize);
    assert_eq!(on_enum.unwrap_err().message, "Can only be used on structs");
}

#[test]
fn derive_plan() {
    let input = DeriveInput {
        name: "Documented".to_string(),
        data: DataShape::Struct(FieldsShape::Named(vec![field("name", vec![rename("k1")]), field("desc", vec![rename("k2")])])),
    };
    let d = payload_impl(input, Do::Deserialize).unwrap();
    assert_eq!(d.emit, Do::Deserialize);
    assert_eq!(d.num_fields(), 2);
    assert_eq!(d.field_names(), texts(&["name", "desc"]));
    assert_eq!(d.expecting(), "struct Documented");
    let set = d.field_set(texts(&["thing:name-en", "thing:description-en"]));
    assert!(!set.strict);
    assert_eq!(set.labels, set.keys);
    assert!(matches!(set.decode_map(entries(&[("thing:name-en", "n")])),
        Err(PayloadError::MissingField { label }) if label == "thing:description-en"));
}

#[test]
fn map_keys_step_by_step() {
    let set = FieldSet::lenient(texts(&["a", "b"]));
    assert_eq!(set.labels, texts(&["a", "b"]));
    let mut dec = set.start_map();
    assert_eq!(set.next_field(&mut dec, FieldKey::Field(1)).unwrap(), Some(1));
    assert_eq!(set.next_field(&mut dec, FieldKey::Ignore).unwrap(), None);
    assert!(matches!(set.next_field(&mut dec, FieldKey::Field(1)), Err(PayloadError::DuplicateField { label }) if label == "b"));
    assert!(matches!(set.end_map(&dec), Err(PayloadError::MissingField { label }) if label == "a"));
    assert_eq!(set.next_field(&mut dec, FieldKey::Field(0)).unwrap(), Some(0));
    assert!(set.end_map(&dec).is_ok());
}
