use phonenumber::chars::{is_ascii_letter, is_plus, is_punctuation};
use phonenumber::country::{Id, Source};
use phonenumber::metadata::{Descriptor, Descriptors, Format};
use phonenumber::parser::Number;
use phonenumber::regex::Cache;
use phonenumber::loader::{self, Descriptor as RawDescriptor, Metadata as RawMetadata};
use phonenumber::{Database, LoadMetadata, Metadata};

fn chars(s: &str) -> Vec<char> {
    s.chars().collect()
}

fn text(v: &[char]) -> String {
    v.iter().collect()
}

fn desc(pattern: &str, lengths: &[u16]) -> Descriptor {
    Descriptor {
        national_number: pattern.to_string(),
        possible_length: lengths.to_vec(),
        possible_local_length: Vec::new(),
        example: None,
    }
}

fn descriptors(general: Descriptor) -> Descriptors {
    Descriptors {
        general,
        fixed_line: None,
        mobile: None,
        toll_free: None,
        premium_rate: None,
        shared_cost: None,
        personal_number: None,
        voip: None,
        pager: None,
        uan: None,
        emergency: None,
        voicemail: None,
        short_code: None,
        standard_rate: None,
        carrier: None,
        no_international: None,
    }
}

fn region(id: &str, code: u16, general: Descriptor) -> Metadata {
    Metadata {
        descriptors: descriptors(general),
        id: id.to_string(),
        country_code: code,
        international_prefix: None,
        preferred_international_prefix: None,
        national_prefix: None,
        preferred_extension_prefix: None,
        national_prefix_for_parsing: None,
        national_prefix_transform_rule: None,
        formats: Vec::<Format>::new(),
        international_formats: Vec::<Format>::new(),
        main_country_for_code: false,
        leading_digits: None,
        mobile_number_portable: false,
    }
}

fn database() -> Database {
    let mut us = region("US", 1, desc(r"[2-9]\d{9}", &[10]));
    us.international_prefix = Some("011".to_string());
    us.national_prefix = Some("1".to_string());
    us.main_country_for_code = true;
    let nz = region("NZ", 64, desc(r"[2-9]\d{7,9}", &[8, 9, 10]));
    let it = region("IT", 39, desc(r"0\d{5,10}|3\d{8,10}", &[6, 7, 8, 9, 10, 11]));
    let free = region("001", 800, desc(r"\d{8}", &[8]));
    Database::from(vec![us, nz, it, free]).unwrap()
}

fn resolve(db: &Database, country: Option<Id>, national: &str) -> (Source, String, u16) {
    let (n, code) = phonenumber::parser::country_code(db, country, &chars(national), &None, &None).unwrap();
    (n.country, text(&n.national), code)
}

#[test]
fn punctuation() {
    assert!(is_punctuation('-'));
    assert!(is_punctuation('x'));
    assert!(is_punctuation('\u{2015}'));
    assert!(!is_punctuation('a'));
}

#[test]
fn alpha() {
    assert!(is_ascii_letter('a'));
    assert!(is_ascii_letter('x'));
    assert!(is_ascii_letter('Z'));
    assert!(!is_ascii_letter('2'));
}

#[test]
fn plus() {
    assert!(is_plus('+'));
    assert!(is_plus('\u{FF0B}'));
    assert!(!is_plus('a'));
}

#[test]
fn extract() {
    let cache = Cache::new();
    let ex = |s: &str| phonenumber::natural::extract(&cache, &chars(s)).map(|v| text(&v));
    assert_eq!(Some("0800-345-600".to_string()), ex("Tel:0800-345-600"));
    assert_eq!(Some("0800 FOR PIZZA".to_string()), ex("Tel:0800 FOR PIZZA"));
    assert_eq!(Some("+800-345-600".to_string()), ex("Tel:+800-345-600"));
    assert_eq!(Some("\u{FF10}\u{FF12}\u{FF13}".to_string()), ex("\u{FF10}\u{FF12}\u{FF13}"));
    assert_eq!(Some("\u{FF11}\u{FF12}\u{FF13}".to_string()), ex("Num-\u{FF11}\u{FF12}\u{FF13}"));
    assert_eq!(None, ex("Num-...."));
    assert_eq!(Some("650) 253-0000".to_string()), ex("(650) 253-0000"));
    assert_eq!(Some("650) 253-0000".to_string()), ex("(650) 253-0000..- .."));
    assert_eq!(Some("650) 253-0000".to_string()), ex("(650) 253-0000."));
    assert_eq!(Some("650) 253-0000".to_string()), ex("(650) 253-0000\u{200F}"));
}

#[test]
fn country_code() {
    let db = database();
    assert_eq!((Source::Idd, "123456789".to_string(), 1), resolve(&db, Some(Id::US), "011112-3456789"));
    assert_eq!((Source::Plus, "23456789".to_string(), 64), resolve(&db, Some(Id::US), "+6423456789"));
    assert_eq!((Source::Plus, "12345678".to_string(), 800), resolve(&db, Some(Id::US), "+80012345678"));
    assert_eq!((Source::Default, "23456789".to_string(), 1), resolve(&db, Some(Id::US), "2345-6789"));
    assert!(phonenumber::parser::country_code(&db, Some(Id::US), &chars("0119991123456789"), &None, &None).is_err());
    assert_eq!((Source::Number, "6106194466".to_string(), 1), resolve(&db, Some(Id::US), "(1 610) 619 4466"));
    assert_eq!((Source::Number, "3298888888".to_string(), 39), resolve(&db, Some(Id::IT), "393298888888"));
}

#[test]
fn normalize() {
    assert_eq!("034562", text(&phonenumber::parser::normalize(&chars("034-56&+#2"))));
    assert_eq!("034426486479", text(&phonenumber::parser::normalize(&chars("034-I-am-HUNGRY"))));
    assert_eq!("420", text(&phonenumber::parser::normalize(&chars("４2０"))));
}

#[test]
fn international_prefix() {
    let cache = Cache::new();
    let idd = Some("00[39]".to_string());
    let strip = |s: &str| -> (Source, String) {
        let (n, _): (Number, Option<Vec<char>>) = phonenumber::parser::international_prefix(&cache, &idd, &chars(s), &None, &None);
        (n.country, text(&n.national))
    };
    assert_eq!((Source::Idd, "45677003898003".to_string()), strip("0034567700-3898003"));
    assert_eq!((Source::Idd, "45677003898003".to_string()), strip("00945677003898003"));
    assert_eq!((Source::Idd, "45677003898003".to_string()), strip("00 9 45677003898003"));
    assert_eq!((Source::Default, "45677003898003".to_string()), strip("45677003898003"));
    assert_eq!((Source::Plus, "45677003898003".to_string()), strip("+45677003898003"));
}

#[test]
fn natural_phone_number() {
    let cache = Cache::new();
    let (national, extension) = phonenumber::natural::phone_number(&cache, &chars("650 253 0000 extn. 4567")).unwrap();
    assert_eq!("650 253 0000", text(&national));
    assert_eq!(Some("4567".to_string()), extension.map(|e| text(&e)));
}

#[test]
fn rfc3966_phone_number() {
    let (national, prefix, extension) = phonenumber::rfc3966::phone_number(&chars("tel:2034567890;ext=456;phone-context=+44")).unwrap();
    assert_eq!("2034567890", text(&national));
    assert_eq!(Some("44".to_string()), prefix.map(|p| text(&p)));
    assert_eq!(Some("456".to_string()), extension.map(|e| text(&e)));

    let (national, prefix, extension) = phonenumber::rfc3966::phone_number(&chars("tel:+64-3-331-6005;ext=1235")).unwrap();
    assert_eq!("-3-331-6005", text(&national));
    assert_eq!(Some("64".to_string()), prefix.map(|p| text(&p)));
    assert_eq!(Some("1235".to_string()), extension.map(|e| text(&e)));
}

#[test]
fn both_sub_parsers_agree_on_plain_digits() {
    let cache = Cache::new();
    let input = chars("6502530000");
    let (rfc_national, rfc_prefix, rfc_extension) = phonenumber::rfc3966::phone_number(&input).unwrap();
    let (natural_national, natural_extension) = phonenumber::natural::phone_number(&cache, &input).unwrap();
    assert_eq!(text(&rfc_national), text(&natural_national));
    assert!(rfc_prefix.is_none());
    assert!(rfc_extension.is_none() && natural_extension.is_none());
}

#[test]
fn rfc3966_last_parameter_wins() {
    let (_, prefix, extension) = phonenumber::rfc3966::phone_number(&chars("tel:123;ext=1;phone-context=+44;ext=2")).unwrap();
    assert_eq!(Some("44".to_string()), prefix.map(|p| text(&p)));
    assert_eq!(Some("2".to_string()), extension.map(|e| text(&e)));
    assert!(phonenumber::rfc3966::phone_number(&chars("03 331 6005")).is_none());
    assert!(phonenumber::rfc3966::phone_number(&chars("tel:123;foo")).is_none());
    assert!(phonenumber::rfc3966::phone_number(&chars("tel:123;a=%A1")).is_some());
}

#[test]
fn database_refuses_a_malformed_pattern() {
    let bad = region("XX", 999, desc(r"[2-9", &[8]));
    match Database::from(vec![bad]) {
        Err(LoadMetadata::Regex(_)) => {},
        other => panic!("expected a regex error, got {:?}", other.map(|_| ())),
    }
}

#[test]
fn database_puts_the_main_region_first() {
    let mut ca = region("CA", 1, desc(r"\d{10}", &[10]));
    ca.main_country_for_code = false;
    let mut us = region("US", 1, desc(r"\d{10}", &[10]));
    us.main_country_for_code = true;
    let db = Database::from(vec![ca, us]).unwrap();
    let ids: Vec<&str> = db.region(1).unwrap();
    assert_eq!(vec!["US", "CA"], ids);
    assert_eq!("US", db.main_by_code(1).unwrap().id);
    assert_eq!("CA", db.by_id("CA").unwrap().id);
    assert!(db.by_id("ZZ").is_none());
    assert!(db.by_code(2).is_none());
}

#[test]
fn possible_length_lists() {
    assert_eq!(Some(vec![6, 7, 9, 10, 11]), phonenumber::loader::lengths("6,7,[9-11]"));
    assert_eq!(Some(vec![4, 8]), phonenumber::loader::lengths(" 4 , 8 "));
    assert_eq!(Some(Vec::new()), phonenumber::loader::lengths("[9]"));
    assert_eq!(None, phonenumber::loader::lengths("x"));
    assert_eq!(None, phonenumber::loader::lengths("4,"));
}

#[test]
fn raw_records_need_their_values() {
    let mut raw = RawMetadata::default();
    raw.general = Some(RawDescriptor { national_number: Some(r"\d{8}".to_string()), ..RawDescriptor::default() });
    raw.country_code = Some(800);
    assert!(matches!(loader::record(raw.clone()), Err(LoadMetadata::Metadata(_))));
    raw.id = Some("001".to_string());
    let record = loader::record(raw.clone()).unwrap();
    assert_eq!("001", record.id);
    assert_eq!(r"\d{8}", record.descriptors.general.national_number);
    raw.mobile = Some(RawDescriptor::default());
    assert!(matches!(loader::record(raw.clone()), Err(LoadMetadata::Metadata(_))));
    raw.mobile = None;
    let db = loader::database(vec![raw]).unwrap();
    assert_eq!(800, db.main_by_code(800).unwrap().country_code);
}

#[test]
fn sub_parsers_read_a_phone_context_differently() {
    let cache = Cache::new();
    let input = chars("123;phone-context=+44");
    let (rfc_national, rfc_prefix, _) = phonenumber::rfc3966::phone_number(&input).unwrap();
    assert_eq!("123", text(&rfc_national));
    assert_eq!(Some("44".to_string()), rfc_prefix.map(|p| text(&p)));
    let (natural_national, natural_extension) = phonenumber::natural::phone_number(&cache, &input).unwrap();
    assert_eq!("123;phone-context=+44", text(&natural_national));
    assert!(natural_extension.is_none());
}

#[test]
fn transform_rule_needs_a_general_match() {
    let cache = Cache::new();
    let mut meta = region("ZZ", 999, desc(r"[2-9]\d{7}", &[8]));
    meta.national_prefix_for_parsing = Some(r"0(\d{2})(\d+)".to_string());
    meta.national_prefix_transform_rule = Some("$2".to_string());
    let number = |s: &str| Number { country: Source::Default, national: chars(s), extension: None, carrier: None };
    let kept = phonenumber::parser::national_number(&cache, &meta, number("0129999"));
    assert_eq!("0129999", text(&kept.national));
    assert!(kept.carrier.is_none());
    let rewritten = phonenumber::parser::national_number(&cache, &meta, number("01223456789"));
    assert_eq!("23456789", text(&rewritten.national));
    assert_eq!(Some("12".to_string()), rewritten.carrier.map(|c| text(&c)));
}

#[test]
fn missing_values_are_named() {
    let mut raw = RawMetadata::default();
    raw.general = Some(RawDescriptor { national_number: Some(r"\d{8}".to_string()), ..RawDescriptor::default() });
    raw.id = Some("001".to_string());
    match loader::database(vec![raw.clone()]) {
        Err(LoadMetadata::Metadata(phonenumber::MetadataError::MissingValue { phase, name })) => {
            assert_eq!(("metadata", "countryCode"), (phase.as_str(), name.as_str()));
        },
        other => panic!("expected a missing value, got {:?}", other.map(|_| ())),
    }
    raw.country_code = Some(800);
    raw.general = Some(RawDescriptor { national_number: Some(r"[2-".to_string()), ..RawDescriptor::default() });
    assert!(matches!(loader::database(vec![raw]), Err(LoadMetadata::Regex(_))));
}
