use phonenumber::country::{Code, Id, Source};
use phonenumber::validator::length;
use phonenumber::metadata::{Descriptor, Descriptors, Format};
use phonenumber::{
    format_with, is_valid_with, is_viable, parse_with, Carrier, Database, Extension, Metadata, Mode,
    NationalNumber, ParseError, PhoneNumber, Type,
};

fn desc(pattern: &str, lengths: &[u16], local: &[u16]) -> Descriptor {
    Descriptor {
        national_number: pattern.to_string(),
        possible_length: lengths.to_vec(),
        possible_local_length: local.to_vec(),
        example: None,
    }
}

fn rule(pattern: &str, format: &str, leading: &[&str], national_prefix: Option<&str>) -> Format {
    Format {
        pattern: pattern.to_string(),
        format: format.to_string(),
        leading_digits: leading.iter().map(|s| s.to_string()).collect(),
        national_prefix: national_prefix.map(|s| s.to_string()),
        national_prefix_optional: false,
        domestic_carrier: None,
    }
}

fn descriptors(general: Descriptor) -> Descriptors {
    Descriptors {
        general,
        fixed_line: None,
        mobile: None,
        toll_free: None,
        premium_rate: None,
        shared_cost: None,
        personal_number: None,
        voip: None,
        pager: None,
        uan: None,
        emergency: None,
        voicemail: None,
        short_code: None,
        standard_rate: None,
        carrier: None,
        no_international: None,
    }
}

fn region(id: &str, code: u16, descriptors: Descriptors) -> Metadata {
    Metadata {
        descriptors,
        id: id.to_string(),
        country_code: code,
        international_prefix: None,
        preferred_international_prefix: None,
        national_prefix: None,
        preferred_extension_prefix: None,
        national_prefix_for_parsing: None,
        national_prefix_transform_rule: None,
        formats: Vec::new(),
        international_formats: Vec::new(),
        main_country_for_code: false,
        leading_digits: None,
        mobile_number_portable: false,
    }
}

fn us_region() -> Metadata {
    let mut d = descriptors(desc(r"[2-9]\d{9}", &[10], &[7]));
    d.fixed_line = Some(desc(r"(?:[2-57-9]\d|6[02-9])\d[2-9]\d{6}", &[10], &[7]));
    d.mobile = Some(desc(r"(?:[2-57-9]\d|6[02-9])\d[2-9]\d{6}", &[10], &[7]));
    d.toll_free = Some(desc(r"8(?:00|33|44|55|66|77|88)[2-9]\d{6}", &[10], &[]));
    d.premium_rate = Some(desc(r"900[2-9]\d{6}", &[10], &[]));
    let mut m = region("US", 1, d);
    m.international_prefix = Some("011".to_string());
    m.national_prefix = Some("1".to_string());
    m.main_country_for_code = true;
    m.formats = vec![rule(r"(\d{3})(\d{3})(\d{4})", "($1) $2-$3", &["[2-9]"], None)];
    m.international_formats = vec![rule(r"(\d{3})(\d{3})(\d{4})", "$1-$2-$3", &["[2-9]"], None)];
    m
}

fn ca_region() -> Metadata {
    let mut d = descriptors(desc(r"[2-9]\d{9}", &[10], &[7]));
    d.fixed_line = Some(desc(r"(?:204|306|416|613)[2-9]\d{6}", &[10], &[7]));
    d.mobile = Some(desc(r"(?:204|306|416|613)[2-9]\d{6}", &[10], &[7]));
    let mut m = region("CA", 1, d);
    m.international_prefix = Some("011".to_string());
    m.national_prefix = Some("1".to_string());
    m.leading_digits = Some("(?:204|306|416|613)".to_string());
    m
}

fn gb_region() -> Metadata {
    let mut d = descriptors(desc(r"[1-9]\d{8,9}", &[9, 10], &[]));
    d.fixed_line = Some(desc(r"[12]\d{8,9}", &[9, 10], &[]));
    d.mobile = Some(desc(r"7[1-57-9]\d{8}", &[10], &[]));
    let mut m = region("GB", 44, d);
    m.international_prefix = Some("00".to_string());
    m.national_prefix = Some("0".to_string());
    m.main_country_for_code = true;
    m.formats = vec![
        rule(r"(\d{2})(\d{4})(\d{4})", "$1 $2 $3", &["2"], Some("$NP$FG")),
        rule(r"(\d{4})(\d{6})", "$1 $2", &["7"], Some("$NP$FG")),
        rule(r"(\d{3})(\d{3})(\d{4})", "$1 $2 $3", &["1"], Some("$NP$FG")),
    ];
    m
}

fn nz_region() -> Metadata {
    let mut d = descriptors(desc(r"[2-9]\d{7,9}", &[8, 9, 10], &[]));
    d.fixed_line = Some(desc(r"[34679]\d{7}", &[8], &[]));
    d.mobile = Some(desc(r"2[0-27-9]\d{6,7}", &[8, 9], &[]));
    let mut m = region("NZ", 64, d);
    m.international_prefix = Some("0(?:0|161)".to_string());
    m.national_prefix = Some("0".to_string());
    m.formats = vec![rule(r"(\d)(\d{3})(\d{4})", "$1-$2 $3", &["[34679]"], Some("$NP$FG"))];
    m
}

fn it_region() -> Metadata {
    let mut d = descriptors(desc(r"0\d{5,10}|3\d{8,10}", &[6, 7, 8, 9, 10, 11], &[]));
    d.fixed_line = Some(desc(r"0\d{5,10}", &[6, 7, 8, 9, 10, 11], &[]));
    d.mobile = Some(desc(r"3\d{8,10}", &[9, 10, 11], &[]));
    let mut m = region("IT", 39, d);
    m.international_prefix = Some("00".to_string());
    m.formats = vec![rule(r"(\d{2})(\d{4})(\d{4})", "$1 $2 $3", &["0[26]"], None)];
    m
}

fn br_region() -> Metadata {
    let mut d = descriptors(desc(r"[1-9]\d{9,10}", &[10, 11], &[]));
    d.fixed_line = Some(desc(r"[1-9]{2}[2-5]\d{7}", &[10], &[]));
    d.mobile = Some(desc(r"[1-9]{2}9\d{8}", &[11], &[]));
    let mut m = region("BR", 55, d);
    m.international_prefix = Some("00(?:1[245]|2[1-35]|31|4[13]|[56]5|99)".to_string());
    m.national_prefix = Some("0".to_string());
    m.national_prefix_for_parsing = Some(r"(?:0|90)(?:(1[245]|2[135]|[34]1)(\d{10,11}))?".to_string());
    m.national_prefix_transform_rule = Some("$2".to_string());
    m
}

fn de_region() -> Metadata {
    let mut d = descriptors(desc(r"[1-9]\d{3,14}", &[4, 5, 6, 7, 8, 9, 10, 11, 12, 13, 14, 15], &[]));
    d.fixed_line = Some(desc(r"[2-9]\d{6,10}", &[7, 8, 9, 10, 11], &[]));
    d.mobile = Some(desc(r"1[5-7]\d{8,9}", &[10, 11], &[]));
    let mut m = region("DE", 49, d);
    m.international_prefix = Some("00".to_string());
    m.national_prefix = Some("0".to_string());
    m.formats = vec![rule(r"(\d{2})(\d{3,11})", "$1 $2", &["3[02]|40|[68]9"], Some("$NP$FG"))];
    m
}

fn jp_region() -> Metadata {
    let d = descriptors(desc(r"\d{4,10}", &[4, 5, 6, 7, 8, 9, 10], &[]));
    let mut m = region("JP", 81, d);
    m.international_prefix = Some("010".to_string());
    m.national_prefix = Some("0".to_string());
    m
}

fn freephone() -> Metadata {
    let mut d = descriptors(desc(r"\d{8}", &[8], &[]));
    d.toll_free = Some(desc(r"\d{8}", &[8], &[]));
    let mut m = region("001", 800, d);
    m.formats = vec![rule(r"(\d{4})(\d{4})", "$1 $2", &[], None)];
    m
}

fn premium() -> Metadata {
    let mut d = descriptors(desc(r"\d{9}", &[9], &[]));
    d.premium_rate = Some(desc(r"\d{9}", &[9], &[]));
    region("001", 979, d)
}

fn database() -> Database {
    Database::from(vec![ca_region(), us_region(), gb_region(), nz_region(), it_region(), br_region(), de_region(), jp_region(), freephone(), premium()]).unwrap()
}

fn number(code: u16, source: Source, value: u64, zeros: u8) -> PhoneNumber {
    PhoneNumber::new(Code::new(code, source), NationalNumber::new(value, zeros), None, None)
}

fn read(db: &Database, country: Option<Id>, s: &str) -> Result<PhoneNumber, ParseError> {
    parse_with(db, country, s)
}

fn formatted(db: &Database, n: &PhoneNumber, mode: Mode) -> String {
    format_with(db, n).mode(mode).to_string().unwrap()
}

#[test]
fn us() {
    let db = database();
    let n = read(&db, Some(Id::US), "+1 6502530000").unwrap();
    assert_eq!("(650) 253-0000", formatted(&db, &n, Mode::National));
    assert_eq!("+1 650-253-0000", formatted(&db, &n, Mode::International));
    let n = read(&db, Some(Id::US), "+1 8002530000").unwrap();
    assert_eq!("(800) 253-0000", formatted(&db, &n, Mode::National));
    assert_eq!("+1 800-253-0000", formatted(&db, &n, Mode::International));
    let n = read(&db, Some(Id::US), "+1 9002530000").unwrap();
    assert_eq!("(900) 253-0000", formatted(&db, &n, Mode::National));
    assert_eq!("+1 900-253-0000", formatted(&db, &n, Mode::International));
    assert_eq!("tel:+1-900-253-0000", formatted(&db, &n, Mode::Rfc3966));
}

#[test]
fn gb() {
    let db = database();
    let n = read(&db, Some(Id::GB), "+44 2070313000").unwrap();
    assert_eq!("020 7031 3000", formatted(&db, &n, Mode::National));
    assert_eq!("+44 20 7031 3000", formatted(&db, &n, Mode::International));
    assert_eq!("020 7031 3000", formatted(&db, &n, Mode::National));
    let n = read(&db, Some(Id::GB), "+44 7912345678").unwrap();
    assert_eq!("07912 345678", formatted(&db, &n, Mode::National));
    assert_eq!("+44 7912 345678", formatted(&db, &n, Mode::International));
}

#[test]
fn parse() {
    let db = database();
    let mut n = number(64, Source::Default, 33316005, 0);
    assert_eq!(n, read(&db, Some(Id::NZ), "033316005").unwrap());
    assert_eq!(n, read(&db, Some(Id::NZ), "33316005").unwrap());
    assert_eq!(n, read(&db, Some(Id::NZ), "03-331 6005").unwrap());
    assert_eq!(n, read(&db, Some(Id::NZ), "03 331 6005").unwrap());

    n.code.source = Source::Plus;
    assert_eq!(n, read(&db, Some(Id::NZ), "tel:03-331-6005;phone-context=+64").unwrap());
    assert_eq!(n, read(&db, Some(Id::NZ), "tel:03-331-6005;phone-context=+64;a=%A1").unwrap());
    assert_eq!(n, read(&db, Some(Id::NZ), "tel:03-331-6005;isub=12345;phone-context=+64").unwrap());
    assert_eq!(n, read(&db, Some(Id::NZ), "tel:+64-3-331-6005;isub=12345").unwrap());
    assert_eq!(n, read(&db, Some(Id::NZ), "03-331-6005;phone-context=+64").unwrap());

    n.code.source = Source::Idd;
    assert_eq!(n, read(&db, Some(Id::NZ), "0064 3 331 6005").unwrap());
    assert_eq!(n, read(&db, Some(Id::US), "01164 3 331 6005").unwrap());

    n.code.source = Source::Plus;
    assert_eq!(n, read(&db, Some(Id::US), "+64 3 331 6005").unwrap());
    assert_eq!(n, read(&db, Some(Id::US), "+01164 3 331 6005").unwrap());
    assert_eq!(n, read(&db, Some(Id::NZ), "+0064 3 331 6005").unwrap());
    assert_eq!(n, read(&db, Some(Id::NZ), "+ 00 64 3 331 6005").unwrap());

    assert_eq!(number(64, Source::Number, 64123456, 0), read(&db, Some(Id::NZ), "64(0)64123456").unwrap());
    assert_eq!(number(49, Source::Default, 30123456, 0), read(&db, Some(Id::DE), "301/23456").unwrap());
    assert_eq!(number(81, Source::Plus, 2345, 0), read(&db, Some(Id::JP), "+81 *2345").unwrap());
    assert_eq!(number(64, Source::Default, 12, 0), read(&db, Some(Id::NZ), "12").unwrap());
    assert_eq!(
        PhoneNumber::new(Code::new(55, Source::Default), NationalNumber::new(3121286979, 0), None, Some(Carrier::new("12"))),
        read(&db, Some(Id::BR), "012 3121286979").unwrap()
    );
}

#[test]
fn issue_43() {
    let db = database();
    let res = read(&db, None, " 2 22#:");
    assert!(res.is_err());
}

#[test]
fn advisory_1() {
    let db = database();
    let res = read(&db, None, ".;phone-context=");
    assert!(res.is_err(), "{res:?}");
}

#[test]
fn phone() {
    assert!(!is_viable("1"));
    assert!(!is_viable("1+1+1"));
    assert!(!is_viable("80+0"));
    assert!(is_viable("00"));
    assert!(is_viable("111"));
    assert!(is_viable("0800-4-pizza"));
    assert!(is_viable("0800-4-PIZZA"));
    assert!(!is_viable("08-PIZZA"));
    assert!(!is_viable("8-PIZZA"));
    assert!(!is_viable("12. March"));
}

#[test]
fn validate() {
    let db = database();
    let valid = |region: Option<Id>, s: &str| is_valid_with(&db, &read(&db, region, s).unwrap());
    assert!(valid(Some(Id::US), "+1 6502530000"));
    assert!(valid(Some(Id::IT), "+39 0236618300"));
    assert!(valid(Some(Id::GB), "+44 7912345678"));
    assert!(valid(None, "+800 12345678"));
    assert!(valid(None, "+979 123456789"));
    assert!(valid(None, "+64 21387835"));
    assert!(!valid(None, "+1 2530000"));
    assert!(!valid(None, "+39 023661830000"));
    assert!(!valid(None, "+44 791234567"));
    assert!(!valid(None, "+49 1234"));
    assert!(!valid(None, "+64 3316005"));
    assert!(!valid(None, "+3923 2366"));
    assert!(!valid(None, "+800 123456789"));
}

#[test]
fn us_number_in_every_mode() {
    let db = database();
    let n = read(&db, Some(Id::US), "+1 6502530000").unwrap();
    assert_eq!(number(1, Source::Plus, 6502530000, 0), n);
    assert!(n.extension().is_none());
    assert_eq!("(650) 253-0000", formatted(&db, &n, Mode::National));
    assert_eq!("+1 650-253-0000", formatted(&db, &n, Mode::International));
    assert_eq!("tel:+1-650-253-0000", formatted(&db, &n, Mode::Rfc3966));
    assert_eq!(Type::FixedLineOrMobile, n.number_type(&db));
}

#[test]
fn nz_tel_uri_with_extension() {
    let db = database();
    let n = read(&db, Some(Id::NZ), "tel:03-331-6005;ext=1234;phone-context=+64").unwrap();
    let expected = PhoneNumber::new(Code::new(64, Source::Plus), NationalNumber::new(33316005, 0), Some(Extension::new("1234")), None);
    assert_eq!(expected, n);
    assert_eq!(number(64, Source::Number, 64123456, 0), read(&db, Some(Id::NZ), "64(0)64123456").unwrap());
}

#[test]
fn italian_leading_zero() {
    let db = database();
    let n = read(&db, Some(Id::IT), "+39 0236618300").unwrap();
    assert_eq!(number(39, Source::Plus, 236618300, 1), n);
    assert_eq!("+390236618300", formatted(&db, &n, Mode::E164));
    assert_eq!("02 3661 8300", formatted(&db, &n, Mode::National));
}

#[test]
fn freephone_number() {
    let db = database();
    let n = read(&db, None, "+80012340000").unwrap();
    assert_eq!(800, n.code().value());
    assert_eq!(Source::Plus, n.code().source());
    assert!(is_valid_with(&db, &n));
    assert_eq!(Type::TollFree, n.number_type(&db));
    assert_eq!("+800 1234 0000", formatted(&db, &n, Mode::International));
}

#[test]
fn rejected_inputs() {
    let db = database();
    assert_eq!(Err(ParseError::InvalidCountryCode), read(&db, None, " 2 22#:"));
    assert!(read(&db, None, ".;phone-context=").is_err());
    assert_eq!(Err(ParseError::InvalidCountryCode), read(&db, None, ".;phone-context="));
    assert_eq!(Err(ParseError::InvalidCountryCode), read(&db, None, "tel:0312345678;phone-context="));
    assert_eq!(
        number(64, Source::Default, 33316005, 0),
        read(&db, Some(Id::NZ), "tel:03-331-6005;phone-context=").unwrap()
    );
    assert!(!is_valid_with(&db, &read(&db, None, "+1 2530000").unwrap()));
}


#[test]
fn each_parse_error() {
    let db = database();
    assert_eq!(Err(ParseError::NoNumber), read(&db, None, "xyz"));
    assert_eq!(Err(ParseError::InvalidCountryCode), read(&db, None, "abc"));
    assert_eq!(Err(ParseError::InvalidCountryCode), read(&db, None, "2530000"));
    assert_eq!(Err(ParseError::InvalidCountryCode), read(&db, None, "+0 6502530000"));
    assert_eq!(Err(ParseError::TooShortNsn), read(&db, None, "+1 2"));
    assert_eq!(Err(ParseError::TooLong), read(&db, None, "+1 65025300001234567890"));
    assert_eq!(Err(ParseError::MalformedInteger), read(&db, None, "tel:123456;phone-context=+99999999"));
}

#[test]
fn length_classes() {
    let meta = us_region();
    let digits = |s: &str| s.chars().collect::<Vec<char>>();
    assert_eq!(phonenumber::Validation::IsPossible, length(&meta, &digits("6502530000"), Type::Unknown));
    assert_eq!(phonenumber::Validation::IsPossibleLocalOnly, length(&meta, &digits("2530000"), Type::Unknown));
    assert_eq!(phonenumber::Validation::TooShort, length(&meta, &digits("253000"), Type::Unknown));
    assert_eq!(phonenumber::Validation::TooLong, length(&meta, &digits("65025300001"), Type::Unknown));
    assert_eq!(phonenumber::Validation::InvalidLength, length(&meta, &digits("6502530000"), Type::Pager));
    let gb = gb_region();
    assert_eq!(phonenumber::Validation::IsPossible, length(&gb, &digits("791234567"), Type::Unknown));
    assert_eq!(phonenumber::Validation::TooShort, length(&gb, &digits("791234567"), Type::Mobile));
    assert!(phonenumber::Validation::IsPossibleLocalOnly.is_possible());
    assert!(!phonenumber::Validation::TooLong.is_possible());
    assert!(phonenumber::Validation::InvalidCountryCode.is_invalid());
    assert!(!phonenumber::Validation::InvalidCountryCode.is_invalid_length());
    assert!(phonenumber::Validation::InvalidLength.is_invalid_length());
}

#[test]
fn national_format_with_carrier_code() {
    let db = database();
    let n = read(&db, Some(Id::BR), "012 3121286979").unwrap();
    let mut with_carrier = rule(r"(\d{2})(\d{4})(\d{4})", "$1 $2-$3", &[], Some("($FG)"));
    with_carrier.domestic_carrier = Some("$NP $CC ($FG)".to_string());
    assert_eq!(
        "0 12 (31) 2128-6979",
        format_with(&db, &n).mode(Mode::National).with(&with_carrier).to_string().unwrap()
    );
    let without = read(&db, Some(Id::BR), "3121286979").unwrap();
    assert_eq!(
        "(31) 2128-6979",
        format_with(&db, &without).mode(Mode::National).with(&with_carrier).to_string().unwrap()
    );
}

#[test]
fn formatting_edges() {
    let db = database();
    let unknown = number(999, Source::Plus, 12345678, 0);
    assert!(format_with(&db, &unknown).mode(Mode::E164).to_string().is_none());
    let n = read(&db, Some(Id::NZ), "tel:03-331-6005;ext=1234;phone-context=+64").unwrap();
    assert_eq!("+64 3-331 6005 ext. 1234", formatted(&db, &n, Mode::International));
    assert_eq!("03-331 6005 ext. 1234", formatted(&db, &n, Mode::National));
    assert_eq!("tel:+64-3-331-6005;ext=1234", formatted(&db, &n, Mode::Rfc3966));
    assert_eq!("+6433316005", n.format_with(&db).to_string().unwrap());
    let plain = read(&db, Some(Id::JP), "+81 *2345").unwrap();
    assert_eq!("2345", formatted(&db, &plain, Mode::National));
    assert_eq!("+81 2345", formatted(&db, &plain, Mode::International));
}

#[test]
fn law_national_length_on_values() {
    let db = database();
    let n = read(&db, Some(Id::IT), "+39 0236618300").unwrap();
    let digits = n.national.value.to_string().len() + n.national.zeros as usize;
    assert_eq!(10, digits);
    assert!((2..=17).contains(&digits));
    let short = read(&db, Some(Id::NZ), "12").unwrap();
    assert_eq!(2, short.national.value.to_string().len() + short.national.zeros as usize);
}

#[test]
fn law_code_is_known_on_values() {
    let db = database();
    for (region, s) in [(Some(Id::US), "+1 6502530000"), (Some(Id::NZ), "033316005"), (None, "+979 123456789")] {
        let n = read(&db, region, s).unwrap();
        assert!(db.by_code(n.code.value).is_some());
    }
}

#[test]
fn law_plus_source_on_values() {
    let db = database();
    assert_eq!(Source::Plus, read(&db, Some(Id::US), "+64 3 331 6005").unwrap().code.source);
    assert_eq!(Source::Plus, read(&db, Some(Id::NZ), "\u{FF0B}64 3 331 6005").unwrap().code.source);
    assert_eq!(Source::Plus, read(&db, Some(Id::NZ), "+0064 3 331 6005").unwrap().code.source);
}

#[test]
fn law_default_region_code_on_values() {
    let db = database();
    let n = read(&db, Some(Id::NZ), "03 331 6005").unwrap();
    assert_eq!((Source::Default, 64), (n.code.source, n.code.value));
    let n = read(&db, Some(Id::NZ), "64(0)64123456").unwrap();
    assert_eq!((Source::Number, 64), (n.code.source, n.code.value));
    let n = read(&db, Some(Id::NZ), "0044 20 7031 3000").unwrap();
    assert_eq!((Source::Idd, 44), (n.code.source, n.code.value));
}

#[test]
fn law_valid_iff_typed_on_values() {
    let db = database();
    for (region, s) in [(Some(Id::US), "+1 6502530000"), (None, "+1 2530000"), (None, "+800 12345678"), (None, "+44 791234567")] {
        let n = read(&db, region, s).unwrap();
        assert_eq!(is_valid_with(&db, &n), n.number_type(&db) != Type::Unknown);
    }
}

#[test]
fn e164_output_parses_back() {
    let db = database();
    let n = read(&db, Some(Id::IT), "+39 0236618300").unwrap();
    let e164 = formatted(&db, &n, Mode::E164);
    assert_eq!(n, read(&db, None, &e164).unwrap());
    let n = read(&db, Some(Id::US), "+1 6502530000").unwrap();
    assert_eq!(n, read(&db, None, &formatted(&db, &n, Mode::E164)).unwrap());
    let national = read(&db, Some(Id::US), "6502530000").unwrap();
    let again = read(&db, None, &formatted(&db, &national, Mode::E164)).unwrap();
    assert_eq!((national.code.value, national.national), (again.code.value, again.national));
    assert_eq!(Source::Plus, again.code.source);
}

#[test]
fn formatted_output_parses_back() {
    let db = database();
    let n = read(&db, Some(Id::GB), "+44 2070313000").unwrap();
    for (region, mode) in [(Some(Id::GB), Mode::National), (None, Mode::International), (None, Mode::Rfc3966)] {
        let again = read(&db, region, &formatted(&db, &n, mode)).unwrap();
        assert_eq!((n.code.value, n.national), (again.code.value, again.national));
    }
}

#[test]
fn viable_inputs() {
    let db = database();
    assert!(is_viable("6502530000"));
    assert!(read(&db, Some(Id::US), "6502530000").is_ok());
    assert!(read(&db, Some(Id::US), "+1 6502530000").is_ok());
    assert!(!is_viable("+1 6502530000"));
}

#[test]
fn shared_code_picks_region_by_leading_digits() {
    let db = database();
    let ca = read(&db, None, "+1 6137827274").unwrap();
    assert_eq!("CA", ca.metadata(&db).unwrap().id);
    assert_eq!(Some("CA"), ca.country().id(&db));
    assert_eq!(1, ca.country().code());
    assert_eq!(Some("001"), read(&db, None, "+80012340000").unwrap().country().id(&db));
    assert_eq!(Type::FixedLineOrMobile, ca.number_type(&db));
    let us = read(&db, None, "+1 6502530000").unwrap();
    assert_eq!("US", us.metadata(&db).unwrap().id);
    let toll_free = read(&db, None, "+1 8002530000").unwrap();
    assert_eq!(Type::TollFree, toll_free.number_type(&db));
    let premium = read(&db, None, "+1 9002530000").unwrap();
    assert_eq!(Type::PremiumRate, premium.number_type(&db));
}

#[test]
fn extensions_in_natural_notation() {
    let db = database();
    let with = |s: &str| read(&db, Some(Id::US), s).unwrap().extension().map(|e| e.as_str().to_string());
    assert_eq!(Some("4567".to_string()), with("650 253 0000 extn. 4567"));
    assert_eq!(Some("123".to_string()), with("650 253 0000;ext=123"));
    assert_eq!(Some("12".to_string()), with("650 253 0000 -12#"));
    assert_eq!(None, with("650 253 0000"));
}
