use geoip_lookup::asn::format_asn;
use geoip_lookup::dataset::{AsnEntry, CityEntry};
use geoip_lookup::resolver::{
    asn_response, assemble, city_response, is_resolved_name, reverse_name,
};
use geoip_lookup::{GeoIpAsnResponse, GeoIpCityResponse, GeoIpDataResponse, GeoIpResponse};

fn s(text: &str) -> String {
    text.to_string()
}

fn some(text: &str) -> Option<String> {
    Some(text.to_string())
}

#[test]
fn asn_number_is_written_with_prefix() {
    assert_eq!(format_asn(15169), "AS15169");
    assert_eq!(format_asn(13335), "AS13335");
}

#[test]
fn asn_number_edges() {
    assert_eq!(format_asn(0), "AS0");
    assert_eq!(format_asn(7), "AS7");
    assert_eq!(format_asn(9), "AS9");
    assert_eq!(format_asn(10), "AS10");
    assert_eq!(format_asn(100), "AS100");
    assert_eq!(format_asn(1009), "AS1009");
    assert_eq!(format_asn(u32::MAX), "AS4294967295");
}

#[test]
fn asn_number_matches_decimal_text() {
    for n in [1u32, 12, 123, 4321, 65535, 65536, 4_000_000_000] {
        assert_eq!(format_asn(n), format!("AS{}", n));
    }
}

#[test]
fn reverse_name_equal_to_address_is_dropped() {
    assert_eq!(reverse_name(&s("8.8.8.8"), some("8.8.8.8")), None);
    assert_eq!(reverse_name(&s("2001:4860:4860::8888"), some("2001:4860:4860::8888")), None);
}

#[test]
fn reverse_name_other_than_address_is_kept() {
    assert_eq!(reverse_name(&s("8.8.8.8"), some("dns.google")), some("dns.google"));
    assert_eq!(reverse_name(&s("8.8.8.8"), some("8.8.8.80")), some("8.8.8.80"));
    assert_eq!(reverse_name(&s("8.8.8.8"), some("")), some(""));
}

#[test]
fn reverse_name_missing_stays_missing() {
    assert_eq!(reverse_name(&s("8.8.8.8"), None), None);
}

#[test]
fn resolved_name_is_told_from_literal() {
    assert!(is_resolved_name(&s("dns.google"), &s("8.8.8.8")));
    assert!(!is_resolved_name(&s("8.8.8.8"), &s("8.8.8.8")));
}

#[test]
fn city_record_takes_first_subdivision() {
    let entry = CityEntry {
        city: some("Oxford"),
        subdivisions: vec![some("England"), some("Oxfordshire")],
        country: some("United Kingdom"),
        country_iso_code: some("GB"),
    };
    assert_eq!(
        city_response(entry),
        GeoIpCityResponse {
            name: some("Oxford"),
            state: some("England"),
            country: some("United Kingdom"),
            country_iso_code: some("GB"),
        }
    );
}

#[test]
fn city_record_without_city_name_keeps_country() {
    let entry = CityEntry {
        city: None,
        subdivisions: vec![],
        country: some("Austria"),
        country_iso_code: some("AT"),
    };
    assert_eq!(
        city_response(entry),
        GeoIpCityResponse {
            name: None,
            state: None,
            country: some("Austria"),
            country_iso_code: some("AT"),
        }
    );
}

#[test]
fn city_record_first_subdivision_without_english_name() {
    let entry = CityEntry {
        city: some("Somewhere"),
        subdivisions: vec![None, some("Second")],
        country: None,
        country_iso_code: None,
    };
    assert_eq!(
        city_response(entry),
        GeoIpCityResponse {
            name: some("Somewhere"),
            state: None,
            country: None,
            country_iso_code: None,
        }
    );
}

#[test]
fn city_record_of_empty_entry_has_no_fields() {
    let entry = CityEntry { city: None, subdivisions: vec![], country: None, country_iso_code: None };
    assert_eq!(
        city_response(entry),
        GeoIpCityResponse { name: None, state: None, country: None, country_iso_code: None }
    );
}

#[test]
fn asn_record_formats_number_and_carries_name() {
    let entry = AsnEntry { number: Some(15169), organization: some("Google LLC") };
    assert_eq!(
        asn_response(entry),
        GeoIpAsnResponse { number: some("AS15169"), name: some("Google LLC") }
    );
}

#[test]
fn asn_record_fields_are_independent() {
    assert_eq!(
        asn_response(AsnEntry { number: None, organization: some("Nameless") }),
        GeoIpAsnResponse { number: None, name: some("Nameless") }
    );
    assert_eq!(
        asn_response(AsnEntry { number: Some(64512), organization: None }),
        GeoIpAsnResponse { number: some("AS64512"), name: None }
    );
}

#[test]
fn record_with_asn_and_no_city() {
    let got = assemble(
        s("8.8.8.8"),
        some("dns.google"),
        None,
        Some(AsnEntry { number: Some(15169), organization: some("Google LLC") }),
    );
    assert_eq!(
        got,
        GeoIpResponse {
            ip: GeoIpDataResponse { ip: s("8.8.8.8"), ptr: some("dns.google") },
            city: None,
            asn: Some(GeoIpAsnResponse { number: some("AS15169"), name: some("Google LLC") }),
        }
    );
}

#[test]
fn record_without_meaningful_reverse_name() {
    let got = assemble(
        s("8.8.8.8"),
        some("8.8.8.8"),
        None,
        Some(AsnEntry { number: Some(15169), organization: some("Google LLC") }),
    );
    assert_eq!(got.ip, GeoIpDataResponse { ip: s("8.8.8.8"), ptr: None });
    assert_eq!(got.city, None);
}

#[test]
fn record_with_nothing_found() {
    let got = assemble(s("192.0.2.1"), None, None, None);
    assert_eq!(
        got,
        GeoIpResponse {
            ip: GeoIpDataResponse { ip: s("192.0.2.1"), ptr: None },
            city: None,
            asn: None,
        }
    );
}

#[test]
fn record_with_city_found_but_empty_keeps_city_part() {
    let empty = CityEntry { city: None, subdivisions: vec![], country: None, country_iso_code: None };
    let got = assemble(s("192.0.2.1"), None, Some(empty), None);
    assert_eq!(
        got.city,
        Some(GeoIpCityResponse { name: None, state: None, country: None, country_iso_code: None })
    );
    assert_eq!(got.asn, None);
}

#[test]
fn record_is_the_same_when_built_again() {
    let build = || {
        assemble(
            s("1.1.1.1"),
            some("one.one.one.one"),
            Some(CityEntry {
                city: some("Sydney"),
                subdivisions: vec![some("New South Wales")],
                country: some("Australia"),
                country_iso_code: some("AU"),
            }),
            Some(AsnEntry { number: Some(13335), organization: some("Cloudflare, Inc.") }),
        )
    };
    assert_eq!(build(), build());
}
