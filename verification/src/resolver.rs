//! One address, and the record that is made for it.
//!
//! Given the resolved address, the name that reverse resolution gave for it
//! and the two datasets, [`resolve`] builds the record. Missing data never
//! fails it: a dataset without a record for the address leaves that part of
//! the record out, and a record without a field leaves the field out.

use vstd::prelude::*;
use crate::asn::{asn_label, format_asn};
use crate::dataset::{asn_data, asn_view, city_data, city_view, AsnData, AsnEntry, CityData, CityEntry, Dataset};
use crate::geoip_response::{
    text_of, AddressRecord, AsnRecord, CityRecord, GeoIpAsnResponse, GeoIpCityResponse,
    GeoIpDataResponse, GeoIpResponse, GeoResult,
};

verus! {

/// The reverse name that is reported for `address`: the name that reverse
/// resolution gave, unless there is none or it is the address's own text.
pub open spec fn reverse_record(address: Seq<char>, name: Option<Seq<char>>) -> Option<Seq<char>> {
    match name {
        Some(n) => if n == address {
            None
        } else {
            Some(n)
        },
        None => None,
    }
}

/// The state that is reported: the first subdivision's English name.
pub open spec fn first_state(subdivisions: Seq<Option<Seq<char>>>) -> Option<Seq<char>> {
    if subdivisions.len() > 0 {
        subdivisions[0]
    } else {
        None
    }
}

/// The city record that is reported for a record found in the city dataset.
pub open spec fn city_record(data: CityData) -> CityRecord {
    CityRecord {
        name: data.city,
        state: first_state(data.subdivisions),
        country: data.country,
        country_iso_code: data.country_iso_code,
    }
}

/// The ASN record that is reported for a record found in the ASN dataset.
pub open spec fn asn_record(data: AsnData) -> AsnRecord {
    AsnRecord {
        number: match data.number {
            Some(n) => Some(asn_label(n)),
            None => None,
        },
        name: data.organization,
    }
}

/// The record for `address`, given the name that reverse resolution gave and
/// what the two datasets hold for the address.
pub open spec fn geo_result(
    address: Seq<char>,
    name: Option<Seq<char>>,
    city: Option<CityData>,
    asn: Option<AsnData>,
) -> GeoResult {
    GeoResult {
        ip: AddressRecord { ip: address, ptr: reverse_record(address, name) },
        city: match city {
            Some(data) => Some(city_record(data)),
            None => None,
        },
        asn: match asn {
            Some(data) => Some(asn_record(data)),
            None => None,
        },
    }
}

/// Whether forward resolution changed the text: whether the resolved address
/// reads otherwise than the identifier it was resolved from.
pub fn is_resolved_name(identifier: &String, address: &String) -> (r: bool)
    ensures
        r == (identifier@ != address@),
{
    !(*identifier == *address)
}

/// Decides which reverse name is reported for `address`.
pub fn reverse_name(address: &String, name: Option<String>) -> (r: Option<String>)
    ensures
        text_of(r) == reverse_record(address@, text_of(name)),
{
    match name {
        Some(n) => {
            if n == *address {
                None
            } else {
                Some(n)
            }
        },
        None => None,
    }
}

/// Builds the city record from a record found in the city dataset.
pub fn city_response(entry: CityEntry) -> (r: GeoIpCityResponse)
    ensures
        r@ == city_record(entry@),
{
    let state = if entry.subdivisions.len() > 0 {
        match &entry.subdivisions[0] {
            Some(s) => Some(s.clone()),
            None => None,
        }
    } else {
        None
    };
    GeoIpCityResponse {
        name: entry.city,
        state,
        country: entry.country,
        country_iso_code: entry.country_iso_code,
    }
}

/// Builds the ASN record from a record found in the ASN dataset.
pub fn asn_response(entry: AsnEntry) -> (r: GeoIpAsnResponse)
    ensures
        r@ == asn_record(entry@),
{
    let number = match entry.number {
        Some(n) => Some(format_asn(n)),
        None => None,
    };
    GeoIpAsnResponse { number, name: entry.organization }
}

/// Puts the record for `address` together from what was found out about it.
pub fn assemble(
    address: String,
    name: Option<String>,
    city: Option<CityEntry>,
    asn: Option<AsnEntry>,
) -> (r: GeoIpResponse)
    ensures
        r@ == geo_result(address@, text_of(name), city_view(city), asn_view(asn)),
{
    let ptr = reverse_name(&address, name);
    let city = match city {
        Some(entry) => Some(city_response(entry)),
        None => None,
    };
    let asn = match asn {
        Some(entry) => Some(asn_response(entry)),
        None => None,
    };
    GeoIpResponse { ip: GeoIpDataResponse { ip: address, ptr }, city, asn }
}

/// Looks `address` up in both datasets and builds its record.
pub fn resolve(address: String, name: Option<String>, city_db: &Dataset, asn_db: &Dataset) -> (r:
    GeoIpResponse)
    ensures
        r@ == geo_result(
            address@,
            text_of(name),
            city_data(city_db@, address@),
            asn_data(asn_db@, address@),
        ),
{
    let city = city_db.city(address.as_str());
    let asn = asn_db.asn(address.as_str());
    assemble(address, name, city, asn)
}

/// A record has a city part exactly where the city dataset has a record for
/// the address, an ASN part exactly where the ASN dataset has one, and a
/// reverse name exactly where reverse resolution gave a name other than the
/// address's own text.
pub proof fn lemma_absent_parts_left_out(
    address: Seq<char>,
    name: Option<Seq<char>>,
    city: Option<CityData>,
    asn: Option<AsnData>,
)
    ensures
        ({
            let record = geo_result(address, name, city, asn);
            &&& record.city is None <==> city is None
            &&& record.asn is None <==> asn is None
            &&& record.ip.ptr is None <==> (name is None || name == Some(address))
            &&& record.ip.ptr is Some ==> record.ip.ptr == name
        }),
{
}

/// Resolving again changes nothing: two records made for the same address and
/// the same reverse name, against datasets that read the same bytes, are the
/// same record.
pub proof fn lemma_resolution_repeatable(
    first: GeoIpResponse,
    second: GeoIpResponse,
    address: Seq<char>,
    name: Option<Seq<char>>,
    city_db: Dataset,
    asn_db: Dataset,
    city_db_again: Dataset,
    asn_db_again: Dataset,
)
    requires
        city_db@ == city_db_again@,
        asn_db@ == asn_db_again@,
        first@ == geo_result(
            address,
            name,
            city_data(city_db@, address),
            asn_data(asn_db@, address),
        ),
        second@ == geo_result(
            address,
            name,
            city_data(city_db_again@, address),
            asn_data(asn_db_again@, address),
        ),
    ensures
        first@ == second@,
{
}

} // verus!
