//! The records handed back to the caller, and what each of them means.
//!
//! Every field that may be missing is an `Option`: a field without data is
//! `None`, never an empty text or an empty record.

use vstd::prelude::*;

verus! {

/// The text of an optional string, where there is one.
pub open spec fn text_of(value: Option<String>) -> Option<Seq<char>> {
    match value {
        Some(s) => Some(s@),
        None => None,
    }
}

/// What a [`GeoIpDataResponse`] holds.
pub struct AddressRecord {
    pub ip: Seq<char>,
    pub ptr: Option<Seq<char>>,
}

/// What a [`GeoIpCityResponse`] holds.
pub struct CityRecord {
    pub name: Option<Seq<char>>,
    pub state: Option<Seq<char>>,
    pub country: Option<Seq<char>>,
    pub country_iso_code: Option<Seq<char>>,
}

/// What a [`GeoIpAsnResponse`] holds.
pub struct AsnRecord {
    pub number: Option<Seq<char>>,
    pub name: Option<Seq<char>>,
}

/// What a [`GeoIpResponse`] holds.
pub struct GeoResult {
    pub ip: AddressRecord,
    pub city: Option<CityRecord>,
    pub asn: Option<AsnRecord>,
}

/// The resolved address and its reverse name.
#[derive(Clone, Debug, PartialEq, Eq)]
pub struct GeoIpDataResponse {
    /// The resolved address, as text.
    pub ip: String,
    /// The name that reverse resolution gave, unless it is the address itself.
    pub ptr: Option<String>,
}

/// The place that the city dataset holds for an address.
#[derive(Clone, Debug, PartialEq, Eq)]
pub struct GeoIpCityResponse {
    /// English name of the city.
    pub name: Option<String>,
    /// English name of the first subdivision listed.
    pub state: Option<String>,
    /// English name of the country.
    pub country: Option<String>,
    /// ISO code of the country.
    pub country_iso_code: Option<String>,
}

/// The autonomous system that the ASN dataset holds for an address.
#[derive(Clone, Debug, PartialEq, Eq)]
pub struct GeoIpAsnResponse {
    /// The number of the autonomous system, written `AS` and its decimal digits.
    pub number: Option<String>,
    /// The organisation that the autonomous system is registered to.
    pub name: Option<String>,
}

/// Everything found out about one host identifier.
#[derive(Clone, Debug, PartialEq, Eq)]
pub struct GeoIpResponse {
    pub ip: GeoIpDataResponse,
    /// `None` where the city dataset has no record for the address.
    pub city: Option<GeoIpCityResponse>,
    /// `None` where the ASN dataset has no record for the address.
    pub asn: Option<GeoIpAsnResponse>,
}

impl View for GeoIpDataResponse {
    type V = AddressRecord;

    open spec fn view(&self) -> AddressRecord {
        AddressRecord { ip: self.ip@, ptr: text_of(self.ptr) }
    }
}

impl View for GeoIpCityResponse {
    type V = CityRecord;

    open spec fn view(&self) -> CityRecord {
        CityRecord {
            name: text_of(self.name),
            state: text_of(self.state),
            country: text_of(self.country),
            country_iso_code: text_of(self.country_iso_code),
        }
    }
}

impl View for GeoIpAsnResponse {
    type V = AsnRecord;

    open spec fn view(&self) -> AsnRecord {
        AsnRecord { number: text_of(self.number), name: text_of(self.name) }
    }
}

impl View for GeoIpResponse {
    type V = GeoResult;

    open spec fn view(&self) -> GeoResult {
        GeoResult {
            ip: self.ip@,
            city: match self.city {
                Some(c) => Some(c@),
                None => None,
            },
            asn: match self.asn {
                Some(a) => Some(a@),
                None => None,
            },
        }
    }
}

} // verus!
