//! The two datasets: what is read from them, and how.
//!
//! A dataset is a MaxMind DB image held in memory and read through the
//! `maxminddb` crate. Nothing here looks inside an image: what a lookup finds
//! is given a name, and the rest of the library is stated over that name.

use vstd::prelude::*;
use crate::geoip_response::text_of;

verus! {

/// A MaxMind DB image that has been opened for lookups.
///
/// It holds a `maxminddb::Reader` over the bytes it was opened from, and is
/// made by [`Dataset::open`] alone. The reader is never written to. The
/// verifier does not look inside: all that is known of a dataset is what the
/// functions of this module state about [`image`], [`city_data`] and
/// [`asn_data`].
#[verifier::external_body]
pub struct Dataset {
    reader: maxminddb::Reader<Vec<u8>>,
}

/// `maxminddb::MaxMindDbError`, carried from a call to where it is judged.
#[verifier::external_type_specification]
#[verifier::external_body]
pub struct ExMaxMindDbError(maxminddb::MaxMindDbError);

/// The bytes that a dataset was opened from.
pub uninterp spec fn image(db: Dataset) -> Seq<u8>;

/// Whether `maxminddb::Reader::from_source` accepts these bytes as a database.
pub uninterp spec fn is_database(bytes: Seq<u8>) -> bool;

/// The city record that a lookup of `address` finds in the database `image`:
/// what `maxminddb::Reader::lookup` and `LookupResult::decode` give for it, read
/// as a `geoip2::City`. `None` where `address` is not the text of an address,
/// where the lookup or the decoding fails, and where the database has no data
/// for the address.
pub uninterp spec fn city_data(image: Seq<u8>, address: Seq<char>) -> Option<CityData>;

/// The same for a record read as a `geoip2::Asn`.
pub uninterp spec fn asn_data(image: Seq<u8>, address: Seq<char>) -> Option<AsnData>;

/// A dataset could not be opened: its bytes are no MaxMind DB image.
#[derive(Clone, Copy, Debug, PartialEq, Eq)]
pub struct InvalidDataset;

/// What the library reads of a city record.
#[derive(Clone, Debug, PartialEq, Eq)]
pub struct CityEntry {
    /// English name of the city.
    pub city: Option<String>,
    /// English name of each subdivision, in the order the record lists them.
    pub subdivisions: Vec<Option<String>>,
    /// English name of the country.
    pub country: Option<String>,
    /// ISO code of the country.
    pub country_iso_code: Option<String>,
}

/// What the library reads of an ASN record.
#[derive(Clone, Debug, PartialEq, Eq)]
pub struct AsnEntry {
    /// The number of the autonomous system.
    pub number: Option<u32>,
    /// The organisation that it is registered to.
    pub organization: Option<String>,
}

/// What a [`CityEntry`] holds.
pub struct CityData {
    pub city: Option<Seq<char>>,
    pub subdivisions: Seq<Option<Seq<char>>>,
    pub country: Option<Seq<char>>,
    pub country_iso_code: Option<Seq<char>>,
}

/// What an [`AsnEntry`] holds.
pub struct AsnData {
    pub number: Option<u32>,
    pub organization: Option<Seq<char>>,
}

impl View for Dataset {
    type V = Seq<u8>;

    open spec fn view(&self) -> Seq<u8> {
        image(*self)
    }
}

impl View for CityEntry {
    type V = CityData;

    open spec fn view(&self) -> CityData {
        CityData {
            city: text_of(self.city),
            subdivisions: self.subdivisions@.map_values(|s: Option<String>| text_of(s)),
            country: text_of(self.country),
            country_iso_code: text_of(self.country_iso_code),
        }
    }
}

impl View for AsnEntry {
    type V = AsnData;

    open spec fn view(&self) -> AsnData {
        AsnData { number: self.number, organization: text_of(self.organization) }
    }
}

/// What an optional city entry holds.
pub open spec fn city_view(entry: Option<CityEntry>) -> Option<CityData> {
    match entry {
        Some(e) => Some(e@),
        None => None,
    }
}

/// What an optional ASN entry holds.
pub open spec fn asn_view(entry: Option<AsnEntry>) -> Option<AsnData> {
    match entry {
        Some(e) => Some(e@),
        None => None,
    }
}

/// `maxminddb::Reader::from_source` on a byte vector.
///
/// Believed of it, not proved: it answers every byte vector, with an error
/// for one that is no database image; whether it accepts the bytes depends on
/// the bytes alone; and the reader it returns reads those very bytes.
#[verifier::external_body]
fn from_source(bytes: Vec<u8>) -> (r: Result<Dataset, maxminddb::MaxMindDbError>)
    ensures
        r is Ok <==> is_database(bytes@),
        r matches Ok(db) ==> image(db) == bytes@,
{
    maxminddb::Reader::from_source(bytes).map(|reader| Dataset { reader })
}

/// `maxminddb::Reader::lookup`, then `LookupResult::decode` as a `geoip2::City`,
/// for the address that `address` parses to.
///
/// The outer `None` says that `address` is not the text of an address, an
/// `Err` that the lookup or the decoding failed, `Ok(None)` that the database
/// has no data for the address. Of a record found, the English names and the
/// country's ISO code are copied out. Believed of it, not proved: it answers
/// every address in every dataset, with an error where the image is damaged;
/// and the outcome depends on the database's bytes and on the address text
/// alone.
#[verifier::external_body]
fn lookup_city(db: &Dataset, address: &str) -> (r: Option<
    Result<Option<CityEntry>, maxminddb::MaxMindDbError>,
>)
    ensures
        city_data(image(*db), address@) == (match r {
            Some(Ok(Some(entry))) => Some(entry@),
            _ => None,
        }),
{
    let ip = address.parse().ok()?;
    Some(db.reader.lookup(ip).and_then(|at| at.decode::<maxminddb::geoip2::City>()).map(|hit| {
        hit.map(|c| CityEntry {
            city: c.city.names.english.map(String::from),
            subdivisions: c.subdivisions.iter().map(|s| s.names.english.map(String::from)).collect(),
            country: c.country.names.english.map(String::from),
            country_iso_code: c.country.iso_code.map(String::from),
        })
    }))
}

/// `maxminddb::Reader::lookup`, then `LookupResult::decode` as a `geoip2::Asn`,
/// for the address that `address` parses to.
///
/// The outcomes are those of [`lookup_city`], and so is what is believed of
/// it; of a record found, the number and the organisation are copied out.
#[verifier::external_body]
fn lookup_asn(db: &Dataset, address: &str) -> (r: Option<
    Result<Option<AsnEntry>, maxminddb::MaxMindDbError>,
>)
    ensures
        asn_data(image(*db), address@) == (match r {
            Some(Ok(Some(entry))) => Some(entry@),
            _ => None,
        }),
{
    let ip = address.parse().ok()?;
    Some(db.reader.lookup(ip).and_then(|at| at.decode::<maxminddb::geoip2::Asn>()).map(|hit| {
        hit.map(|a| AsnEntry {
            number: a.autonomous_system_number,
            organization: a.autonomous_system_organization.map(String::from),
        })
    }))
}

impl Dataset {
    /// Opens a database image for lookups.
    ///
    /// Fails exactly on the byte strings that are no database image; a dataset
    /// that was opened reads the bytes it was given.
    pub fn open(bytes: Vec<u8>) -> (r: Result<Dataset, InvalidDataset>)
        ensures
            r is Ok <==> is_database(bytes@),
            r matches Ok(db) ==> db@ == bytes@,
    {
        match from_source(bytes) {
            Ok(db) => Ok(db),
            Err(_) => Err(InvalidDataset),
        }
    }

    /// The city record for `address`, where the dataset has one.
    ///
    /// A miss, a failed lookup and a text that is no address all give `None`.
    pub fn city(&self, address: &str) -> (r: Option<CityEntry>)
        ensures
            city_view(r) == city_data(self@, address@),
    {
        match lookup_city(self, address) {
            Some(Ok(Some(entry))) => Some(entry),
            _ => None,
        }
    }

    /// The ASN record for `address`, where the dataset has one.
    ///
    /// A miss, a failed lookup and a text that is no address all give `None`.
    pub fn asn(&self, address: &str) -> (r: Option<AsnEntry>)
        ensures
            asn_view(r) == asn_data(self@, address@),
    {
        match lookup_asn(self, address) {
            Some(Ok(Some(entry))) => Some(entry),
            _ => None,
        }
    }
}

} // verus!
