//! Geolocation and network-ownership records for resolved host addresses.
//!
//! A batch of host identifiers is turned, one identifier after the other, into
//! one record each: the resolved address, its reverse name where it has a
//! meaningful one, the place that a city dataset holds for the address and the
//! autonomous system that an ASN dataset holds for it.
//!
//! Name resolution itself is left to the caller: [`batch`] says which question
//! to ask next and takes the answer, so that every decision lies here.

pub mod asn;
pub mod batch;
pub mod dataset;
pub mod geoip_response;
pub mod resolver;

pub use geoip_response::{GeoIpAsnResponse, GeoIpCityResponse, GeoIpDataResponse, GeoIpResponse};
