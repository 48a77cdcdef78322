//! What a GeoIP lookup tells about a peer's address, and how it is shown.

use vstd::prelude::*;
use vstd::string::*;

use crate::util::{decimal, decimal_text};

verus! {

/// The autonomous system an address belongs to.
pub struct AsnInfo {
    pub number: u32,
    pub organization: String,
}

/// Where an address is located, as far as known.
pub struct CityInfo {
    pub city: Option<String>,
    pub country: Option<String>,
    pub country_code: Option<String>,
}

/// Everything known about an address.
pub struct GeoInfo {
    pub asn: Option<AsnInfo>,
    pub city: Option<CityInfo>,
}

pub open spec fn asn_text(a: AsnInfo) -> Seq<char> {
    "AS"@ + decimal(a.number as nat) + " - "@ + a.organization@
}

pub open spec fn city_text(c: CityInfo) -> Seq<char> {
    match (c.city, c.country) {
        (Some(city), Some(country)) => city@ + ", "@ + country@,
        (None, Some(country)) => country@,
        (Some(city), None) => city@,
        (None, None) => "Unknown"@,
    }
}

pub open spec fn geo_text(g: GeoInfo) -> Seq<char> {
    match (g.asn, g.city) {
        (Some(a), Some(c)) => asn_text(a) + "\n"@ + city_text(c),
        (Some(a), None) => asn_text(a),
        (None, Some(c)) => city_text(c),
        (None, None) => "No information available"@,
    }
}

impl AsnInfo {
    /// `AS<number> - <organization>`.
    pub fn display_text(&self) -> (r: String)
        ensures
            r@ == asn_text(*self),
    {
        let mut r = String::from_str("AS");
        let digits = decimal_text(self.number as u64);
        r.append(digits.as_str());
        r.append(" - ");
        r.append(self.organization.as_str());
        r
    }
}

impl CityInfo {
    /// The city and country, whichever are known, or `Unknown`.
    pub fn display_text(&self) -> (r: String)
        ensures
            r@ == city_text(*self),
    {
        match (&self.city, &self.country) {
            (Some(city), Some(country)) => {
                let mut r = city.clone();
                r.append(", ");
                r.append(country.as_str());
                r
            },
            (None, Some(country)) => country.clone(),
            (Some(city), None) => city.clone(),
            (None, None) => String::from_str("Unknown"),
        }
    }
}

impl GeoInfo {
    /// The autonomous system over the location, whichever are known.
    pub fn display_text(&self) -> (r: String)
        ensures
            r@ == geo_text(*self),
    {
        match (&self.asn, &self.city) {
            (Some(a), Some(c)) => {
                let mut r = a.display_text();
                r.append("\n");
                let place = c.display_text();
                r.append(place.as_str());
                r
            },
            (Some(a), None) => a.display_text(),
            (None, Some(c)) => c.display_text(),
            (None, None) => String::from_str("No information available"),
        }
    }
}

} // verus!
