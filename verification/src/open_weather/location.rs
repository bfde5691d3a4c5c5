use vstd::prelude::*;
use vstd::string::*;
use super::contracts::Address;

verus! {

/// ", ", the separator between the parts of an address.
pub open spec fn separator() -> Seq<char> {
    seq![',', ' ']
}

/// A city in the geocoding reply: coordinates (IEEE-754 bit patterns of the
/// `f64` degrees), name, country and, where there is one, state.
#[derive(Debug)]
pub struct City {
    pub lat_bits: u64,
    pub lon_bits: u64,
    pub name: String,
    pub country: String,
    pub state: Option<String>,
}

/// The geocoding reply: a list of cities.
#[derive(Debug)]
pub struct LocationResponse {
    pub cities: Vec<City>,
}

impl City {
    /// "name, state, country", or "name, country" for a city without state.
    pub open spec fn text(&self) -> Seq<char> {
        match self.state {
            Some(state) => self.name@ + separator() + state@ + separator() + self.country@,
            None => self.name@ + separator() + self.country@,
        }
    }

    /// The city as text: "name, state, country", or "name, country".
    pub fn to_string(&self) -> (text: String)
        ensures
            text@ == self.text(),
    {
        proof {
            reveal_strlit(", ");
        }
        let mut text = self.name.clone();
        match &self.state {
            Some(state) => {
                text.append(", ");
                text.append(state.as_str());
                text.append(", ");
                text.append(self.country.as_str());
            },
            None => {
                text.append(", ");
                text.append(self.country.as_str());
            },
        }
        text
    }
}

/// The address made from a city: its coordinates, and its text.
pub open spec fn is_address_of(address: Address, city: City) -> bool {
    &&& address.lat_bits == city.lat_bits
    &&& address.lon_bits == city.lon_bits
    &&& address.full_address@ == city.text()
}

/// The address of the geocoding request for a text.
pub open spec fn location_url_text(input: Seq<char>, api_key: Seq<char>) -> Seq<char> {
    "http://api.openweathermap.org/geo/1.0/direct?appid="@ + api_key + "&q="@ + input
}

/// The address of the geocoding request for a text typed by the user.
pub fn location_url(input: &str, api_key: &str) -> (url: String)
    ensures
        url@ == location_url_text(input@, api_key@),
{
    let mut url = "http://api.openweathermap.org/geo/1.0/direct?appid=".to_string();
    url.append(api_key);
    url.append("&q=");
    url.append(input);
    url
}

/// The addresses of all cities of the reply, in order.
pub fn convert_to_addresses(response: LocationResponse) -> (addresses: Vec<Address>)
    ensures
        addresses@.len() == response.cities@.len(),
        forall|i: int| 0 <= i < addresses@.len() ==> {
            &&& (#[trigger] addresses@[i]).lat_bits == response.cities@[i].lat_bits
            &&& addresses@[i].lon_bits == response.cities@[i].lon_bits
            &&& addresses@[i].full_address@ == response.cities@[i].text()
        },
        forall|i: int|
            0 <= i < addresses@.len() ==> is_address_of(#[trigger] addresses@[i], response.cities@[i]),
{
    let ghost cities = response.cities@;
    let mut addresses: Vec<Address> = Vec::new();
    for city in it: response.cities
        invariant
            it.seq() == cities,
            addresses@.len() == it.index(),
            forall|i: int| 0 <= i < it.index() ==> is_address_of(#[trigger] addresses@[i], cities[i]),
    {
        addresses.push(convert_city_to_address(city));
    }
    addresses
}

/// The address of one city.
pub fn convert_city_to_address(city: City) -> (address: Address)
    ensures
        is_address_of(address, city),
        address.lat_bits == city.lat_bits,
        address.lon_bits == city.lon_bits,
        address.full_address@ == city.text(),
{
    let address = city.to_string();
    Address { lat_bits: city.lat_bits, lon_bits: city.lon_bits, full_address: address }
}

/// An address made from a city carries the city's coordinates unchanged,
/// and its text.
pub proof fn law_address_keeps_city(address: Address, city: City)
    requires
        is_address_of(address, city),
    ensures
        address.lat_bits == city.lat_bits,
        address.lon_bits == city.lon_bits,
        address.full_address@ == city.text(),
{
}

/// A city's text starts with its name, ends with its country, holds its
/// state (when there is one) after the name and a comma, and has room for
/// exactly these parts and their separators.
pub proof fn law_city_text_parts(city: City)
    ensures
        city.text().len() == city.name@.len() + 2 + city.country@.len() + match city.state {
            Some(state) => state@.len() + 2,
            None => 0,
        },
        city.text().subrange(0, city.name@.len() as int) == city.name@,
        city.text().subrange(city.name@.len() as int, (city.name@.len() + 2) as int) == seq![',', ' '],
        city.text().subrange(city.text().len() - city.country@.len(), city.text().len() as int)
            == city.country@,
        forall|state: String| city.state == Some(state) ==> city.text().subrange(
            city.name@.len() + 2 as int,
            city.name@.len() + 2 + state@.len() as int,
        ) == state@,
{
    match city.state {
        Some(state) => {
            let t = city.name@ + separator() + state@ + separator() + city.country@;
            assert(t.subrange(0, city.name@.len() as int) =~= city.name@);
            assert(t.subrange(city.name@.len() as int, (city.name@.len() + 2) as int) =~= seq![',', ' ']);
            assert(t.subrange(t.len() - city.country@.len(), t.len() as int) =~= city.country@);
            assert(t.subrange(city.name@.len() + 2 as int, city.name@.len() + 2 + state@.len() as int) =~= state@);
        },
        None => {
            let t = city.name@ + separator() + city.country@;
            assert(t.subrange(0, city.name@.len() as int) =~= city.name@);
            assert(t.subrange(city.name@.len() as int, (city.name@.len() + 2) as int) =~= seq![',', ' ']);
            assert(t.subrange(t.len() - city.country@.len(), t.len() as int) =~= city.country@);
        },
    }
}

/// The geocoding request ends with the text typed by the user, after "&q=",
/// and the key stands right before that.
pub proof fn law_location_url_parts(input: Seq<char>, api_key: Seq<char>)
    ensures
        ({
            let url = location_url_text(input, api_key);
            &&& url.subrange(url.len() - input.len(), url.len() as int) == input
            &&& url.subrange(url.len() - input.len() - 3, url.len() - input.len()) == seq!['&', 'q', '=']
            &&& url.subrange(url.len() - input.len() - 3 - api_key.len(), url.len() - input.len() - 3)
                == api_key
        }),
{
    reveal_strlit("&q=");
    let url = location_url_text(input, api_key);
    assert(url.subrange(url.len() - input.len(), url.len() as int) =~= input);
    assert(url.subrange(url.len() - input.len() - 3, url.len() - input.len()) =~= seq!['&', 'q', '=']);
    assert(url.subrange(url.len() - input.len() - 3 - api_key.len(), url.len() - input.len() - 3)
        =~= api_key);
}

} // verus!
