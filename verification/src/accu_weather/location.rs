use vstd::prelude::*;
use vstd::string::*;
use super::contracts::Address;
use crate::open_weather::location::separator;

verus! {

/// A named area: a country or an administrative region.
#[derive(Debug)]
pub struct Area {
    pub name: String,
}

/// A city in the location reply: its key, name, country and region.
#[derive(Debug)]
pub struct City {
    pub key: String,
    pub name: String,
    pub country: Area,
    pub region: Area,
}

/// The location reply: a list of cities.
#[derive(Debug)]
pub struct LocationResponse {
    pub cities: Vec<City>,
}

impl City {
    /// "city, region, country".
    pub open spec fn text(&self) -> Seq<char> {
        self.name@ + separator() + self.region.name@ + separator() + self.country.name@
    }

    /// The city as text: "city, region, country".
    pub fn to_string(&self) -> (text: String)
        ensures
            text@ == self.text(),
    {
        proof {
            reveal_strlit(", ");
        }
        let mut text = self.name.clone();
        text.append(", ");
        text.append(self.region.name.as_str());
        text.append(", ");
        text.append(self.country.name.as_str());
        text
    }
}

/// The address made from a city: its key, and its text.
pub open spec fn is_address_of(address: Address, city: City) -> bool {
    &&& address.key@ == city.key@
    &&& address.full_address@ == city.text()
}

/// The address of the location request for a text.
pub open spec fn location_url_text(input: Seq<char>, api_key: Seq<char>) -> Seq<char> {
    "http://dataservice.accuweather.com/locations/v1/cities/autocomplete?apikey="@ + api_key + "&q="@ + input
}

/// The address of the location request for a text typed by the user.
pub fn location_url(input: &str, api_key: &str) -> (url: String)
    ensures
        url@ == location_url_text(input@, api_key@),
{
    let mut url = "http://dataservice.accuweather.com/locations/v1/cities/autocomplete?apikey=".to_string();
    url.append(api_key);
    url.append("&q=");
    url.append(input);
    url
}

/// The addresses of all cities of the reply, in order.
pub fn convert_to_addresses(response: LocationResponse) -> (addresses: Vec<Address>)
    ensures
        addresses@.len() == response.cities@.len(),
        forall|i: int| 0 <= i < addresses@.len() ==> {
            &&& (#[trigger] addresses@[i]).key@ == response.cities@[i].key@
            &&& addresses@[i].full_address@ == response.cities@[i].text()
        },
        forall|i: int|
            0 <= i < addresses@.len() ==> is_address_of(#[trigger] addresses@[i], response.cities@[i]),
{
    let ghost cities = response.cities@;
    let mut addresses: Vec<Address> = Vec::new();
    for city in it: response.cities
        invariant
            it.seq() == cities,
            addresses@.len() == it.index(),
            forall|i: int| 0 <= i < it.index() ==> is_address_of(#[trigger] addresses@[i], cities[i]),
    {
        addresses.push(convert_city_to_address(city));
    }
    addresses
}

/// The address of one city.
pub fn convert_city_to_address(city: City) -> (address: Address)
    ensures
        is_address_of(address, city),
        address.key@ == city.key@,
        address.full_address@ == city.text(),
{
    let address = city.to_string();
    Address { key: city.key, full_address: address }
}

/// An address made from a city carries the city's key unchanged, and its
/// text.
pub proof fn law_address_keeps_city(address: Address, city: City)
    requires
        is_address_of(address, city),
    ensures
        address.key@ == city.key@,
        address.full_address@ == city.text(),
{
}

/// A city's text is its name, its region and its country, in this order,
/// each pair apart by a comma and a space.
pub proof fn law_city_text_parts(city: City)
    ensures
        city.text().len() == city.name@.len() + city.region.name@.len() + city.country.name@.len() + 4,
        city.text().subrange(0, city.name@.len() as int) == city.name@,
        city.text().subrange(city.name@.len() + 2 as int, city.name@.len() + 2 + city.region.name@.len() as int)
            == city.region.name@,
        city.text().subrange(city.text().len() - city.country.name@.len(), city.text().len() as int)
            == city.country.name@,
{
    let t = city.text();
    assert(t.subrange(0, city.name@.len() as int) =~= city.name@);
    assert(t.subrange(city.name@.len() + 2 as int, city.name@.len() + 2 + city.region.name@.len() as int)
        =~= city.region.name@);
    assert(t.subrange(t.len() - city.country.name@.len(), t.len() as int) =~= city.country.name@);
}

/// The location request ends with the text typed by the user, after "&q=",
/// and the key stands right before that.
pub proof fn law_location_url_parts(input: Seq<char>, api_key: Seq<char>)
    ensures
        ({
            let url = location_url_text(input, api_key);
            &&& url.subrange(url.len() - input.len(), url.len() as int) == input
            &&& url.subrange(url.len() - input.len() - 3, url.len() - input.len()) == seq!['&', 'q', '=']
            &&& url.subrange(url.len() - input.len() - 3 - api_key.len(), url.len() - input.len() - 3)
                == api_key
        }),
{
    reveal_strlit("&q=");
    let url = location_url_text(input, api_key);
    assert(url.subrange(url.len() - input.len(), url.len() as int) =~= input);
    assert(url.subrange(url.len() - input.len() - 3, url.len() - input.len()) =~= seq!['&', 'q', '=']);
    assert(url.subrange(url.len() - input.len() - 3 - api_key.len(), url.len() - input.len() - 3)
        =~= api_key);
}

} // verus!
