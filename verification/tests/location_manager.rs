use weather::contracts::GetAddress;
use weather::contracts::GetFullAddress;
use weather::datetime::CalendarDate;
use weather::location_manager::LocationManager;
use weather::open_weather::contracts::Address;
use weather::open_weather::{OpenWeatherProvider, WeatherRequest};

fn address(text: &str) -> Address {
    Address { lat_bits: 1.5f64.to_bits(), lon_bits: (-2.25f64).to_bits(), full_address: text.to_string() }
}

fn three_addresses() -> Vec<Address> {
    vec![address("Paris, Ile-de-France, FR"), address("Paris, Texas, US"), address("Paris, Tennessee, US")]
}

#[test]
fn new_manager_is_empty() {
    let manager: LocationManager<Address> = LocationManager::new();
    assert_eq!(manager.get_all_addresses().len(), 0);
    assert_eq!(manager.chosen_index(), None);
    assert_eq!(manager.get_chosen_address().err().unwrap(), "There's no chosen address");
}

#[test]
fn empty_manager_refuses_choices() {
    let mut manager: LocationManager<Address> = LocationManager::new();
    assert_eq!(manager.choose_address(0), Err("There's no addresses to choose".to_string()));
    assert_eq!(manager.choose_address(3), Err("There's no addresses to choose".to_string()));
    assert_eq!(manager.chosen_index(), None);
}

#[test]
fn store_then_read_all() {
    let mut manager = LocationManager::new();
    manager.store_addresses(three_addresses());
    let all = manager.get_all_addresses();
    assert_eq!(all.len(), 3);
    assert_eq!(all[0].get_full_address(), "Paris, Ile-de-France, FR");
    assert_eq!(all[1].get_full_address(), "Paris, Texas, US");
    assert_eq!(all[2].get_full_address(), "Paris, Tennessee, US");
}

#[test]
fn choice_then_read() {
    let mut manager = LocationManager::new();
    manager.store_addresses(three_addresses());
    assert_eq!(manager.choose_address(1), Ok(()));
    assert_eq!(manager.chosen_index(), Some(1));
    assert_eq!(manager.get_chosen_address().unwrap().get_full_address(), "Paris, Texas, US");
}

#[test]
fn choice_past_the_list_is_refused_and_keeps_state() {
    let mut manager = LocationManager::new();
    manager.store_addresses(three_addresses());
    assert_eq!(manager.choose_address(0), Ok(()));
    assert_eq!(
        manager.choose_address(4),
        Err("There's less address that you want to choose".to_string())
    );
    assert_eq!(manager.chosen_index(), Some(0));
    assert_eq!(manager.get_all_addresses().len(), 3);
}

#[test]
fn choice_of_the_length_is_accepted() {
    let mut manager = LocationManager::new();
    manager.store_addresses(three_addresses());
    assert_eq!(manager.choose_address(3), Ok(()));
    assert_eq!(manager.chosen_index(), Some(3));
}

#[test]
fn last_choice_wins() {
    let mut manager = LocationManager::new();
    manager.store_addresses(three_addresses());
    assert_eq!(manager.choose_address(2), Ok(()));
    assert_eq!(manager.choose_address(0), Ok(()));
    assert_eq!(manager.get_chosen_address().unwrap().get_full_address(), "Paris, Ile-de-France, FR");
}

#[test]
fn storing_keeps_the_choice() {
    let mut manager = LocationManager::new();
    manager.store_addresses(three_addresses());
    assert_eq!(manager.choose_address(2), Ok(()));
    manager.store_addresses(vec![address("Lyon, FR"), address("Nice, FR"), address("Metz, FR")]);
    assert_eq!(manager.chosen_index(), Some(2));
    assert_eq!(manager.get_chosen_address().unwrap().get_full_address(), "Metz, FR");
}

#[test]
fn provider_finds_and_chooses() {
    let mut provider = OpenWeatherProvider::new();
    assert_eq!(provider.chosen_index(), None);
    let found = provider.find_addresses(Ok(three_addresses())).unwrap();
    assert_eq!(found.len(), 3);
    assert_eq!(found[2].get_full_address(), "Paris, Tennessee, US");
    assert_eq!(provider.choose_address(2), Ok(()));
    assert_eq!(provider.chosen_index(), Some(2));
}

#[test]
fn provider_passes_on_a_failed_lookup() {
    let mut provider = OpenWeatherProvider::new();
    provider.find_addresses(Ok(three_addresses())).unwrap();
    let failed = provider.find_addresses(Err("error sending request".to_string()));
    assert_eq!(failed.err().unwrap(), "error sending request");
    assert_eq!(provider.choose_address(1), Ok(()));
}

#[test]
fn provider_refuses_choice_without_addresses() {
    let mut provider = OpenWeatherProvider::new();
    assert_eq!(provider.choose_address(1), Err("There's no addresses to choose".to_string()));
}

#[test]
fn weather_request_without_choice() {
    let provider = OpenWeatherProvider::new();
    assert_eq!(provider.weather_request(None).err().unwrap(), "There's no chosen address");
}

#[test]
fn weather_request_for_a_day_and_for_now() {
    let mut provider = OpenWeatherProvider::new();
    provider.find_addresses(Ok(three_addresses())).unwrap();
    provider.choose_address(1).unwrap();
    let day = CalendarDate::new(2024, 2, 29).unwrap();
    match provider.weather_request(Some(day)).unwrap() {
        WeatherRequest::Forecast { address, day: asked } => {
            assert_eq!(address.get_full_address(), "Paris, Texas, US");
            assert_eq!(asked, day);
        }
        WeatherRequest::Today { .. } => panic!("expected a forecast request"),
    }
    match provider.weather_request(None).unwrap() {
        WeatherRequest::Today { address } => {
            assert_eq!(address.full_address, "Paris, Texas, US");
            assert_eq!(f64::from_bits(address.lat_bits), 1.5);
        }
        WeatherRequest::Forecast { .. } => panic!("expected a current-weather request"),
    }
}

#[test]
fn refused_choices_keep_what_was_chosen() {
    let mut manager = LocationManager::new();
    manager.store_addresses(three_addresses());
    assert_eq!(manager.choose_address(2), Ok(()));
    assert!(manager.choose_address(4).is_err());
    assert!(manager.choose_address(usize::MAX).is_err());
    assert_eq!(manager.get_chosen_address().unwrap().get_full_address(), "Paris, Tennessee, US");
    assert_eq!(manager.get_all_addresses().len(), 3);
}
