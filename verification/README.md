# weather

A small weather lookup tool built around a verified library.

The user types an address; a geocoding service returns the matching places;
the user picks one and a date; the tool prints the forecast for that day (or
the current weather).

## Layout

- `src/` — the library, verified with Verus:
  - `location_manager.rs`: the addresses found and the index chosen, with
    the laws of storing, choosing and reading;
  - `open_weather*`, `accu_weather*`: the replies of the two services as
    plain values, and their conversion into addresses and `Weather` values
    (city texts, the forecast for a day, temperature units);
  - `datetime.rs`: calendar dates and moments, and the calls into `chrono`
    that write, read and compute them;
  - `dialog.rs`: reading the user's index and date, and the output text;
  - `decimal.rs`: decimal digits, as the contracts speak of them.
- `app/` — the program: console input and output, HTTP requests
  (`reqwest`, `tokio`), JSON decoding (`serde`), and the floating-point
  temperatures (unit conversion and rounding to one decimal).
- `tests/` — tests of the library.

Numbers that are floating point (coordinates, temperatures) travel through
the library as the bit patterns of their `f64` values; only `app/` reads them
as numbers.
