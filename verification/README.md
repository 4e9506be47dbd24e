# pihole_exporter

A Prometheus exporter for Pi-hole. Its logic is a library verified with
Verus; a thin executable around it does the network, the clock and the
Prometheus registry.

## Layout

- `src/` — the verified library.
  - `config.rs`: command-line settings, their split into one configuration
    per Pi-hole host, host/port parsing and validation.
  - `api.rs`: the API client's decisions — authentication retries, session
    validity, size and status checks, error reports.
  - `collect.rs`: the endpoints of one scrape and which failure it reports.
  - `model.rs`, `info.rs`: the integer-valued parts of the API responses,
    merging of client lists, the latest history slot, version labels.
  - `samples.rs`: the gauge values (with their labels) that one scrape sets.
  - `catalog.rs`: the gauges — names, help texts, label names, registration
    order.
  - `upstream.rs`, `http.rs`: the health state and what each HTTP endpoint
    answers.
  - `startup.rs`: the connection probe at start-up and its retries.
  - `metrics.rs`: the registry of gauge vectors (registration of the
    catalogue) and its rendering in the text format.
  - `text.rs`: the string helpers the rest is built on.
- `app/` — the executable: argument parsing, HTTP serving, API requests,
  JSON decoding, setting the floating-point readings, logging.
- `tests/` — tests of the library.

Each public function of the library states its result in an `ensures`
clause; the properties that relate several functions are public proof
functions named `law_*`.
