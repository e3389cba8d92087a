# evcc-dashboard

A dashboard for [evcc](https://evcc.io/): it subscribes to evcc's MQTT
topics, keeps the live state of the site and its loadpoints, records samples
in SQLite with tiered retention, and serves web pages, charts and a mobile
API.

## Layout

- `src/` — the library, with its contracts proved:
  - `mqtt/` — what a message on an evcc topic means (`parser`), how it
    changes the live state, and the decisions of the receive loop
    (`subscriber`: apply, subscribe, back off, record a sample batch);
  - `model` — the live state, generic over the number type of readings, with
    the exact effect of each message and the laws it obeys (messages only
    touch what they name, repeated messages change nothing more, loadpoints
    are never lost and stay keyed by id);
  - `db/` — which schema migrations still run and in which order, the SQL of
    the store queries, retention cut-offs, the daily chart's columns and
    dates, and the day-over-day change lookup;
  - `web/` — request gates (API key, base path), chart windows and
    resolutions, comparison periods, view navigation, the schematic's
    accessible descriptions and the settings pairing code;
  - `calendar`, `text` — UTC calendar helpers (through chrono) and
    character-level text functions.
- `app/` — the server around it: configuration file, SQLite, the MQTT
  client, background tasks, HTTP routing and the number formatting of
  readings.
- `tests/` — tests of the library's functions on concrete values.
