# eg4_bridge

The verified core of a bridge between EG4 (Luxpower-protocol) inverters and MQTT,
InfluxDB and SQL databases, written in Verus.

## Layout

- `src/` — the library, every function verified by Verus:
  - `config.rs`: the configuration, its defaults, validation and error messages, and the
    running configuration with its lookups and runtime updates of inverter serials.
  - `coordinator.rs`: packet statistics, what happens to each packet an inverter sends
    (statistics, identity updates, register cache stores, InfluxDB/database/MQTT routing,
    read-only refusal), the start-up plan and steps, the loop's decisions and the
    statistics summary.
  - `command.rs`: the operation that carries out each inverter command.
  - `register_cache.rs`: the holding-register cache and the per-datalog input registers
    behind the `inputs/all` snapshot.
  - `register_metadata.rs`: the input-register catalog and its Home Assistant classes.
  - `home_assistant.rs`: Home Assistant discovery entities.
  - `mqtt.rs`, `serial.rs`, `scale.rs`, `text.rs`: command topics, serial numbers,
    exact decimal scale factors and text helpers.
- `tests/` — tests of the library on concrete values.
- `app/` — the I/O around the library: reading the YAML configuration and the register
  file, JSON payloads, and the register-cache and coordinator loops over channels.
