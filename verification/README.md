# smt_api_client

Firmware logic of SmartPot, an ESP32 plant-monitoring pot that reads
environmental sensors and exchanges readings and commands with an MQTT broker.

The library in `src/` is verified with Verus:

- `drivers::bme280` — BME280 register map, calibration and data decoding, and
  the datasheet's fixed-point compensation; every arithmetic overflow is
  reported as `None` instead of a panic.
- `drivers::tca9548a` — TCA9548A multiplexer channels and their one-hot
  control word.
- `i2c_scanner` — the bus scan behind the multiplexer as a state machine.
- `events` — readings, their JSON form, and actuator commands.
- `tasks` — MQTT topics and command-message splitting, the bounded batch of
  readings taken off the sensor channel, Wi-Fi retry decisions, task settings.
- `checked` — Rust's debug-build integer arithmetic as specification functions.

`app/` is the firmware around it: the async tasks, the bus transfers, the
radio and network stacks, and the conversions to floating point.

No command names are defined yet: a message on the commands topic is split
into its name and argument (`tasks::mqtt::split_command`) and reported, but
not decoded into a `Command`, so no remote command reaches the actuators.
`Command` and `Actuators` describe what the actuator task acts on, and
`Measurements::get_topic` names a reading's topic after its sensor.
