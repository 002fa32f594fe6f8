use smt_api_client::events::{Actuators, Command, Measurements, SENSOR_CH_CAP, SENSOR_CH_PUB, SENSOR_CH_SUB};

fn text(m: Measurements<&str>) -> Measurements<String> {
    match m {
        Measurements::BME280(t, h, p) => Measurements::BME280(t.to_string(), h.to_string(), p.to_string()),
        Measurements::BH1750(l) => Measurements::BH1750(l.to_string()),
        Measurements::PH(p) => Measurements::PH(p.to_string()),
        Measurements::TDS(t) => Measurements::TDS(t.to_string()),
    }
}

fn json(m: Measurements<&str>) -> String {
    let mut buf = String::new();
    text(m).to_json(&mut buf);
    buf
}

#[test]
fn channel_dimensions() {
    assert_eq!(SENSOR_CH_CAP, 8);
    assert_eq!(SENSOR_CH_PUB, 4);
    assert_eq!(SENSOR_CH_SUB, 1);
}

#[test]
fn bme280_json() {
    assert_eq!(
        json(Measurements::BME280("25.08", "55", "100653.25")),
        "{\"temperature\":25.08,\"humidity\":55,\"pressure\":100653.25}"
    );
}

#[test]
fn single_value_json() {
    assert_eq!(json(Measurements::BH1750("-1")), "{\"lux\":-1}");
    assert_eq!(json(Measurements::PH("6.5")), "{\"ph\":6.5}");
    assert_eq!(json(Measurements::TDS("310")), "{\"tds\":310}");
}

#[test]
fn to_json_appends() {
    let mut buf = String::from("x");
    text(Measurements::PH("7")).to_json(&mut buf);
    assert_eq!(buf, "x{\"ph\":7}");
}

#[test]
fn commands_drive_outputs() {
    assert_eq!(Command::Activate(Actuators::WaterPump).actuation(), Some((Actuators::WaterPump, true)));
    assert_eq!(Command::Activate(Actuators::Lights).actuation(), Some((Actuators::Lights, true)));
    assert_eq!(Command::Disable(Actuators::Humidifier).actuation(), Some((Actuators::Humidifier, false)));
    assert_eq!(Command::Disable(Actuators::Lights).actuation(), Some((Actuators::Lights, false)));
    assert_eq!(Command::Threshold(40).actuation(), None);
}

#[test]
fn topics_are_sensor_names() {
    assert_eq!(Measurements::BME280(1.0f32, 2.0, 3.0).get_topic(), "bme280");
    assert_eq!(Measurements::BH1750(1u8).get_topic(), "bh1750");
    assert_eq!(Measurements::PH(()).get_topic(), "ph");
    assert_eq!(Measurements::TDS("x").get_topic(), "tds");
}
