use smt_api_client::events::{Actuators, Command};
use smt_api_client::tasks::command::Outputs;

#[test]
fn outputs_follow_the_last_command() {
    let mut o = Outputs::new(false, false, true);
    assert_eq!(o.apply(Command::Activate(Actuators::WaterPump)), Some((Actuators::WaterPump, true)));
    assert_eq!(o.apply(Command::Activate(Actuators::Lights)), Some((Actuators::Lights, true)));
    assert_eq!(o.apply(Command::Disable(Actuators::WaterPump)), Some((Actuators::WaterPump, false)));
    assert_eq!(o.apply(Command::Threshold(3)), None);
    assert!(!o.level(Actuators::WaterPump));
    assert!(o.level(Actuators::Lights));
    assert!(o.level(Actuators::Humidifier));
    assert_eq!(o, Outputs::new(false, true, true));
}

#[test]
fn repeating_a_command_changes_nothing() {
    let mut o = Outputs::new(false, false, false);
    o.apply(Command::Activate(Actuators::Humidifier));
    let once = o;
    o.apply(Command::Activate(Actuators::Humidifier));
    assert_eq!(o, once);
}
