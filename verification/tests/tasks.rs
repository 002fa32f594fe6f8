use smt_api_client::tasks::mqtt::{
    commands_topic, sensor_topic, sensors_topic, split_command, topic_base, BROKER_IP, BROKER_PORT, TOPIC_PREFIX,
};
use smt_api_client::tasks::sensors::{BME280_ADDRESS, SENSOR_PERIOD_SECS};
use embassy_sync::blocking_mutex::raw::NoopRawMutex;
use embassy_sync::pubsub::PubSubChannel;
use smt_api_client::tasks::wifi::{after_connect, needs_start, take_pending, Batch, WifiAction, RETRY_DELAY_SECS};

#[test]
fn broker_settings() {
    assert_eq!(BROKER_IP, "192.168.58.176");
    assert_eq!(BROKER_PORT, 8883);
    assert_eq!(TOPIC_PREFIX, "smartpot/v1/");
    assert_eq!(BME280_ADDRESS, 0x76);
    assert_eq!(SENSOR_PERIOD_SECS, 2);
}

#[test]
fn topics() {
    let base = topic_base("AA:BB:CC:DD:EE:FF");
    assert_eq!(base, "smartpot/v1/AA:BB:CC:DD:EE:FF/");
    assert_eq!(commands_topic(&base), "smartpot/v1/AA:BB:CC:DD:EE:FF/commands");
    let sensors = sensors_topic(&base);
    assert_eq!(sensors, "smartpot/v1/AA:BB:CC:DD:EE:FF/sensors");
    assert_eq!(sensor_topic(&sensors, "bme280"), "smartpot/v1/AA:BB:CC:DD:EE:FF/sensors/bme280");
}

#[test]
fn split_at_first_colon() {
    assert_eq!(split_command("activate:pump"), Some(("activate", "pump")));
    assert_eq!(split_command("threshold:a:b"), Some(("threshold", "a:b")));
    assert_eq!(split_command(":x"), Some(("", "x")));
    assert_eq!(split_command("disable:"), Some(("disable", "")));
    assert_eq!(split_command("riego:ñandú"), Some(("riego", "ñandú")));
}

#[test]
fn no_colon_is_invalid() {
    assert_eq!(split_command("activate"), None);
    assert_eq!(split_command(""), None);
}

#[test]
fn wifi_decisions() {
    assert_eq!(after_connect(Some(true)), WifiAction::AwaitDisconnect);
    assert_eq!(after_connect(Some(false)), WifiAction::RetryAfter { secs: 5 });
    assert_eq!(after_connect(None), WifiAction::RetryAfter { secs: RETRY_DELAY_SECS });
    assert!(!needs_start(Some(true)));
    assert!(needs_start(Some(false)));
    assert!(needs_start(None));
}

#[test]
fn batch_keeps_the_first_eight() {
    let mut b = Batch::new();
    assert!(b.is_empty());
    assert_eq!(b.first(), None);
    for i in 0..10u32 {
        let kept = b.offer(i);
        assert_eq!(kept, i < 8);
    }
    assert_eq!(b.len(), 8);
    assert!(b.is_full());
    assert_eq!(b.first(), Some(&0));
    for i in 0..8usize {
        assert_eq!(*b.get(i), i as u32);
    }
}

#[test]
fn batch_partial() {
    let mut b = Batch::new();
    b.offer('a');
    b.offer('b');
    assert_eq!(b.len(), 2);
    assert!(!b.is_full());
    assert_eq!(b.first(), Some(&'a'));
}

#[test]
fn take_pending_takes_at_most_eight_in_order() {
    let ch: PubSubChannel<NoopRawMutex, u32, 16, 1, 1> = PubSubChannel::new();
    let mut sub = ch.dyn_subscriber().unwrap();
    let publisher = ch.immediate_publisher();
    assert!(take_pending(&mut sub).is_empty());
    for i in 0..10u32 {
        publisher.publish_immediate(i);
    }
    let b = take_pending(&mut sub);
    assert_eq!(b.len(), 8);
    for i in 0..8usize {
        assert_eq!(*b.get(i), i as u32);
    }
    let rest = take_pending(&mut sub);
    assert_eq!(rest.len(), 2);
    assert_eq!(rest.first(), Some(&8));
    assert_eq!(*rest.get(1), 9);
}

#[test]
fn receive_stops_on_none_or_when_full() {
    let mut b = Batch::new();
    assert!(b.receive(Some(1u8)));
    assert_eq!(b.len(), 1);
    assert!(!b.receive(None));
    assert_eq!(b.len(), 1);
    for i in 2..8u8 {
        assert!(b.receive(Some(i)));
    }
    assert!(!b.receive(Some(8)));
    assert!(b.is_full());
    assert!(!b.receive(Some(9)));
    assert_eq!(b.len(), 8);
    assert_eq!(*b.get(7), 8);
}
