use smt_api_client::i2c_scanner::{next_addr, I2CScanner, ScanAction, ScanEvent, ScanState, TCA_ADDR};

/// Runs a scan where `acks` decides whether each transfer is acknowledged,
/// and returns the actions asked for and the events reported.
fn run(mut acks: impl FnMut(&ScanAction) -> bool) -> (Vec<ScanAction>, Vec<ScanEvent>) {
    let mut s = ScanState::start();
    let mut actions = Vec::new();
    let mut events = Vec::new();
    loop {
        let a = s.action();
        if a == ScanAction::Done {
            break;
        }
        let ok = acks(&a);
        actions.push(a);
        let (next, ev) = s.step(ok);
        if let Some(e) = ev {
            events.push(e);
        }
        s = next;
        assert!(actions.len() <= 8 * 117);
    }
    (actions, events)
}

#[test]
fn scanner_keeps_its_bus() {
    let mut s = I2CScanner::new(1u8);
    *s.bus() = 2;
    assert_eq!(*s.bus(), 2);
}

#[test]
fn scan_starts_by_selecting_channel_0() {
    let s = ScanState::start();
    assert_eq!(s, ScanState::Select { channel: 0 });
    assert_eq!(s.action(), ScanAction::SelectChannel { tca_addr: 0x70, mask: 0x01 });
}

#[test]
fn next_addr_skips_the_multiplexer() {
    assert_eq!(next_addr(0x03), Some(0x04));
    assert_eq!(next_addr(0x6F), Some(0x71));
    assert_eq!(next_addr(0x76), Some(0x77));
    assert_eq!(next_addr(0x77), None);
}

#[test]
fn full_scan_probes_every_address_on_every_channel() {
    let (actions, events) = run(|_| true);
    assert_eq!(actions.len(), 8 * 117);
    let mut expected = Vec::new();
    for c in 0..8u8 {
        expected.push(ScanAction::SelectChannel { tca_addr: TCA_ADDR, mask: 1 << c });
        for addr in 0x03..=0x77u8 {
            if addr != 0x70 {
                expected.push(ScanAction::Probe { addr });
            }
        }
    }
    assert_eq!(actions, expected);
    let found = events.iter().filter(|e| matches!(e, ScanEvent::DeviceFound { .. })).count();
    assert_eq!(found, 8 * 116);
    assert_eq!(events[0], ScanEvent::ChannelSelected { channel: 0 });
    assert_eq!(events[1], ScanEvent::DeviceFound { channel: 0, addr: 0x03 });
}

#[test]
fn refused_select_skips_the_channel() {
    // Channel 1 does not answer; a device sits at 0x76 on channel 2 only.
    let mut channel = 0u8;
    let (actions, events) = run(|a| match *a {
        ScanAction::SelectChannel { mask, .. } => {
            channel = mask.trailing_zeros() as u8;
            channel != 1
        }
        ScanAction::Probe { addr } => channel == 2 && addr == 0x76,
        ScanAction::Done => false,
    });
    assert_eq!(actions.len(), 8 + 7 * 116);
    assert!(events.contains(&ScanEvent::ChannelFailed { channel: 1 }));
    let found: Vec<_> = events.iter().filter(|e| matches!(e, ScanEvent::DeviceFound { .. })).collect();
    assert_eq!(found, vec![&ScanEvent::DeviceFound { channel: 2, addr: 0x76 }]);
}

#[test]
fn silent_bus_selects_every_channel_and_finds_nothing() {
    let (actions, events) = run(|_| false);
    assert_eq!(actions.len(), 8);
    assert_eq!(events.len(), 8);
    assert!(events.iter().all(|e| matches!(e, ScanEvent::ChannelFailed { .. })));
}

#[test]
fn finished_scan_stays_finished() {
    let s = ScanState::Finished;
    assert_eq!(s.action(), ScanAction::Done);
    assert_eq!(s.step(true), (ScanState::Finished, None));
}
