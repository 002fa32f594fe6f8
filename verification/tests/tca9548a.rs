use smt_api_client::drivers::tca9548a::{TcaChannel, Tca9548a, CHANNELS};

#[test]
fn channel_keeps_its_settings() {
    let ch = TcaChannel::new("bus", 0x70, 3);
    assert_eq!(ch.get_channel(), 3);
    assert_eq!(ch.tca_addr(), 0x70);
}

#[test]
fn select_mask_is_one_hot() {
    for c in 0..CHANNELS {
        let ch = TcaChannel::new((), 0x70, c);
        assert_eq!(ch.select_mask(), 1u8 << c);
    }
    assert_eq!(TcaChannel::new((), 0x70, 0).select_mask(), 0x01);
    assert_eq!(TcaChannel::new((), 0x70, 7).select_mask(), 0x80);
}

#[test]
fn split_gives_the_eight_channels_in_order() {
    let tca = Tca9548a::new(5u8, 0x71);
    let chs = tca.split();
    for (i, ch) in chs.iter().enumerate() {
        assert_eq!(ch.get_channel() as usize, i);
        assert_eq!(ch.tca_addr(), 0x71);
    }
    let mut chs = chs;
    assert_eq!(*chs[4].bus(), 5);
}

#[test]
fn split_gives_every_channel_the_same_bus() {
    let chs = Tca9548a::new(String::from("i2c0"), 0x70).split();
    for mut ch in chs {
        assert_eq!(ch.bus().as_str(), "i2c0");
    }
}
