//! TI TCA9548A eight-channel I2C multiplexer.
//!
//! Each downstream channel is a [`TcaChannel`]: before every transfer on it
//! the multiplexer at `tca_addr` is sent the one-byte control word
//! [`TcaChannel::select_mask`], which enables exactly that channel.

use vstd::prelude::*;

verus! {

/// Number of downstream channels of the multiplexer.
pub const CHANNELS: u8 = 8;

/// A multiplexer at address `addr`, reached through `bus`: a handle to the
/// shared upstream bus, of which each channel gets its own copy.
pub struct Tca9548a<BUS> {
    bus: BUS,
    addr: u8,
}

/// One downstream channel of a multiplexer at `tca_addr`, reached over `i2c`.
pub struct TcaChannel<I2C> {
    i2c: I2C,
    tca_addr: u8,
    channel: u8,
}

impl<BUS> Tca9548a<BUS> {
    pub closed spec fn spec_addr(&self) -> u8 {
        self.addr
    }

    pub closed spec fn spec_bus(&self) -> BUS {
        self.bus
    }

    pub fn new(bus: BUS, addr: u8) -> (tca: Self)
        ensures
            tca.spec_addr() == addr,
            tca.spec_bus() == bus,
    {
        Tca9548a { bus, addr }
    }

    /// The eight channels, channel `i` at index `i`, each on its own copy of
    /// the bus handle: channels 0 to 6 get clones of it, channel 7 the handle
    /// itself.
    pub fn split(self) -> (chs: [TcaChannel<BUS>; 8])
        where
            BUS: Clone,
        ensures
            forall|i: int| 0 <= i < 8 ==> #[trigger] chs@[i].spec_channel() == i
                && chs@[i].spec_tca_addr() == self.spec_addr(),
            forall|i: int| 0 <= i < 7 ==> cloned(self.spec_bus(), #[trigger] chs@[i].spec_bus()),
            chs@[7].spec_bus() == self.spec_bus(),
    {
        let b0 = self.bus.clone();
        let b1 = self.bus.clone();
        let b2 = self.bus.clone();
        let b3 = self.bus.clone();
        let b4 = self.bus.clone();
        let b5 = self.bus.clone();
        let b6 = self.bus.clone();
        [
            TcaChannel::new(b0, self.addr, 0),
            TcaChannel::new(b1, self.addr, 1),
            TcaChannel::new(b2, self.addr, 2),
            TcaChannel::new(b3, self.addr, 3),
            TcaChannel::new(b4, self.addr, 4),
            TcaChannel::new(b5, self.addr, 5),
            TcaChannel::new(b6, self.addr, 6),
            TcaChannel::new(self.bus, self.addr, 7),
        ]
    }
}

/// The control word that enables channel `channel` alone: bit `channel` set.
pub open spec fn channel_mask(channel: u8) -> u8
    recommends
        channel < 8,
{
    if channel == 0 {
        1
    } else if channel == 1 {
        2
    } else if channel == 2 {
        4
    } else if channel == 3 {
        8
    } else if channel == 4 {
        16
    } else if channel == 5 {
        32
    } else if channel == 6 {
        64
    } else {
        128
    }
}

impl<I2C> TcaChannel<I2C> {
    pub closed spec fn spec_channel(&self) -> u8 {
        self.channel
    }

    pub closed spec fn spec_tca_addr(&self) -> u8 {
        self.tca_addr
    }

    pub closed spec fn spec_bus(&self) -> I2C {
        self.i2c
    }

    pub fn new(i2c: I2C, tca_addr: u8, channel: u8) -> (ch: Self)
        ensures
            ch.spec_channel() == channel,
            ch.spec_tca_addr() == tca_addr,
            ch.spec_bus() == i2c,
    {
        TcaChannel { i2c, tca_addr, channel }
    }

    pub fn get_channel(&self) -> (c: u8)
        ensures
            c == self.spec_channel(),
    {
        self.channel
    }

    /// Address of the multiplexer this channel belongs to.
    pub fn tca_addr(&self) -> (a: u8)
        ensures
            a == self.spec_tca_addr(),
    {
        self.tca_addr
    }

    /// The control word to send to the multiplexer before a transfer on this
    /// channel: `1 << channel`. A channel number of 8 or more has no such
    /// word (the shift would overflow a byte).
    pub fn select_mask(&self) -> (m: u8)
        requires
            self.spec_channel() < CHANNELS,
        ensures
            m == channel_mask(self.spec_channel()),
            m == 1u8 << self.spec_channel(),
    {
        let m = 1u8 << self.channel;
        proof {
            let c = self.channel;
            assert(c < 8 ==> (1u8 << c) == (if c == 0 { 1u8 } else if c == 1 { 2u8 } else if c == 2 { 4u8 }
                else if c == 3 { 8u8 } else if c == 4 { 16u8 } else if c == 5 { 32u8 } else if c == 6 { 64u8 }
                else { 128u8 })) by (bit_vector);
        }
        m
    }

    /// The downstream bus, for the caller to perform the transfers on.
    pub fn bus(&mut self) -> (bus: &mut I2C)
        ensures
            *bus == old(self).spec_bus(),
            final(self).spec_bus() == *final(bus),
            final(self).spec_channel() == old(self).spec_channel(),
            final(self).spec_tca_addr() == old(self).spec_tca_addr(),
    {
        &mut self.i2c
    }
}

} // verus!
