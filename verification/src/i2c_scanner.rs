//! Bus scan behind a TCA9548A multiplexer: every channel is selected in
//! turn, and on each selected channel every 7-bit address from 0x03 to 0x77
//! except the multiplexer's own is probed with an empty write.
//!
//! The scan is a state machine: [`ScanState::action`] names the transfer to
//! perform, and [`ScanState::step`] takes whether it was acknowledged and
//! gives the next state and what was learnt.

use vstd::prelude::*;

verus! {

/// Address of the multiplexer on the upstream bus.
pub const TCA_ADDR: u8 = 0x70;
/// Lowest probed address.
pub const FIRST_ADDR: u8 = 0x03;
/// Highest probed address.
pub const LAST_ADDR: u8 = 0x77;
/// Number of multiplexer channels scanned.
pub const SCAN_CHANNELS: u8 = 8;

/// A scanner that owns the upstream bus.
pub struct I2CScanner<I2C> {
    i2c: I2C,
}

impl<I2C> I2CScanner<I2C> {
    pub closed spec fn spec_bus(&self) -> I2C {
        self.i2c
    }

    pub fn new(i2c: I2C) -> (s: Self)
        ensures
            s.spec_bus() == i2c,
    {
        I2CScanner { i2c }
    }

    /// The bus, for the caller to perform the transfers on.
    pub fn bus(&mut self) -> (bus: &mut I2C)
        ensures
            *bus == old(self).spec_bus(),
            final(self).spec_bus() == *final(bus),
    {
        &mut self.i2c
    }
}

/// Where the scan stands.
#[derive(Clone, Copy, Debug, PartialEq, Eq, Structural)]
pub enum ScanState {
    /// Channel `channel` is to be selected next.
    Select { channel: u8 },
    /// Address `addr` on channel `channel` is to be probed next.
    Probe { channel: u8, addr: u8 },
    /// Every channel has been scanned.
    Finished,
}

/// The transfer the scan asks for.
#[derive(Clone, Copy, Debug, PartialEq, Eq, Structural)]
pub enum ScanAction {
    /// Write the single byte `mask` to the multiplexer at `tca_addr`.
    SelectChannel { tca_addr: u8, mask: u8 },
    /// Write zero bytes to `addr`.
    Probe { addr: u8 },
    /// Nothing left to do.
    Done,
}

/// What one acknowledged or refused transfer tells.
#[derive(Clone, Copy, Debug, PartialEq, Eq, Structural)]
pub enum ScanEvent {
    ChannelSelected { channel: u8 },
    ChannelFailed { channel: u8 },
    DeviceFound { channel: u8, addr: u8 },
}

/// An address the scan probes.
pub open spec fn probed(a: int) -> bool {
    FIRST_ADDR <= a <= LAST_ADDR && a != TCA_ADDR
}

/// The probed address after `a`, if any.
pub open spec fn spec_next_addr(a: u8) -> Option<u8> {
    if a >= LAST_ADDR {
        None
    } else if a + 1 == TCA_ADDR {
        Some((a + 2) as u8)
    } else {
        Some((a + 1) as u8)
    }
}

pub open spec fn after_channel(channel: u8) -> ScanState {
    if channel + 1 < SCAN_CHANNELS {
        ScanState::Select { channel: (channel + 1) as u8 }
    } else {
        ScanState::Finished
    }
}

/// `1 << channel` for a channel below 8.
pub open spec fn select_mask(channel: u8) -> u8 {
    (1u8 << channel) as u8
}

impl ScanState {
    /// The state is one the scan can be in.
    pub open spec fn wf(self) -> bool {
        match self {
            ScanState::Select { channel } => channel < SCAN_CHANNELS,
            ScanState::Probe { channel, addr } => channel < SCAN_CHANNELS && probed(addr as int),
            ScanState::Finished => true,
        }
    }

    pub open spec fn spec_action(self) -> ScanAction {
        match self {
            ScanState::Select { channel } => ScanAction::SelectChannel {
                tca_addr: TCA_ADDR,
                mask: select_mask(channel),
            },
            ScanState::Probe { channel, addr } => ScanAction::Probe { addr },
            ScanState::Finished => ScanAction::Done,
        }
    }

    pub open spec fn spec_step(self, acked: bool) -> (ScanState, Option<ScanEvent>) {
        match self {
            ScanState::Select { channel } => if acked {
                (ScanState::Probe { channel, addr: FIRST_ADDR }, Some(ScanEvent::ChannelSelected { channel }))
            } else {
                (after_channel(channel), Some(ScanEvent::ChannelFailed { channel }))
            },
            ScanState::Probe { channel, addr } => {
                let next = match spec_next_addr(addr) {
                    Some(b) => ScanState::Probe { channel, addr: b },
                    None => after_channel(channel),
                };
                (next, if acked { Some(ScanEvent::DeviceFound { channel, addr }) } else { None })
            },
            ScanState::Finished => (ScanState::Finished, None),
        }
    }

    /// Transfers left before the scan is finished, at most.
    pub open spec fn remaining(self) -> nat {
        match self {
            ScanState::Select { channel } => ((8 - channel) * 117) as nat,
            ScanState::Probe { channel, addr } => {
                let pos = if addr < TCA_ADDR { addr - 3 } else { addr - 4 };
                ((8 - channel) * 117 - 1 - pos) as nat
            },
            ScanState::Finished => 0,
        }
    }

    /// The scan's first state: channel 0 is to be selected.
    pub fn start() -> (s: ScanState)
        ensures
            s == (ScanState::Select { channel: 0 }),
            s.wf(),
    {
        ScanState::Select { channel: 0 }
    }

    /// The transfer to perform in this state.
    pub fn action(&self) -> (a: ScanAction)
        requires
            self.wf(),
        ensures
            a == self.spec_action(),
    {
        match *self {
            ScanState::Select { channel } => ScanAction::SelectChannel {
                tca_addr: TCA_ADDR,
                mask: 1u8 << channel,
            },
            ScanState::Probe { channel: _, addr } => ScanAction::Probe { addr },
            ScanState::Finished => ScanAction::Done,
        }
    }

    /// The next state after the transfer of [`ScanState::action`] was
    /// acknowledged (`acked`) or not, and what that tells.
    pub fn step(&self, acked: bool) -> (r: (ScanState, Option<ScanEvent>))
        requires
            self.wf(),
        ensures
            r == self.spec_step(acked),
            r.0.wf(),
    {
        match *self {
            ScanState::Select { channel } => if acked {
                (ScanState::Probe { channel, addr: FIRST_ADDR }, Some(ScanEvent::ChannelSelected { channel }))
            } else {
                (next_channel(channel), Some(ScanEvent::ChannelFailed { channel }))
            },
            ScanState::Probe { channel, addr } => {
                let next = match next_addr(addr) {
                    Some(b) => ScanState::Probe { channel, addr: b },
                    None => next_channel(channel),
                };
                (next, if acked { Some(ScanEvent::DeviceFound { channel, addr }) } else { None })
            },
            ScanState::Finished => (ScanState::Finished, None),
        }
    }
}

fn next_channel(channel: u8) -> (s: ScanState)
    requires
        channel < SCAN_CHANNELS,
    ensures
        s == after_channel(channel),
        s.wf(),
{
    if channel + 1 < SCAN_CHANNELS {
        ScanState::Select { channel: channel + 1 }
    } else {
        ScanState::Finished
    }
}

/// The probed address that follows `a` in the scan, if any.
pub fn next_addr(a: u8) -> (r: Option<u8>)
    ensures
        r == spec_next_addr(a),
{
    if a >= LAST_ADDR {
        None
    } else if a + 1 == TCA_ADDR {
        Some(a + 2)
    } else {
        Some(a + 1)
    }
}

/// On each channel the scan probes every address from 0x03 to 0x77 but the
/// multiplexer's own, each once and in increasing order: the first probe is
/// the least such address, and each next address is the least such address
/// above the current one.
pub proof fn lemma_probe_order(a: u8)
    requires
        probed(a as int),
    ensures
        probed(FIRST_ADDR as int),
        forall|x: int| x < FIRST_ADDR ==> !probed(x),
        spec_next_addr(a) is None <==> a == LAST_ADDR,
        spec_next_addr(a) matches Some(b) ==> {
            &&& a < b
            &&& probed(b as int)
            &&& forall|x: int| a < x < b ==> !probed(x)
        },
{
}

/// The scan never addresses the multiplexer as a device, nor an address
/// outside 0x03..=0x77, and selects a channel with a one-hot control word
/// sent to the multiplexer.
pub proof fn lemma_actions_valid(s: ScanState)
    requires
        s.wf(),
    ensures
        s.spec_action() matches ScanAction::Probe { addr } ==> probed(addr as int),
        s.spec_action() matches ScanAction::SelectChannel { tca_addr, mask } ==> {
            &&& tca_addr == TCA_ADDR
            &&& s matches ScanState::Select { channel }
            &&& mask == select_mask(channel)
            &&& (mask == 1 || mask == 2 || mask == 4 || mask == 8 || mask == 16 || mask == 32 || mask == 64
                || mask == 128)
        },
{
    if let ScanState::Select { channel } = s {
        assert(channel < 8 ==> ((1u8 << channel) == 1 || (1u8 << channel) == 2 || (1u8 << channel) == 4
            || (1u8 << channel) == 8 || (1u8 << channel) == 16 || (1u8 << channel) == 32
            || (1u8 << channel) == 64 || (1u8 << channel) == 128)) by (bit_vector);
    }
}

/// Every step of an unfinished scan brings it closer to its end, so the scan
/// finishes after at most 8 * 117 transfers, whatever the bus answers.
pub proof fn lemma_scan_terminates(s: ScanState, acked: bool)
    requires
        s.wf(),
        s != ScanState::Finished,
    ensures
        s.spec_step(acked).0.remaining() < s.remaining(),
        s.remaining() <= 8 * 117,
{
}

/// A finished scan stays finished and asks for nothing.
pub proof fn lemma_finished_is_final(acked: bool)
    ensures
        ScanState::Finished.spec_step(acked) == (ScanState::Finished, None::<ScanEvent>),
        ScanState::Finished.spec_action() == ScanAction::Done,
{
}

/// What a transfer tells: an acknowledged probe reports a device at
/// exactly the channel and address probed, a refused probe reports nothing,
/// and a selection reports that channel as selected or failed.
pub proof fn lemma_step_reports(s: ScanState, acked: bool)
    requires
        s.wf(),
    ensures
        s matches ScanState::Probe { channel, addr } ==> s.spec_step(acked).1 == if acked {
            Some(ScanEvent::DeviceFound { channel, addr })
        } else {
            None::<ScanEvent>
        },
        s matches ScanState::Select { channel } ==> s.spec_step(acked).1 == Some(
            if acked {
                ScanEvent::ChannelSelected { channel }
            } else {
                ScanEvent::ChannelFailed { channel }
            },
        ),
        s is Finished ==> s.spec_step(acked).1 is None,
{
}

/// Where the scan goes next: a selected channel is probed from its first
/// address; after a probe the same channel is probed at the next higher
/// address that the scan probes, if there is one; past the last address of
/// a channel, or after a refused selection, the next channel is selected,
/// and after channel 7 the scan is finished.
pub proof fn lemma_step_moves_on(s: ScanState, acked: bool)
    requires
        s.wf(),
    ensures
        s matches ScanState::Select { channel } ==> s.spec_step(acked).0 == if acked {
            ScanState::Probe { channel, addr: FIRST_ADDR }
        } else if channel < 7 {
            ScanState::Select { channel: (channel + 1) as u8 }
        } else {
            ScanState::Finished
        },
        s matches ScanState::Probe { channel, addr } ==> {
            &&& addr < LAST_ADDR ==> (s.spec_step(acked).0 matches ScanState::Probe { channel: c2, addr: b } && c2
                == channel && addr < b && probed(b as int) && forall|x: int| addr < x < b ==> !probed(x))
            &&& addr == LAST_ADDR ==> s.spec_step(acked).0 == if channel < 7 {
                ScanState::Select { channel: (channel + 1) as u8 }
            } else {
                ScanState::Finished
            }
        },
{
}

} // verus!
