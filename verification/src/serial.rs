use vstd::prelude::*;

verus! {

use crate::error::IoError;
use crate::mem::{Mem, MEM_WORDS};
use crate::pac::{Uart1, UART1_CTRL, UART1_RXD, UART1_STAT, UART1_TXD};
use crate::reg::{RoReg, RwReg, WoReg};

/// Peripheral clock feeding the UART's baud generator, a chip constant.
pub const CLK_HZ: u32 = 8_000_000;

/// Status flag: a received byte is waiting in the receive data register.
pub const STAT_RXNE: u32 = 0x1;

/// Status flag: the transmit data register is ready for the next byte.
pub const STAT_TXE: u32 = 0x2;

/// Status flag: framing error reported by the receiver.
pub const STAT_FE: u32 = 0x4;

/// Status flag: overrun error reported by the receiver.
pub const STAT_ORE: u32 = 0x8;

/// Control bit: UART enabled.
pub const CTRL_EN: u32 = 0x1;

/// Control bit: interrupt on "receive data available" enabled.
pub const CTRL_RXIE: u32 = 0x2;

/// Control bit: parity generation and checking enabled.
pub const CTRL_PCE: u32 = 0x4;

/// Control bit: odd parity selected (meaningful only with `CTRL_PCE`).
pub const CTRL_PS: u32 = 0x8;

/// Control bit: two stop bits selected.
pub const CTRL_STOP2: u32 = 0x10;

/// Parity setting of the serial frame.
#[derive(Clone, Copy, Debug, PartialEq, Eq, Structural)]
pub enum Parity {
    ParityNone,
    ParityEven,
    ParityOdd,
}

/// Stop-bit count of the serial frame.
#[derive(Clone, Copy, Debug, PartialEq, Eq, Structural)]
pub enum StopBits {
    One,
    Two,
}

/// Serial configuration: baud rate and framing. A plain value with no
/// ownership implications.
#[derive(Clone, Copy, Debug, PartialEq, Eq, Structural)]
pub struct Config {
    pub baud: u32,
    pub parity: Parity,
    pub stop_bits: StopBits,
}

impl Config {
    /// The baud generator divides the peripheral clock, so the rate must
    /// be nonzero.
    pub open spec fn wf(self) -> bool {
        self.baud > 0
    }
}

impl Default for Config {
    /// The chip-defined default framing: 115200 baud, no parity, one
    /// stop bit.
    fn default() -> (c: Config)
        ensures
            c == (Config { baud: 115200u32, parity: Parity::ParityNone, stop_bits: StopBits::One }),
            c.wf(),
    {
        Config { baud: 115200, parity: Parity::ParityNone, stop_bits: StopBits::One }
    }
}

/// The control-register image a configuration asks for: the enable bit
/// plus its framing bits. The interrupt-enable bit is not part of it;
/// configuring the UART preserves that bit.
pub open spec fn ctrl_bits(c: Config) -> u32 {
    CTRL_EN | (match c.parity {
        Parity::ParityNone => 0u32,
        Parity::ParityEven => CTRL_PCE,
        Parity::ParityOdd => CTRL_PCE | CTRL_PS,
    }) | (match c.stop_bits {
        StopBits::One => 0u32,
        StopBits::Two => CTRL_STOP2,
    })
}

/// The receiver reports a hardware fault: framing or overrun.
pub open spec fn rx_fault(stat: u32) -> bool {
    stat & (STAT_FE | STAT_ORE) != 0u32
}

/// A received byte is available.
pub open spec fn rx_ready(stat: u32) -> bool {
    stat & STAT_RXNE != 0u32
}

/// The transmitter can accept a byte.
pub open spec fn tx_ready(stat: u32) -> bool {
    stat & STAT_TXE != 0u32
}

/// What a receive poll returns on a given register space: the fault, if
/// the hardware reports one; otherwise backpressure, if no byte waits;
/// otherwise the byte in the receive data register.
pub open spec fn spec_read(mem: Seq<u32>) -> Result<u8, IoError> {
    if rx_fault(mem[UART1_STAT as int]) {
        Err(IoError::Fault)
    } else if !rx_ready(mem[UART1_STAT as int]) {
        Err(IoError::WouldBlock)
    } else {
        Ok((mem[UART1_RXD as int] & 0xffu32) as u8)
    }
}

/// Whether a transmit poll may proceed on a given register space: the
/// transmit-side mirror of [`spec_read`].
pub open spec fn spec_write_ready(mem: Seq<u32>) -> Result<(), IoError> {
    if rx_fault(mem[UART1_STAT as int]) {
        Err(IoError::Fault)
    } else if !tx_ready(mem[UART1_STAT as int]) {
        Err(IoError::WouldBlock)
    } else {
        Ok(())
    }
}

/// The receive half of the serial handle: status, receive data and the
/// receive-interrupt enable bit. Independent of the transmit half, so
/// the two may be moved into different execution contexts.
pub struct Rx {
    pub stat: RoReg,
    pub rxd: RoReg,
    pub ctrl: RwReg,
}

impl Rx {
    pub open spec fn wf(self) -> bool {
        &&& self.stat.wf() && self.stat.spec_addr() == UART1_STAT
        &&& self.rxd.wf() && self.rxd.spec_addr() == UART1_RXD
        &&& self.ctrl.wf() && self.ctrl.spec_addr() == UART1_CTRL
    }

    /// Non-blocking receive: exactly [`spec_read`] of the register space.
    /// A fault is never fabricated and never dropped, and backpressure is
    /// reported as `WouldBlock`, distinct from failure.
    pub fn read(&self, m: &Mem) -> (r: Result<u8, IoError>)
        requires
            self.wf(),
            m.wf(),
        ensures
            r == spec_read(m@),
    {
        let stat = self.stat.read(m);
        if stat & (STAT_FE | STAT_ORE) != 0u32 {
            Err(IoError::Fault)
        } else if stat & STAT_RXNE == 0u32 {
            Err(IoError::WouldBlock)
        } else {
            let v = self.rxd.read(m);
            Ok((v & 0xffu32) as u8)
        }
    }

    /// Raise the "receive data available" interrupt enable bit without
    /// touching any other configuration.
    pub fn listen(&self, m: &mut Mem)
        requires
            self.wf(),
            old(m).wf(),
        ensures
            final(m).wf(),
            final(m)@ == old(m)@.update(
                UART1_CTRL as int,
                old(m)@[UART1_CTRL as int] | CTRL_RXIE,
            ),
    {
        self.ctrl.set_bits(m, CTRL_RXIE);
    }

    /// Clear the "receive data available" interrupt enable bit without
    /// touching any other configuration.
    pub fn unlisten(&self, m: &mut Mem)
        requires
            self.wf(),
            old(m).wf(),
        ensures
            final(m).wf(),
            final(m)@ == old(m)@.update(
                UART1_CTRL as int,
                old(m)@[UART1_CTRL as int] & !CTRL_RXIE,
            ),
    {
        self.ctrl.clear_bits(m, CTRL_RXIE);
    }
}

/// The transmit half of the serial handle.
pub struct Tx {
    pub stat: RoReg,
    pub txd: WoReg,
}

impl Tx {
    pub open spec fn wf(self) -> bool {
        &&& self.stat.wf() && self.stat.spec_addr() == UART1_STAT
        &&& self.txd.wf() && self.txd.spec_addr() == UART1_TXD
    }

    /// Non-blocking transmit: if the transmitter is ready the byte goes
    /// into the transmit data register and nothing else moves; otherwise
    /// the register space is untouched and the caller learns why.
    pub fn write(&self, m: &mut Mem, byte: u8) -> (r: Result<(), IoError>)
        requires
            self.wf(),
            old(m).wf(),
        ensures
            final(m).wf(),
            r == spec_write_ready(old(m)@),
            r is Ok ==> final(m)@ == old(m)@.update(UART1_TXD as int, byte as u32),
            r is Err ==> final(m)@ == old(m)@,
    {
        let stat = self.stat.read(m);
        if stat & (STAT_FE | STAT_ORE) != 0u32 {
            Err(IoError::Fault)
        } else if stat & STAT_TXE == 0u32 {
            Err(IoError::WouldBlock)
        } else {
            self.txd.write(m, byte as u32);
            Ok(())
        }
    }
}

/// The configured serial handle: the UART block's registers split into
/// a receive half and a transmit half, plus the configuration they were
/// set up with.
pub struct Serial {
    pub rx_half: Rx,
    pub tx_half: Tx,
    pub config: Config,
}

impl Serial {
    pub open spec fn wf(self) -> bool {
        self.rx_half.wf() && self.tx_half.wf()
    }

    /// The receive half.
    pub fn rx(&self) -> (r: &Rx)
        ensures
            *r == self.rx_half,
    {
        &self.rx_half
    }

    /// The transmit half.
    pub fn tx(&self) -> (t: &Tx)
        ensures
            *t == self.tx_half,
    {
        &self.tx_half
    }

    /// Non-blocking receive; see [`Rx::read`].
    pub fn read(&self, m: &Mem) -> (r: Result<u8, IoError>)
        requires
            self.wf(),
            m.wf(),
        ensures
            r == spec_read(m@),
    {
        self.rx_half.read(m)
    }

    /// Non-blocking transmit; see [`Tx::write`].
    pub fn write(&self, m: &mut Mem, byte: u8) -> (r: Result<(), IoError>)
        requires
            self.wf(),
            old(m).wf(),
        ensures
            final(m).wf(),
            r == spec_write_ready(old(m)@),
            r is Ok ==> final(m)@ == old(m)@.update(UART1_TXD as int, byte as u32),
            r is Err ==> final(m)@ == old(m)@,
    {
        self.tx_half.write(m, byte)
    }

    /// One step of the echo service an interrupt handler runs: poll the
    /// receiver once; echo a received byte back through the transmitter,
    /// dropping it if the transmitter is busy; report a hardware fault to
    /// the caller; do nothing on backpressure.
    pub fn echo_step(&self, m: &mut Mem) -> (r: Result<Option<u8>, IoError>)
        requires
            self.wf(),
            old(m).wf(),
        ensures
            final(m).wf(),
            spec_read(old(m)@) == Err::<u8, IoError>(IoError::Fault) ==> r == Err::<
                Option<u8>,
                IoError,
            >(IoError::Fault) && final(m)@ == old(m)@,
            spec_read(old(m)@) == Err::<u8, IoError>(IoError::WouldBlock) ==> r == Ok::<
                Option<u8>,
                IoError,
            >(None) && final(m)@ == old(m)@,
            spec_read(old(m)@) matches Ok(b) ==> r == Ok::<Option<u8>, IoError>(Some(b)) && (
            tx_ready(old(m)@[UART1_STAT as int]) ==> final(m)@ == old(m)@.update(
                UART1_TXD as int,
                b as u32,
            )) && (!tx_ready(old(m)@[UART1_STAT as int]) ==> final(m)@ == old(m)@),
    {
        match self.rx_half.read(m) {
            Ok(byte) => {
                let _ = self.tx_half.write(m, byte);
                Ok(Some(byte))
            },
            Err(IoError::WouldBlock) => Ok(None),
            Err(IoError::Fault) => Err(IoError::Fault),
        }
    }
}

impl Uart1 {
    /// Configure baud and framing and enable the UART, yielding the
    /// serial handle. The baud divisor register receives the peripheral
    /// clock divided by the requested rate; the control register receives
    /// the configuration's image, preserving only the interrupt-enable
    /// bit; no other register moves.
    pub fn serial(self, cfg: Config, m: &mut Mem) -> (s: Serial)
        requires
            self.wf(),
            cfg.wf(),
            old(m).wf(),
        ensures
            final(m).wf(),
            final(m)@ == old(m)@.update(crate::pac::UART1_BAUD as int, CLK_HZ / cfg.baud).update(
                UART1_CTRL as int,
                ctrl_bits(cfg) | (old(m)@[UART1_CTRL as int] & CTRL_RXIE),
            ),
            s.wf(),
            s.config == cfg,
    {
        self.baud.write(m, CLK_HZ / cfg.baud);
        let prev = self.ctrl.read(m);
        let framing = CTRL_EN | (match cfg.parity {
            Parity::ParityNone => 0u32,
            Parity::ParityEven => CTRL_PCE,
            Parity::ParityOdd => CTRL_PCE | CTRL_PS,
        }) | (match cfg.stop_bits {
            StopBits::One => 0u32,
            StopBits::Two => CTRL_STOP2,
        });
        self.ctrl.write(m, framing | (prev & CTRL_RXIE));
        Serial {
            rx_half: Rx { stat: self.stat, rxd: self.rxd, ctrl: self.ctrl },
            tx_half: Tx { stat: RoReg::at(UART1_STAT), txd: self.txd },
            config: cfg,
        }
    }
}

/// The wire of a loopback harness: the byte sitting in the transmit
/// data register appears in the receive data register and the
/// receive-ready flag rises; nothing else moves.
pub open spec fn wire_loopback(mem: Seq<u32>) -> Seq<u32> {
    mem.update(UART1_RXD as int, mem[UART1_TXD as int]).update(
        UART1_STAT as int,
        mem[UART1_STAT as int] | STAT_RXNE,
    )
}

/// Law: the serial round trip. On a fault-free line, every poll before
/// a byte arrives reports backpressure and never a fault; and once a
/// written byte `b` is looped from the transmit side back to the receive
/// side, a read returns exactly `Ok(b)`.
pub proof fn lemma_serial_round_trip(mem: Seq<u32>, b: u8)
    requires
        mem.len() == MEM_WORDS,
        !rx_fault(mem[UART1_STAT as int]),
    ensures
        !rx_ready(mem[UART1_STAT as int]) ==> spec_read(mem) == Err::<u8, IoError>(
            IoError::WouldBlock,
        ),
        spec_read(mem) != Err::<u8, IoError>(IoError::Fault),
        spec_read(wire_loopback(mem.update(UART1_TXD as int, b as u32))) == Ok::<u8, IoError>(b),
{
    let stat = mem[UART1_STAT as int];
    assert(!rx_fault(stat | STAT_RXNE) && rx_ready(stat | STAT_RXNE)) by (bit_vector)
        requires
            stat & (STAT_FE | STAT_ORE) == 0u32,
    ;
    assert(((b as u32) & 0xffu32) as u8 == b) by (bit_vector);
}

} // verus!
