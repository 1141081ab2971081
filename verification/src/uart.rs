//! Polled-transmit, optionally interrupt-driven-receive console driver.
//!
//! The driver works on a model of the 16550-style UART register file:
//! bytes that have left the transmitter accumulate on `tx_wire` (the
//! physical output stream), received bytes wait in `rx_fifo`, and every
//! register write is recorded in `writes`. The modelled transmitter
//! drains instantly, so the transmit-ready poll — kept in the code
//! because the hardware demands it — always finds the holding register
//! empty.

use vstd::prelude::*;

use crate::mmio::RegWrite;
use crate::mmio::reg_write;

verus! {

/// Transmitter holding register (write: queues one byte to send).
pub const UART_THR: u64 = 0x00;
/// Interrupt enable register.
pub const UART_IER: u64 = 0x04;
/// Interrupt identification register (read acknowledges the pending
/// condition).
pub const UART_IIR: u64 = 0x08;
/// Line status register.
pub const UART_LSR: u64 = 0x14;

/// Line status: data ready — at least one received byte waits.
pub const LSR_DR: u32 = 0x01;
/// Line status: transmitter holding register empty.
pub const LSR_THRE: u32 = 0x20;

/// Interrupt enable: received data available.
pub const IER_ERBFI: u32 = 0x01;
/// Interrupt enable: receiver line status.
pub const IER_ELSI: u32 = 0x04;

/// Interrupt identity: no interrupt pending.
pub const IIR_NONE: u32 = 0x01;
/// Interrupt identity: received data available.
pub const IIR_RX_DATA: u32 = 0x04;

/// Line feed.
pub const BYTE_LF: u8 = 0x0A;
/// Carriage return.
pub const BYTE_CR: u8 = 0x0D;

/// The console UART: a capability for one fixed hardware register
/// region, together with the model of that device's state.
pub struct Uart {
    /// Physical base address of the register file; fixed at
    /// initialization from the board-support table.
    pub base_address: u64,
    /// Bytes that have left the transmitter, oldest first: the physical
    /// output stream a terminal would see.
    pub tx_wire: Vec<u8>,
    /// Bytes received from the line and not yet drained, oldest first.
    pub rx_fifo: Vec<u8>,
    /// Interrupt enable register contents.
    pub ier: u32,
    /// Whether the device holds a pending receive interrupt condition:
    /// latched when a byte arrives while receive interrupts are enabled,
    /// cleared by reading the interrupt identification register.
    pub irq_pending: bool,
    /// Every register write this driver issued, in program order.
    pub writes: Vec<RegWrite>,
}

/// Line-ending normalization for terminal display: each line feed in
/// the text is sent as carriage return then line feed; every other byte
/// passes through unchanged.
pub open spec fn crlf_encode(s: Seq<u8>) -> Seq<u8>
    decreases s.len(),
{
    if s.len() == 0 {
        Seq::<u8>::empty()
    } else if s.first() == BYTE_LF {
        seq![BYTE_CR, BYTE_LF] + crlf_encode(s.drop_first())
    } else {
        seq![s.first()] + crlf_encode(s.drop_first())
    }
}

/// Undoes the normalization: drops each carriage return that a line
/// feed immediately follows, and keeps every other byte.
pub open spec fn crlf_decode(s: Seq<u8>) -> Seq<u8>
    decreases s.len(),
{
    if s.len() == 0 {
        Seq::<u8>::empty()
    } else if s.len() >= 2 && s.first() == BYTE_CR && s[1] == BYTE_LF {
        seq![BYTE_LF] + crlf_decode(s.skip(2))
    } else {
        seq![s.first()] + crlf_decode(s.drop_first())
    }
}

/// The transmit-register write records produced by sending `bytes` in
/// order.
pub open spec fn thr_writes(bytes: Seq<u8>) -> Seq<RegWrite> {
    bytes.map_values(|b: u8| reg_write(UART_THR, b as u32))
}

/// What the line status register reads as, given how many received
/// bytes wait: the modelled transmitter is always ready, and the
/// data-ready bit reflects the receive FIFO.
pub open spec fn lsr_value(rx_len: nat) -> u32 {
    if rx_len > 0 {
        LSR_THRE | LSR_DR
    } else {
        LSR_THRE
    }
}

/// Initializes the console driver over the register file at
/// `base_address`: the once-per-boot setup of the process-wide console.
/// The address must be the console's base from the board-support table.
/// Nothing has been transmitted or received yet and receive interrupts
/// are disabled, as the boot loader leaves them.
pub fn init(base_address: u64) -> (console: Uart)
    ensures
        console.base_address == base_address,
        console.tx_wire@ == Seq::<u8>::empty(),
        console.rx_fifo@ == Seq::<u8>::empty(),
        console.ier == 0,
        !console.irq_pending,
        console.writes@ == Seq::<RegWrite>::empty(),
{
    Uart {
        base_address,
        tx_wire: Vec::new(),
        rx_fifo: Vec::new(),
        ier: 0,
        irq_pending: false,
        writes: Vec::new(),
    }
}

impl Uart {
    /// Reads the line status register. The read has no side effect on
    /// the device.
    pub fn read_lsr(&self) -> (r: u32)
        ensures
            r == lsr_value(self.rx_fifo@.len()),
            r & LSR_THRE != 0,
            (r & LSR_DR != 0) == (self.rx_fifo@.len() > 0),
    {
        assert((LSR_THRE | LSR_DR) & LSR_THRE != 0) by (bit_vector);
        assert(LSR_THRE & LSR_THRE != 0) by (bit_vector);
        assert((LSR_THRE | LSR_DR) & LSR_DR != 0) by (bit_vector);
        assert(LSR_THRE & LSR_DR == 0) by (bit_vector);
        if self.rx_fifo.len() > 0 {
            LSR_THRE | LSR_DR
        } else {
            LSR_THRE
        }
    }

    /// Sends one byte: spins until the line status register shows the
    /// transmit holding register empty, then writes the byte to it. The
    /// spin is unbounded by design — a stuck transmitter hangs here
    /// rather than timing out, matching the hardware bring-up contract.
    pub fn put_byte(&mut self, b: u8)
        ensures
            final(self).base_address == old(self).base_address,
            final(self).tx_wire@ == old(self).tx_wire@.push(b),
            final(self).rx_fifo@ == old(self).rx_fifo@,
            final(self).ier == old(self).ier,
            final(self).irq_pending == old(self).irq_pending,
            final(self).writes@ == old(self).writes@.push(reg_write(UART_THR, b as u32)),
    {
        let mut lsr: u32 = self.read_lsr();
        while lsr & LSR_THRE == 0
            invariant
                lsr & LSR_THRE != 0,
            decreases 0int,
        {
            lsr = self.read_lsr();
        }
        // Transmit holding register empty: hand the byte over. In the
        // model the byte leaves the wire at once.
        self.tx_wire.push(b);
        self.writes.push(RegWrite { offset: UART_THR, value: b as u32 });
    }

    /// Writes text to the console, normalizing line endings: every line
    /// feed goes out as carriage return then line feed, every other byte
    /// goes out unchanged.
    pub fn write_text(&mut self, s: &[u8])
        ensures
            final(self).base_address == old(self).base_address,
            final(self).tx_wire@ == old(self).tx_wire@ + crlf_encode(s@),
            final(self).rx_fifo@ == old(self).rx_fifo@,
            final(self).ier == old(self).ier,
            final(self).irq_pending == old(self).irq_pending,
            final(self).writes@ == old(self).writes@ + thr_writes(crlf_encode(s@)),
    {
        let mut i: usize = 0;
        while i < s.len()
            invariant
                i <= s@.len(),
                self.base_address == old(self).base_address,
                self.tx_wire@ == old(self).tx_wire@ + crlf_encode(s@.take(i as int)),
                self.rx_fifo@ == old(self).rx_fifo@,
                self.ier == old(self).ier,
                self.irq_pending == old(self).irq_pending,
                self.writes@ == old(self).writes@ + thr_writes(crlf_encode(s@.take(i as int))),
            decreases s@.len() - i,
        {
            let b = s[i];
            if b == BYTE_LF {
                self.put_byte(BYTE_CR);
                self.put_byte(BYTE_LF);
            } else {
                self.put_byte(b);
            }
            proof {
                lemma_crlf_encode_concat(s@.take(i as int), seq![s@[i as int]]);
                assert(s@.take(i + 1) =~= s@.take(i as int) + seq![s@[i as int]]);
                let x = seq![s@[i as int]];
                assert(x.len() == 1);
                assert(x.first() == s@[i as int]);
                assert(x.drop_first() =~= Seq::<u8>::empty());
                assert(crlf_encode(Seq::<u8>::empty()) == Seq::<u8>::empty());
                if b == BYTE_LF {
                    assert(crlf_encode(x) =~= seq![BYTE_CR, BYTE_LF]);
                } else {
                    assert(crlf_encode(x) =~= seq![s@[i as int]]);
                }
                assert(self.tx_wire@ =~= old(self).tx_wire@ + crlf_encode(s@.take(i + 1)));
                assert(self.writes@ =~= old(self).writes@ + thr_writes(crlf_encode(s@.take(i + 1))));
            }
            i = i + 1;
        }
        proof {
            assert(s@.take(s@.len() as int) =~= s@);
        }
    }

    /// Non-blocking receive: if the line status register shows data
    /// ready, drains and returns the oldest received byte; otherwise
    /// reports that no data is available, without blocking.
    pub fn try_get_byte(&mut self) -> (r: Option<u8>)
        ensures
            final(self).base_address == old(self).base_address,
            final(self).tx_wire@ == old(self).tx_wire@,
            final(self).ier == old(self).ier,
            final(self).irq_pending == old(self).irq_pending,
            final(self).writes@ == old(self).writes@,
            old(self).rx_fifo@.len() == 0 ==> r is None && final(self).rx_fifo@ == old(self).rx_fifo@,
            old(self).rx_fifo@.len() > 0 ==> r == Some(old(self).rx_fifo@.first())
                && final(self).rx_fifo@ == old(self).rx_fifo@.drop_first(),
    {
        let lsr = self.read_lsr();
        if lsr & LSR_DR != 0 {
            let b = self.rx_fifo.remove(0);
            proof {
                assert(old(self).rx_fifo@.remove(0) =~= old(self).rx_fifo@.drop_first());
            }
            Some(b)
        } else {
            None
        }
    }

    /// Enables interrupt-driven receive: sets the received-data-available
    /// and receiver-line-status interrupt-enable bits.
    pub fn enable_receive_interrupt(&mut self)
        ensures
            final(self).base_address == old(self).base_address,
            final(self).tx_wire@ == old(self).tx_wire@,
            final(self).rx_fifo@ == old(self).rx_fifo@,
            final(self).ier == old(self).ier | IER_ERBFI | IER_ELSI,
            final(self).irq_pending == old(self).irq_pending,
            final(self).writes@ == old(self).writes@.push(
                reg_write(UART_IER, old(self).ier | IER_ERBFI | IER_ELSI)),
            final(self).ier & IER_ERBFI != 0,
            final(self).ier & IER_ELSI != 0,
    {
        let prior: u32 = self.ier;
        let v = prior | IER_ERBFI | IER_ELSI;
        assert(v & IER_ERBFI != 0 && v & IER_ELSI != 0) by (bit_vector)
            requires v == prior | IER_ERBFI | IER_ELSI;
        self.ier = v;
        self.writes.push(RegWrite { offset: UART_IER, value: v });
    }

    /// Reads the interrupt identification register, which reports the
    /// highest-priority pending condition and, as a side effect of the
    /// read, acknowledges it: the pending latch is cleared.
    pub fn read_interrupt_identity(&mut self) -> (r: u32)
        ensures
            final(self).base_address == old(self).base_address,
            final(self).tx_wire@ == old(self).tx_wire@,
            final(self).rx_fifo@ == old(self).rx_fifo@,
            final(self).ier == old(self).ier,
            !final(self).irq_pending,
            final(self).writes@ == old(self).writes@,
            r == if old(self).irq_pending { IIR_RX_DATA } else { IIR_NONE },
    {
        let r = if self.irq_pending { IIR_RX_DATA } else { IIR_NONE };
        self.irq_pending = false;
        r
    }

    /// Models the line delivering one byte to the receiver: the byte
    /// joins the receive FIFO, and if receive interrupts are enabled the
    /// device latches a pending interrupt condition.
    pub fn receive_byte(&mut self, b: u8)
        ensures
            final(self).base_address == old(self).base_address,
            final(self).tx_wire@ == old(self).tx_wire@,
            final(self).rx_fifo@ == old(self).rx_fifo@.push(b),
            final(self).ier == old(self).ier,
            final(self).irq_pending == (old(self).irq_pending || old(self).ier & IER_ERBFI != 0),
            final(self).writes@ == old(self).writes@,
    {
        self.rx_fifo.push(b);
        if self.ier & IER_ERBFI != 0 {
            self.irq_pending = true;
        }
    }
}

/// Normalizing a concatenation normalizes each part: the encoding works
/// byte by byte and never looks across the seam.
pub proof fn lemma_crlf_encode_concat(a: Seq<u8>, b: Seq<u8>)
    ensures
        crlf_encode(a + b) == crlf_encode(a) + crlf_encode(b),
    decreases a.len(),
{
    if a.len() == 0 {
        assert(a + b =~= b);
        assert(crlf_encode(a) + crlf_encode(b) =~= crlf_encode(b));
    } else {
        lemma_crlf_encode_concat(a.drop_first(), b);
        assert((a + b).drop_first() =~= a.drop_first() + b);
        assert((a + b).first() == a.first());
        if a.first() == BYTE_LF {
            assert(crlf_encode(a + b) =~= crlf_encode(a) + crlf_encode(b));
        } else {
            assert(crlf_encode(a + b) =~= crlf_encode(a) + crlf_encode(b));
        }
    }
}

/// The normalized stream never begins with a line feed: a line feed is
/// only ever emitted right after its injected carriage return.
pub proof fn lemma_crlf_encode_first_not_lf(s: Seq<u8>)
    ensures
        s.len() > 0 ==> crlf_encode(s).len() > 0 && crlf_encode(s).first() != BYTE_LF,
{
    if s.len() > 0 {
        if s.first() == BYTE_LF {
            assert(crlf_encode(s).first() == BYTE_CR);
        } else {
            assert(crlf_encode(s).first() == s.first());
        }
    }
}

/// In the physical output stream, every line-feed byte is preceded by a
/// carriage-return byte.
pub proof fn lemma_crlf_lf_preceded_by_cr(s: Seq<u8>)
    ensures
        forall|i: int| 0 <= i < crlf_encode(s).len() && #[trigger] crlf_encode(s)[i] == BYTE_LF
            ==> i > 0 && crlf_encode(s)[i - 1] == BYTE_CR,
    decreases s.len(),
{
    if s.len() > 0 {
        lemma_crlf_lf_preceded_by_cr(s.drop_first());
        let rest = crlf_encode(s.drop_first());
        if s.first() == BYTE_LF {
            let out = crlf_encode(s);
            assert(out =~= seq![BYTE_CR, BYTE_LF] + rest);
            assert forall|i: int| 0 <= i < out.len() && #[trigger] out[i] == BYTE_LF
                implies i > 0 && out[i - 1] == BYTE_CR by {
                if i >= 2 {
                    assert(out[i] == rest[i - 2]);
                    assert(rest[i - 2] == BYTE_LF);
                    assert(i - 2 > 0 && rest[i - 3] == BYTE_CR);
                    assert(out[i - 1] == rest[i - 3]);
                }
            }
        } else {
            let out = crlf_encode(s);
            assert(out =~= seq![s.first()] + rest);
            assert forall|i: int| 0 <= i < out.len() && #[trigger] out[i] == BYTE_LF
                implies i > 0 && out[i - 1] == BYTE_CR by {
                if i >= 1 {
                    assert(out[i] == rest[i - 1]);
                    assert(rest[i - 1] == BYTE_LF);
                    assert(i - 1 > 0 && rest[i - 2] == BYTE_CR);
                    assert(out[i - 1] == rest[i - 2]);
                }
            }
        }
    }
}

/// Round trip: undoing the normalization on the physical output stream
/// gives back exactly the text that was written — no byte other than
/// the injected carriage returns is altered.
pub proof fn lemma_crlf_round_trip(s: Seq<u8>)
    ensures
        crlf_decode(crlf_encode(s)) == s,
    decreases s.len(),
{
    if s.len() == 0 {
        assert(crlf_decode(crlf_encode(s)) =~= s);
    } else {
        lemma_crlf_round_trip(s.drop_first());
        let rest = crlf_encode(s.drop_first());
        if s.first() == BYTE_LF {
            let out = seq![BYTE_CR, BYTE_LF] + rest;
            assert(crlf_encode(s) =~= out);
            assert(out.first() == BYTE_CR && out[1] == BYTE_LF);
            assert(out.skip(2) =~= rest);
            assert(crlf_decode(out) == seq![BYTE_LF] + crlf_decode(rest));
            assert(crlf_decode(crlf_encode(s)) =~= s);
        } else {
            let out = seq![s.first()] + rest;
            assert(crlf_encode(s) =~= out);
            // The remainder of the stream never starts with a line feed,
            // so a leading carriage return from the text itself survives
            // decoding untouched.
            lemma_crlf_encode_first_not_lf(s.drop_first());
            assert(!(out.len() >= 2 && out.first() == BYTE_CR && out[1] == BYTE_LF));
            assert(out.drop_first() =~= rest);
            assert(crlf_decode(out) == seq![s.first()] + crlf_decode(rest));
            assert(crlf_decode(crlf_encode(s)) =~= s);
        }
    }
}

} // verus!
