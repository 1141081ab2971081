//! Terminal-failure path: the report an unrecoverable internal error
//! leaves on the console.
//!
//! There is no recovery, restart or watchdog: after the report the
//! caller halts forever, and if the console was never initialized the
//! halt is silent — both of those final steps belong to the surrounding
//! entry code, which alone knows whether a console exists yet. What is
//! modelled here is the report itself: its exact bytes on the wire.

use vstd::prelude::*;

use crate::uart::BYTE_LF;
use crate::uart::Uart;
use crate::uart::crlf_encode;

verus! {

/// The header line of every panic report: `*** KERNEL PANIC ***`,
/// set off by line feeds.
pub open spec fn panic_header() -> Seq<u8> {
    seq![
        BYTE_LF,
        '*' as u8, '*' as u8, '*' as u8, ' ' as u8,
        'K' as u8, 'E' as u8, 'R' as u8, 'N' as u8, 'E' as u8, 'L' as u8, ' ' as u8,
        'P' as u8, 'A' as u8, 'N' as u8, 'I' as u8, 'C' as u8, ' ' as u8,
        '*' as u8, '*' as u8, '*' as u8,
        BYTE_LF,
    ]
}

/// The full report: the header, the failure location, a separating
/// colon and space, the message if any, and a closing line feed.
pub open spec fn panic_report_bytes(location: Seq<u8>, message: Seq<u8>) -> Seq<u8> {
    panic_header() + location + seq![':' as u8, ' ' as u8] + message + seq![BYTE_LF]
}

/// Appends a byte slice to a buffer.
fn extend_bytes(v: &mut Vec<u8>, s: &[u8])
    ensures
        final(v)@ == old(v)@ + s@,
{
    let mut i: usize = 0;
    while i < s.len()
        invariant
            i <= s@.len(),
            v@ == old(v)@ + s@.take(i as int),
        decreases s@.len() - i,
    {
        v.push(s[i]);
        proof {
            assert(s@.take(i + 1) =~= s@.take(i as int).push(s@[i as int]));
            assert(v@ =~= old(v)@ + s@.take(i + 1));
        }
        i = i + 1;
    }
    proof {
        assert(s@.take(s@.len() as int) =~= s@);
    }
}

/// Writes the structured panic report — failure location and message —
/// to the already-initialized console, normalized like all console
/// text. The caller halts forever afterwards; nothing here returns
/// control to the failed computation.
pub fn report_panic(console: &mut Uart, location: &[u8], message: &[u8])
    ensures
        final(console).tx_wire@ == old(console).tx_wire@
            + crlf_encode(panic_report_bytes(location@, message@)),
        final(console).rx_fifo@ == old(console).rx_fifo@,
        final(console).ier == old(console).ier,
        final(console).irq_pending == old(console).irq_pending,
        final(console).base_address == old(console).base_address,
{
    let mut report: Vec<u8> = Vec::new();
    report.push(BYTE_LF);
    report.push('*' as u8);
    report.push('*' as u8);
    report.push('*' as u8);
    report.push(' ' as u8);
    report.push('K' as u8);
    report.push('E' as u8);
    report.push('R' as u8);
    report.push('N' as u8);
    report.push('E' as u8);
    report.push('L' as u8);
    report.push(' ' as u8);
    report.push('P' as u8);
    report.push('A' as u8);
    report.push('N' as u8);
    report.push('I' as u8);
    report.push('C' as u8);
    report.push(' ' as u8);
    report.push('*' as u8);
    report.push('*' as u8);
    report.push('*' as u8);
    report.push(BYTE_LF);
    proof {
        assert(report@ =~= panic_header());
    }
    extend_bytes(&mut report, location);
    report.push(':' as u8);
    report.push(' ' as u8);
    extend_bytes(&mut report, message);
    report.push(BYTE_LF);
    proof {
        assert(report@ =~= panic_report_bytes(location@, message@));
    }
    console.write_text(report.as_slice());
}

} // verus!
