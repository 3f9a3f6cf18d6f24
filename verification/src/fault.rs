use vstd::prelude::*;

use crate::chunks::frames;
use crate::chunks::newline;
use crate::decimal::dec_digits;
use crate::decimal::push_dec_u32;
use crate::printk::Printk;

verus! {

/// Where in the source an unrecoverable fault was detected.
pub struct SourceLocation {
    pub file: Vec<u8>,
    pub line: u32,
}

/// The ephemeral record of an unrecoverable fault: a human-readable
/// message and, when the runtime knows it, the source location.
pub struct FaultInfo {
    pub message: Vec<u8>,
    pub location: Option<SourceLocation>,
}

impl FaultInfo {
    /// The message bytes of the fault.
    pub open spec fn message_bytes(&self) -> Seq<u8> {
        self.message@
    }

    /// The source location as plain values, when one is known.
    pub open spec fn location_parts(&self) -> Option<(Seq<u8>, u32)> {
        match self.location {
            Some(ref loc) => Some((loc.file@, loc.line)),
            None => None,
        }
    }
}

/// Evidence that a fault diagnostic has been fully handed to the sink.
/// Only `handle_fault` constructs one, so the host layer, which trades it
/// for the never-returning abandon primitive, can only abandon the
/// process after the diagnostic is complete; and since the token is not
/// copyable, one invocation of the shim yields exactly one abandonment.
pub struct Abandon {
    complete: bool,
}

impl Abandon {
    /// A token always stands for a completed diagnostic.
    #[verifier::type_invariant]
    spec fn inv(self) -> bool {
        self.complete
    }

    /// The diagnostic was transmitted before this token existed.
    pub fn is_complete(&self) -> (r: bool)
        ensures
            r,
    {
        proof {
            use_type_invariant(self);
        }
        self.complete
    }
}

/// "RUST PANIC: " — the marker put before the fault message, so the
/// diagnostic stands out from ordinary output.
pub open spec fn fault_prefix() -> Seq<u8> {
    seq![82u8, 85u8, 83u8, 84u8, 32u8, 80u8, 65u8, 78u8, 73u8, 67u8, 58u8, 32u8]
}

/// "@ UNKNOWN LOCATION" — the line sent when no source location is known.
pub open spec fn unknown_location_line() -> Seq<u8> {
    seq![
        64u8,
        32u8,
        85u8,
        78u8,
        75u8,
        78u8,
        79u8,
        87u8,
        78u8,
        32u8,
        76u8,
        79u8,
        67u8,
        65u8,
        84u8,
        73u8,
        79u8,
        78u8,
    ]
}

/// The first diagnostic line: the marker, then the fault message.
pub open spec fn fault_line_one(message: Seq<u8>) -> Seq<u8> {
    fault_prefix() + message
}

/// The second diagnostic line: "@ file:line" when the location is known,
/// the fixed unknown-location line otherwise.
pub open spec fn fault_line_two(location: Option<(Seq<u8>, u32)>) -> Seq<u8> {
    match location {
        Some((file, line)) => seq![64u8, 32u8] + file + seq![58u8] + dec_digits(line as nat),
        None => unknown_location_line(),
    }
}

/// Append a copy of `bytes` to `out`.
fn push_bytes(out: &mut Vec<u8>, bytes: &[u8])
    ensures
        final(out)@ == old(out)@ + bytes@,
{
    let n = bytes.len();
    let mut i: usize = 0;
    while i < n
        invariant
            i <= n,
            n == bytes@.len(),
            out@ == old(out)@ + bytes@.take(i as int),
        decreases n - i,
    {
        out.push(bytes[i]);
        i += 1;
        proof {
            assert(out@ =~= old(out)@ + bytes@.take(i as int));
        }
    }
    proof {
        assert(old(out)@ + bytes@.take(n as int) =~= old(out)@ + bytes@);
    }
}

/// Append the diagnostic marker to `out`.
fn push_fault_prefix(out: &mut Vec<u8>)
    ensures
        final(out)@ == old(out)@ + fault_prefix(),
{
    out.push(82);
    out.push(85);
    out.push(83);
    out.push(84);
    out.push(32);
    out.push(80);
    out.push(65);
    out.push(78);
    out.push(73);
    out.push(67);
    out.push(58);
    out.push(32);
    proof {
        assert(out@ =~= old(out)@ + fault_prefix());
    }
}

/// Append the unknown-location line to `out`.
fn push_unknown_location(out: &mut Vec<u8>)
    ensures
        final(out)@ == old(out)@ + unknown_location_line(),
{
    out.push(64);
    out.push(32);
    out.push(85);
    out.push(78);
    out.push(75);
    out.push(78);
    out.push(79);
    out.push(87);
    out.push(78);
    out.push(32);
    out.push(76);
    out.push(79);
    out.push(67);
    out.push(65);
    out.push(84);
    out.push(73);
    out.push(79);
    out.push(78);
    proof {
        assert(out@ =~= old(out)@ + unknown_location_line());
    }
}

/// The fault shim's reporting step. Renders the whole diagnostic through
/// the chunked writer — the marker line with the message, then the
/// location line — and only then yields the token that lets the host
/// layer invoke its never-returning abandon primitive, so the diagnostic
/// can never be cut short by the abandonment.
pub fn handle_fault(out: &mut Printk, fault: &FaultInfo) -> (token: Abandon)
    ensures
        final(out)@ == old(out)@ + frames(fault_line_one(fault.message_bytes())) + frames(
            newline(),
        ) + frames(fault_line_two(fault.location_parts())) + frames(newline()),
{
    let mut line1: Vec<u8> = Vec::new();
    push_fault_prefix(&mut line1);
    push_bytes(&mut line1, fault.message.as_slice());
    out.write_line(line1.as_slice());
    let mut line2: Vec<u8> = Vec::new();
    match &fault.location {
        Some(loc) => {
            line2.push(64);
            line2.push(32);
            push_bytes(&mut line2, loc.file.as_slice());
            line2.push(58);
            push_dec_u32(&mut line2, loc.line);
            proof {
                assert(line2@ =~= fault_line_two(fault.location_parts()));
            }
        },
        None => {
            push_unknown_location(&mut line2);
        },
    }
    out.write_line(line2.as_slice());
    Abandon { complete: true }
}

} // verus!
