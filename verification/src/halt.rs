//! The fatal-halt protocol's data: exit codes and the reports the panic and
//! allocation-failure paths emit.
//!
//! In a freestanding kernel there is no unwinding machinery and no process
//! to exit from, so a fatal condition is reported as a formatted two-part
//! record (the triggering message and location, plus the capture-site
//! location, which may legitimately differ) and handed to an
//! architecture-specific primitive that never returns. Building that report
//! must not itself depend on a working heap allocator being sound, so it is
//! plain byte assembly; the caller owns the never-returning hand-off.
//!
//! Allocation failure is a distinct, equally fatal path: no supervisor can
//! reclaim memory and retry, so it converges to the same report shape.

use vstd::prelude::*;
use vstd::string::StringSliceAdditionalSpecFns;

verus! {

/// The closed two-valued exit signal handed to the halt protocol's
/// reporting channel in test configurations.
#[derive(Clone, Copy, Debug, PartialEq, Eq, Structural)]
pub enum ExitCode {
    Success,
    Failed,
}

/// A source position: file, line, column.
#[derive(Clone, Debug)]
pub struct SourceLocation {
    pub file: String,
    pub line: u32,
    pub column: u32,
}

/// The decimal digits of `n`, most significant first.
pub open spec fn dec_seq(n: nat) -> Seq<u8>
    decreases n,
{
    if n < 10 {
        seq![(n + 48) as u8]
    } else {
        dec_seq(n / 10).push((n % 10 + 48) as u8)
    }
}

/// The UTF-8 bytes of a character sequence.
pub open spec fn str_bytes(s: Seq<char>) -> Seq<u8> {
    vstd::utf8::encode_utf8(s)
}

/// `file:line:column`, in bytes.
pub open spec fn spec_location_bytes(file: Seq<char>, line: nat, column: nat) -> Seq<u8> {
    str_bytes(file) + ":".spec_bytes() + dec_seq(line) + ":".spec_bytes() + dec_seq(column)
}

/// The whole two-part fatal report, in bytes: the triggering message and
/// location, then the capture-site location.
pub open spec fn spec_panic_report(
    message: Seq<char>,
    file: Seq<char>,
    line: nat,
    column: nat,
    caller_file: Seq<char>,
    caller_line: nat,
    caller_column: nat,
) -> Seq<u8> {
    "  mycelium panicked: ".spec_bytes() + str_bytes(message) + "\n  at: ".spec_bytes()
        + spec_location_bytes(file, line, column) + "\n  in: ".spec_bytes()
        + spec_location_bytes(caller_file, caller_line, caller_column) + "\n".spec_bytes()
}

/// Append the bytes of `s` to `out`.
pub fn push_str_bytes(out: &mut Vec<u8>, s: &str)
    ensures
        final(out)@ == old(out)@ + s.spec_bytes(),
{
    let b = s.as_bytes();
    out.extend_from_slice(b);
    proof {
        assert(out@ =~= old(out)@ + s.spec_bytes());
    }
}

/// Append the decimal digits of `n` to `out`.
fn push_dec(out: &mut Vec<u8>, n: u64)
    ensures
        final(out)@ == old(out)@ + dec_seq(n as nat),
    decreases n,
{
    if n >= 10 {
        push_dec(out, n / 10);
    }
    out.push((n % 10) as u8 + 48);
    proof {
        assert(out@ =~= old(out)@ + dec_seq(n as nat));
    }
}

/// Append `file:line:column` to `out`.
fn push_location(out: &mut Vec<u8>, location: &SourceLocation)
    ensures
        final(out)@ == old(out)@ + spec_location_bytes(
            location.file@,
            location.line as nat,
            location.column as nat,
        ),
{
    push_str_bytes(out, location.file.as_str());
    push_str_bytes(out, ":");
    push_dec(out, location.line as u64);
    push_str_bytes(out, ":");
    push_dec(out, location.column as u64);
    proof {
        assert(out@ =~= old(out)@ + spec_location_bytes(
            location.file@,
            location.line as nat,
            location.column as nat,
        ));
    }
}

/// Build the report the panic path emits before handing off to the
/// never-returning architecture primitive: the captured message with the
/// triggering location, then the capture-site location.
pub fn panic_report(message: &str, location: &SourceLocation, caller: &SourceLocation) -> (v: Vec<
    u8,
>)
    ensures
        v@ == spec_panic_report(
            message@,
            location.file@,
            location.line as nat,
            location.column as nat,
            caller.file@,
            caller.line as nat,
            caller.column as nat,
        ),
{
    let mut out: Vec<u8> = Vec::new();
    push_str_bytes(&mut out, "  mycelium panicked: ");
    push_str_bytes(&mut out, message);
    push_str_bytes(&mut out, "\n  at: ");
    push_location(&mut out, location);
    push_str_bytes(&mut out, "\n  in: ");
    push_location(&mut out, caller);
    push_str_bytes(&mut out, "\n");
    proof {
        assert(out@ =~= spec_panic_report(
            message@,
            location.file@,
            location.line as nat,
            location.column as nat,
            caller.file@,
            caller.line as nat,
            caller.column as nat,
        ));
    }
    out
}

/// The message the allocation-failure path reports: the requested size and
/// alignment, in bytes.
pub open spec fn spec_alloc_error_message(size: nat, align: nat) -> Seq<u8> {
    "alloc error: size ".spec_bytes() + dec_seq(size) + ", align ".spec_bytes() + dec_seq(align)
}

/// Build the allocation-failure message. The caller routes it through the
/// same report shape and the same never-returning hand-off as the panic
/// path: in a freestanding environment an allocation failure is
/// architecturally equivalent to a panic.
pub fn alloc_error_message(size: usize, align: usize) -> (v: Vec<u8>)
    ensures
        v@ == spec_alloc_error_message(size as nat, align as nat),
{
    let mut out: Vec<u8> = Vec::new();
    push_str_bytes(&mut out, "alloc error: size ");
    push_dec(&mut out, size as u64);
    push_str_bytes(&mut out, ", align ");
    push_dec(&mut out, align as u64);
    proof {
        assert(out@ =~= spec_alloc_error_message(size as nat, align as nat));
    }
    out
}

} // verus!
