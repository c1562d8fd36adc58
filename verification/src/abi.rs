//! The numeric constants of the x86_64 Linux syscall ABI that this library
//! targets: syscall table entries and `open(2)` flag bits.
//!
//! These values are fixed by the kernel; getting any of them wrong silently
//! invokes the wrong kernel entry point or opens a file in the wrong mode,
//! so each mapping carries an exact contract.

use vstd::prelude::*;

verus! {

/// The subset of the x86_64 Linux syscall table used here.
#[derive(Clone, Copy, Debug, PartialEq, Eq, Structural)]
pub enum SysCall {
    Read,
    Write,
    Open,
    WriteV,
}

/// The syscall table entry for each call, as the x86_64 Linux kernel
/// defines it.
pub open spec fn spec_syscall_number(c: SysCall) -> u64 {
    match c {
        SysCall::Read => 0,
        SysCall::Write => 1,
        SysCall::Open => 2,
        SysCall::WriteV => 20,
    }
}

/// The number to load into the selector register for `c`.
pub fn syscall_number(c: SysCall) -> (n: u64)
    ensures
        n == spec_syscall_number(c),
{
    match c {
        SysCall::Read => 0,
        SysCall::Write => 1,
        SysCall::Open => 2,
        SysCall::WriteV => 20,
    }
}

/// Flags accepted by the `open` syscall, a small subset of the kernel's
/// `fcntl` flag namespace.
#[derive(Clone, Copy, Debug, PartialEq, Eq, Structural)]
pub enum OpenFlag {
    /// Open for reading only.
    ReadOnly,
    /// Open for writing only.
    WriteOnly,
    /// Open for reading and writing.
    ReadWrite,
    /// Create the file if it does not exist.
    Create,
    /// Append to existing content.
    Append,
}

/// The numeric value of each open flag, as the kernel defines it (the
/// kernel sources give these in octal).
pub open spec fn spec_flag_bits(f: OpenFlag) -> u32 {
    match f {
        OpenFlag::ReadOnly => 0o0,
        OpenFlag::WriteOnly => 0o1,
        OpenFlag::ReadWrite => 0o2,
        OpenFlag::Create => 0o100,
        OpenFlag::Append => 0o2000,
    }
}

/// The bit pattern of a single open flag.
pub fn flag_bits(f: OpenFlag) -> (b: u32)
    ensures
        b == spec_flag_bits(f),
{
    match f {
        OpenFlag::ReadOnly => 0o0,
        OpenFlag::WriteOnly => 0o1,
        OpenFlag::ReadWrite => 0o2,
        OpenFlag::Create => 0o100,
        OpenFlag::Append => 0o2000,
    }
}

/// The bitwise OR of a sequence of open flags.
pub open spec fn spec_flags_value(fs: Seq<OpenFlag>) -> u32
    decreases fs.len(),
{
    if fs.len() == 0 {
        0u32
    } else {
        spec_flags_value(fs.drop_last()) | spec_flag_bits(fs.last())
    }
}

/// Combines a list of open flags into the single bitmask argument that the
/// `open` syscall takes.
pub fn flags_value(fs: &Vec<OpenFlag>) -> (m: u32)
    ensures
        m == spec_flags_value(fs@),
{
    let mut m: u32 = 0;
    let mut i: usize = 0;
    while i < fs.len()
        invariant
            i <= fs.len(),
            m == spec_flags_value(fs@.subrange(0, i as int)),
        decreases fs.len() - i,
    {
        m = m | flag_bits(fs[i]);
        proof {
            assert(fs@.subrange(0, i + 1).drop_last() =~= fs@.subrange(0, i as int));
            assert(fs@.subrange(0, i + 1).last() == fs@[i as int]);
        }
        i = i + 1;
    }
    proof {
        assert(fs@.subrange(0, fs@.len() as int) =~= fs@);
    }
    m
}

} // verus!
