//! Typed syscall requests and their marshalling into register words.
//!
//! A syscall argument is a 64-bit word that is semantically either an
//! integer (descriptor, length, flags) or a memory address.  The trampoline
//! does not care, but callers must never confuse the two, so a request
//! tags each argument.  The builders below give each supported call its
//! conventional typed signature and pin down exactly which slot carries
//! which value and which kind; `register_words` flattens a request into
//! the (selector, argument, argument, argument) words, in the order the
//! trampoline loads them.

use vstd::prelude::*;
use crate::abi::SysCall;
use crate::abi::spec_syscall_number;
use crate::abi::syscall_number;

verus! {

/// One syscall argument word, tagged by what it means.
#[derive(Clone, Copy, Debug, PartialEq, Eq, Structural)]
pub enum SysArg {
    /// A plain integer: a descriptor, a length, a flag bitmask, a mode.
    Int(u64),
    /// A raw memory address; only unverified code can mint a meaningful
    /// one, and the kernel is the only consumer.
    Addr(u64),
}

impl SysArg {
    /// The untagged 64-bit word the kernel sees.
    pub open spec fn spec_word(self) -> u64 {
        match self {
            SysArg::Int(w) => w,
            SysArg::Addr(w) => w,
        }
    }

    /// Strips the tag for register loading.
    pub fn word(&self) -> (w: u64)
        ensures
            w == self.spec_word(),
    {
        match self {
            SysArg::Int(w) => *w,
            SysArg::Addr(w) => *w,
        }
    }
}

/// A fully assembled three-argument syscall request.
#[derive(Clone, Copy, Debug, PartialEq, Eq, Structural)]
pub struct SysRequest {
    pub call: SysCall,
    pub arg1: SysArg,
    pub arg2: SysArg,
    pub arg3: SysArg,
}

impl SysRequest {
    /// Each supported call's argument slots carry the right kind of value:
    /// addresses exactly where the kernel dereferences, integers elsewhere.
    pub open spec fn wf(self) -> bool {
        match self.call {
            SysCall::Read => self.arg1 is Int && self.arg2 is Addr && self.arg3 is Int,
            SysCall::Write => self.arg1 is Int && self.arg2 is Addr && self.arg3 is Int,
            SysCall::Open => self.arg1 is Addr && self.arg2 is Int && self.arg3 is Int,
            SysCall::WriteV => self.arg1 is Int && self.arg2 is Addr && self.arg3 is Int,
        }
    }

    /// The words to load, in trampoline order: the syscall selector, then
    /// the three argument registers.
    pub fn register_words(&self) -> (w: (u64, u64, u64, u64))
        ensures
            w.0 == spec_syscall_number(self.call),
            w.1 == self.arg1.spec_word(),
            w.2 == self.arg2.spec_word(),
            w.3 == self.arg3.spec_word(),
    {
        (syscall_number(self.call), self.arg1.word(), self.arg2.word(), self.arg3.word())
    }
}

/// A `write(fd, buffer, length)` request: write `length` bytes starting at
/// `buffer` to descriptor `fd`.
pub fn write_request(fd: u64, buffer: u64, length: u64) -> (r: SysRequest)
    ensures
        r.call == SysCall::Write,
        r.arg1 == SysArg::Int(fd),
        r.arg2 == SysArg::Addr(buffer),
        r.arg3 == SysArg::Int(length),
        r.wf(),
{
    SysRequest {
        call: SysCall::Write,
        arg1: SysArg::Int(fd),
        arg2: SysArg::Addr(buffer),
        arg3: SysArg::Int(length),
    }
}

/// A `read(fd, buffer, capacity)` request: read up to `capacity` bytes
/// from descriptor `fd` into `buffer`.
pub fn read_request(fd: u64, buffer: u64, capacity: u64) -> (r: SysRequest)
    ensures
        r.call == SysCall::Read,
        r.arg1 == SysArg::Int(fd),
        r.arg2 == SysArg::Addr(buffer),
        r.arg3 == SysArg::Int(capacity),
        r.wf(),
{
    SysRequest {
        call: SysCall::Read,
        arg1: SysArg::Int(fd),
        arg2: SysArg::Addr(buffer),
        arg3: SysArg::Int(capacity),
    }
}

/// An `open(path, flags, mode)` request: open or create the file at the
/// null-terminated path stored at `path`, with the given flag bitmask and
/// creation mode.
pub fn open_request(path: u64, flags: u32, mode: u16) -> (r: SysRequest)
    ensures
        r.call == SysCall::Open,
        r.arg1 == SysArg::Addr(path),
        r.arg2 == SysArg::Int(flags as u64),
        r.arg3 == SysArg::Int(mode as u64),
        r.wf(),
{
    SysRequest {
        call: SysCall::Open,
        arg1: SysArg::Addr(path),
        arg2: SysArg::Int(flags as u64),
        arg3: SysArg::Int(mode as u64),
    }
}

/// A `writev(fd, vectors, count)` request: write the concatenation of the
/// `count` iovec records stored at `vectors` to descriptor `fd`.
pub fn writev_request(fd: u64, vectors: u64, count: u64) -> (r: SysRequest)
    ensures
        r.call == SysCall::WriteV,
        r.arg1 == SysArg::Int(fd),
        r.arg2 == SysArg::Addr(vectors),
        r.arg3 == SysArg::Int(count),
        r.wf(),
{
    SysRequest {
        call: SysCall::WriteV,
        arg1: SysArg::Int(fd),
        arg2: SysArg::Addr(vectors),
        arg3: SysArg::Int(count),
    }
}

} // verus!
