//! Verified support logic for raw Linux syscall bindings on x86_64.
//!
//! The kernel trap itself (the `syscall` instruction) is inherently
//! unverifiable machine code and lives outside this library.  What can be
//! pinned down precisely is everything around it: the syscall numbers and
//! open-flag bitmasks of the ABI, the classification of the signed result
//! word into success or error, null-termination of path strings, and the
//! length bookkeeping of vectored writes.  This crate states and proves
//! those pieces, so an unverified trampoline only has to move words into
//! registers.

pub mod abi;
pub mod cstr;
pub mod outcome;
pub mod request;
pub mod vectored;
