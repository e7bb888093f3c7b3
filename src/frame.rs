//! One stack frame as the library hands it out.
use vstd::prelude::*;

use crate::abi::{spec_symbol_address, symbol_address_of, SymbolSource};

verus! {

/// A detached frame: a snapshot of the three addresses of one activation
/// record, valid independently of the walk that produced it.
///
/// A live frame (a handle into the provider's walk state) is read through the
/// provider only while its callback runs; [`Frame::detach_live`] turns what
/// the provider reports for it into a snapshot.
#[derive(Clone, Copy, Debug, PartialEq, Eq, Structural)]
pub struct Frame {
    pub ip: usize,
    pub sp: usize,
    pub symbol_address: usize,
}

impl Frame {
    /// A snapshot holding the given addresses.
    pub fn new(ip: usize, sp: usize, symbol_address: usize) -> (r: Frame)
        ensures
            r == (Frame { ip, sp, symbol_address }),
    {
        Frame { ip, sp, symbol_address }
    }

    /// The instruction pointer of the frame.
    pub fn ip(&self) -> (r: usize)
        ensures
            r == self.ip,
    {
        self.ip
    }

    /// The stack pointer of the frame.
    pub fn sp(&self) -> (r: usize)
        ensures
            r == self.sp,
    {
        self.sp
    }

    /// The start address of the function enclosing the frame's instruction
    /// pointer.
    pub fn symbol_address(&self) -> (r: usize)
        ensures
            r == self.symbol_address,
    {
        self.symbol_address
    }

    /// The base address of the module holding the frame: no module tracking
    /// is done, so it is never known.
    pub fn module_base_address(&self) -> (r: Option<usize>)
        ensures
            r is None,
    {
        None
    }

    /// The snapshot of a live frame for which the provider reported the
    /// instruction pointer `ip`, the stack pointer `sp`, and, where `source`
    /// asks for that query, the enclosing function `enclosing` of `ip`.
    pub fn detach_live(source: SymbolSource, ip: usize, sp: usize, enclosing: usize) -> (r: Frame)
        ensures
            r == spec_detach_live(source, ip, sp, enclosing),
    {
        let symbol_address = symbol_address_of(source, ip, enclosing);
        Frame { ip, sp, symbol_address }
    }
}

pub open spec fn spec_detach_live(source: SymbolSource, ip: usize, sp: usize, enclosing: usize) -> Frame {
    Frame { ip, sp, symbol_address: spec_symbol_address(source, ip, enclosing) }
}

/// Detaching a live frame keeps what it reported: the snapshot's instruction
/// pointer, stack pointer and symbol address are those that the same queries
/// gave on the live frame just before.
pub proof fn lemma_detach_keeps_queries(source: SymbolSource, ip: usize, sp: usize, enclosing: usize)
    ensures
        spec_detach_live(source, ip, sp, enclosing).ip == ip,
        spec_detach_live(source, ip, sp, enclosing).sp == sp,
        spec_detach_live(source, ip, sp, enclosing).symbol_address == spec_symbol_address(
            source,
            ip,
            enclosing,
        ),
{
}

} // verus!
