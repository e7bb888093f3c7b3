//! How the supported provider variants number their registers and encode
//! the values they report.
use vstd::prelude::*;

verus! {

/// The provider families whose cursor interface numbers registers
/// differently.
#[derive(Clone, Copy, Debug, PartialEq, Eq, Structural)]
pub enum ProviderAbi {
    /// LLVM's libunwind: pseudo-registers with negative numbers.
    Llvm,
    /// The nongnu libunwind on x86_64.
    NongnuX86_64,
    /// The nongnu libunwind on aarch64.
    NongnuAarch64,
}

pub open spec fn spec_ip_register(abi: ProviderAbi) -> i32 {
    match abi {
        ProviderAbi::Llvm => -1i32,
        ProviderAbi::NongnuX86_64 => 16,
        ProviderAbi::NongnuAarch64 => 30,
    }
}

pub open spec fn spec_sp_register(abi: ProviderAbi) -> i32 {
    match abi {
        ProviderAbi::Llvm => -2i32,
        ProviderAbi::NongnuX86_64 => 7,
        ProviderAbi::NongnuAarch64 => 31,
    }
}

impl ProviderAbi {
    /// The register number under which the provider reports the
    /// instruction pointer (RIP on x86_64, the link register X30 on aarch64).
    pub fn ip_register(self) -> (r: i32)
        ensures
            r == spec_ip_register(self),
    {
        match self {
            ProviderAbi::Llvm => -1i32,
            ProviderAbi::NongnuX86_64 => 16,
            ProviderAbi::NongnuAarch64 => 30,
        }
    }

    /// The register number under which the provider reports the stack
    /// pointer (RSP on x86_64, X31 on aarch64).
    pub fn sp_register(self) -> (r: i32)
        ensures
            r == spec_sp_register(self),
    {
        match self {
            ProviderAbi::Llvm => -2i32,
            ProviderAbi::NongnuX86_64 => 7,
            ProviderAbi::NongnuAarch64 => 31,
        }
    }
}

/// The core register that holds the stack pointer on 32-bit ARM (R13), for
/// providers that answer through a virtual register set query.
pub const ARM_SP_REGISTER: u32 = 13;

/// The core register that holds the instruction pointer on 32-bit ARM (R15).
pub const ARM_IP_REGISTER: u32 = 15;

/// The instruction pointer held in a raw 32-bit core register word.
///
/// The lowest bit of the word encodes the instruction set mode, not an
/// address, and is cleared.
pub fn ip_from_core_word(word: u32) -> (r: usize)
    ensures
        r as int == word as int - word as int % 2,
{
    let masked: u32 = word & !1u32;
    assert(masked as int == word as int - word as int % 2) by (bit_vector)
        requires
            masked == word & !1u32,
    ;
    masked as usize
}

/// The stack pointer held in a raw 32-bit core register word, unchanged.
pub fn sp_from_core_word(word: u32) -> (r: usize)
    ensures
        r as int == word as int,
{
    word as usize
}

/// Where the symbol address of a live frame comes from.
#[derive(Clone, Copy, Debug, PartialEq, Eq, Structural)]
pub enum SymbolSource {
    /// The provider's enclosing-function query, given the instruction pointer.
    EnclosingFunction,
    /// The instruction pointer itself. For platforms whose linker emits
    /// compact unwind tables, on which the enclosing-function query can name
    /// an unrelated function.
    InstructionPointer,
}

impl SymbolSource {
    /// The source to use on a platform; `compact_unwind_tables` holds on the
    /// Apple platforms.
    pub fn for_platform(compact_unwind_tables: bool) -> (r: SymbolSource)
        ensures
            compact_unwind_tables <==> r == SymbolSource::InstructionPointer,
    {
        if compact_unwind_tables {
            SymbolSource::InstructionPointer
        } else {
            SymbolSource::EnclosingFunction
        }
    }

    /// Whether the provider's enclosing-function query has to be made.
    pub fn needs_enclosing_query(self) -> (r: bool)
        ensures
            r <==> self == SymbolSource::EnclosingFunction,
    {
        match self {
            SymbolSource::EnclosingFunction => true,
            SymbolSource::InstructionPointer => false,
        }
    }
}

pub open spec fn spec_symbol_address(source: SymbolSource, ip: usize, enclosing: usize) -> usize {
    match source {
        SymbolSource::EnclosingFunction => enclosing,
        SymbolSource::InstructionPointer => ip,
    }
}

/// The symbol address of a live frame whose instruction pointer is `ip`;
/// `enclosing` is what the enclosing-function query answered for `ip`, and is
/// not read where `source` does not ask for that query.
pub fn symbol_address_of(source: SymbolSource, ip: usize, enclosing: usize) -> (r: usize)
    ensures
        r == spec_symbol_address(source, ip, enclosing),
{
    match source {
        SymbolSource::EnclosingFunction => enclosing,
        SymbolSource::InstructionPointer => ip,
    }
}

} // verus!
