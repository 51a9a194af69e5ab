use vstd::prelude::*;

verus! {

/// Everything that can go wrong while loading or stepping the machine.
#[derive(Debug, Clone, Copy, PartialEq, Eq, Structural)]
pub enum ErrorKind {
    /// The opcode byte (primary, or the byte after the `0xCB` prefix) has no
    /// defined semantics. The instruction acted as a no-op.
    UnimplementedOpcode(u8),
    /// No region claims the address. The decoder of this crate is proved
    /// total, so its own address space never reports this.
    AddressDecodeFault(u16),
    /// A boot image is larger than the region it is loaded into.
    BulkLoadOverflow,
}

} // verus!
