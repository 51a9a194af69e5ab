use vstd::prelude::*;

verus! {

/// Byte-addressable view of the 16-bit address space, as the CPU sees it.
///
/// The logical content of an address space is a map from every address to the
/// byte stored there. Reads leave it untouched; a write replaces exactly the
/// byte at the written address.
pub trait Mmu: View<V = Map<u16, u8>> {
    fn read_byte(&mut self, addr: u16) -> (value: u8)
        ensures
            value == old(self)@[addr],
            final(self)@ == old(self)@,
    ;

    fn write_byte(&mut self, addr: u16, value: u8)
        ensures
            final(self)@ == old(self)@.insert(addr, value),
    ;
}

/// Reading an address right after writing it returns the byte written, and
/// the write is seen at no other address.
pub proof fn lemma_read_after_write(before: Map<u16, u8>, addr: u16, value: u8, other: u16)
    ensures
        before.insert(addr, value)[addr] == value,
        other != addr ==> before.insert(addr, value)[other] == before[other],
{
}

} // verus!
