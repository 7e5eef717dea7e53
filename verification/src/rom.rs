//! The addressable memory window that holds the program image.

use vstd::prelude::*;

verus! {

/// A byte-addressable window over a borrowed buffer. The buffer stands for
/// the addresses from `start_addr` up to, but not including, `end_addr`: the
/// byte at address `a` is the one at offset `a - start_addr`.
#[derive(Debug)]
pub struct Rom<'a> {
    bytes: &'a mut [u8],
    start_addr: u32,
    end_addr: u32,
}

impl<'a> Rom<'a> {
    /// The window does not end before it starts, and the buffer holds one
    /// byte for each of its addresses.
    #[verifier::type_invariant]
    pub closed spec fn well_formed(&self) -> bool {
        &&& self.start_addr <= self.end_addr
        &&& (*self.bytes)@.len() == self.end_addr - self.start_addr
    }

    /// What well-formedness says in terms of the window's bounds and bytes.
    pub proof fn lemma_well_formed(&self)
        requires
            self.well_formed(),
        ensures
            self.start() <= self.end(),
            self@.len() == self.end() - self.start(),
    {
    }

    /// The bytes of the window, in address order.
    pub closed spec fn view(&self) -> Seq<u8> {
        (*self.bytes)@
    }

    /// The first address of the window.
    pub closed spec fn start(&self) -> u32 {
        self.start_addr
    }

    /// The address just past the window.
    pub closed spec fn end(&self) -> u32 {
        self.end_addr
    }

    /// Whether `addr` lies in the window.
    pub open spec fn holds(&self, addr: int) -> bool {
        self.start() <= addr < self.end()
    }

    /// Whether the `len` bytes from `addr` on all lie in the window.
    pub open spec fn holds_range(&self, addr: int, len: int) -> bool {
        self.start() <= addr && addr + len <= self.end()
    }

    /// The byte stored at `addr`.
    pub open spec fn byte_at(&self, addr: int) -> u8 {
        self@[addr - self.start()]
    }

    /// Wraps `bytes` as the memory for the addresses from `start_addr` up to
    /// `end_addr`.
    pub fn new(bytes: &'a mut [u8], start_addr: u32, end_addr: u32) -> (rom: Self)
        requires
            start_addr <= end_addr,
            old(bytes)@.len() == end_addr - start_addr,
        ensures
            rom@ == old(bytes)@,
            rom.start() == start_addr,
            rom.end() == end_addr,
    {
        Rom { bytes, start_addr, end_addr }
    }

    /// Reads the byte at `addr`.
    #[inline]
    pub fn read(&self, addr: u32) -> (b: u8)
        requires
            self.holds(addr as int),
        ensures
            b == self.byte_at(addr as int),
    {
        proof {
            use_type_invariant(self);
        }
        self.bytes[addr as usize - self.start_addr as usize]
    }

    /// Stores `value` at `addr` and leaves every other byte as it was.
    #[inline]
    pub fn write(&mut self, addr: u32, value: u8)
        requires
            old(self).holds(addr as int),
        ensures
            final(self)@ == old(self)@.update(addr - old(self).start(), value),
            final(self).start() == old(self).start(),
            final(self).end() == old(self).end(),
    {
        proof {
            use_type_invariant(&*self);
        }
        self.bytes[addr as usize - self.start_addr as usize] = value;
    }

    /// Whether the `len` bytes from `addr` on all lie in the window.
    #[inline]
    pub fn contains(&self, addr: u32, len: u32) -> (b: bool)
        ensures
            b == self.holds_range(addr as int, len as int),
    {
        self.start_addr <= addr && addr <= self.end_addr && self.end_addr - addr >= len
    }

    /// The number of addresses in the window.
    #[inline]
    pub fn size(&self) -> (n: u32)
        ensures
            n == self.end() - self.start(),
            n == self@.len(),
    {
        proof {
            use_type_invariant(self);
        }
        self.end_addr - self.start_addr
    }

    /// The first address of the window.
    #[inline]
    pub fn start_addr(&self) -> (a: u32)
        ensures
            a == self.start(),
    {
        self.start_addr
    }

    /// The address just past the window.
    #[inline]
    pub fn end_addr(&self) -> (a: u32)
        ensures
            a == self.end(),
    {
        self.end_addr
    }
}

} // verus!
