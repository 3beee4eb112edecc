use vstd::prelude::*;

verus! {

/// The number of addressable bytes: the whole 16-bit address space.
pub const MEMORY_SIZE: usize = 0x10000;

/// The 64 KiB address space of the processor.
pub struct Memory {
    data: Vec<u8>,
}

impl View for Memory {
    type V = Seq<u8>;

    /// The bytes of memory, indexed by address.
    closed spec fn view(&self) -> Seq<u8> {
        self.data@
    }
}

/// `bytes` placed at `start` over `m`, the rest of `m` unchanged.
pub open spec fn spec_load(m: Seq<u8>, start: int, bytes: Seq<u8>) -> Seq<u8> {
    Seq::new(m.len(), |i: int| if start <= i < start + bytes.len() { bytes[i - start] } else { m[i] })
}

impl Memory {
    /// Well-formedness: one byte for each 16-bit address.
    pub closed spec fn wf(&self) -> bool {
        self.data@.len() == MEMORY_SIZE
    }

    /// 64 KiB of memory, every byte zero.
    pub fn new() -> (m: Self)
        ensures
            m.wf(),
            m@ == Seq::new(MEMORY_SIZE as nat, |i: int| 0u8),
    {
        let data = vec![0u8; MEMORY_SIZE];
        let m = Memory { data };
        assert(m@ =~= Seq::new(MEMORY_SIZE as nat, |i: int| 0u8));
        m
    }

    /// The byte at `addr`.
    pub fn read(&self, addr: u16) -> (data: u8)
        requires
            self.wf(),
        ensures
            data == self@[addr as int],
    {
        self.data[addr as usize]
    }

    /// Stores `data` at `addr`.
    pub fn write(&mut self, addr: u16, data: u8)
        requires
            old(self).wf(),
        ensures
            final(self).wf(),
            final(self)@ == old(self)@.update(addr as int, data),
    {
        self.data.set(addr as usize, data);
    }

    /// Stores `bytes` at consecutive addresses from `start` on.
    pub fn load(&mut self, start: u16, bytes: &[u8])
        requires
            old(self).wf(),
            start + bytes@.len() <= MEMORY_SIZE,
        ensures
            final(self).wf(),
            final(self)@ == spec_load(old(self)@, start as int, bytes@),
    {
        let ghost initial = self@;
        let mut i: usize = 0;
        while i < bytes.len()
            invariant
                self.wf(),
                i <= bytes@.len(),
                start + bytes@.len() <= MEMORY_SIZE,
                initial.len() == MEMORY_SIZE,
                self@ =~= spec_load(initial, start as int, bytes@.take(i as int)),
            decreases bytes@.len() - i,
        {
            let addr: usize = start as usize + i;
            self.data.set(addr, bytes[i]);
            i = i + 1;
        }
        assert(bytes@.take(bytes@.len() as int) =~= bytes@);
    }
}

/// The largest ROM image: the upper half of the address space.
pub const MAX_ROM_SIZE: usize = 0x8000;

/// Joining a high and a low byte into a word.
proof fn lemma_join_bytes(lo: u16, hi: u16)
    requires
        lo < 256,
        hi < 256,
    ensures
        lo | (hi << 8u16) == lo + 256 * hi,
{
    assert(lo | (hi << 8u16) == lo + 256 * hi) by (bit_vector)
        requires
            lo < 256,
            hi < 256,
    ;
}

impl Memory {
    /// Places a ROM image of 1 to 32768 bytes at the top of an otherwise
    /// zeroed memory, ending at $FFFF, and gives the start address read from
    /// the reset vector at $FFFC (low byte) and $FFFD (high byte). `None` for
    /// an empty image or one larger than 32768 bytes.
    pub fn load_rom(rom: &[u8]) -> (r: Option<(Memory, u16)>)
        ensures
            r is None <==> (rom@.len() == 0 || rom@.len() > MAX_ROM_SIZE),
            r matches Some((m, pc)) ==> {
                &&& m.wf()
                &&& m@ == spec_load(
                    Seq::new(MEMORY_SIZE as nat, |i: int| 0u8),
                    MEMORY_SIZE - rom@.len(),
                    rom@,
                )
                &&& pc == m@[0xFFFC] + 256 * m@[0xFFFD]
            },
    {
        if rom.len() == 0 || rom.len() > MAX_ROM_SIZE {
            return None;
        }
        let mut mem = Memory::new();
        let load_addr = (MEMORY_SIZE - rom.len()) as u16;
        mem.load(load_addr, rom);
        let lo = mem.read(0xFFFC) as u16;
        let hi = mem.read(0xFFFD) as u16;
        proof {
            lemma_join_bytes(lo, hi);
        }
        let pc = lo | (hi << 8);
        Some((mem, pc))
    }
}

/// A read gives back what the last write to the same address wrote.
pub proof fn lemma_read_after_write(m: Seq<u8>, addr: u16, data: u8)
    requires
        m.len() == MEMORY_SIZE,
    ensures
        m.update(addr as int, data)[addr as int] == data,
{
}

/// A write leaves every other address unchanged.
pub proof fn lemma_write_other(m: Seq<u8>, addr: u16, data: u8, other: u16)
    requires
        m.len() == MEMORY_SIZE,
        other != addr,
    ensures
        m.update(addr as int, data)[other as int] == m[other as int],
{
}

/// After a load, the byte at `start + k` is the `k`th loaded byte, and
/// addresses outside the loaded range keep their bytes.
pub proof fn lemma_load_contents(m: Seq<u8>, start: u16, bytes: Seq<u8>, addr: u16)
    requires
        m.len() == MEMORY_SIZE,
        start + bytes.len() <= MEMORY_SIZE,
    ensures
        spec_load(m, start as int, bytes).len() == MEMORY_SIZE,
        start <= addr < start + bytes.len() ==> spec_load(m, start as int, bytes)[addr as int]
            == bytes[addr - start],
        !(start <= addr < start + bytes.len()) ==> spec_load(m, start as int, bytes)[addr as int]
            == m[addr as int],
{
}

} // verus!
