use vstd::prelude::*;

verus! {

/// Size of the Game Boy address space: every `u16` address has one byte.
pub const MEMORY_SIZE: usize = 0x10000;

/// The memory map of the machine.
pub struct MMU {
    pub mem_map: Vec<u8>,
    pub cartridge_type: u8,
    pub rom_size: u32,
    pub ram_size: u16,
}

impl MMU {
    /// The memory map covers the whole 16-bit address space.
    pub open spec fn wf(&self) -> bool {
        self.mem_map@.len() == MEMORY_SIZE
    }

    /// The byte stored at `address`.
    pub open spec fn byte(&self, address: int) -> u8 {
        self.mem_map@[address]
    }

    /// A zeroed 64 KiB memory map with the default cartridge description.
    pub fn new() -> (mmu: MMU)
        ensures
            mmu.wf(),
            forall|i: int| 0 <= i < MEMORY_SIZE ==> #[trigger] mmu.mem_map@[i] == 0,
            mmu.cartridge_type == 0,
            mmu.rom_size == 0x00008000,
            mmu.ram_size == 0,
    {
        let mut mem_map: Vec<u8> = Vec::new();
        let mut i: usize = 0;
        while i < MEMORY_SIZE
            invariant
                i <= MEMORY_SIZE,
                mem_map@.len() == i,
                forall|j: int| 0 <= j < i ==> #[trigger] mem_map@[j] == 0,
            decreases MEMORY_SIZE - i,
        {
            mem_map.push(0);
            i = i + 1;
        }
        MMU { mem_map, cartridge_type: 0, rom_size: 0x00008000, ram_size: 0x0000 }
    }

    /// Stores `value` at `location`; every other byte is left as it was.
    /// The `masked_set` argument does not change the effect.
    pub fn set_to_memory(&mut self, location: usize, value: u8, masked_set: bool)
        requires
            location < old(self).mem_map@.len(),
        ensures
            final(self).mem_map@ == old(self).mem_map@.update(location as int, value),
            final(self).cartridge_type == old(self).cartridge_type,
            final(self).rom_size == old(self).rom_size,
            final(self).ram_size == old(self).ram_size,
    {
        self.mem_map.set(location, value);
    }

    /// Reads the byte at `location`.
    /// The `masked_read` argument does not change the result.
    pub fn get_from_memory(&self, location: usize, masked_read: bool) -> (value: u8)
        requires
            location < self.mem_map@.len(),
        ensures
            value == self.mem_map@[location as int],
    {
        self.mem_map[location]
    }

    /// Copies the cartridge image `rom` to the start of the address space:
    /// its first 0x10000 bytes replace the memory from address 0 on, the rest
    /// of the memory is left as it was.
    pub fn initialize_cartridge(&mut self, rom: &Vec<u8>)
        requires
            old(self).wf(),
        ensures
            final(self).wf(),
            forall|i: int|
                0 <= i < MEMORY_SIZE ==> #[trigger] final(self).mem_map@[i] == (if i < rom@.len() {
                    rom@[i]
                } else {
                    old(self).mem_map@[i]
                }),
            final(self).cartridge_type == old(self).cartridge_type,
            final(self).rom_size == old(self).rom_size,
            final(self).ram_size == old(self).ram_size,
    {
        let count = if rom.len() < MEMORY_SIZE {
            rom.len()
        } else {
            MEMORY_SIZE
        };
        let mut i: usize = 0;
        while i < count
            invariant
                i <= count,
                count <= MEMORY_SIZE,
                count <= rom@.len(),
                count == rom@.len() || count == MEMORY_SIZE,
                self.wf(),
                forall|j: int|
                    0 <= j < MEMORY_SIZE ==> #[trigger] self.mem_map@[j] == (if j < i {
                        rom@[j]
                    } else {
                        old(self).mem_map@[j]
                    }),
                self.cartridge_type == old(self).cartridge_type,
                self.rom_size == old(self).rom_size,
                self.ram_size == old(self).ram_size,
            decreases count - i,
        {
            self.mem_map.set(i, rom[i]);
            i = i + 1;
        }
    }
}

/// Reading an address gives back the last value written to it, and a write
/// leaves every other address as it was.
pub proof fn law_read_after_write(memory: Seq<u8>, written: int, read: int, value: u8)
    requires
        0 <= written < memory.len(),
        0 <= read < memory.len(),
    ensures
        memory.update(written, value)[read] == (if read == written { value } else { memory[read] }),
        memory.update(written, value).len() == memory.len(),
{
}

} // verus!
