//! The external QSPI flash as littlefs storage: its geometry, and what the
//! driver hands to the QSPI peripheral for a read, a write, an erase and a
//! JEDEC id query.
use vstd::prelude::*;

verus! {

/// Size of the external flash in bytes.
pub const FLASH_SIZE: usize = 0x20_0000;

/// Size of an erasable block in bytes.
pub const BLOCK_SIZE: usize = 0x1000;

/// Minimum size of a block read in bytes.
pub const READ_SIZE: usize = 4;

/// Minimum size of a block write in bytes.
pub const WRITE_SIZE: usize = 256;

/// Number of erasable blocks.
pub const BLOCK_COUNT: usize = FLASH_SIZE / BLOCK_SIZE;

/// Size of each littlefs cache in bytes.
pub const CACHE_SIZE: usize = 256;

/// Size of the littlefs lookahead buffer in 32-bit words.
pub const LOOKAHEAD_WORDS: usize = 1;

/// The flash instruction that reads the JEDEC manufacturer and device id.
pub const READ_JEDEC_ID_OPCODE: u8 = 0x9F;

/// Bytes moved by the JEDEC id instruction, opcode included.
pub const READ_JEDEC_ID_LENGTH: u8 = 4;

/// Why the driver refuses a request.
#[derive(Clone, Copy, Debug, PartialEq, Eq)]
pub enum FlashError {
    /// Incorrect value specified to function.
    Invalid,
}

/// What the QSPI read or write DMA registers are loaded with.
#[derive(Clone, Copy, Debug, PartialEq, Eq)]
pub struct DmaTransfer {
    /// Address in the flash.
    pub flash_addr: u32,
    /// Address of the buffer in RAM.
    pub ram_addr: u32,
    /// Number of bytes.
    pub count: u32,
}

/// The sizes the QSPI erase command knows.
#[derive(Clone, Copy, Debug, PartialEq, Eq)]
pub enum EraseLength {
    /// The whole chip.
    All,
    /// A 64 KiB block.
    Block64K,
    /// A 4 KiB sector.
    Sector4K,
}

/// What the QSPI erase registers are loaded with.
#[derive(Clone, Copy, Debug, PartialEq, Eq)]
pub struct EraseCommand {
    /// Start address in the flash.
    pub ptr: u32,
    /// How much is erased.
    pub length: EraseLength,
}

/// The buffer is refused: its address and its length share one of the two
/// low bits (the driver tests `addr & len & (READ_SIZE - 1)`).
pub open spec fn buffer_refused(addr: usize, len: usize) -> bool {
    addr & len & 3 != 0
}

/// The DMA transfer of `count` bytes between flash offset `off` and the
/// buffer at `addr`, each value truncated to the 32-bit register.
pub open spec fn dma_transfer(off: usize, addr: usize, len: usize) -> DmaTransfer {
    DmaTransfer { flash_addr: off as u32, ram_addr: addr as u32, count: len as u32 }
}

/// The erase registers the driver loads for `(off, len)`, or `None` when it
/// leaves them as they were.
pub open spec fn erase_command(off: usize, len: usize) -> Option<EraseCommand> {
    if off == 0 && len == FLASH_SIZE {
        Some(EraseCommand { ptr: 0, length: EraseLength::All })
    } else if off & len & 0xFFFF == 0 {
        Some(EraseCommand { ptr: off as u32, length: EraseLength::Block64K })
    } else if off & len & 0xFFF == 0 {
        Some(EraseCommand { ptr: off as u32, length: EraseLength::Sector4K })
    } else {
        None
    }
}

/// Tells whether the driver refuses a buffer at `addr` of `len` bytes.
pub fn buffer_is_refused(addr: usize, len: usize) -> (refused: bool)
    ensures
        refused == buffer_refused(addr, len),
{
    (addr & len & (READ_SIZE - 1)) != 0
}

/// The registers of a read of `len` bytes from flash offset `off` into the
/// buffer at `addr`; refused as `Invalid` when the buffer is.
pub fn plan_read(off: usize, addr: usize, len: usize) -> (r: Result<DmaTransfer, FlashError>)
    ensures
        buffer_refused(addr, len) ==> r == Err::<DmaTransfer, FlashError>(FlashError::Invalid),
        !buffer_refused(addr, len) ==> r == Ok::<DmaTransfer, FlashError>(
            dma_transfer(off, addr, len),
        ),
        r is Err <==> addr & len & 3 != 0,
        r matches Ok(t) ==> {
            &&& t.flash_addr as int == off as int % 0x1_0000_0000
            &&& t.ram_addr as int == addr as int % 0x1_0000_0000
            &&& t.count as int == len as int % 0x1_0000_0000
        },
{
    proof {
        lemma_dma_transfer_fields(off, addr, len);
    }
    if buffer_is_refused(addr, len) {
        return Err(FlashError::Invalid);
    }
    Ok(DmaTransfer { flash_addr: off as u32, ram_addr: addr as u32, count: len as u32 })
}

/// The registers of a write of `len` bytes from the buffer at `addr` to
/// flash offset `off`; refused as `Invalid` when the buffer is.
pub fn plan_write(off: usize, addr: usize, len: usize) -> (r: Result<DmaTransfer, FlashError>)
    ensures
        buffer_refused(addr, len) ==> r == Err::<DmaTransfer, FlashError>(FlashError::Invalid),
        !buffer_refused(addr, len) ==> r == Ok::<DmaTransfer, FlashError>(
            dma_transfer(off, addr, len),
        ),
        r is Err <==> addr & len & 3 != 0,
        r matches Ok(t) ==> {
            &&& t.flash_addr as int == off as int % 0x1_0000_0000
            &&& t.ram_addr as int == addr as int % 0x1_0000_0000
            &&& t.count as int == len as int % 0x1_0000_0000
        },
{
    proof {
        lemma_dma_transfer_fields(off, addr, len);
    }
    if buffer_is_refused(addr, len) {
        return Err(FlashError::Invalid);
    }
    Ok(DmaTransfer { flash_addr: off as u32, ram_addr: addr as u32, count: len as u32 })
}

/// The erase registers for an erase of `len` bytes at `off`: the whole chip
/// for exactly the whole chip, else a 64 KiB block, else a 4 KiB sector, as
/// far as `off & len` allows; `None` leaves the registers as they were.
pub fn plan_erase(off: usize, len: usize) -> (cmd: Option<EraseCommand>)
    ensures
        cmd == erase_command(off, len),
        cmd is None <==> off & len & 0xFFF != 0,
        (cmd matches Some(c) && c.length == EraseLength::Sector4K) <==> (off & len & 0xFFFF != 0
            && off & len & 0xFFF == 0),
        (cmd matches Some(c) && c.length == EraseLength::Block64K) <==> (!(off == 0 && len
            == 0x20_0000) && off & len & 0xFFFF == 0),
{
    proof {
        lemma_erase_length_by_low_bits(off, len);
    }
    if off == 0 && len == FLASH_SIZE {
        Some(EraseCommand { ptr: 0, length: EraseLength::All })
    } else if (off & len & (0x1_0000 - 1)) == 0 {
        Some(EraseCommand { ptr: off as u32, length: EraseLength::Block64K })
    } else if (off & len & (0x1000 - 1)) == 0 {
        Some(EraseCommand { ptr: off as u32, length: EraseLength::Sector4K })
    } else {
        None
    }
}

/// The three id bytes in the first data word of the JEDEC id instruction:
/// manufacturer, memory type, capacity, lowest byte first.
pub fn jedec_id_from_word(word: u32) -> (id: [u8; 3])
    ensures
        id@[0] as int == word as int % 0x100,
        id@[1] as int == (word as int / 0x100) % 0x100,
        id@[2] as int == (word as int / 0x1_0000) % 0x100,
{
    let id = [word as u8, (word >> 8u32) as u8, (word >> 16u32) as u8];
    assert(word as u8 == word % 0x100) by (bit_vector);
    assert((word >> 8u32) as u8 == (word / 0x100) % 0x100) by (bit_vector);
    assert((word >> 16u32) as u8 == (word / 0x1_0000) % 0x100) by (bit_vector);
    id
}

/// The storage geometry meets littlefs's demands: the blocks cover the flash
/// exactly, a block is at least 128 bytes and a multiple of the read and
/// write sizes, and the cache is a multiple of both and divides a block.
pub proof fn lemma_storage_geometry()
    ensures
        BLOCK_COUNT * BLOCK_SIZE == FLASH_SIZE,
        BLOCK_SIZE >= 128,
        BLOCK_SIZE % READ_SIZE == 0,
        BLOCK_SIZE % WRITE_SIZE == 0,
        CACHE_SIZE % READ_SIZE == 0,
        CACHE_SIZE % WRITE_SIZE == 0,
        BLOCK_SIZE % CACHE_SIZE == 0,
{
}

/// The DMA words are the offset, the buffer address and the buffer length,
/// each reduced modulo 2^32: the whole buffer is transferred.
pub proof fn lemma_dma_transfer_fields(off: usize, addr: usize, len: usize)
    ensures
        dma_transfer(off, addr, len).flash_addr as int == off as int % 0x1_0000_0000,
        dma_transfer(off, addr, len).ram_addr as int == addr as int % 0x1_0000_0000,
        dma_transfer(off, addr, len).count as int == len as int % 0x1_0000_0000,
        len <= u32::MAX ==> dma_transfer(off, addr, len).count as int == len as int,
{
    assert((off as u32) as int == off as int % 0x1_0000_0000) by (bit_vector);
    assert((addr as u32) as int == addr as int % 0x1_0000_0000) by (bit_vector);
    assert((len as u32) as int == len as int % 0x1_0000_0000) by (bit_vector);
}

/// A buffer is refused exactly when its address and its length are both
/// odd, or both have bit 1 set.
pub proof fn lemma_buffer_refused_low_bits(addr: usize, len: usize)
    ensures
        buffer_refused(addr, len) <==> ((addr % 2 == 1 && len % 2 == 1) || ((addr / 2) % 2 == 1 && (
        len / 2) % 2 == 1)),
{
    assert(addr & len & 3 != 0 <==> ((addr % 2 == 1 && len % 2 == 1) || ((addr / 2) % 2 == 1 && (
    len / 2) % 2 == 1))) by (bit_vector);
}

/// The erase size is decided by the low bits that the offset and the length
/// share: the whole chip only for exactly the whole chip, a 64 KiB block when
/// they share none of the low 16 bits, a 4 KiB sector when they share one of
/// bits 12 to 15 but none of the low 12, and nothing otherwise. Blocks and
/// sectors start at the offset.
pub proof fn lemma_erase_length_by_low_bits(off: usize, len: usize)
    ensures
        erase_command(off, len) == Some(EraseCommand { ptr: 0, length: EraseLength::All }) <==> (off
            == 0 && len == 0x20_0000),
        (erase_command(off, len) matches Some(c) && c.length == EraseLength::Block64K) <==> (!(off
            == 0 && len == 0x20_0000) && off & len & 0xFFFF == 0),
        (erase_command(off, len) matches Some(c) && c.length == EraseLength::Sector4K) <==> (off
            & len & 0xFFFF != 0 && off & len & 0xFFF == 0),
        erase_command(off, len) is None <==> off & len & 0xFFF != 0,
        erase_command(off, len) matches Some(c) ==> c.ptr as int == off as int % 0x1_0000_0000,
{
    assert(off & len & 0xFFF != 0 ==> off & len & 0xFFFF != 0) by (bit_vector);
    assert(off == 0 ==> off & len & 0xFFF == 0) by (bit_vector);
    assert(off == 0 ==> off & len & 0xFFFF == 0) by (bit_vector);
    assert((off as u32) as int == off as int % 0x1_0000_0000) by (bit_vector);
}

/// A buffer whose address or length is a multiple of `READ_SIZE` is never
/// refused.
pub proof fn lemma_aligned_buffer_accepted(addr: usize, len: usize)
    requires
        addr % 4 == 0 || len % 4 == 0,
    ensures
        !buffer_refused(addr, len),
{
    assert(addr % 4 == 0 || len % 4 == 0 ==> addr & len & 3 == 0) by (bit_vector);
}

/// An erase at a 4 KiB aligned offset always loads the erase registers, and
/// one at a 64 KiB aligned offset erases the whole chip or a 64 KiB block.
pub proof fn lemma_aligned_erase(off: usize, len: usize)
    ensures
        off % 0x1000 == 0 ==> erase_command(off, len) is Some,
        off % 0x1_0000 == 0 ==> (erase_command(off, len) matches Some(c) && (c.length
            == EraseLength::All || c.length == EraseLength::Block64K)),
{
    assert(off % 0x1000 == 0 ==> off & len & 0xFFF == 0) by (bit_vector);
    assert(off % 0x1_0000 == 0 ==> off & len & 0xFFFF == 0) by (bit_vector);
}

/// An erase that loads a 64 KiB block or a 4 KiB sector starts where it was
/// asked to, and only the exact whole chip is erased as a whole.
pub proof fn lemma_erase_start(off: usize, len: usize)
    ensures
        erase_command(off, len) matches Some(c) ==> (c.length == EraseLength::All <==> (off == 0
            && len == FLASH_SIZE)),
        erase_command(off, len) matches Some(c) ==> c.ptr == off as u32,
{
}

} // verus!
