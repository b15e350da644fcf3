use embedded_runner::qspi::{
    buffer_is_refused, jedec_id_from_word, plan_erase, plan_read, plan_write, DmaTransfer,
    EraseCommand, EraseLength, FlashError, BLOCK_COUNT, BLOCK_SIZE, FLASH_SIZE,
};

#[test]
fn geometry_covers_flash() {
    assert_eq!(BLOCK_COUNT, 512);
    assert_eq!(BLOCK_COUNT * BLOCK_SIZE, FLASH_SIZE);
}

#[test]
fn buffer_refused_only_when_address_and_length_share_low_bit() {
    assert!(buffer_is_refused(1, 1));
    assert!(buffer_is_refused(2, 2));
    assert!(buffer_is_refused(3, 7));
    assert!(!buffer_is_refused(1, 2));
    assert!(!buffer_is_refused(0x2000_0001, 4));
    assert!(!buffer_is_refused(0x2000_0000, 3));
}

#[test]
fn read_plan_loads_dma_registers() {
    assert_eq!(
        plan_read(0x1000, 0x2000_0100, 256),
        Ok(DmaTransfer { flash_addr: 0x1000, ram_addr: 0x2000_0100, count: 256 })
    );
    assert_eq!(plan_read(0, 0x2000_0003, 5), Err(FlashError::Invalid));
}

#[test]
fn write_plan_loads_dma_registers() {
    assert_eq!(
        plan_write(0x20, 0x2000_0004, 16),
        Ok(DmaTransfer { flash_addr: 0x20, ram_addr: 0x2000_0004, count: 16 })
    );
    assert_eq!(plan_write(0, 0x2000_0002, 2), Err(FlashError::Invalid));
}

#[test]
fn plans_truncate_to_register_width() {
    let off: usize = (1usize << 32) as usize + 8;
    assert_eq!(
        plan_read(off, 4, 4),
        Ok(DmaTransfer { flash_addr: 8, ram_addr: 4, count: 4 })
    );
}

#[test]
fn erase_plan_picks_size() {
    assert_eq!(
        plan_erase(0, FLASH_SIZE),
        Some(EraseCommand { ptr: 0, length: EraseLength::All })
    );
    assert_eq!(
        plan_erase(0x1_0000, 0x1_0000),
        Some(EraseCommand { ptr: 0x1_0000, length: EraseLength::Block64K })
    );
    assert_eq!(
        plan_erase(0x1000, 0x1000),
        Some(EraseCommand { ptr: 0x1000, length: EraseLength::Sector4K })
    );
    assert_eq!(
        plan_erase(0x1000, 0x2000),
        Some(EraseCommand { ptr: 0x1000, length: EraseLength::Block64K })
    );
    assert_eq!(plan_erase(0x1001, 0x1001), None);
    assert_eq!(
        plan_erase(0, 0x1000),
        Some(EraseCommand { ptr: 0, length: EraseLength::Block64K })
    );
}

#[test]
fn jedec_id_is_low_three_bytes() {
    assert_eq!(jedec_id_from_word(0x0015_40C8), [0xC8, 0x40, 0x15]);
    assert_eq!(jedec_id_from_word(0xFF12_3456), [0x56, 0x34, 0x12]);
}
