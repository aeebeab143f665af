use embassy_periph::flash::{
    begin_write, blocking_erase_sector, blocking_write, clear_all_err, end_write, get_flash_regions, lock,
    unlock, write_block, Error, FlashSector, WRITE_SIZE,
};
use embassy_periph::flash_registers::{FlashRegisters, ERASE_SIZE, FLASH_BASE};

fn controller() -> FlashRegisters {
    FlashRegisters::new(4 * ERASE_SIZE, 3)
}

#[test]
fn write_to_erased_flash_reads_back() {
    let mut flash = controller();
    let mut buf = [0u8; WRITE_SIZE];
    for (i, b) in buf.iter_mut().enumerate() {
        *b = (i + 1) as u8;
    }
    assert_eq!(buf, [0x01, 0x02]);
    let address = FLASH_BASE + 0x10;
    assert_eq!(write_block(&mut flash, address, &buf), Ok(()));
    assert_eq!(&flash.mem[0x10..0x12], &buf[..]);
    assert_eq!(flash.mem[0x0F], 0xFF);
    assert_eq!(flash.mem[0x12], 0xFF);
    assert!(!flash.pg);
    assert!(!flash.lock);
    assert!(!flash.eop && !flash.pgerr && !flash.wrprt);
    assert_eq!(flash.busy, 0);
}

#[test]
fn write_of_zeros_reads_back() {
    let mut flash = controller();
    let buf = [0u8; WRITE_SIZE];
    assert_eq!(write_block(&mut flash, FLASH_BASE, &buf), Ok(()));
    assert_eq!(&flash.mem[0..2], &[0u8, 0u8][..]);
}

#[test]
fn erase_without_end_of_operation_fails_with_prog() {
    let mut flash = controller();
    flash.signals_eop = false;
    flash.pgerr = true;
    flash.wrprt = true;
    unlock(&mut flash);
    let sector = FlashSector { start: FLASH_BASE + ERASE_SIZE, size: ERASE_SIZE };
    assert_eq!(blocking_erase_sector(&mut flash, &sector), Err(Error::Prog));
    assert!(!flash.pgerr);
    assert!(!flash.wrprt);
    assert!(!flash.eop);
    assert!(!flash.per);
}

#[test]
fn write_to_protected_flash_fails_with_protected() {
    let mut flash = controller();
    flash.protected = true;
    let buf = [0xAB, 0xCD];
    assert_eq!(write_block(&mut flash, FLASH_BASE + 4, &buf), Err(Error::Protected));
    assert!(!flash.pg);
    assert!(!flash.wrprt);
    assert_eq!(flash.mem[4], 0xFF);
    assert_eq!(flash.mem[5], 0xFF);
}

#[test]
fn write_over_programmed_flash_fails_with_sequence_error() {
    let mut flash = controller();
    assert_eq!(write_block(&mut flash, FLASH_BASE + 8, &[0x11, 0x22]), Ok(()));
    assert_eq!(write_block(&mut flash, FLASH_BASE + 8, &[0x33, 0x44]), Err(Error::SequenceError));
    assert_eq!(flash.mem[8], 0x11);
    assert_eq!(flash.mem[9], 0x22);
    assert!(!flash.pgerr && !flash.pg);
}

#[test]
fn erase_then_write_again() {
    let mut flash = controller();
    assert_eq!(write_block(&mut flash, FLASH_BASE + ERASE_SIZE + 2, &[0x5A, 0xA5]), Ok(()));
    let sector = FlashSector { start: FLASH_BASE + ERASE_SIZE, size: ERASE_SIZE };
    assert_eq!(blocking_erase_sector(&mut flash, &sector), Ok(()));
    assert!(flash.mem[ERASE_SIZE as usize..2 * ERASE_SIZE as usize].iter().all(|b| *b == 0xFF));
    assert!(!flash.eop && !flash.per);
    assert_eq!(flash.far, FLASH_BASE + ERASE_SIZE);
    assert_eq!(write_block(&mut flash, FLASH_BASE + ERASE_SIZE + 2, &[0x01, 0x02]), Ok(()));
    assert_eq!(flash.mem[ERASE_SIZE as usize + 2], 0x01);
}

#[test]
fn erase_leaves_other_pages() {
    let mut flash = controller();
    assert_eq!(write_block(&mut flash, FLASH_BASE, &[0x00, 0x00]), Ok(()));
    unlock(&mut flash);
    let sector = FlashSector { start: FLASH_BASE + 2 * ERASE_SIZE, size: ERASE_SIZE };
    assert_eq!(blocking_erase_sector(&mut flash, &sector), Ok(()));
    assert_eq!(flash.mem[0], 0x00);
}

#[test]
fn erase_of_protected_flash_fails_with_protected() {
    let mut flash = controller();
    unlock(&mut flash);
    flash.protected = true;
    flash.eop = true;
    let sector = FlashSector { start: FLASH_BASE, size: ERASE_SIZE };
    assert_eq!(blocking_erase_sector(&mut flash, &sector), Err(Error::Protected));
    assert!(!flash.wrprt && !flash.eop && !flash.per);
}

#[test]
fn erase_while_locked_fails_with_prog() {
    let mut flash = controller();
    flash.mem[0] = 0x12;
    let sector = FlashSector { start: FLASH_BASE, size: ERASE_SIZE };
    assert_eq!(blocking_erase_sector(&mut flash, &sector), Err(Error::Prog));
    assert_eq!(flash.mem[0], 0x12);
}

#[test]
fn unlock_and_lock() {
    let mut flash = controller();
    assert!(flash.lock);
    unlock(&mut flash);
    assert!(!flash.lock);
    unlock(&mut flash);
    assert!(!flash.lock);
    lock(&mut flash);
    assert!(flash.lock);
    flash.write_keyr(0x1234);
    flash.write_keyr(0xCDEF_89AB);
    assert!(flash.lock);
}

#[test]
fn program_enable_needs_unlocked_controller() {
    let mut flash = controller();
    begin_write(&mut flash);
    assert!(!flash.pg);
    unlock(&mut flash);
    begin_write(&mut flash);
    assert!(flash.pg);
    end_write(&mut flash);
    assert!(!flash.pg);
}

#[test]
fn blocking_write_waits_until_idle() {
    let mut flash = controller();
    unlock(&mut flash);
    begin_write(&mut flash);
    assert_eq!(blocking_write(&mut flash, FLASH_BASE + 0x20, &[0x10, 0x20]), Ok(()));
    assert_eq!(flash.busy, 0);
    assert!(flash.eop);
    assert!(flash.pg);
    assert_eq!(flash.mem[0x20], 0x10);
    assert_eq!(flash.mem[0x21], 0x20);
    clear_all_err(&mut flash);
    assert!(!flash.eop);
}

#[test]
fn clear_all_err_clears_every_flag() {
    let mut flash = controller();
    flash.pgerr = true;
    flash.wrprt = true;
    flash.eop = true;
    clear_all_err(&mut flash);
    assert!(!flash.pgerr && !flash.wrprt && !flash.eop);
}

#[test]
fn flash_regions() {
    let regions = get_flash_regions();
    assert_eq!(regions.len(), 1);
    assert_eq!(regions[0].base, 0x0800_0000);
    assert_eq!(regions[0].size, 0x1_0000);
    assert_eq!(regions[0].erase_size, 0x400);
    assert_eq!(regions[0].write_size, 2);
    assert_eq!(regions[0].erase_value, 0xFF);
}
