use chip8::memory::{AccessKind, Address, Memory, MemoryError, MEMORY_SIZE};

const TEST_DATA: [u8; 3] = [1, 2, 3];
const TEST_ADDR: Address = 0x200;

fn create_memory() -> Memory {
    Memory::default()
}

#[test]
fn store_at_start() {
    let mut mem = create_memory();
    mem.store(&TEST_DATA, TEST_ADDR).unwrap();
    assert_eq!(
        &mem.data[TEST_ADDR as usize..TEST_ADDR as usize + TEST_DATA.len()],
        &TEST_DATA
    );
}

#[test]
fn store_out_of_bounds() {
    let mut mem = create_memory();
    let res = mem.store(&[1u8], MEMORY_SIZE + 1);
    assert_eq!(
        res,
        Err(MemoryError::OutOfBound(AccessKind::Write, MEMORY_SIZE + 1))
    );
}

#[test]
fn store_reserved() {
    let mut mem = create_memory();

    let res = mem.store(&[1u8], 0x000);
    assert_eq!(
        res,
        Err(MemoryError::ReservedAddr(AccessKind::Write, 0x000))
    );

    let res = mem.store(&[1u8], 0x1FF);
    assert_eq!(
        res,
        Err(MemoryError::ReservedAddr(AccessKind::Write, 0x1FF))
    );
}

#[test]
fn read_at_start() {
    let mut mem = create_memory();

    mem.data[TEST_ADDR as usize] = TEST_DATA[0];
    mem.data[TEST_ADDR as usize + 1] = TEST_DATA[1];
    mem.data[TEST_ADDR as usize + 2] = TEST_DATA[2];

    assert_eq!(
        mem.read(TEST_ADDR, TEST_DATA.len() as Address).unwrap(),
        TEST_DATA
    );
}
