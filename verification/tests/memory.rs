use chip8emu::emu::font::{DEFAULT_FONTPACK, DEFAULT_FONTPACK_LOCATION, GLYPH_ROWS};
use chip8emu::emu::memory::{Memory, MEMORY_SIZE};

#[test]
fn new_memory_is_zero() {
    let memory = Memory::new();
    assert_eq!(MEMORY_SIZE, 4096);
    for addr in 0..0x1000u16 {
        assert_eq!(memory.get(addr), 0);
    }
}

#[test]
fn load_writes_the_range_and_nothing_else() {
    let mut memory = Memory::new();
    memory.load(&[1, 2, 3], &0x200);
    assert_eq!(memory.get(0x1FF), 0);
    assert_eq!(memory.get(0x200), 1);
    assert_eq!(memory.get(0x201), 2);
    assert_eq!(memory.get(0x202), 3);
    assert_eq!(memory.get(0x203), 0);
}

#[test]
fn load_reaches_the_last_cell() {
    let mut memory = Memory::new();
    memory.load(&[0xAA, 0xBB], &0xFFE);
    assert_eq!(memory.get(0xFFE), 0xAA);
    assert_eq!(memory.get(0xFFF), 0xBB);
    memory.load(&[], &0x1000);
    assert_eq!(memory.get(0xFFF), 0xBB);
}

#[test]
fn set_changes_one_cell() {
    let mut memory = Memory::new();
    memory.set(0x123, 0x45);
    assert_eq!(memory.get(0x123), 0x45);
    assert_eq!(memory.get(0x122), 0);
    assert_eq!(memory.get(0x124), 0);
}

#[test]
fn slice_is_the_cells_in_order() {
    let mut memory = Memory::new();
    memory.load(&[9, 8, 7, 6], &0x300);
    assert_eq!(memory.slice(0x301, 2), &[8, 7]);
    assert_eq!(memory.slice(0x300, 0), &[] as &[u8]);
    assert_eq!(memory.slice(0xFFF, 1), &[0]);
    assert_eq!(memory.slice(0x1000, 0), &[] as &[u8]);
}

#[test]
fn font_has_sixteen_glyphs_of_five_rows() {
    assert_eq!(DEFAULT_FONTPACK.len(), 16 * GLYPH_ROWS);
    assert_eq!(DEFAULT_FONTPACK_LOCATION, 0x50);
    assert_eq!(&DEFAULT_FONTPACK[0..5], &[0xF0, 0x90, 0x90, 0x90, 0xF0]);
    assert_eq!(&DEFAULT_FONTPACK[5..10], &[0x20, 0x60, 0x20, 0x20, 0x70]);
    assert_eq!(&DEFAULT_FONTPACK[75..80], &[0xF0, 0x80, 0xF0, 0x80, 0x80]);
    for byte in DEFAULT_FONTPACK {
        assert_eq!(byte & 0x0F, 0);
    }
}
