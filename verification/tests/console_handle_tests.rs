//! The synchronized handle: a writer behind a spin-based mutual-exclusion
//! lock, acquired and released by interleaved callers.

use spin::Mutex;
use vga_text::vga_buffer::{Writer, BUFFER_HEIGHT, BUFFER_WIDTH, SPACE};

#[test]
fn interleaved_writers_never_mix_cell_bytes() {
    let console = Mutex::new(Writer::new());
    let attr = console.lock().color_code();
    // Two simulated callers take turns acquiring the handle and writing one
    // byte each; every acquisition sees the writer in a consistent state.
    for _ in 0..BUFFER_WIDTH / 2 {
        console.lock().write_byte(b'A');
        console.lock().write_byte(b'B');
    }
    let w = console.lock();
    assert_eq!(w.column(), BUFFER_WIDTH);
    for col in 0..BUFFER_WIDTH {
        let cell = w.read_cell(BUFFER_HEIGHT - 1, col);
        // The two bytes of each cell come from the same logical write: the
        // character is one of the two that were written, never the
        // placeholder or a torn value, and the attribute is the single
        // attribute those writes carried.
        let expected = if col % 2 == 0 { b'A' } else { b'B' };
        assert_eq!(cell.ascii_character, expected);
        assert_eq!(cell.color_code, attr);
    }
}

#[test]
fn sequential_acquisitions_preserve_state() {
    let console = Mutex::new(Writer::new());
    console.lock().write_byte(b'H');
    assert_eq!(console.lock().column(), 1);
    console.lock().write_byte(b'i');
    let w = console.lock();
    assert_eq!(w.column(), 2);
    assert_eq!(w.read_cell(BUFFER_HEIGHT - 1, 0).ascii_character, b'H');
    assert_eq!(w.read_cell(BUFFER_HEIGHT - 1, 1).ascii_character, b'i');
    assert_eq!(w.read_cell(BUFFER_HEIGHT - 1, 2).ascii_character, SPACE);
}
