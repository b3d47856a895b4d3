//! A character-mode text console: a fixed-size framebuffer of character
//! cells, a writer that renders a byte stream with line wrapping and
//! scrolling, and a palette of the sixteen hardware colors.

pub mod laws;
pub mod vga_buffer;
