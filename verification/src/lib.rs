//! A small growable contiguous container, its forward snapshot iterator,
//! and a thin owned-byte-sequence text wrapper.

pub mod iter;
pub mod str;
pub mod vec;
