pub mod bitstream;
pub mod text;
pub mod bits;
