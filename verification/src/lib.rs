//! Decoding engine for executable-file inspection: a bounds-checked byte
//! buffer, magic-based format detection, an ELF header/section/symbol decoder,
//! and a hex-dump fallback, all returning display-ready tables.

pub mod binary;
pub mod blob;
pub mod elf;
pub mod hex;
pub mod pe;
pub mod table;
pub mod text;
