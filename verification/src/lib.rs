//! Decoder for text logs of Serial Wire Debug transactions.

pub mod arm_regs;
pub mod context;
pub mod decoder;
pub mod fields;
pub mod parser;
pub mod registers;
pub mod render;

pub use context::mem_ap_address;
