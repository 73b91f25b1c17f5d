//! Laws of the machine: properties that hold of every state, proved from the
//! semantics the executable functions follow.

pub mod arith;
pub mod bitops;
pub mod boot;
pub mod bytes;
pub mod chips;
pub mod decode;
pub mod devices;
pub mod effects;
pub mod elements;
pub mod far;
pub mod faults;
pub mod fields;
pub mod firmware;
pub mod float;
pub mod frame;
pub mod gates;
pub mod handover;
pub mod images;
pub mod interrupt;
pub mod jumps;
pub mod kept;
pub mod machine;
pub mod memory;
pub mod moves;
pub mod opcodes;
pub mod operands;
pub mod paging;
pub mod products;
pub mod registers;
pub mod run;
pub mod shift;
pub mod slots;
pub mod stack;
pub mod strings;
pub mod sums;
pub mod system;
pub mod tlb;
pub mod views;
pub mod walks;
