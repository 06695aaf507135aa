//! The two-pass assembler: source text to tokens, tokens to labels and
//! opcodes, opcodes to the bytes of a program image.

pub mod arg;
pub mod assembler;
pub mod labels;
pub mod opcodes;
pub mod origin;
pub mod registers;
pub mod token;
pub mod utils;

pub use arg::ArgType;
pub use assembler::assemble;
pub use labels::get_labels;
pub use labels::LabelTable;
pub use origin::get_origin;
pub use registers::Register;
pub use token::Token;
pub use token::TokenType;
pub use utils::address_from_string;
pub use utils::get_address;
