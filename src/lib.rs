pub mod bits;
pub mod globals;
pub mod maps;
pub mod decoder;
pub mod emu_logic;
pub mod operands;
pub mod instructions;
