pub mod enums;
pub mod nbt;
pub mod numbers;
pub mod position;
pub mod string;
pub mod varint;
pub mod vector;
