#![allow(non_snake_case)]

pub mod errors;
pub mod nes;
pub mod opecode_dict;
pub mod ppu;
pub mod ram;
pub mod register;
pub mod utility;
