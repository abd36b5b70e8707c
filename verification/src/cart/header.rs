use vstd::prelude::*;

verus! {

/// Offset of the cartridge type in the header.
pub const CART_TYPE_OFFSET: usize = 0x147;
/// Offset of the ROM size code in the header.
pub const ROM_SIZE_OFFSET: usize = 0x148;
/// Offset of the RAM size code in the header.
pub const RAM_SIZE_OFFSET: usize = 0x149;
/// Number of bytes up to the end of the header.
pub const HEADER_END: usize = 0x150;

/// The fields of the cartridge header that the mappers use.
#[derive(Debug, Clone, Copy, PartialEq, Eq)]
pub struct CartridgeHeader {
    pub cart_type: u8,
    pub rom_size: u8,
    pub ram_size: u8,
}

/// Why a header could not be read.
#[derive(Debug, Clone, Copy, PartialEq, Eq)]
pub enum HeaderError {
    /// The ROM ends before the end of its header.
    TooShort,
}

impl CartridgeHeader {
    /// Reads the header of a ROM image.
    pub fn from_bytes(rom_data: &Vec<u8>) -> (r: Result<CartridgeHeader, HeaderError>)
        ensures
            rom_data@.len() < HEADER_END ==> r == Err::<CartridgeHeader, HeaderError>(HeaderError::TooShort),
            rom_data@.len() >= HEADER_END ==> r == Ok::<CartridgeHeader, HeaderError>(CartridgeHeader {
                cart_type: rom_data@[CART_TYPE_OFFSET as int],
                rom_size: rom_data@[ROM_SIZE_OFFSET as int],
                ram_size: rom_data@[RAM_SIZE_OFFSET as int],
            }),
    {
        if rom_data.len() < HEADER_END {
            return Err(HeaderError::TooShort);
        }
        Ok(CartridgeHeader {
            cart_type: rom_data[CART_TYPE_OFFSET],
            rom_size: rom_data[ROM_SIZE_OFFSET],
            ram_size: rom_data[RAM_SIZE_OFFSET],
        })
    }
}

} // verus!
