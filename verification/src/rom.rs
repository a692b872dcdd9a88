//! ROM loaded into the CHIP-8 emulator / disassembler.

use crate::text::{decimal, push_decimal};
use vstd::prelude::*;
use vstd::string::StringExecFns;

verus! {

/// Maximum size of a ROM: the number of bytes that fit into the CHIP-8
/// memory behind the start of the program area.
pub const MAX_ROM_SIZE: usize = 0xCA0;

/// Struct describing the ROM file.
pub struct Rom {
    /// File name of the ROM. Used for identification.
    pub filename: String,
    /// The actual ROM bytes. Maximum size that can fit into the CHIP-8
    /// memory is 3232 bytes.
    pub data: [u8; 0xCA0],
    /// Length of the actual data loaded.
    pub length: usize,
}

impl Rom {
    /// The length does not exceed the size of the buffer.
    pub open spec fn wf(&self) -> bool {
        self.length <= 0xCA0
    }

    /// The bytes of the program: the first `length` bytes of the buffer.
    pub open spec fn program(&self) -> Seq<u8> {
        self.data@.take(self.length as int)
    }

    /// The one-line summary of the ROM.
    pub open spec fn summary(&self) -> Seq<char> {
        "CHIP8 ROM ("@ + self.filename@ + "): "@ + decimal(self.length as nat) + "KB"@
    }

    /// Create a new ROM from the bytes of a file and the file name. The file
    /// name is only used for identification. Only the first 3232 bytes are
    /// loaded if more are provided, as this is the maximum number of bytes
    /// that can be copied into the CHIP-8 memory; the rest of the buffer is
    /// zero.
    pub fn new(bytes: &[u8], filename: String) -> (rom: Rom)
        ensures
            rom.wf(),
            rom.filename == filename,
            rom.length == if bytes@.len() <= 0xCA0 {
                bytes@.len()
            } else {
                0xCA0
            },
            rom.program() == bytes@.take(rom.length as int),
            forall|k: int| rom.length <= k < 0xCA0 ==> rom.data@[k] == 0,
    {
        let length = if bytes.len() <= MAX_ROM_SIZE {
            bytes.len()
        } else {
            MAX_ROM_SIZE
        };
        let mut data = [0u8; 0xCA0];
        let mut k: usize = 0;
        while k < length
            invariant
                k <= length <= 0xCA0,
                length <= bytes@.len(),
                forall|j: int| 0 <= j < k ==> data@[j] == bytes@[j],
                forall|j: int| k <= j < 0xCA0 ==> data@[j] == 0,
            decreases length - k,
        {
            data[k] = bytes[k];
            k = k + 1;
        }
        Rom { filename, data, length }
    }

    /// The one-line summary of the ROM: its file name and its length.
    pub fn to_string(&self) -> (text: String)
        ensures
            text@ == self.summary(),
    {
        let mut text = String::from_str("CHIP8 ROM (");
        text.append(self.filename.as_str());
        text.append("): ");
        push_decimal(&mut text, self.length);
        text.append("KB");
        text
    }
}

} // verus!
