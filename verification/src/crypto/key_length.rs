//! Key lengths, named in bits and convertible to bytes.

use vstd::prelude::*;

verus! {

/// A key length in bits.
#[derive(Debug, Clone, Copy, PartialEq, Eq, Structural)]
pub enum KeyLength {
    Bits256,
    Bits512,
    Bits1024,
    Bits2048,
    Bits4096,
}

impl KeyLength {
    /// The length in bytes that this key length stands for.
    pub open spec fn spec_as_bytes(&self) -> usize {
        match self {
            KeyLength::Bits256 => 32usize,
            KeyLength::Bits512 => 64usize,
            KeyLength::Bits1024 => 128usize,
            KeyLength::Bits2048 => 256usize,
            KeyLength::Bits4096 => 512usize,
        }
    }

    /// Convert this key length to a number of bytes.
    pub fn as_bytes(&self) -> (r: usize)
        ensures
            r == self.spec_as_bytes(),
    {
        match self {
            KeyLength::Bits1024 => 1024 / 8,
            KeyLength::Bits2048 => 2048 / 8,
            KeyLength::Bits4096 => 4096 / 8,
            KeyLength::Bits256 => 256 / 8,
            KeyLength::Bits512 => 512 / 8,
        }
    }
}

impl Default for KeyLength {
    /// The default key length.
    fn default() -> (r: Self)
        ensures
            r is Bits2048,
    {
        KeyLength::Bits2048
    }
}

} // verus!
