//! The cartridge store: the bytes of a ROM image.

use vstd::prelude::*;

verus! {

/// First byte of the title in the cartridge header.
pub const HEADER_NAME_START: usize = 0x0134;

/// One past the last byte of the title in the cartridge header.
pub const HEADER_NAME_END: usize = 0x0142;

/// A ROM image, indexed from zero.
pub struct Cartridge {
    pub content: Vec<u8>,
}

impl View for Cartridge {
    type V = Seq<u8>;

    open spec fn view(&self) -> Seq<u8> {
        self.content@
    }
}

/// The bytes of the header that hold the title of the image `rom`.
pub open spec fn header_name(rom: Seq<u8>) -> Seq<u8>
    recommends
        rom.len() >= HEADER_NAME_END,
{
    rom.subrange(HEADER_NAME_START as int, HEADER_NAME_END as int)
}

/// `String::from_utf8` of the standard library: the bytes become a string
/// exactly when they are well-formed UTF-8, and the string then encodes to
/// the same bytes.
#[verifier::external_body]
fn string_from_utf8(bytes: Vec<u8>) -> (r: Option<String>)
    ensures
        r is Some <==> vstd::utf8::valid_utf8(bytes@),
        r matches Some(s) ==> vstd::utf8::encode_utf8(s@) == bytes@,
{
    match String::from_utf8(bytes) {
        Ok(s) => Some(s),
        Err(_) => None,
    }
}

impl Cartridge {
    /// The title stored in the header, or `None` where the image is too
    /// short to hold a header or the title is not UTF-8 text.
    pub fn name(&self) -> (r: Option<String>)
        ensures
            r is Some <==> self@.len() >= HEADER_NAME_END && vstd::utf8::valid_utf8(
                header_name(self@),
            ),
            r matches Some(s) ==> vstd::utf8::encode_utf8(s@) == header_name(self@),
    {
        if self.content.len() < HEADER_NAME_END {
            return None;
        }
        let mut bytes: Vec<u8> = Vec::new();
        let mut i: usize = HEADER_NAME_START;
        while i < HEADER_NAME_END
            invariant
                HEADER_NAME_START <= i <= HEADER_NAME_END,
                self.content@.len() >= HEADER_NAME_END,
                bytes@ == self.content@.subrange(HEADER_NAME_START as int, i as int),
            decreases HEADER_NAME_END - i,
        {
            bytes.push(self.content[i]);
            i += 1;
        }
        string_from_utf8(bytes)
    }
}

} // verus!
