use vstd::prelude::*;
use vstd::utf8::{valid_utf8, decode_utf8};

verus! {

/// First byte of the title in the cartridge header.
pub const TITLE_START_ADDR: usize = 0x0134;

/// One past the last byte of the title.
pub const TITLE_END_ADDR: usize = 0x0144;

#[derive(Clone, Copy, Debug, PartialEq, Eq, Structural)]
pub enum CartridgeError {
    /// The image ends before the title field does.
    TooShort,
    /// The title bytes are not valid text.
    InvalidTitle,
}

/// The title bytes of a cartridge image.
pub open spec fn title_bytes(data: Seq<u8>) -> Seq<u8> {
    data.subrange(TITLE_START_ADDR as int, TITLE_END_ADDR as int)
}

/// Relies on std::str::from_utf8: it succeeds exactly on valid UTF-8, and then
/// holds the text the bytes encode.
#[verifier::external_body]
fn decode_text(bytes: &[u8]) -> (r: Option<String>)
    ensures
        r.is_some() == valid_utf8(bytes@),
        r matches Some(s) ==> s@ == decode_utf8(bytes@),
{
    match std::str::from_utf8(bytes) {
        Ok(s) => Some(s.to_string()),
        Err(_) => None,
    }
}

/// A cartridge image and the title read from its header.
pub struct Cartridge {
    pub data: Vec<u8>,
    pub title: String,
}

impl Cartridge {
    /// Reads the header of a cartridge image. Fails when the image is too
    /// short to hold the title, or when the title is not valid text.
    pub fn from_bytes(data: Vec<u8>) -> (r: Result<Cartridge, CartridgeError>)
        ensures
            data@.len() < TITLE_END_ADDR ==> r == Err::<Cartridge, CartridgeError>(CartridgeError::TooShort),
            data@.len() >= TITLE_END_ADDR && !valid_utf8(title_bytes(data@)) ==> r == Err::<Cartridge, CartridgeError>(CartridgeError::InvalidTitle),
            data@.len() >= TITLE_END_ADDR && valid_utf8(title_bytes(data@)) ==> r is Ok,
            r matches Ok(c) ==> c.data@ == data@ && c.title@ == decode_utf8(title_bytes(data@)),
    {
        if data.len() < TITLE_END_ADDR {
            return Err(CartridgeError::TooShort);
        }
        let mut bytes: Vec<u8> = Vec::new();
        let mut i: usize = TITLE_START_ADDR;
        while i < TITLE_END_ADDR
            invariant
                TITLE_START_ADDR <= i <= TITLE_END_ADDR <= data@.len(),
                bytes@ =~= data@.subrange(TITLE_START_ADDR as int, i as int),
            decreases TITLE_END_ADDR - i,
        {
            bytes.push(data[i]);
            i = i + 1;
        }
        match decode_text(bytes.as_slice()) {
            None => Err(CartridgeError::InvalidTitle),
            Some(title) => Ok(Cartridge { data, title }),
        }
    }

    pub fn title(&self) -> (r: String)
        ensures
            r@ == self.title@,
    {
        self.title.clone()
    }

    /// The whole image, to be copied onto the bus.
    pub fn rom(&self) -> (r: &Vec<u8>)
        ensures
            r@ == self.data@,
    {
        &self.data
    }
}

} // verus!
