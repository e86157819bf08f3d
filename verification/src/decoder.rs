use vstd::prelude::*;
use byteorder::ByteOrder;

pub mod arw;

use self::arw::ArwDecoder;

verus! {

pub type DecodeResult<T> = Result<T, DecodingError>;

/// Byte order of multi-byte values in a raw file.
#[derive(Debug, Clone, Copy)]
pub enum Endian {
    LittleEndian,
    BigEndian,
}

/// The value of the two bytes `first`, `second` read most significant first.
pub open spec fn big_endian_u16(first: u8, second: u8) -> int {
    first as int * 256 + second as int
}

/// The value of the two bytes `first`, `second` read least significant first.
pub open spec fn little_endian_u16(first: u8, second: u8) -> int {
    second as int * 256 + first as int
}

/// `byteorder::BigEndian::read_u16`: the crate reads the first two bytes of
/// `buf` as `u16::from_be_bytes` does, and panics when `buf` holds fewer than two.
#[verifier::external_body]
fn byteorder_read_u16_big(buf: &[u8]) -> (v: u16)
    requires
        buf@.len() >= 2,
    ensures
        v as int == buf@[0] as int * 256 + buf@[1] as int,
{
    byteorder::BigEndian::read_u16(buf)
}

/// `byteorder::LittleEndian::read_u16`: the crate reads the first two bytes of
/// `buf` as `u16::from_le_bytes` does, and panics when `buf` holds fewer than two.
#[verifier::external_body]
pub(crate) fn byteorder_read_u16_little(buf: &[u8]) -> (v: u16)
    requires
        buf@.len() >= 2,
    ensures
        v as int == buf@[1] as int * 256 + buf@[0] as int,
{
    byteorder::LittleEndian::read_u16(buf)
}

/// The two byte orders mirror each other: reading two bytes big-endian gives
/// what reading them swapped gives little-endian.
pub proof fn lemma_byte_orders_mirror(buf: Seq<u8>, swapped: Seq<u8>, pos: int)
    requires
        0 <= pos,
        pos + 2 <= buf.len(),
        pos + 2 <= swapped.len(),
        swapped[pos] == buf[pos + 1],
        swapped[pos + 1] == buf[pos],
    ensures
        Endian::BigEndian.spec_read_u16(buf, pos) == Endian::LittleEndian.spec_read_u16(swapped, pos),
        Endian::LittleEndian.spec_read_u16(buf, pos) == Endian::BigEndian.spec_read_u16(swapped, pos),
{
}

/// A 16-bit read takes the byte that comes first in its order as the high
/// byte, whole, and the other as the low byte, whole: for every pair of bytes.
pub proof fn lemma_read_u16_value(buf: Seq<u8>, pos: int)
    requires
        0 <= pos,
        pos + 2 <= buf.len(),
    ensures
        Endian::BigEndian.spec_read_u16(buf, pos) == buf[pos] as int * 256 + buf[pos + 1] as int,
        Endian::LittleEndian.spec_read_u16(buf, pos) == buf[pos + 1] as int * 256 + buf[pos] as int,
        0 <= Endian::BigEndian.spec_read_u16(buf, pos) <= 0xffff,
        Endian::BigEndian.spec_read_u16(buf, pos) / 256 == buf[pos] as int,
        Endian::BigEndian.spec_read_u16(buf, pos) % 256 == buf[pos + 1] as int,
        Endian::LittleEndian.spec_read_u16(buf, pos) / 256 == buf[pos + 1] as int,
        Endian::LittleEndian.spec_read_u16(buf, pos) % 256 == buf[pos] as int,
{
}

impl Endian {
    /// The value that `read_u16` gives for the two bytes of `buf` at `pos`.
    pub open spec fn spec_read_u16(&self, buf: Seq<u8>, pos: int) -> int {
        match self {
            Endian::BigEndian => big_endian_u16(buf[pos], buf[pos + 1]),
            Endian::LittleEndian => little_endian_u16(buf[pos], buf[pos + 1]),
        }
    }

    /// Big-endian when `big` holds, little-endian otherwise.
    pub fn new(big: bool) -> (e: Self)
        ensures
            big ==> e is BigEndian,
            !big ==> e is LittleEndian,
    {
        if big {
            Endian::BigEndian
        } else {
            Endian::LittleEndian
        }
    }

    /// Reads the 16-bit value stored in `buf[pos]`, `buf[pos + 1]` in this byte order.
    pub fn read_u16(&self, buf: &[u8], pos: usize) -> (v: u16)
        requires
            pos + 2 <= buf.len(),
        ensures
            v as int == self.spec_read_u16(buf@, pos as int),
            self is BigEndian ==> v as int == buf@[pos as int] as int * 256 + buf@[pos + 1] as int,
            self is LittleEndian ==> v as int == buf@[pos + 1] as int * 256 + buf@[pos as int] as int,
    {
        match self {
            Endian::BigEndian => byteorder_read_u16_big(&buf[pos..pos + 2]),
            Endian::LittleEndian => byteorder_read_u16_little(&buf[pos..pos + 2]),
        }
    }
}

/// Why a file could not be decoded.
#[derive(Debug)]
pub struct DecodingError {
    error: String,
}

impl View for DecodingError {
    type V = Seq<char>;

    /// The error's message.
    closed spec fn view(&self) -> Seq<char> {
        self.error@
    }
}

impl DecodingError {
    /// An error with the message `s`.
    pub fn new(s: &str) -> (e: Self)
        ensures
            e@ == s@,
    {
        DecodingError { error: String::from_str(s) }
    }

    /// The error's message.
    pub fn message(&self) -> (m: &str)
        ensures
            m@ == self@,
    {
        self.error.as_str()
    }
}

/// The bytes of a raw file.
#[derive(Debug)]
pub struct Buffer {
    buf: Vec<u8>,
    size: usize,
}

impl View for Buffer {
    type V = Seq<u8>;

    closed spec fn view(&self) -> Seq<u8> {
        self.buf@
    }
}

impl Buffer {
    #[verifier::type_invariant]
    spec fn size_is_length(self) -> bool {
        self.size == self.buf@.len()
    }

    /// Takes the outcome of reading a whole file: its bytes, or the reader's error message.
    pub fn new(read: Result<Vec<u8>, String>) -> (res: DecodeResult<Self>)
        ensures
            match read {
                Ok(bytes) => res matches Ok(buffer) && buffer@ == bytes@,
                Err(msg) => res matches Err(e) && e@ == msg@,
            },
    {
        match read {
            Ok(buf) => {
                let size = buf.len();
                Ok(Buffer { buf, size })
            },
            Err(e) => Err(DecodingError::new(e.as_str())),
        }
    }

    /// The number of bytes held.
    pub fn size(&self) -> (n: usize)
        ensures
            n == self@.len(),
    {
        proof {
            use_type_invariant(self);
        }
        self.size
    }

    /// The bytes held.
    pub fn bytes(&self) -> (b: &[u8])
        ensures
            b@ == self@,
    {
        self.buf.as_slice()
    }
}

/// A decoder for one raw file format.
pub trait Decoder {
    fn to_image(&self) -> DecodeResult<Buffer>;
}

/// Picks the decoder for a raw file and runs it.
#[derive(Debug)]
pub struct RawLoader {}

impl RawLoader {
    /// A loader that knows every supported format.
    pub fn new() -> Self {
        RawLoader {}
    }

    /// The decoder for the file in `buf`; ARW is the only format there is.
    pub fn get_decoder(&self, buf: &Buffer) -> (res: DecodeResult<ArwDecoder>)
        ensures
            res is Ok,
    {
        Ok(ArwDecoder {})
    }

    /// Decodes the outcome of reading a file. No format decodes to an image
    /// yet, so this always fails: with the reader's message, or with the
    /// decoder's.
    pub fn decode(&self, read: Result<Vec<u8>, String>) -> (res: DecodeResult<Buffer>)
        ensures
            match read {
                Ok(_) => res matches Err(e) && e@ == "error"@,
                Err(msg) => res matches Err(e) && e@ == msg@,
            },
    {
        let buf = Buffer::new(read)?;
        let decoder = self.get_decoder(&buf)?;
        decoder.to_image()
    }
}

} // verus!
