use vstd::prelude::*;
use crate::decoder::{
    byteorder_read_u16_little, little_endian_u16, Buffer, DecodeResult, Decoder, DecodingError,
    Endian,
};

verus! {

/// Decoder for Sony ARW files.
#[derive(Debug)]
pub struct ArwDecoder {}

/// The lower-case hexadecimal digit for `d < 16`.
pub open spec fn hex_digit(d: int) -> char {
    seq!['0', '1', '2', '3', '4', '5', '6', '7', '8', '9', 'a', 'b', 'c', 'd', 'e', 'f'][d]
}

/// `n` written in lower-case hexadecimal, without leading zeros.
pub open spec fn lower_hex(n: nat) -> Seq<char>
    decreases n,
{
    if n < 16 {
        seq![hex_digit(n as int)]
    } else {
        lower_hex(n / 16) + seq![hex_digit((n % 16) as int)]
    }
}

/// The message with which `ArwDecoder::new` refuses a file whose first two
/// bytes, read little-endian, are `marker`.
pub open spec fn arw_header_message(marker: int) -> Seq<char> {
    if marker == 0x4949 || marker == 0x4d4d {
        "TIFF: don't know marker"@
    } else {
        "invalid format 0x"@ + lower_hex(marker as nat)
    }
}

fn hex_digit_str(d: u16) -> (s: &'static str)
    requires
        d < 16,
    ensures
        s@ == seq![hex_digit(d as int)],
{
    match d {
        0 => { proof { reveal_strlit("0"); } "0" },
        1 => { proof { reveal_strlit("1"); } "1" },
        2 => { proof { reveal_strlit("2"); } "2" },
        3 => { proof { reveal_strlit("3"); } "3" },
        4 => { proof { reveal_strlit("4"); } "4" },
        5 => { proof { reveal_strlit("5"); } "5" },
        6 => { proof { reveal_strlit("6"); } "6" },
        7 => { proof { reveal_strlit("7"); } "7" },
        8 => { proof { reveal_strlit("8"); } "8" },
        9 => { proof { reveal_strlit("9"); } "9" },
        10 => { proof { reveal_strlit("a"); } "a" },
        11 => { proof { reveal_strlit("b"); } "b" },
        12 => { proof { reveal_strlit("c"); } "c" },
        13 => { proof { reveal_strlit("d"); } "d" },
        14 => { proof { reveal_strlit("e"); } "e" },
        _ => { proof { reveal_strlit("f"); } "f" },
    }
}

/// `n` in lower-case hexadecimal, as `format!("{:x}", n)` writes it.
pub fn lower_hex_string(n: u16) -> (s: String)
    ensures
        s@ == lower_hex(n as nat),
    decreases n,
{
    if n < 16 {
        String::from_str(hex_digit_str(n))
    } else {
        let mut s = lower_hex_string(n / 16);
        s.append(hex_digit_str(n % 16));
        s
    }
}

impl Decoder for ArwDecoder {
    fn to_image(&self) -> (res: DecodeResult<Buffer>)
        ensures
            res matches Err(e) && e@ == "error"@,
    {
        Err(DecodingError::new("error"))
    }
}

impl ArwDecoder {
    /// Reads the byte-order marker at the start of `buf`. A marker other than
    /// `II` or `MM` is refused as an invalid format; the TIFF structure after
    /// a valid marker is not parsed yet, so that is refused too.
    pub fn new(buf: &[u8]) -> (res: DecodeResult<Buffer>)
        requires
            buf@.len() >= 2,
        ensures
            res matches Err(e) && e@ == arw_header_message(little_endian_u16(buf@[0], buf@[1])),
    {
        let marker = byteorder_read_u16_little(&buf[0..2]);
        let _endian = if marker == 0x4949 {
            Endian::LittleEndian
        } else if marker == 0x4d4d {
            Endian::BigEndian
        } else {
            let mut msg = String::from_str("invalid format 0x");
            let hex = lower_hex_string(marker);
            msg.append(hex.as_str());
            return Err(DecodingError::new(msg.as_str()));
        };
        Err(DecodingError::new("TIFF: don't know marker"))
    }
}

} // verus!
