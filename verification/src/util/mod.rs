//! Shader bytecode and small helpers.

use vstd::prelude::*;
use vstd::utf8::{encode_utf8, valid_utf8};
use crate::error::Error;

pub mod constants;

verus! {

/// The bytes of a name that is padded with NUL bytes: each byte that is not
/// NUL, in order.
pub open spec fn without_nul(string: Seq<i8>) -> Seq<u8>
    decreases string.len(),
{
    if string.len() == 0 {
        seq![]
    } else if string.last() as u8 != 0 {
        without_nul(string.drop_last()).push(string.last() as u8)
    } else {
        without_nul(string.drop_last())
    }
}

/// `String::from_utf8`: the string that the bytes encode, if they are
/// valid UTF-8, and nothing if they are not.
#[verifier::external_body]
fn string_of_utf8(bytes: Vec<u8>) -> (r: Option<String>)
    ensures
        r is Some <==> valid_utf8(bytes@),
        r matches Some(s) ==> encode_utf8(s@) == bytes@,
{
    String::from_utf8(bytes).ok()
}

/// Reads a name from the fixed-size array that the device reports it in.
/// The NUL bytes are dropped; the other bytes have to be valid UTF-8.
pub fn string_from_utf8(string: &[i8; 256]) -> (r: Option<String>)
    ensures
        r is Some <==> valid_utf8(without_nul(string@)),
        r matches Some(s) ==> encode_utf8(s@) == without_nul(string@),
{
    let mut bytes: Vec<u8> = Vec::new();
    let mut i: usize = 0;
    while i < 256
        invariant
            i <= 256,
            string@.len() == 256,
            bytes@ == without_nul(string@.take(i as int)),
        decreases 256 - i,
    {
        let c: i8 = string[i];
        proof {
            let next = string@.take(i + 1);
            assert(next.drop_last() =~= string@.take(i as int));
        }
        if c as u8 != 0 {
            bytes.push(c as u8);
        }
        i += 1;
    }
    assert(string@.take(256) =~= string@);
    string_of_utf8(bytes)
}

/// The 32-bit word that four bytes spell, least significant byte first.
pub open spec fn word_of(b0: u8, b1: u8, b2: u8, b3: u8) -> u32 {
    (b0 as int + b1 as int * 0x100 + b2 as int * 0x1_0000 + b3 as int * 0x100_0000) as u32
}

/// The words of a blob: word `i` is made of bytes `4i .. 4i + 3`.
pub open spec fn words_of(bytes: Seq<u8>) -> Seq<u32> {
    Seq::new(
        (bytes.len() / 4) as nat,
        |i: int| word_of(bytes[4 * i], bytes[4 * i + 1], bytes[4 * i + 2], bytes[4 * i + 3]),
    )
}

/// A blob is usable as shader code if it is not empty and made of whole words.
pub open spec fn valid_bytecode_len(len: nat) -> bool {
    len != 0 && len % 4 == 0
}

/// Shader instructions, held as aligned 32-bit words.
#[derive(Debug)]
pub struct Bytecode {
    words: Vec<u32>,
}

impl View for Bytecode {
    type V = Seq<u32>;

    closed spec fn view(&self) -> Seq<u32> {
        self.words@
    }
}

impl Bytecode {
    /// Checks the blob's length and copies it into word-aligned storage.
    ///
    /// The bytes are read in little-endian order.
    pub fn from(bytecode: &[u8]) -> (r: Result<Bytecode, Error>)
        ensures
            r is Ok <==> valid_bytecode_len(bytecode@.len()),
            r matches Ok(b) ==> b@ == words_of(bytecode@),
            r matches Err(e) ==> e == (Error::InvalidBytecode { len: bytecode@.len() as usize }),
    {
        let len: usize = bytecode.len();
        if len == 0 || len % 4 != 0 {
            return Err(Error::InvalidBytecode { len });
        }
        let count: usize = len / 4;
        let mut words: Vec<u32> = Vec::with_capacity(count);
        let mut i: usize = 0;
        while i < count
            invariant
                len == bytecode@.len(),
                count == len / 4,
                i <= count,
                words@.len() == i,
                forall|k: int| 0 <= k < i ==> #[trigger] words@[k] == words_of(bytecode@)[k],
            decreases count - i,
        {
            let b0: u32 = bytecode[4 * i] as u32;
            let b1: u32 = bytecode[4 * i + 1] as u32;
            let b2: u32 = bytecode[4 * i + 2] as u32;
            let b3: u32 = bytecode[4 * i + 3] as u32;
            let word: u32 = b0 + b1 * 0x100 + b2 * 0x1_0000 + b3 * 0x100_0000;
            words.push(word);
            i += 1;
        }
        Ok(Bytecode { words })
    }

    /// The instructions, one word each.
    pub fn code(&self) -> (r: &[u32])
        ensures
            r@ == self@,
    {
        self.words.as_slice()
    }
}

} // verus!
