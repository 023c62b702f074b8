use vstd::prelude::*;

verus! {

/// The 16-bit word whose high byte is `msb` and whose low byte is `lsb`.
pub open spec fn word_of(msb: u8, lsb: u8) -> u16 {
    (msb * 256 + lsb) as u16
}

/// The high byte of a word.
pub open spec fn high_byte(word: u16) -> u8 {
    (word / 0x100) as u8
}

/// The low byte of a word.
pub open spec fn low_byte(word: u16) -> u8 {
    (word % 0x100) as u8
}

/// Joins a high byte and a low byte into a 16-bit word.
pub fn build_u16(msb: u8, lsb: u8) -> (word: u16)
    ensures
        word == word_of(msb, lsb),
        word == msb * 256 + lsb,
{
    let high: u16 = msb as u16;
    let low: u16 = lsb as u16;
    high * 256 + low
}

/// The high byte of a 16-bit word.
pub fn get_msb(value: u16) -> (msb: u8)
    ensures
        msb == high_byte(value),
        msb == value / 256,
{
    (value / 256) as u8
}

/// The low byte of a 16-bit word.
pub fn get_lsb(value: u16) -> (lsb: u8)
    ensures
        lsb == low_byte(value),
        lsb == value % 256,
{
    (value % 256) as u8
}

/// Splitting a word into its bytes and joining them again gives the word back,
/// and joining two bytes and splitting the word gives the bytes back.
pub proof fn lemma_word_bytes(value: u16, msb: u8, lsb: u8)
    ensures
        word_of(high_byte(value), low_byte(value)) == value,
        high_byte(word_of(msb, lsb)) == msb,
        low_byte(word_of(msb, lsb)) == lsb,
{
}

/// `len` zero bytes.
pub open spec fn zeros(len: nat) -> Seq<u8> {
    Seq::new(len, |i: int| 0u8)
}

/// A fresh buffer of `len` zero bytes.
pub fn zeroed(len: usize) -> (buffer: Vec<u8>)
    ensures
        buffer@ == zeros(len as nat),
{
    let mut buffer: Vec<u8> = Vec::new();
    let mut filled: usize = 0;
    while filled < len
        invariant
            filled <= len,
            buffer@ == zeros(filled as nat),
        decreases len - filled,
    {
        buffer.push(0);
        filled = filled + 1;
    }
    buffer
}

} // verus!
