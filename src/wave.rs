//! The WAV layout that a recording is written in: mono, 48 kHz, each 16-bit
//! sample widened to a 32-bit little-endian container.
use std::io::Cursor;
use vstd::arithmetic::div_mod::{lemma_div_denominator, lemma_fundamental_div_mod, lemma_fundamental_div_mod_converse};
use vstd::prelude::*;

verus! {

/// Samples per second of every recording.
pub const SAMPLE_RATE: u32 = 48000;

/// Bits of the container that each sample is stored in.
pub const BITS_PER_SAMPLE: u16 = 32;

/// The unsigned 32-bit word whose two's complement reading is `x`.
pub open spec fn word_of(x: int) -> nat {
    if x < 0 {
        (x + 0x1_0000_0000) as nat
    } else {
        x as nat
    }
}

/// The signed reading of an unsigned 32-bit word.
pub open spec fn signed_of(w: nat) -> int {
    if w >= 0x8000_0000 {
        w - 0x1_0000_0000
    } else {
        w as int
    }
}

/// Byte `k` (0 is the least significant) of `v`.
pub open spec fn byte_of(v: nat, k: int) -> u8 {
    if k == 0 {
        (v % 256) as u8
    } else if k == 1 {
        ((v / 256) % 256) as u8
    } else if k == 2 {
        ((v / 65536) % 256) as u8
    } else {
        ((v / 16777216) % 256) as u8
    }
}

/// `v` as two little-endian bytes.
pub open spec fn le16(v: nat) -> Seq<u8> {
    seq![byte_of(v, 0), byte_of(v, 1)]
}

/// `v` as four little-endian bytes.
pub open spec fn le32(v: nat) -> Seq<u8> {
    seq![byte_of(v, 0), byte_of(v, 1), byte_of(v, 2), byte_of(v, 3)]
}

/// The value of four little-endian bytes.
pub open spec fn le32_value(b: Seq<u8>) -> nat {
    (b[0] + 256 * b[1] + 65536 * b[2] + 16777216 * b[3]) as nat
}

/// The 44-byte header of a mono 48 kHz file with `n` samples of 32 bits.
pub open spec fn wave_header(n: nat) -> Seq<u8> {
    seq![82u8, 73, 70, 70] + le32(36 + 4 * n) + seq![87u8, 65, 86, 69]
        + seq![102u8, 109, 116, 32] + le32(16) + le16(1) + le16(1)
        + le32(48000) + le32(192000) + le16(4) + le16(32)
        + seq![100u8, 97, 116, 97] + le32(4 * n)
}

/// The data chunk: byte `j` is byte `j % 4` of sample `j / 4`.
pub open spec fn wave_data(s: Seq<i16>) -> Seq<u8> {
    Seq::new(4 * s.len(), |j: int| byte_of(word_of(s[j / 4] as int), j % 4))
}

/// Whether a file of `n` samples stays within the 4 GiB that a WAV file's
/// 32-bit sizes can describe.
pub open spec fn fits_wave(n: nat) -> bool {
    44 + 4 * n <= 0xffff_ffff
}

/// The whole file that holds the samples `s`.
pub open spec fn wave_bytes(s: Seq<i16>) -> Seq<u8> {
    wave_header(s.len()) + wave_data(s)
}

/// The samples that a reader of 32-bit mono data finds in `b`.
pub open spec fn decoded_samples(b: Seq<u8>) -> Seq<int> {
    Seq::new(
        ((b.len() - 44) / 4) as nat,
        |i: int| signed_of(le32_value(b.subrange(44 + 4 * i, 48 + 4 * i))),
    )
}

/// The four bytes of a word read back give the word.
proof fn lemma_le32_round_trip(w: nat)
    requires
        w < 0x1_0000_0000,
    ensures
        le32_value(le32(w)) == w,
{
    let q1 = w / 256;
    let q2 = w / 65536;
    let q3 = w / 16777216;
    lemma_fundamental_div_mod(w as int, 256);
    lemma_fundamental_div_mod(q1 as int, 256);
    lemma_fundamental_div_mod(q2 as int, 256);
    lemma_div_denominator(w as int, 256, 256);
    lemma_div_denominator(w as int, 65536, 256);
    assert(q1 / 256 == q2);
    assert(q2 / 256 == q3);
    assert(q3 < 256);
    assert(q3 % 256 == q3);
    let r0 = w % 256;
    let r1 = q1 % 256;
    let r2 = q2 % 256;
    assert(w == r0 + 256 * r1 + 65536 * r2 + 16777216 * q3) by (nonlinear_arith)
        requires
            w == 256 * q1 + r0,
            q1 == 256 * q2 + r1,
            q2 == 256 * q3 + r2,
    ;
}

/// Byte `4 * i + k` of the data chunk is byte `k` of sample `i`.
proof fn lemma_data_byte(s: Seq<i16>, i: int, k: int)
    requires
        0 <= i < s.len(),
        0 <= k < 4,
    ensures
        wave_data(s)[4 * i + k] == byte_of(word_of(s[i] as int), k),
{
    lemma_fundamental_div_mod_converse(4 * i + k, 4, i, k);
}

/// A file written from `s` reads back as `s`, sample for sample and in order.
pub proof fn lemma_decode_wave_bytes(s: Seq<i16>)
    ensures
        decoded_samples(wave_bytes(s)) == s.map_values(|x: i16| x as int),
{
    let b = wave_bytes(s);
    assert(wave_header(s.len()).len() == 44);
    assert(b.len() == 44 + 4 * s.len());
    assert((b.len() - 44) / 4 == s.len()) by {
        lemma_fundamental_div_mod_converse(4 * s.len() as int, 4, s.len() as int, 0);
    }
    let d = decoded_samples(b);
    assert forall|i: int| 0 <= i < s.len() implies d[i] == s[i] as int by {
        let w = word_of(s[i] as int);
        let sub = b.subrange(44 + 4 * i, 48 + 4 * i);
        lemma_data_byte(s, i, 0);
        lemma_data_byte(s, i, 1);
        lemma_data_byte(s, i, 2);
        lemma_data_byte(s, i, 3);
        assert(sub =~= le32(w));
        lemma_le32_round_trip(w);
    }
    assert(d =~= s.map_values(|x: i16| x as int));
}

/// Why the encoder gave no bytes.
#[derive(Debug, Clone, Copy, PartialEq, Eq, Structural)]
pub enum EncodeError {
    /// The file would exceed the 4 GiB that a WAV file can hold.
    TooLarge,
    /// The in-memory writer failed.
    Io,
}

/// riff_wave's error of a failed write, carried through opaquely.
#[verifier::external_type_specification]
#[verifier::external_body]
pub struct ExWriteError(riff_wave::WriteError);

/// Relies on riff_wave::WaveWriter (new, write_sample_i32, and the header
/// sync on drop): a mono 48 kHz 32-bit header, then each sample widened to
/// i32 in little-endian order, with the chunk sizes set for the count. The
/// writer refuses a sample only where the file would pass 4 GiB, and writing
/// into a `Vec` does not fail.
#[verifier::external_body]
fn write_wave(samples: &Vec<i16>) -> (r: Result<Vec<u8>, riff_wave::WriteError>)
    ensures
        r matches Ok(b) ==> b@ == wave_bytes(samples@),
        fits_wave(samples@.len()) ==> r is Ok,
{
    let mut cursor = Cursor::new(Vec::new());
    {
        let mut w = riff_wave::WaveWriter::new(1, SAMPLE_RATE, BITS_PER_SAMPLE, &mut cursor)?;
        for s in samples.iter() {
            w.write_sample_i32(*s as i32)?;
        }
    }
    Ok(cursor.into_inner())
}

/// Relies on riff_wave::WriteError's variants: tells a size limit from an
/// I/O failure.
#[verifier::external_body]
fn is_size_error(e: &riff_wave::WriteError) -> (r: bool) {
    matches!(e, riff_wave::WriteError::ExceededMaxSize)
}

/// Encodes `samples` as a WAV file.
pub fn encode(samples: &Vec<i16>) -> (r: Result<Vec<u8>, EncodeError>)
    ensures
        r matches Ok(b) ==> b@ == wave_bytes(samples@),
        fits_wave(samples@.len()) ==> r is Ok,
{
    match write_wave(samples) {
        Ok(b) => Ok(b),
        Err(e) => {
            if is_size_error(&e) {
                Err(EncodeError::TooLarge)
            } else {
                Err(EncodeError::Io)
            }
        },
    }
}

} // verus!
