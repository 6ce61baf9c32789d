//! The nonce of the opening handshake and its base64 form.

use vstd::prelude::*;

verus! {

/// The length of a handshake nonce in bytes.
pub const KEY_LEN: usize = 16;

/// The character that stands for the six-bit value `v` in the base64 alphabet.
pub open spec fn base64_digit(v: int) -> u8 {
    if v < 26 {
        (0x41 + v) as u8
    } else if v < 52 {
        (0x61 + (v - 26)) as u8
    } else if v < 62 {
        (0x30 + (v - 52)) as u8
    } else if v == 62 {
        0x2b
    } else {
        0x2f
    }
}

/// The four characters for a group of three bytes.
pub open spec fn base64_group(a: u8, b: u8, c: u8) -> Seq<u8> {
    seq![
        base64_digit(a as int / 4),
        base64_digit((a as int % 4) * 16 + b as int / 16),
        base64_digit((b as int % 16) * 4 + c as int / 64),
        base64_digit(c as int % 64),
    ]
}

/// The base64 form of `data`, in the standard alphabet, padded with `=` to a
/// multiple of four characters.
pub open spec fn base64(data: Seq<u8>) -> Seq<u8>
    decreases data.len(),
{
    if data.len() == 0 {
        Seq::empty()
    } else if data.len() == 1 {
        seq![
            base64_digit(data[0] as int / 4),
            base64_digit((data[0] as int % 4) * 16),
            0x3d,
            0x3d,
        ]
    } else if data.len() == 2 {
        seq![
            base64_digit(data[0] as int / 4),
            base64_digit((data[0] as int % 4) * 16 + data[1] as int / 16),
            base64_digit((data[1] as int % 16) * 4),
            0x3d,
        ]
    } else {
        base64_group(data[0], data[1], data[2]) + base64(data.skip(3))
    }
}

/// The base64 form has four characters for every three bytes begun.
pub proof fn lemma_base64_len(data: Seq<u8>)
    ensures
        base64(data).len() == 4 * ((data.len() + 2) / 3),
    decreases data.len(),
{
    if data.len() >= 3 {
        lemma_base64_len(data.skip(3));
    }
}

/// Every character of a base64 form is a letter, a digit, `+`, `/` or `=`,
/// so none is a carriage return or a line feed.
pub proof fn lemma_base64_alphabet(data: Seq<u8>, i: int)
    requires
        0 <= i < base64(data).len(),
    ensures
        0x2b <= base64(data)[i] <= 0x7a,
    decreases data.len(),
{
    if data.len() >= 3 {
        if i >= 4 {
            lemma_base64_alphabet(data.skip(3), i - 4);
        }
    }
}

fn digit(v: u8) -> (r: u8)
    requires
        v < 64,
    ensures
        r == base64_digit(v as int),
{
    if v < 26 {
        0x41 + v
    } else if v < 52 {
        0x61 + (v - 26)
    } else if v < 62 {
        0x30 + (v - 52)
    } else if v == 62 {
        0x2b
    } else {
        0x2f
    }
}

/// Writes `data` in base64.
pub fn encode_base64(data: &[u8]) -> (out: Vec<u8>)
    ensures
        out@ == base64(data@),
{
    let mut out: Vec<u8> = Vec::new();
    let mut i: usize = 0;
    assert(data@.skip(0) =~= data@);
    assert(out@ + base64(data@) =~= base64(data@));
    while data.len() - i >= 3
        invariant
            i <= data@.len(),
            base64(data@) == out@ + base64(data@.skip(i as int)),
        decreases data@.len() - i,
    {
        let a: u8 = data[i];
        let b: u8 = data[i + 1];
        let c: u8 = data[i + 2];
        proof {
            let rest = data@.skip(i as int);
            assert(rest.skip(3) =~= data@.skip(i + 3));
            assert(out@ + (base64_group(a, b, c) + base64(rest.skip(3))) =~= out@
                + base64_group(a, b, c) + base64(rest.skip(3)));
        }
        let ghost before = out@;
        out.push(digit(a / 4));
        out.push(digit((a % 4) * 16 + b / 16));
        out.push(digit((b % 16) * 4 + c / 64));
        out.push(digit(c % 64));
        assert(out@ =~= before + base64_group(a, b, c));
        i += 3;
    }
    let ghost rest = data@.skip(i as int);
    let ghost before = out@;
    if data.len() - i == 1 {
        let a: u8 = data[i];
        out.push(digit(a / 4));
        out.push(digit((a % 4) * 16));
        out.push(0x3d);
        out.push(0x3d);
        assert(out@ =~= before + base64(rest));
    } else if data.len() - i == 2 {
        let a: u8 = data[i];
        let b: u8 = data[i + 1];
        out.push(digit(a / 4));
        out.push(digit((a % 4) * 16 + b / 16));
        out.push(digit((b % 16) * 4));
        out.push(0x3d);
        assert(out@ =~= before + base64(rest));
    } else {
        assert(out@ =~= before + base64(rest));
    }
    out
}

/// The nonce that a client sends in `Sec-WebSocket-Key`: sixteen bytes, fresh
/// for every connection.
pub struct Key {
    bytes: [u8; 16],
}

impl View for Key {
    type V = Seq<u8>;

    closed spec fn view(&self) -> Seq<u8> {
        self.bytes@
    }
}

/// Sixteen bytes from the thread's generator of `rand` (`rand::random`). Nothing
/// is claimed of the bytes: two calls need not agree, and that is the point.
/// The generator aborts the call by a panic if the system has no entropy to
/// seed it with.
#[verifier::external_body]
fn random_bytes() -> [u8; 16]
{
    rand::random()
}

impl Key {
    /// A fresh random key.
    pub fn new() -> (key: Key)
        ensures
            key@.len() == KEY_LEN,
    {
        Key::from_bytes(random_bytes())
    }

    /// The key that holds `bytes`.
    pub fn from_bytes(bytes: [u8; 16]) -> (key: Key)
        ensures
            key@ == bytes@,
            key@.len() == KEY_LEN,
    {
        Key { bytes }
    }

    /// The sixteen bytes of the key.
    pub fn as_bytes(&self) -> (bytes: &[u8; 16])
        ensures
            bytes@ == self@,
    {
        &self.bytes
    }

    /// The key as it is written into the header: 24 characters of base64.
    pub fn encode(&self) -> (out: Vec<u8>)
        ensures
            out@ == base64(self@),
            out@.len() == 24,
    {
        proof {
            lemma_base64_len(self@);
        }
        encode_base64(self.bytes.as_slice())
    }

    /// Every key has sixteen bytes.
    pub proof fn lemma_len(&self)
        ensures
            self@.len() == KEY_LEN,
    {
    }
}

} // verus!
