//! Checksums of artifacts: a streaming SHA-256 digest, its lowercase
//! hexadecimal text, and the comparison with the digest that a manifest
//! expects.

use crate::text::{digit_char, eq_ignore_ascii_case, same_ignoring_case};
use vstd::prelude::*;
use vstd::slice::slice_subrange;

verus! {

/// The size of the pieces in which a buffer is fed to the digest.
pub const CHUNK_SIZE: usize = 8192;

/// A running SHA-256 computation: the hasher `sha2::Sha256`, held whole.
/// Nothing is known of it but the bytes it has absorbed.
#[verifier::external_body]
pub struct Hasher {
    inner: sha2::Sha256,
}

/// The bytes that a hasher has absorbed so far, in the order in which they
/// were fed to it.
pub uninterp spec fn absorbed(h: Hasher) -> Seq<u8>;

/// The SHA-256 digest of a byte sequence: the 32 bytes that the `sha2` crate
/// computes for it.
pub uninterp spec fn sha256(data: Seq<u8>) -> Seq<u8>;

/// Calls `Digest::new` of `sha2::Sha256`: a hasher that has absorbed nothing.
#[verifier::external_body]
fn hasher_new() -> (h: Hasher)
    ensures
        absorbed(h) == Seq::<u8>::empty(),
{
    Hasher { inner: <sha2::Sha256 as sha2::Digest>::new() }
}

/// Calls `Digest::update` of `sha2::Sha256`: the hasher has then absorbed the
/// chunk behind what it had absorbed before.
#[verifier::external_body]
fn hasher_update(h: &mut Hasher, chunk: &[u8])
    ensures
        absorbed(*final(h)) == absorbed(*old(h)) + chunk@,
{
    sha2::Digest::update(&mut h.inner, chunk)
}

/// Calls `Digest::finalize` of `sha2::Sha256`: the digest of all that was
/// absorbed, which depends on those bytes alone and not on how they were cut
/// into chunks, and is 32 bytes long.
#[verifier::external_body]
fn hasher_finalize(h: Hasher) -> (d: Vec<u8>)
    ensures
        d@ == sha256(absorbed(h)),
        d@.len() == 32,
{
    sha2::Digest::finalize(h.inner).to_vec()
}

/// The character that writes the hexadecimal digit `n` in lower case.
pub open spec fn hex_digit(n: int) -> char {
    if n < 10 {
        digit_char(n)
    } else if n == 10 {
        'a'
    } else if n == 11 {
        'b'
    } else if n == 12 {
        'c'
    } else if n == 13 {
        'd'
    } else if n == 14 {
        'e'
    } else {
        'f'
    }
}

/// The lowercase hexadecimal text of a byte sequence: two digits for each
/// byte, the high one first.
pub open spec fn hex_lower(bytes: Seq<u8>) -> Seq<char>
    decreases bytes.len(),
{
    if bytes.len() == 0 {
        Seq::<char>::empty()
    } else {
        hex_lower(bytes.drop_last()) + seq![
            hex_digit(bytes.last() as int / 16),
            hex_digit(bytes.last() as int % 16),
        ]
    }
}

fn hex_digit_text(n: u8) -> (r: &'static str)
    requires
        n < 16,
    ensures
        r@ == seq![hex_digit(n as int)],
{
    proof {
        reveal_strlit("0");
        reveal_strlit("1");
        reveal_strlit("2");
        reveal_strlit("3");
        reveal_strlit("4");
        reveal_strlit("5");
        reveal_strlit("6");
        reveal_strlit("7");
        reveal_strlit("8");
        reveal_strlit("9");
        reveal_strlit("a");
        reveal_strlit("b");
        reveal_strlit("c");
        reveal_strlit("d");
        reveal_strlit("e");
        reveal_strlit("f");
    }
    let r = if n == 0 {
        "0"
    } else if n == 1 {
        "1"
    } else if n == 2 {
        "2"
    } else if n == 3 {
        "3"
    } else if n == 4 {
        "4"
    } else if n == 5 {
        "5"
    } else if n == 6 {
        "6"
    } else if n == 7 {
        "7"
    } else if n == 8 {
        "8"
    } else if n == 9 {
        "9"
    } else if n == 10 {
        "a"
    } else if n == 11 {
        "b"
    } else if n == 12 {
        "c"
    } else if n == 13 {
        "d"
    } else if n == 14 {
        "e"
    } else {
        "f"
    };
    assert(r@ =~= seq![hex_digit(n as int)]);
    r
}

/// Writes bytes as lowercase hexadecimal text.
pub fn to_hex(bytes: &[u8]) -> (r: String)
    ensures
        r@ == hex_lower(bytes@),
{
    let mut r = String::new();
    let n: usize = bytes.len();
    let mut i: usize = 0;
    while i < n
        invariant
            i <= n,
            n == bytes@.len(),
            r@ == hex_lower(bytes@.subrange(0, i as int)),
        decreases n - i,
    {
        let b: u8 = bytes[i];
        r.append(hex_digit_text(b / 16));
        r.append(hex_digit_text(b % 16));
        proof {
            let now = bytes@.subrange(0, i + 1);
            assert(now.drop_last() =~= bytes@.subrange(0, i as int));
            assert(now.last() == b);
            assert(r@ =~= hex_lower(now));
        }
        i += 1;
    }
    assert(bytes@.subrange(0, n as int) =~= bytes@);
    r
}

/// A digest that is not the expected one.
#[derive(Clone, Debug, PartialEq, Eq)]
pub struct ChecksumMismatch {
    /// The digest that was expected, as it was given.
    pub expected: String,
    /// The digest that was computed, in lowercase hexadecimal.
    pub computed: String,
}

/// What the check of `data` against `expected` comes to: nothing where the
/// digest of `data`, written in hexadecimal, is `expected` up to the case of
/// the letters; else the two texts.
pub open spec fn checked(data: Seq<u8>, expected: Seq<char>) -> Option<(Seq<char>, Seq<char>)> {
    if same_ignoring_case(hex_lower(sha256(data)), expected) {
        None
    } else {
        Some((expected, hex_lower(sha256(data))))
    }
}

/// Compares a computed digest, given as text, with the expected one. The case
/// of the letters does not count. A mismatch reports both texts.
pub fn check_digest(computed: &str, expected: &str) -> (r: Result<(), ChecksumMismatch>)
    ensures
        r is Ok <==> same_ignoring_case(computed@, expected@),
        r matches Err(e) ==> e.expected@ == expected@ && e.computed@ == computed@,
{
    if eq_ignore_ascii_case(computed, expected) {
        Ok(())
    } else {
        Err(
            ChecksumMismatch {
                expected: String::from_str(expected),
                computed: String::from_str(computed),
            },
        )
    }
}

/// A digest in the making: bytes are fed to it piece by piece.
pub struct ChecksumStream {
    hasher: Hasher,
}

impl View for ChecksumStream {
    type V = Seq<u8>;

    /// The bytes fed so far.
    closed spec fn view(&self) -> Seq<u8> {
        absorbed(self.hasher)
    }
}

impl ChecksumStream {
    /// A stream that has been fed nothing.
    pub fn new() -> (s: ChecksumStream)
        ensures
            s@ == Seq::<u8>::empty(),
    {
        ChecksumStream { hasher: hasher_new() }
    }

    /// Feeds the next piece.
    pub fn update(&mut self, chunk: &[u8])
        ensures
            final(self)@ == old(self)@ + chunk@,
    {
        hasher_update(&mut self.hasher, chunk);
    }

    /// Ends the stream and gives the digest of all that was fed, in lowercase
    /// hexadecimal.
    pub fn finish(self) -> (hex: String)
        ensures
            hex@ == hex_lower(sha256(self@)),
    {
        let digest = hasher_finalize(self.hasher);
        to_hex(digest.as_slice())
    }

    /// Ends the stream and checks the digest against the expected one.
    pub fn verify(self, expected: &str) -> (r: Result<(), ChecksumMismatch>)
        ensures
            match r {
                Ok(_) => checked(self@, expected@) is None,
                Err(e) => checked(self@, expected@) == Some((e.expected@, e.computed@)),
            },
    {
        let hex = self.finish();
        check_digest(hex.as_str(), expected)
    }
}

/// Checks a buffer against its expected SHA-256 digest. The buffer is fed to
/// the digest in pieces of `CHUNK_SIZE` bytes.
pub fn verify_checksum(data: &[u8], expected_checksum: &str) -> (r: Result<(), ChecksumMismatch>)
    ensures
        match r {
            Ok(_) => checked(data@, expected_checksum@) is None,
            Err(e) => checked(data@, expected_checksum@) == Some((e.expected@, e.computed@)),
        },
{
    let mut stream = ChecksumStream::new();
    let n: usize = data.len();
    let mut i: usize = 0;
    while i < n
        invariant
            i <= n,
            n == data@.len(),
            stream@ == data@.subrange(0, i as int),
        decreases n - i,
    {
        let end: usize = if n - i > CHUNK_SIZE {
            i + CHUNK_SIZE
        } else {
            n
        };
        stream.update(slice_subrange(data, i, end));
        assert(data@.subrange(0, i as int) + data@.subrange(i as int, end as int) =~= data@.subrange(
            0,
            end as int,
        ));
        i = end;
    }
    assert(data@.subrange(0, n as int) =~= data@);
    stream.verify(expected_checksum)
}


/// Data verifies against its own digest: the check of any data against the
/// hexadecimal text of its SHA-256 digest finds nothing wrong.
pub proof fn law_true_digest_verifies(data: Seq<u8>)
    ensures
        checked(data, hex_lower(sha256(data))) is None,
{
}

/// A check that fails reports both digests: the expected one as it was
/// given, and the one that the data has.
pub proof fn law_mismatch_reports_both(data: Seq<u8>, expected: Seq<char>)
    requires
        checked(data, expected) is Some,
    ensures
        checked(data, expected) == Some((expected, hex_lower(sha256(data)))),
        !same_ignoring_case(hex_lower(sha256(data)), expected),
{
}

} // verus!
