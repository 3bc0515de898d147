use vstd::prelude::*;

use vstd::string::{StringExecFns, StringSliceAdditionalSpecFns};
use vstd::utf8::{encode_utf8, is_ascii_chars, is_ascii_chars_encode_utf8};

use argon2rs::{Argon2, Variant};

use crate::config::Config;

verus! {

/// Number of block-matrix passes the key-derivation function runs.
pub const PASSES: u32 = 4;

/// Degree of parallelism the key-derivation function uses.
pub const LANES: u32 = 2;

/// Total block-matrix size in KiB.
pub const KIB: u32 = 4096;

/// Length of the derived digest in bytes.
pub const LENGTH: usize = 64;

/// The digest the Argon2i key-derivation function produces for these cost
/// parameters and inputs. Stated only as a name: the primitive is a
/// deterministic function of its arguments, and nothing more is assumed of
/// it.
pub uninterp spec fn argon2i_digest(
    passes: u32,
    lanes: u32,
    kib: u32,
    out_len: usize,
    plaintext: Seq<u8>,
    salt: Seq<u8>,
    key: Seq<u8>,
) -> Seq<u8>;

/// Relies on argon2rs: `Argon2::new` (the requires keep the cost parameters
/// in the range it accepts) and `Argon2::hash`, which fills the output
/// buffer with a digest that depends only on the parameters and inputs (the
/// requires keep the input lengths in the range it accepts without
/// panicking).
#[verifier::external_body]
fn argon2_hash(
    passes: u32,
    lanes: u32,
    kib: u32,
    out_len: usize,
    plaintext: &[u8],
    salt: &[u8],
    key: &[u8],
) -> (r: Vec<u8>)
    requires
        1 <= passes,
        1 <= lanes <= 0xffffff,
        8 * lanes <= kib,
        4 <= out_len <= 0xffffffff,
        plaintext@.len() <= 0xffffffff,
        8 <= salt@.len() <= 0xffffffff,
        key@.len() <= 32,
    ensures
        r@.len() == out_len,
        r@ == argon2i_digest(passes, lanes, kib, out_len, plaintext@, salt@, key@),
{
    let mut out = vec![0u8; out_len];
    let hasher = Argon2::new(passes, lanes, kib, Variant::Argon2i).unwrap();
    hasher.hash(&mut out, plaintext, salt, key, &[]);
    out
}

/// The lowercase hexadecimal digit for a nibble.
pub open spec fn hex_digit(n: u8) -> char {
    if n == 0 {
        '0'
    } else if n == 1 {
        '1'
    } else if n == 2 {
        '2'
    } else if n == 3 {
        '3'
    } else if n == 4 {
        '4'
    } else if n == 5 {
        '5'
    } else if n == 6 {
        '6'
    } else if n == 7 {
        '7'
    } else if n == 8 {
        '8'
    } else if n == 9 {
        '9'
    } else if n == 10 {
        'a'
    } else if n == 11 {
        'b'
    } else if n == 12 {
        'c'
    } else if n == 13 {
        'd'
    } else if n == 14 {
        'e'
    } else {
        'f'
    }
}

/// The lowercase hexadecimal rendering of a byte sequence, two digits per
/// byte.
pub open spec fn hex_of(bytes: Seq<u8>) -> Seq<char>
    decreases bytes.len(),
{
    if bytes.len() == 0 {
        Seq::empty()
    } else {
        hex_of(bytes.drop_last()) + seq![
            hex_digit(bytes.last() / 16),
            hex_digit(bytes.last() % 16),
        ]
    }
}

fn hex_digit_str(n: u8) -> (r: &'static str)
    requires
        n < 16,
    ensures
        r@.len() == 1,
        r@[0] == hex_digit(n),
{
    proof {
        reveal_strlit("0");
        reveal_strlit("1");
        reveal_strlit("2");
        reveal_strlit("3");
        reveal_strlit("4");
        reveal_strlit("5");
        reveal_strlit("6");
        reveal_strlit("7");
        reveal_strlit("8");
        reveal_strlit("9");
        reveal_strlit("a");
        reveal_strlit("b");
        reveal_strlit("c");
        reveal_strlit("d");
        reveal_strlit("e");
        reveal_strlit("f");
    }
    match n {
        0 => "0",
        1 => "1",
        2 => "2",
        3 => "3",
        4 => "4",
        5 => "5",
        6 => "6",
        7 => "7",
        8 => "8",
        9 => "9",
        10 => "a",
        11 => "b",
        12 => "c",
        13 => "d",
        14 => "e",
        _ => "f",
    }
}

/// Renders a byte sequence as its lowercase hexadecimal string.
pub(crate) fn to_hex(bytes: &Vec<u8>) -> (r: String)
    ensures
        r@ == hex_of(bytes@),
{
    let mut r = String::new();
    let mut i: usize = 0;
    while i < bytes.len()
        invariant
            i <= bytes@.len(),
            r@ == hex_of(bytes@.take(i as int)),
        decreases bytes@.len() - i,
    {
        let b = bytes[i];
        let hs = hex_digit_str(b / 16);
        let ls = hex_digit_str(b % 16);
        r.append(hs);
        r.append(ls);
        proof {
            let pre = bytes@.take(i as int + 1);
            assert(pre.drop_last() =~= bytes@.take(i as int));
            assert(pre.last() == bytes@[i as int]);
            assert(hs@ =~= seq![hex_digit(b / 16)]);
            assert(ls@ =~= seq![hex_digit(b % 16)]);
            assert(r@ =~= hex_of(pre));
        }
        i += 1;
    }
    proof {
        assert(bytes@.take(bytes@.len() as int) =~= bytes@);
    }
    r
}

/// The hex-rendered digest that `hash` derives for a plaintext under a salt
/// and a secondary key.
pub open spec fn hash_spec(plaintext: Seq<char>, salt: Seq<char>, key: Seq<char>) -> Seq<char> {
    hex_of(
        argon2i_digest(
            PASSES,
            LANES,
            KIB,
            LENGTH,
            encode_utf8(plaintext),
            encode_utf8(salt),
            encode_utf8(key),
        ),
    )
}

/// Derives the fixed-length digest of a plaintext secret under the
/// process-wide salt and secondary key, rendered as lowercase hexadecimal.
/// Deterministic: the same plaintext under the same configuration always
/// yields the same digest.
pub fn hash(plaintext: &str, cfg: &Config) -> (r: String)
    requires
        encode_utf8(plaintext@).len() <= 0xffffffff,
        8 <= encode_utf8(cfg.hash_salt@).len() <= 0xffffffff,
        encode_utf8(cfg.hash_key@).len() <= 32,
    ensures
        r@ == hash_spec(plaintext@, cfg.hash_salt@, cfg.hash_key@),
        r@.len() == 2 * LENGTH,
{
    let digest = argon2_hash(
        PASSES,
        LANES,
        KIB,
        LENGTH,
        plaintext.as_bytes(),
        cfg.hash_salt.as_str().as_bytes(),
        cfg.hash_key.as_str().as_bytes(),
    );
    proof {
        lemma_hex_of_ascii_len(digest@);
    }
    to_hex(&digest)
}

/// One position of the constant-time comparison: both inputs reach this far
/// and agree there.
pub open spec fn pos_matches(a: Seq<u8>, b: Seq<u8>, i: int) -> bool {
    i < a.len() && i < b.len() && a[i] == b[i]
}

/// What the constant-time comparison returns: every position of the full
/// configured digest length is present on both sides and agrees; a missing
/// position counts as a mismatch.
pub open spec fn check_hash_spec(a: Seq<u8>, b: Seq<u8>) -> bool {
    forall|i: int| 0 <= i < LENGTH ==> #[trigger] pos_matches(a, b, i)
}

/// Compares two rendered digests over the full configured digest length,
/// never short-circuiting: the scan always covers every position, and a
/// position missing on either side is treated as a mismatch, so the running
/// time does not depend on where the inputs first differ.
pub fn check_hash(input: &str, reference: &str) -> (r: bool)
    ensures
        r == check_hash_spec(input.spec_bytes(), reference.spec_bytes()),
{
    let a = input.as_bytes();
    let b = reference.as_bytes();
    let mut pass = true;
    let mut i: usize = 0;
    while i < LENGTH
        invariant
            i <= LENGTH,
            a@ == input.spec_bytes(),
            b@ == reference.spec_bytes(),
            pass == (forall|j: int| 0 <= j < i ==> #[trigger] pos_matches(a@, b@, j)),
        decreases LENGTH - i,
    {
        let ghost old_pass = pass;
        let byt_in: u8 = match a.get(i) {
            None => {
                pass = false;
                0
            },
            Some(v) => *v,
        };
        let byt_ref: u8 = match b.get(i) {
            None => {
                pass = false;
                0
            },
            Some(v) => *v,
        };
        if byt_in != byt_ref {
            pass = false;
        }
        proof {
            if pass {
                assert(pos_matches(a@, b@, i as int));
                assert forall|j: int| 0 <= j < i + 1 implies #[trigger] pos_matches(a@, b@, j) by {
                    if j < i {
                        assert(old_pass);
                    }
                }
            } else {
                if old_pass && pos_matches(a@, b@, i as int) {
                    assert(false);
                }
                assert(!(forall|j: int| 0 <= j < i + 1 ==> #[trigger] pos_matches(a@, b@, j)));
            }
        }
        i += 1;
    }
    pass
}

/// Hex renderings are ASCII and twice the length of the digest they render.
pub proof fn lemma_hex_of_ascii_len(b: Seq<u8>)
    ensures
        hex_of(b).len() == 2 * b.len(),
        is_ascii_chars(hex_of(b)),
    decreases b.len(),
{
    if b.len() == 0 {
    } else {
        lemma_hex_of_ascii_len(b.drop_last());
        assert forall|i: int| 0 <= i < hex_of(b).len() implies '\0' <= #[trigger] hex_of(
            b,
        )[i] <= '\u{7f}' by {
            if i < hex_of(b.drop_last()).len() {
                assert(hex_of(b)[i] == hex_of(b.drop_last())[i]);
            } else {
                assert('\0' <= hex_digit(b.last() / 16) <= '\u{7f}');
                assert('\0' <= hex_digit(b.last() % 16) <= '\u{7f}');
            }
        }
    }
}

/// Hashing is deterministic: equal plaintexts under the same salt and
/// secondary key yield equal digests.
pub proof fn lemma_hash_deterministic(p1: Seq<char>, p2: Seq<char>, salt: Seq<char>, key: Seq<char>)
    requires
        p1 == p2,
    ensures
        hash_spec(p1, salt, key) == hash_spec(p2, salt, key),
{
}

/// A digest rendered as hex passes the constant-time check against itself
/// whenever its rendering covers the full configured compare window (both
/// digest widths the hashers derive do): every position is present on both
/// sides and matches.
pub proof fn lemma_check_hash_reflexive(digest: Seq<u8>)
    requires
        2 * digest.len() >= LENGTH,
    ensures
        check_hash_spec(encode_utf8(hex_of(digest)), encode_utf8(hex_of(digest))),
{
    lemma_hex_of_ascii_len(digest);
    is_ascii_chars_encode_utf8(hex_of(digest));
    assert forall|i: int| 0 <= i < LENGTH implies #[trigger] pos_matches(
        encode_utf8(hex_of(digest)),
        encode_utf8(hex_of(digest)),
        i,
    ) by {
        assert(encode_utf8(hex_of(digest)).len() == 2 * digest.len());
    }
}

/// Checking a derived digest against itself always passes: for every
/// plaintext, the digest `hash` renders (whose underlying digest has the
/// configured length, as `hash` establishes) matches itself at every
/// position of the compare window.
pub proof fn lemma_check_hash_of_hash(p: Seq<char>, salt: Seq<char>, key: Seq<char>)
    requires
        argon2i_digest(
            PASSES,
            LANES,
            KIB,
            LENGTH,
            encode_utf8(p),
            encode_utf8(salt),
            encode_utf8(key),
        ).len() == LENGTH,
    ensures
        check_hash_spec(
            encode_utf8(hash_spec(p, salt, key)),
            encode_utf8(hash_spec(p, salt, key)),
        ),
{
    lemma_check_hash_reflexive(
        argon2i_digest(
            PASSES,
            LANES,
            KIB,
            LENGTH,
            encode_utf8(p),
            encode_utf8(salt),
            encode_utf8(key),
        ),
    );
}

/// An input shorter than the configured digest length never passes the
/// check, whatever the other input holds: every missing position counts as
/// a mismatch.
pub proof fn lemma_check_hash_short_input(a: Seq<u8>, b: Seq<u8>)
    requires
        a.len() < LENGTH || b.len() < LENGTH,
    ensures
        !check_hash_spec(a, b),
{
    if a.len() < LENGTH {
        assert(!pos_matches(a, b, a.len() as int));
    } else {
        assert(!pos_matches(a, b, b.len() as int));
    }
}

} // verus!
