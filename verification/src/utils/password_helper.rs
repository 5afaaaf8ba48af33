use vstd::prelude::*;
use vstd::string::*;
use vstd::utf8::encode_utf8;
use crate::utils::id_generator::is_lower_hex_digit;

verus! {

/// The SHA-256 digest of a byte sequence.
pub uninterp spec fn sha256_digest(data: Seq<u8>) -> Seq<u8>;

/// Calls `sha2::Sha256` (new, update, finalize) on `data`. The result is
/// the digest, named `sha256_digest`, and has 32 bytes (SHA-256's output
/// size).
#[verifier::external_body]
fn sha256(data: &[u8]) -> (d: Vec<u8>)
    ensures
        d@ == sha256_digest(data@),
        d@.len() == 32,
{
    let mut hasher = <sha2::Sha256 as sha2::Digest>::new();
    sha2::digest::Update::update(&mut hasher, data);
    <sha2::Sha256 as sha2::Digest>::finalize(hasher).to_vec()
}

/// The lowercase hexadecimal digit for `n < 16`.
pub open spec fn hex_digit_char(n: nat) -> char {
    if n < 10 {
        (48 + n) as char
    } else {
        (87 + n) as char
    }
}

/// Two lowercase hexadecimal digits per byte, high nibble first.
pub open spec fn lower_hex(data: Seq<u8>) -> Seq<char>
    decreases data.len(),
{
    if data.len() == 0 {
        Seq::empty()
    } else {
        lower_hex(data.drop_last()) + seq![
            hex_digit_char((data.last() / 16) as nat),
            hex_digit_char((data.last() % 16) as nat),
        ]
    }
}

/// The one-character text of the lowercase hexadecimal digit `n < 16`.
fn hex_digit_text(n: u8) -> (s: &'static str)
    requires
        n < 16,
    ensures
        s@ == seq![hex_digit_char(n as nat)],
{
    if n == 0 {
        proof { reveal_strlit("0"); }
        assert("0"@ =~= seq!['0']);
        "0"
    } else if n == 1 {
        proof { reveal_strlit("1"); }
        assert("1"@ =~= seq!['1']);
        "1"
    } else if n == 2 {
        proof { reveal_strlit("2"); }
        assert("2"@ =~= seq!['2']);
        "2"
    } else if n == 3 {
        proof { reveal_strlit("3"); }
        assert("3"@ =~= seq!['3']);
        "3"
    } else if n == 4 {
        proof { reveal_strlit("4"); }
        assert("4"@ =~= seq!['4']);
        "4"
    } else if n == 5 {
        proof { reveal_strlit("5"); }
        assert("5"@ =~= seq!['5']);
        "5"
    } else if n == 6 {
        proof { reveal_strlit("6"); }
        assert("6"@ =~= seq!['6']);
        "6"
    } else if n == 7 {
        proof { reveal_strlit("7"); }
        assert("7"@ =~= seq!['7']);
        "7"
    } else if n == 8 {
        proof { reveal_strlit("8"); }
        assert("8"@ =~= seq!['8']);
        "8"
    } else if n == 9 {
        proof { reveal_strlit("9"); }
        assert("9"@ =~= seq!['9']);
        "9"
    } else if n == 10 {
        proof { reveal_strlit("a"); }
        assert("a"@ =~= seq!['a']);
        "a"
    } else if n == 11 {
        proof { reveal_strlit("b"); }
        assert("b"@ =~= seq!['b']);
        "b"
    } else if n == 12 {
        proof { reveal_strlit("c"); }
        assert("c"@ =~= seq!['c']);
        "c"
    } else if n == 13 {
        proof { reveal_strlit("d"); }
        assert("d"@ =~= seq!['d']);
        "d"
    } else if n == 14 {
        proof { reveal_strlit("e"); }
        assert("e"@ =~= seq!['e']);
        "e"
    } else {
        proof { reveal_strlit("f"); }
        assert("f"@ =~= seq!['f']);
        "f"
    }
}

/// Writes each byte as two lowercase hexadecimal digits, high nibble first,
/// as `hex::encode` does.
pub fn hex_encode(data: &[u8]) -> (s: String)
    ensures
        s@ == lower_hex(data@),
{
    let mut out = String::new();
    let n = data.len();
    let mut i: usize = 0;
    assert(data@.subrange(0, 0) =~= Seq::<u8>::empty());
    while i < n
        invariant
            n == data@.len(),
            i <= n,
            out@ == lower_hex(data@.subrange(0, i as int)),
        decreases n - i,
    {
        let b = data[i];
        out.append(hex_digit_text(b / 16));
        out.append(hex_digit_text(b % 16));
        assert(data@.subrange(0, i + 1).drop_last() =~= data@.subrange(0, i as int));
        assert(data@.subrange(0, i + 1).last() == b);
        assert(out@ =~= lower_hex(data@.subrange(0, i + 1)));
        i = i + 1;
    }
    assert(data@.subrange(0, n as int) =~= data@);
    out
}

/// The hex text of `n` bytes has `2 * n` lowercase hexadecimal digits.
pub proof fn lemma_lower_hex_shape(data: Seq<u8>)
    ensures
        lower_hex(data).len() == 2 * data.len(),
        forall|i: int| 0 <= i < lower_hex(data).len() ==> is_lower_hex_digit(#[trigger] lower_hex(data)[i]),
    decreases data.len(),
{
    if data.len() > 0 {
        lemma_lower_hex_shape(data.drop_last());
        let hi = (data.last() / 16) as nat;
        let lo = (data.last() % 16) as nat;
        assert(is_lower_hex_digit(hex_digit_char(hi)));
        assert(is_lower_hex_digit(hex_digit_char(lo)));
        let prev = lower_hex(data.drop_last());
        assert forall|i: int| 0 <= i < lower_hex(data).len() implies is_lower_hex_digit(#[trigger] lower_hex(data)[i]) by {
            if i < prev.len() {
                assert(lower_hex(data)[i] == prev[i]);
            }
        }
    }
}

/// Hashes a password: the SHA-256 digest of its UTF-8 bytes, written as 64
/// lowercase hexadecimal digits. Equal passwords give equal hashes.
pub fn hash_password(password: &String) -> (h: String)
    ensures
        h@ == lower_hex(sha256_digest(encode_utf8(password@))),
        h@.len() == 64,
        forall|i: int| 0 <= i < 64 ==> is_lower_hex_digit(#[trigger] h@[i]),
{
    let bytes = password.as_str().as_bytes();
    let digest = sha256(bytes);
    let h = hex_encode(digest.as_slice());
    proof {
        lemma_lower_hex_shape(digest@);
    }
    h
}

} // verus!
