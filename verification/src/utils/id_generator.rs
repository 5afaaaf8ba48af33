use vstd::prelude::*;
use vstd::string::*;
use crate::utils::text::{
    lemma_without_hyphens_concat, lemma_without_hyphens_has_none, lemma_without_hyphens_identity,
    strip_hyphens, without_hyphens,
};

verus! {

/// A lowercase hexadecimal digit.
pub open spec fn is_lower_hex_digit(c: char) -> bool {
    ('0' <= c && c <= '9') || ('a' <= c && c <= 'f')
}

/// Where the canonical text of a UUID holds its hyphens.
pub open spec fn is_uuid_hyphen_position(i: int) -> bool {
    i == 8 || i == 13 || i == 18 || i == 23
}

/// The canonical text of a random (version 4) UUID: 36 characters, hyphens
/// at positions 8, 13, 18 and 23, lowercase hexadecimal digits elsewhere,
/// the version digit `4` at position 14 and a variant digit among `8`, `9`,
/// `a`, `b` at position 19.
pub open spec fn is_uuid_v4_text(u: Seq<char>) -> bool {
    &&& u.len() == 36
    &&& forall|i: int|
        0 <= i < 36 ==> if is_uuid_hyphen_position(i) {
            u[i] == '-'
        } else {
            is_lower_hex_digit(#[trigger] u[i])
        }
    &&& u[14] == '4'
    &&& (u[19] == '8' || u[19] == '9' || u[19] == 'a' || u[19] == 'b')
}

/// Calls `uuid::Uuid::new_v4` and formats the result with `to_string`.
/// The UUID is random, so nothing ties the result to anything; the contract
/// states only its shape: `new_v4` sets the version and variant bits, and
/// `Display` writes the lowercase hyphenated form.
#[verifier::external_body]
fn new_uuid_v4_text() -> (u: String)
    ensures
        is_uuid_v4_text(u@),
{
    uuid::Uuid::new_v4().to_string()
}

/// The reference made from a prefix and the text of a UUID: both joined,
/// with every hyphen left out.
pub fn reference_from_parts(prefix: &str, uuid_text: &str) -> (r: String)
    ensures
        r@ == without_hyphens(prefix@ + uuid_text@),
{
    let mut joined = String::from_str(prefix);
    joined.append(uuid_text);
    strip_hyphens(joined.as_str())
}

/// A run of a UUID's text between two hyphens holds only hexadecimal
/// digits, so leaving out hyphens keeps it whole.
proof fn lemma_uuid_hex_run(u: Seq<char>, lo: int, hi: int)
    requires
        is_uuid_v4_text(u),
        0 <= lo <= hi <= 36,
        forall|i: int| lo <= i < hi ==> !is_uuid_hyphen_position(i),
    ensures
        without_hyphens(u.subrange(lo, hi)) == u.subrange(lo, hi),
        forall|i: int| 0 <= i < hi - lo ==> is_lower_hex_digit(#[trigger] u.subrange(lo, hi)[i]),
{
    let s = u.subrange(lo, hi);
    assert forall|i: int| 0 <= i < hi - lo implies is_lower_hex_digit(#[trigger] s[i]) by {
        assert(s[i] == u[lo + i]);
    }
    if s.contains('-') {
        let k = choose|k: int| 0 <= k < s.len() && s[k] == '-';
        assert(is_lower_hex_digit(s[k]));
    }
    lemma_without_hyphens_identity(s);
}

/// Where the digit at position `i` of a UUID's text lands once the hyphens
/// before it are left out.
pub open spec fn uuid_digit_index(i: int) -> int {
    if i < 8 {
        i
    } else if i < 13 {
        i - 1
    } else if i < 18 {
        i - 2
    } else if i < 23 {
        i - 3
    } else {
        i - 4
    }
}

/// Leaving the hyphens out of a UUID's text leaves its 32 hexadecimal
/// digits, each moved left past the hyphens before it.
pub proof fn lemma_uuid_digits(u: Seq<char>)
    requires
        is_uuid_v4_text(u),
    ensures
        without_hyphens(u).len() == 32,
        forall|i: int| 0 <= i < 32 ==> is_lower_hex_digit(#[trigger] without_hyphens(u)[i]),
        forall|i: int|
            0 <= i < 36 && !is_uuid_hyphen_position(i) ==> without_hyphens(u)[uuid_digit_index(i)]
                == #[trigger] u[i],
{
    let a = u.subrange(0, 8);
    let b = u.subrange(9, 13);
    let c = u.subrange(14, 18);
    let d = u.subrange(19, 23);
    let e = u.subrange(24, 36);
    let h = seq!['-'];
    assert(u =~= a + h + b + h + c + h + d + h + e);
    lemma_uuid_hex_run(u, 0, 8);
    lemma_uuid_hex_run(u, 9, 13);
    lemma_uuid_hex_run(u, 14, 18);
    lemma_uuid_hex_run(u, 19, 23);
    lemma_uuid_hex_run(u, 24, 36);
    assert(without_hyphens(h) =~= Seq::<char>::empty()) by {
        assert(h.drop_last() =~= Seq::<char>::empty());
        assert(without_hyphens(h.drop_last()) =~= Seq::<char>::empty());
        assert(h.last() == '-');
    }
    lemma_without_hyphens_concat(a, h);
    lemma_without_hyphens_concat(a + h, b);
    lemma_without_hyphens_concat(a + h + b, h);
    lemma_without_hyphens_concat(a + h + b + h, c);
    lemma_without_hyphens_concat(a + h + b + h + c, h);
    lemma_without_hyphens_concat(a + h + b + h + c + h, d);
    lemma_without_hyphens_concat(a + h + b + h + c + h + d, h);
    lemma_without_hyphens_concat(a + h + b + h + c + h + d + h, e);
    let w = a + b + c + d + e;
    assert(without_hyphens(u) =~= w);
    assert forall|i: int| 0 <= i < 32 implies is_lower_hex_digit(#[trigger] w[i]) by {
        if i < 8 {
            assert(w[i] == a[i]);
        } else if i < 12 {
            assert(w[i] == b[i - 8]);
        } else if i < 16 {
            assert(w[i] == c[i - 12]);
        } else if i < 20 {
            assert(w[i] == d[i - 16]);
        } else {
            assert(w[i] == e[i - 20]);
        }
    }
    assert forall|i: int| 0 <= i < 36 && !is_uuid_hyphen_position(i) implies w[uuid_digit_index(i)]
        == #[trigger] u[i] by {
        if i < 8 {
            assert(w[i] == a[i]);
        } else if i < 13 {
            assert(w[i - 1] == b[i - 9]);
        } else if i < 18 {
            assert(w[i - 2] == c[i - 14]);
        } else if i < 23 {
            assert(w[i - 3] == d[i - 19]);
        } else {
            assert(w[i - 4] == e[i - 24]);
        }
    }
}

/// Two different UUIDs give two different references under one prefix:
/// the hyphens that are left out sit at the same places in both.
pub proof fn lemma_distinct_uuids_give_distinct_references(prefix: Seq<char>, u1: Seq<char>, u2: Seq<char>)
    requires
        is_uuid_v4_text(u1),
        is_uuid_v4_text(u2),
        u1 != u2,
    ensures
        without_hyphens(prefix + u1) != without_hyphens(prefix + u2),
{
    lemma_uuid_digits(u1);
    lemma_uuid_digits(u2);
    lemma_without_hyphens_concat(prefix, u1);
    lemma_without_hyphens_concat(prefix, u2);
    let p = without_hyphens(prefix);
    let w1 = without_hyphens(u1);
    let w2 = without_hyphens(u2);
    if p + w1 == p + w2 {
        assert forall|i: int| 0 <= i < 32 implies w1[i] == w2[i] by {
            assert((p + w1)[p.len() + i] == (p + w2)[p.len() + i]);
        }
        assert forall|i: int| 0 <= i < 36 implies #[trigger] u1[i] == u2[i] by {
            if !is_uuid_hyphen_position(i) {
                assert(w1[uuid_digit_index(i)] == u1[i]);
                assert(w2[uuid_digit_index(i)] == u2[i]);
            }
        }
        assert(u1 =~= u2);
    }
}

/// A fresh reference: `prefix` followed by a random UUID, with every hyphen
/// left out. The result is the prefix without its hyphens, then 32
/// lowercase hexadecimal digits; it holds no hyphen.
pub fn generate_uuid(prefix: &str) -> (r: String)
    ensures
        exists|u: Seq<char>| is_uuid_v4_text(u) && r@ == without_hyphens(prefix@ + u),
        r@.len() == without_hyphens(prefix@).len() + 32,
        r@.subrange(0, without_hyphens(prefix@).len() as int) == without_hyphens(prefix@),
        forall|i: int|
            without_hyphens(prefix@).len() <= i < r@.len() ==> is_lower_hex_digit(#[trigger] r@[i]),
        !r@.contains('-'),
{
    let u = new_uuid_v4_text();
    let r = reference_from_parts(prefix, u.as_str());
    proof {
        lemma_without_hyphens_concat(prefix@, u@);
        lemma_uuid_digits(u@);
        lemma_without_hyphens_has_none(prefix@ + u@);
        let p = without_hyphens(prefix@);
        assert(r@.subrange(0, p.len() as int) =~= p);
        assert forall|i: int| p.len() <= i < r@.len() implies is_lower_hex_digit(#[trigger] r@[i]) by {
            assert(r@[i] == without_hyphens(u@)[i - p.len()]);
        }
    }
    r
}

} // verus!
