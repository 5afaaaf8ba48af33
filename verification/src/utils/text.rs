use vstd::prelude::*;
use vstd::string::*;
use crate::utils::json_read::{digit_value, digits_value, is_digit_run, read_decimal};

verus! {

/// Compares two string slices character by character.
pub fn str_equals(a: &str, b: &str) -> (r: bool)
    ensures
        r == (a@ == b@),
{
    let n = a.unicode_len();
    let m = b.unicode_len();
    if n != m {
        return false;
    }
    let mut i: usize = 0;
    while i < n
        invariant
            n == a@.len(),
            m == b@.len(),
            n == m,
            i <= n,
            forall|j: int| 0 <= j < i ==> a@[j] == b@[j],
        decreases n - i,
    {
        if a.get_char(i) != b.get_char(i) {
            return false;
        }
        i = i + 1;
    }
    assert(a@ =~= b@);
    true
}


/// The characters of `s` with every `'-'` left out, in their order.
pub open spec fn without_hyphens(s: Seq<char>) -> Seq<char>
    decreases s.len(),
{
    if s.len() == 0 {
        Seq::empty()
    } else if s.last() == '-' {
        without_hyphens(s.drop_last())
    } else {
        without_hyphens(s.drop_last()).push(s.last())
    }
}

/// Leaving out hyphens distributes over concatenation.
pub proof fn lemma_without_hyphens_concat(a: Seq<char>, b: Seq<char>)
    ensures
        without_hyphens(a + b) == without_hyphens(a) + without_hyphens(b),
    decreases b.len(),
{
    if b.len() == 0 {
        assert(a + b =~= a);
        assert(without_hyphens(a) + without_hyphens(b) =~= without_hyphens(a));
    } else {
        lemma_without_hyphens_concat(a, b.drop_last());
        assert((a + b).drop_last() =~= a + b.drop_last());
        assert((a + b).last() == b.last());
        if b.last() != '-' {
            assert(without_hyphens(a) + without_hyphens(b.drop_last()).push(b.last()) =~= (
            without_hyphens(a) + without_hyphens(b.drop_last())).push(b.last()));
        }
    }
}

/// No hyphen is left, and the result is no longer than `s`.
pub proof fn lemma_without_hyphens_has_none(s: Seq<char>)
    ensures
        !without_hyphens(s).contains('-'),
        without_hyphens(s).len() <= s.len(),
    decreases s.len(),
{
    if s.len() > 0 {
        lemma_without_hyphens_has_none(s.drop_last());
        let r = without_hyphens(s.drop_last());
        if s.last() != '-' {
            assert forall|i: int| 0 <= i < r.push(s.last()).len() implies r.push(s.last())[i] != '-' by {
                if i < r.len() {
                    assert(!r.contains('-'));
                    if r[i] == '-' {
                        assert(r.contains('-'));
                    }
                }
            }
        }
    }
}

/// A text without hyphens is left as it is.
pub proof fn lemma_without_hyphens_identity(s: Seq<char>)
    requires
        !s.contains('-'),
    ensures
        without_hyphens(s) == s,
    decreases s.len(),
{
    if s.len() > 0 {
        assert(s.drop_last().len() < s.len());
        assert forall|c: char| s.drop_last().contains(c) implies s.contains(c) by {
            let i = choose|i: int| 0 <= i < s.drop_last().len() && s.drop_last()[i] == c;
            assert(s[i] == c);
        }
        lemma_without_hyphens_identity(s.drop_last());
        assert(s.last() != '-') by {
            assert(s[s.len() - 1] == s.last());
        }
        assert(s.drop_last().push(s.last()) =~= s);
    }
}

/// Copies `s` without its hyphens.
pub fn strip_hyphens(s: &str) -> (r: String)
    ensures
        r@ == without_hyphens(s@),
{
    let n = s.unicode_len();
    let mut out = String::new();
    let mut i: usize = 0;
    assert(s@.subrange(0, 0) =~= Seq::<char>::empty());
    while i < n
        invariant
            n == s@.len(),
            i <= n,
            out@ == without_hyphens(s@.subrange(0, i as int)),
        decreases n - i,
    {
        let c = s.get_char(i);
        assert(s@.subrange(0, i + 1).drop_last() =~= s@.subrange(0, i as int));
        assert(s@.subrange(0, i + 1).last() == c);
        if c != '-' {
            let piece = s.substring_char(i, i + 1);
            assert(piece@ =~= seq![c]);
            out.append(piece);
            assert(out@ =~= without_hyphens(s@.subrange(0, i as int)).push(c));
        }
        i = i + 1;
    }
    assert(s@.subrange(0, n as int) =~= s@);
    out
}

/// The decimal digit character for `d < 10`.
pub open spec fn digit_char(d: nat) -> char {
    if d == 0 {
        '0'
    } else if d == 1 {
        '1'
    } else if d == 2 {
        '2'
    } else if d == 3 {
        '3'
    } else if d == 4 {
        '4'
    } else if d == 5 {
        '5'
    } else if d == 6 {
        '6'
    } else if d == 7 {
        '7'
    } else if d == 8 {
        '8'
    } else {
        '9'
    }
}

/// The decimal digits of `n`, most significant first, without leading zeros.
pub open spec fn decimal_digits(n: nat) -> Seq<char>
    decreases n,
{
    if n < 10 {
        seq![digit_char(n)]
    } else {
        decimal_digits(n / 10).push(digit_char(n % 10))
    }
}

/// The usual decimal notation of an integer: a minus sign for negative
/// numbers, then the digits of its magnitude.
pub open spec fn decimal_text(n: int) -> Seq<char> {
    if n < 0 {
        seq!['-'] + decimal_digits((-n) as nat)
    } else {
        decimal_digits(n as nat)
    }
}

/// A digit character reads back as its digit.
pub proof fn lemma_digit_char_value(d: nat)
    requires
        d < 10,
    ensures
        digit_value(digit_char(d)) == d,
        digit_char(d) != '-',
{
}

/// The digits of a number are decimal digits, and read back as that number.
pub proof fn lemma_decimal_digits_read_back(n: nat)
    ensures
        is_digit_run(decimal_digits(n)),
        digits_value(decimal_digits(n)) == n,
        decimal_digits(n)[0] != '-',
    decreases n,
{
    if n < 10 {
        lemma_digit_char_value(n);
        assert(decimal_digits(n) =~= seq![digit_char(n)]);
        assert(decimal_digits(n).drop_last() =~= Seq::<char>::empty());
        assert(decimal_digits(n).last() == digit_char(n));
        assert(digits_value(decimal_digits(n).drop_last()) == 0);
        assert(digits_value(decimal_digits(n)) == digits_value(decimal_digits(n).drop_last()) * 10
            + digit_value(decimal_digits(n).last()));
    } else {
        lemma_digit_char_value(n % 10);
        lemma_decimal_digits_read_back(n / 10);
        let prev = decimal_digits(n / 10);
        let d = decimal_digits(n);
        assert(d =~= prev.push(digit_char(n % 10)));
        assert(d.drop_last() =~= prev);
        assert forall|i: int| 0 <= i < d.len() implies 0 <= #[trigger] digit_value(d[i]) by {
            if i < prev.len() {
                assert(d[i] == prev[i]);
            }
        }
        assert(d[0] == prev[0]);
        assert(d.last() == digit_char(n % 10));
        assert((n / 10) * 10 + n % 10 == n);
        assert(digits_value(d) == digits_value(d.drop_last()) * 10 + digit_value(d.last()));
        assert(digits_value(d) == digits_value(prev) * 10 + digit_value(digit_char(n % 10)));
    }
}

/// The decimal notation of an integer reads back as that integer.
pub proof fn lemma_decimal_text_reads_back(n: int)
    ensures
        read_decimal(decimal_text(n)) == Some(n),
{
    if n < 0 {
        lemma_decimal_digits_read_back((-n) as nat);
        let t = decimal_text(n);
        assert(t.drop_first() =~= decimal_digits((-n) as nat));
        assert(t[0] == '-');
    } else {
        lemma_decimal_digits_read_back(n as nat);
    }
}

fn digit_text(d: u64) -> (s: &'static str)
    requires
        d < 10,
    ensures
        s@ == seq![digit_char(d as nat)],
{
    if d == 0 {
        proof { reveal_strlit("0"); }
        assert("0"@ =~= seq!['0']);
        "0"
    } else if d == 1 {
        proof { reveal_strlit("1"); }
        assert("1"@ =~= seq!['1']);
        "1"
    } else if d == 2 {
        proof { reveal_strlit("2"); }
        assert("2"@ =~= seq!['2']);
        "2"
    } else if d == 3 {
        proof { reveal_strlit("3"); }
        assert("3"@ =~= seq!['3']);
        "3"
    } else if d == 4 {
        proof { reveal_strlit("4"); }
        assert("4"@ =~= seq!['4']);
        "4"
    } else if d == 5 {
        proof { reveal_strlit("5"); }
        assert("5"@ =~= seq!['5']);
        "5"
    } else if d == 6 {
        proof { reveal_strlit("6"); }
        assert("6"@ =~= seq!['6']);
        "6"
    } else if d == 7 {
        proof { reveal_strlit("7"); }
        assert("7"@ =~= seq!['7']);
        "7"
    } else if d == 8 {
        proof { reveal_strlit("8"); }
        assert("8"@ =~= seq!['8']);
        "8"
    } else {
        proof { reveal_strlit("9"); }
        assert("9"@ =~= seq!['9']);
        "9"
    }
}

fn append_decimal_digits(out: &mut String, n: u64)
    ensures
        final(out)@ == old(out)@ + decimal_digits(n as nat),
    decreases n,
{
    if n >= 10 {
        append_decimal_digits(out, n / 10);
    }
    out.append(digit_text(n % 10));
    assert(old(out)@ + decimal_digits(n as nat) =~= final(out)@) by {
        if n >= 10 {
            assert(old(out)@ + decimal_digits((n / 10) as nat).push(digit_char((n % 10) as nat))
                =~= (old(out)@ + decimal_digits((n / 10) as nat)) + seq![digit_char((n % 10) as nat)]);
        }
    }
}

/// Writes an integer in decimal notation.
pub fn decimal_string(n: i64) -> (s: String)
    ensures
        s@ == decimal_text(n as int),
        read_decimal(s@) == Some(n as int),
{
    proof {
        lemma_decimal_text_reads_back(n as int);
    }
    let mut out = String::new();
    if n < 0 {
        proof { reveal_strlit("-"); }
        assert("-"@ =~= seq!['-']);
        out.append("-");
        let magnitude: u64 = ((-(n + 1)) as u64) + 1;
        append_decimal_digits(&mut out, magnitude);
    } else {
        append_decimal_digits(&mut out, n as u64);
    }
    out
}

} // verus!
