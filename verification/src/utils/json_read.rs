use vstd::prelude::*;

verus! {

/// A character that stands for itself in a JSON string: neither the
/// closing quote nor the escape character.
pub open spec fn is_plain_json_char(c: char) -> bool {
    c != '"' && c != '\\'
}

/// Every character of `s` stands for itself in a JSON string.
pub open spec fn is_plain_json_text(s: Seq<char>) -> bool {
    forall|i: int| 0 <= i < s.len() ==> is_plain_json_char(#[trigger] s[i])
}

/// Scans the body of a JSON string up to its closing quote, as a JSON reader
/// does, keeping each escape as written: the body, and what follows the
/// quote. `None` where no closing quote comes.
pub open spec fn scan_json_string(s: Seq<char>) -> Option<(Seq<char>, Seq<char>)>
    decreases s.len(),
{
    if s.len() == 0 {
        None
    } else if s[0] == '"' {
        Some((Seq::empty(), s.drop_first()))
    } else if s[0] == '\\' {
        if s.len() < 2 {
            None
        } else {
            match scan_json_string(s.subrange(2, s.len() as int)) {
                Some((body, rest)) => Some((seq![s[0], s[1]] + body, rest)),
                None => None,
            }
        }
    } else {
        match scan_json_string(s.drop_first()) {
            Some((body, rest)) => Some((seq![s[0]] + body, rest)),
            None => None,
        }
    }
}

/// Scanning past characters that stand for themselves keeps them in the body.
pub proof fn lemma_scan_plain_prefix(p: Seq<char>, t: Seq<char>)
    requires
        is_plain_json_text(p),
    ensures
        scan_json_string(p + t) == match scan_json_string(t) {
            Some((body, rest)) => Some((p + body, rest)),
            None => None,
        },
    decreases p.len(),
{
    if p.len() > 0 {
        let q = p.drop_first();
        assert forall|i: int| 0 <= i < q.len() implies is_plain_json_char(#[trigger] q[i]) by {
            assert(q[i] == p[i + 1]);
        }
        lemma_scan_plain_prefix(q, t);
        assert((p + t)[0] == p[0]);
        assert((p + t).drop_first() =~= q + t);
        match scan_json_string(t) {
            Some((body, rest)) => {
                assert(seq![p[0]] + (q + body) =~= p + body);
            },
            None => {},
        }
    } else {
        assert(p + t =~= t);
        match scan_json_string(t) {
            Some((body, rest)) => {
                assert(p + body =~= body);
            },
            None => {},
        }
    }
}

/// Text that stands for itself, then a quote: the scan ends at that quote.
pub proof fn lemma_scan_plain_string(p: Seq<char>, rest: Seq<char>)
    requires
        is_plain_json_text(p),
    ensures
        scan_json_string(p + seq!['"'] + rest) == Some((p, rest)),
{
    lemma_scan_plain_prefix(p, seq!['"'] + rest);
    assert(p + seq!['"'] + rest =~= p + (seq!['"'] + rest));
    assert((seq!['"'] + rest).drop_first() =~= rest);
    assert(p + Seq::<char>::empty() =~= p);
}

/// Reads `"key":` at the front of `s`: the key as written, and what follows
/// the colon.
pub open spec fn read_member_key(s: Seq<char>) -> Option<(Seq<char>, Seq<char>)> {
    if s.len() > 0 && s[0] == '"' {
        match scan_json_string(s.drop_first()) {
            Some((key, after)) => if after.len() > 0 && after[0] == ':' {
                Some((key, after.drop_first()))
            } else {
                None
            },
            None => None,
        }
    } else {
        None
    }
}

/// Reads a member whose value is a string, `"key":"value"`, at the front of
/// `s`: the key, the value's body as written, and what follows it.
pub open spec fn read_string_member(s: Seq<char>) -> Option<(Seq<char>, Seq<char>, Seq<char>)> {
    match read_member_key(s) {
        Some((key, after)) => if after.len() > 0 && after[0] == '"' {
            match scan_json_string(after.drop_first()) {
                Some((value, rest)) => Some((key, value, rest)),
                None => None,
            }
        } else {
            None
        },
        None => None,
    }
}

/// The value of a decimal digit character, or -1 for any other character.
pub open spec fn digit_value(c: char) -> int {
    if c == '0' {
        0
    } else if c == '1' {
        1
    } else if c == '2' {
        2
    } else if c == '3' {
        3
    } else if c == '4' {
        4
    } else if c == '5' {
        5
    } else if c == '6' {
        6
    } else if c == '7' {
        7
    } else if c == '8' {
        8
    } else if c == '9' {
        9
    } else {
        -1
    }
}

/// A non-empty run of decimal digits.
pub open spec fn is_digit_run(s: Seq<char>) -> bool {
    s.len() > 0 && forall|i: int| 0 <= i < s.len() ==> 0 <= #[trigger] digit_value(s[i])
}

/// The number that a run of decimal digits writes, most significant first.
pub open spec fn digits_value(s: Seq<char>) -> int
    decreases s.len(),
{
    if s.len() == 0 {
        0
    } else {
        digits_value(s.drop_last()) * 10 + digit_value(s.last())
    }
}

/// Reads an integer written in decimal, with an optional leading minus sign.
pub open spec fn read_decimal(s: Seq<char>) -> Option<int> {
    if s.len() > 0 && s[0] == '-' {
        if is_digit_run(s.drop_first()) {
            Some(-digits_value(s.drop_first()))
        } else {
            None
        }
    } else if is_digit_run(s) {
        Some(digits_value(s))
    } else {
        None
    }
}

/// The value of a hexadecimal digit character, or -1 for any other character.
pub open spec fn hex_digit_value(c: char) -> int {
    if '0' <= c && c <= '9' {
        c as int - 48
    } else if 'a' <= c && c <= 'f' {
        c as int - 87
    } else if 'A' <= c && c <= 'F' {
        c as int - 55
    } else {
        -1
    }
}

/// The character that a two-character JSON escape `\e` stands for.
pub open spec fn json_escape_meaning(e: char) -> Option<char> {
    if e == '"' {
        Some('"')
    } else if e == '\\' {
        Some('\\')
    } else if e == '/' {
        Some('/')
    } else if e == 'b' {
        Some(8int as char)
    } else if e == 'f' {
        Some(12int as char)
    } else if e == 'n' {
        Some(10int as char)
    } else if e == 'r' {
        Some(13int as char)
    } else if e == 't' {
        Some(9int as char)
    } else {
        None
    }
}

/// Reads the body of a JSON string as JSON defines its escapes: `\"`,
/// `\\`, `\/`, `\b`, `\f`, `\n`, `\r`, `\t`, and `\u` with four hexadecimal
/// digits naming a character outside the surrogate range; every other
/// character stands for itself. `None` for a body that does not read.
pub open spec fn json_unescape(s: Seq<char>) -> Option<Seq<char>>
    decreases s.len(),
{
    if s.len() == 0 {
        Some(Seq::empty())
    } else if s[0] != '\\' {
        match json_unescape(s.drop_first()) {
            Some(r) => Some(seq![s[0]] + r),
            None => None,
        }
    } else if s.len() < 2 {
        None
    } else if s[1] == 'u' {
        if s.len() < 6 {
            None
        } else {
            let v = hex_digit_value(s[2]) * 4096 + hex_digit_value(s[3]) * 256 + hex_digit_value(s[4]) * 16
                + hex_digit_value(s[5]);
            if 0 <= hex_digit_value(s[2]) && 0 <= hex_digit_value(s[3]) && 0 <= hex_digit_value(s[4]) && 0
                <= hex_digit_value(s[5]) && (v < 0xD800 || v > 0xDFFF) {
                match json_unescape(s.subrange(6, s.len() as int)) {
                    Some(r) => Some(seq![v as char] + r),
                    None => None,
                }
            } else {
                None
            }
        }
    } else {
        match json_escape_meaning(s[1]) {
            Some(ch) => match json_unescape(s.subrange(2, s.len() as int)) {
                Some(r) => Some(seq![ch] + r),
                None => None,
            },
            None => None,
        }
    }
}

} // verus!
