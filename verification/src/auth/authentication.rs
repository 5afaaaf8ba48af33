use vstd::prelude::*;
use vstd::string::*;
use vstd::utf8::encode_utf8;
use crate::enums::roles_enum::{lemma_role_name_round_trip, role_from_name, role_name, RolesEnum};
use crate::enums::subscription_enum::{
    lemma_subscription_name_round_trip, subscription_from_name, subscription_name, SubscriptionType,
};
use crate::utils::id_generator::is_lower_hex_digit;
use crate::utils::json_read::{
    is_plain_json_text, json_escape_meaning, json_unescape, hex_digit_value, lemma_scan_plain_prefix, lemma_scan_plain_string, read_decimal,
    read_member_key, read_string_member, scan_json_string,
};
use crate::utils::password_helper::hex_digit_char;
use crate::utils::text::{decimal_string, decimal_text, lemma_decimal_text_reads_back};

verus! {

/// The earliest instant, in seconds since the Unix epoch, that chrono's
/// `DateTime<Utc>` can hold (January 1st of year -262143, midnight).
pub const MIN_TIMESTAMP: i64 = -8334601228800;

/// The latest whole second that chrono's `DateTime<Utc>` can hold
/// (December 31st of year 262142, 23:59:59).
pub const MAX_TIMESTAMP: i64 = 8210266876799;

/// How long an issued token stays valid.
pub const TOKEN_LIFETIME_HOURS: i64 = 4;

const SECRET_KEY: &'static str = "YOUR JWT SECRET KEY";

/// The signing key: the UTF-8 bytes of the service's secret.
pub closed spec fn secret_key_bytes() -> Seq<u8> {
    encode_utf8(SECRET_KEY@)
}

/// A timestamp that chrono can represent.
pub open spec fn representable_timestamp(t: int) -> bool {
    MIN_TIMESTAMP <= t && t <= MAX_TIMESTAMP
}

/// The instant `seconds` after `t`, when both lie in chrono's range.
pub open spec fn shifted_timestamp(t: int, seconds: int) -> Option<i64> {
    if representable_timestamp(t) && representable_timestamp(t + seconds) {
        Some((t + seconds) as i64)
    } else {
        None
    }
}

/// When a token issued at `now` expires.
pub open spec fn expiry_after(now: int) -> Option<i64> {
    shifted_timestamp(now, TOKEN_LIFETIME_HOURS * 3600)
}

/// What a token asserts about its holder.
#[derive(Debug, Clone)]
pub struct Claims {
    pub customer_ref: String,
    pub subscription_type: SubscriptionType,
    pub role: RolesEnum,
    pub exp: i64,
}

/// A bearer token presented by a client.
#[derive(Debug, Clone)]
pub struct AuthenticateUser {
    pub token: String,
}

/// Makes `jsonwebtoken::errors::Error` known to the verifier, as an opaque type.
#[verifier::external_type_specification]
#[verifier::external_body]
pub struct ExJwtError(jsonwebtoken::errors::Error);

/// Why a token could not be issued or read.
#[derive(Debug)]
pub enum AuthError {
    /// The expiry time falls outside the calendar range.
    TimestampInvalid,
    /// Checking or decoding the token failed (signing never fails).
    Token(jsonwebtoken::errors::Error),
}

/// How `serde_json` writes one character inside a string literal: `"` and
/// `\` behind a backslash; backspace, tab, line feed, form feed and carriage
/// return as `\b`, `\t`, `\n`, `\f`, `\r`; the other control characters
/// below 0x20 as `\u00` and two lowercase hexadecimal digits; every other
/// character as itself.
pub open spec fn json_char_escape(c: char) -> Seq<char> {
    let code = c as u32;
    if c == '"' {
        seq!['\\', '"']
    } else if c == '\\' {
        seq!['\\', '\\']
    } else if code == 8 {
        seq!['\\', 'b']
    } else if code == 9 {
        seq!['\\', 't']
    } else if code == 10 {
        seq!['\\', 'n']
    } else if code == 12 {
        seq!['\\', 'f']
    } else if code == 13 {
        seq!['\\', 'r']
    } else if code < 32 {
        seq!['\\', 'u', '0', '0', hex_digit_char((code / 16) as nat), hex_digit_char((code % 16) as nat)]
    } else {
        seq![c]
    }
}

/// The characters of a text, each escaped as in a JSON string literal.
pub open spec fn json_escaped(s: Seq<char>) -> Seq<char>
    decreases s.len(),
{
    if s.len() == 0 {
        Seq::empty()
    } else {
        json_escaped(s.drop_last()) + json_char_escape(s.last())
    }
}

/// The JSON string literal of a text, as `serde_json` writes it: the escaped
/// characters between double quotes.
pub open spec fn json_string_literal(s: Seq<char>) -> Seq<char> {
    seq!['"'] + json_escaped(s) + seq!['"']
}

/// The HS256 token (default header) that `jsonwebtoken` issues for a claims
/// text under a key; `None` where it refuses the claims text.
pub uninterp spec fn hs256_token(key: Seq<u8>, claims_json: Seq<char>) -> Option<Seq<char>>;

/// The check that `jsonwebtoken::decode` makes of a token's signature under a
/// key, before it reads any claims: the token is three dot-separated parts,
/// its header names HS256, and its third part is the unpadded URL-safe
/// base64 of the HMAC-SHA256, under the key, of the first two parts joined
/// by a dot.
pub uninterp spec fn hs256_signed(key: Seq<u8>, token: Seq<char>) -> bool;

/// Escaping distributes over a first character and the rest.
pub proof fn lemma_json_escaped_front(c: char, y: Seq<char>)
    ensures
        json_escaped(seq![c] + y) == json_char_escape(c) + json_escaped(y),
    decreases y.len(),
{
    if y.len() == 0 {
        assert(seq![c] + y =~= seq![c]);
        assert(seq![c].drop_last() =~= Seq::<char>::empty());
        assert(json_escaped(seq![c].drop_last()) =~= Seq::<char>::empty());
        assert(seq![c].last() == c);
        assert(json_escaped(y) =~= Seq::<char>::empty());
        assert(json_char_escape(c) + json_escaped(y) =~= json_char_escape(c));
        assert(json_escaped(seq![c]) =~= Seq::<char>::empty() + json_char_escape(c));
    } else {
        lemma_json_escaped_front(c, y.drop_last());
        assert((seq![c] + y).drop_last() =~= seq![c] + y.drop_last());
        assert((seq![c] + y).last() == y.last());
        assert(json_char_escape(c) + json_escaped(y.drop_last()) + json_char_escape(y.last()) =~= json_char_escape(c)
            + (json_escaped(y.drop_last()) + json_char_escape(y.last())));
    }
}

/// An escaped text, then a quote: a JSON reader's scan ends at that quote,
/// with the escaped text as the body.
pub proof fn lemma_scan_json_escaped(x: Seq<char>, rest: Seq<char>)
    ensures
        scan_json_string(json_escaped(x) + seq!['"'] + rest) == Some((json_escaped(x), rest)),
    decreases x.len(),
{
    if x.len() == 0 {
        assert(json_escaped(x) =~= Seq::<char>::empty());
        lemma_scan_plain_string(Seq::<char>::empty(), rest);
        assert(Seq::<char>::empty() + seq!['"'] + rest =~= json_escaped(x) + seq!['"'] + rest);
    } else {
        let c = x[0];
        let y = x.drop_first();
        assert(x =~= seq![c] + y);
        lemma_json_escaped_front(c, y);
        lemma_scan_json_escaped(y, rest);
        let e = json_char_escape(c);
        let tail = json_escaped(y) + seq!['"'] + rest;
        let whole = json_escaped(x) + seq!['"'] + rest;
        assert(whole =~= e + tail);
        let code = c as u32;
        if c == '"' || c == '\\' || code == 8 || code == 9 || code == 10 || code == 12 || code == 13 {
            assert(e.len() == 2 && e[0] == '\\');
            assert(whole[0] == '\\');
            assert(whole.subrange(2, whole.len() as int) =~= tail);
            assert(seq![whole[0], whole[1]] =~= e);
            assert(e + json_escaped(y) =~= json_escaped(x));
        } else if code < 32 {
            let d = seq!['0', '0', hex_digit_char((code / 16) as nat), hex_digit_char((code % 16) as nat)];
            assert(is_lower_hex_digit(hex_digit_char((code / 16) as nat)));
            assert(is_lower_hex_digit(hex_digit_char((code % 16) as nat)));
            assert(is_plain_json_text(d));
            lemma_scan_plain_prefix(d, tail);
            assert(whole[0] == '\\');
            assert(whole.subrange(2, whole.len() as int) =~= d + tail);
            assert(seq![whole[0], whole[1]] + (d + json_escaped(y)) =~= json_escaped(x));
        } else {
            assert(e =~= seq![c]);
            assert(whole[0] == c);
            assert(whole.drop_first() =~= tail);
            assert(seq![c] + json_escaped(y) =~= json_escaped(x));
        }
    }
}

/// A control character is the character of its own code.
proof fn lemma_control_char_code(c: char)
    ensures
        (c as u32) < 32 ==> c == (((c as u32) as int) as char),
        (c as u32) == 8 ==> c == (8int as char),
        (c as u32) == 9 ==> c == (9int as char),
        (c as u32) == 10 ==> c == (10int as char),
        (c as u32) == 12 ==> c == (12int as char),
        (c as u32) == 13 ==> c == (13int as char),
{
}

/// Reading an escaped text back as JSON gives the text itself.
pub proof fn lemma_json_escaped_reads_back(x: Seq<char>)
    ensures
        json_unescape(json_escaped(x)) == Some(x),
    decreases x.len(),
{
    if x.len() == 0 {
        assert(json_escaped(x) =~= Seq::<char>::empty());
        assert(x =~= Seq::<char>::empty());
    } else {
        let c = x[0];
        let y = x.drop_first();
        assert(x =~= seq![c] + y);
        lemma_json_escaped_front(c, y);
        lemma_json_escaped_reads_back(y);
        let e = json_char_escape(c);
        let rest = json_escaped(y);
        let s = json_escaped(x);
        assert(s =~= e + rest);
        let code = c as u32;
        if c == '"' || c == '\\' || code == 8 || code == 9 || code == 10 || code == 12 || code == 13 {
            assert(s[0] == '\\' && s[1] == e[1]);
            assert(s[1] != 'u');
            lemma_control_char_code(c);
            if code == 8 {
                assert(s[1] == 'b');
            } else if code == 9 {
                assert(s[1] == 't');
            } else if code == 10 {
                assert(s[1] == 'n');
            } else if code == 12 {
                assert(s[1] == 'f');
            } else if code == 13 {
                assert(s[1] == 'r');
            }
            assert(json_escape_meaning(s[1]) == Some(c));
            assert(s.subrange(2, s.len() as int) =~= rest);
        } else if code < 32 {
            let hi = (code / 16) as nat;
            let lo = (code % 16) as nat;
            assert(s[0] == '\\' && s[1] == 'u');
            assert(s[2] == '0' && s[3] == '0' && s[4] == hex_digit_char(hi) && s[5] == hex_digit_char(lo));
            assert(hex_digit_value(hex_digit_char(hi)) == hi);
            assert(hex_digit_value(hex_digit_char(lo)) == lo);
            assert(hi * 16 + lo == code);
            lemma_control_char_code(c);
            assert(s.subrange(6, s.len() as int) =~= rest);
        } else {
            assert(e =~= seq![c]);
            assert(s[0] == c);
            assert(s.drop_first() =~= rest);
        }
        assert(seq![c] + y =~= x);
    }
}

/// Reads the clock through `chrono::Utc::now()` and returns its Unix
/// timestamp. The time is not tied to anything; the contract only states
/// that a `DateTime<Utc>` always lies in chrono's range.
#[verifier::external_body]
fn current_timestamp() -> (t: i64)
    ensures
        representable_timestamp(t as int),
{
    chrono::Utc::now().timestamp()
}

/// The instant `hours` hours after `t`, as chrono's checked addition on a
/// `DateTime<Utc>` gives it: `None` where the start or the end lies outside
/// chrono's range.
fn timestamp_after_hours(t: i64, hours: i64) -> (r: Option<i64>)
    requires
        -1000 <= hours <= 1000,
    ensures
        r == shifted_timestamp(t as int, hours * 3600),
{
    if t < MIN_TIMESTAMP || t > MAX_TIMESTAMP {
        return None;
    }
    let end = t + hours * 3600;
    if end < MIN_TIMESTAMP || end > MAX_TIMESTAMP {
        None
    } else {
        Some(end)
    }
}

/// Calls `serde_json::to_string` on a string slice. Writing a string into
/// memory cannot fail, so the result is always present; it is the quoted,
/// escaped literal `json_string_literal`.
#[verifier::external_body]
fn json_quote(s: &str) -> (r: Option<String>)
    ensures
        r is Some,
        r->Some_0@ == json_string_literal(s@),
{
    serde_json::to_string(s).ok()
}

/// Calls `jsonwebtoken::encode` with the default (HS256) header, the claims
/// text carried verbatim as a `serde_json::value::RawValue`, and
/// `EncodingKey::from_secret(key)`. The outcome is a function of the key and
/// the text, named `hs256_token`: the token, or an error where the text is
/// not one JSON value. The text of any claims is one JSON object (the
/// reference as a JSON string literal, the names of the tier and the role,
/// the expiry as a decimal integer), so it is always signed.
#[verifier::external_body]
fn encode_hs256(key: &[u8], claims_json: &str) -> (r: Result<String, jsonwebtoken::errors::Error>)
    ensures
        match r {
            Ok(t) => hs256_token(key@, claims_json@) == Some(t@),
            Err(_) => hs256_token(key@, claims_json@) is None,
        },
        forall|c: Claims| #![trigger claims_text(c)] claims_json@ == claims_text(c) ==> r is Ok,
        r matches Ok(t) ==> hs256_signed(key@, t@),
{
    let raw = serde_json::value::RawValue::from_string(claims_json.to_string())?;
    let header = jsonwebtoken::Header::default();
    jsonwebtoken::encode(&header, &raw, &jsonwebtoken::EncodingKey::from_secret(key))
}

/// Calls `jsonwebtoken::decode` into a `RawValue` with
/// `DecodingKey::from_secret(key)` and `Validation::default()` (HS256, expiry
/// checked against the clock), and returns the claims text. Whether it
/// succeeds depends on the clock and is left unsaid. What is stated: it
/// succeeds only on a token whose HS256 signature checks under the key
/// (`hs256_signed`); and on a token that `encode` issued for a claims text
/// that begins with `{` and ends with `}`, a success gives back exactly that
/// text.
#[verifier::external_body]
fn decode_hs256(key: &[u8], token: &str) -> (r: Result<String, jsonwebtoken::errors::Error>)
    ensures
        r is Ok ==> hs256_signed(key@, token@),
        forall|j: Seq<char>|
            #![trigger hs256_token(key@, j)]
            hs256_token(key@, j) == Some(token@) && j.len() > 0 && j[0] == '{' && j.last() == '}'
                ==> (r matches Ok(c) ==> c@ == j),
{
    let key = jsonwebtoken::DecodingKey::from_secret(key);
    let validation = jsonwebtoken::Validation::default();
    let data = jsonwebtoken::decode::<Box<serde_json::value::RawValue>>(token, &key, &validation)?;
    Ok(data.claims.get().to_string())
}

/// The JSON text of claims: one object with the fields in declaration order,
/// the tiers and roles by name, the expiry in decimal.
pub open spec fn claims_text(c: Claims) -> Seq<char> {
    "{\"customer_ref\":"@ + json_string_literal(c.customer_ref@) + ",\"subscription_type\":\""@
        + subscription_name(c.subscription_type) + "\",\"role\":\""@ + role_name(c.role)
        + "\",\"exp\":"@ + decimal_text(c.exp as int) + "}"@
}

/// The member names of a claims object, as a JSON reader compares them.
pub open spec fn customer_ref_key() -> Seq<char> {
    seq!['c', 'u', 's', 't', 'o', 'm', 'e', 'r', '_', 'r', 'e', 'f']
}

/// See `customer_ref_key`.
pub open spec fn subscription_type_key() -> Seq<char> {
    seq!['s', 'u', 'b', 's', 'c', 'r', 'i', 'p', 't', 'i', 'o', 'n', '_', 't', 'y', 'p', 'e']
}

/// See `customer_ref_key`.
pub open spec fn role_key() -> Seq<char> {
    seq!['r', 'o', 'l', 'e']
}

/// See `customer_ref_key`.
pub open spec fn exp_key() -> Seq<char> {
    seq!['e', 'x', 'p']
}

/// Reads a claims object as a JSON reader sees it: `{`, then the members
/// `customer_ref`, `subscription_type` and `role` with string values, then
/// `exp` with a decimal integer value, then `}`. Gives the three string
/// values as written (escapes kept) and the expiry; `None` for any other text.
pub open spec fn read_claims_object(t: Seq<char>) -> Option<(Seq<char>, Seq<char>, Seq<char>, int)> {
    if t.len() > 0 && t[0] == '{' {
        match read_string_member(t.drop_first()) {
            Some((k1, v1, r1)) => if k1 == customer_ref_key() && r1.len() > 0 && r1[0] == ',' {
                match read_string_member(r1.drop_first()) {
                    Some((k2, v2, r2)) => if k2 == subscription_type_key() && r2.len() > 0 && r2[0] == ',' {
                        match read_string_member(r2.drop_first()) {
                            Some((k3, v3, r3)) => if k3 == role_key() && r3.len() > 0 && r3[0] == ',' {
                                match read_member_key(r3.drop_first()) {
                                    Some((k4, r4)) => if k4 == exp_key() && r4.len() > 0 && r4.last() == '}' {
                                        match read_decimal(r4.drop_last()) {
                                            Some(e) => Some((v1, v2, v3, e)),
                                            None => None,
                                        }
                                    } else {
                                        None
                                    },
                                    None => None,
                                }
                            } else {
                                None
                            },
                            None => None,
                        }
                    } else {
                        None
                    },
                    None => None,
                }
            } else {
                None
            },
            None => None,
        }
    } else {
        None
    }
}

/// The literal pieces of a claims text, character by character.
proof fn lemma_claims_text_pieces()
    ensures
        "{\"customer_ref\":"@ =~= seq!['{', '"', 'c', 'u', 's', 't', 'o', 'm', 'e', 'r', '_', 'r', 'e', 'f', '"', ':'],
        ",\"subscription_type\":\""@ =~= seq![',', '"', 's', 'u', 'b', 's', 'c', 'r', 'i', 'p', 't', 'i', 'o', 'n', '_', 't', 'y', 'p', 'e', '"', ':', '"'],
        "\",\"role\":\""@ =~= seq!['"', ',', '"', 'r', 'o', 'l', 'e', '"', ':', '"'],
        "\",\"exp\":"@ =~= seq!['"', ',', '"', 'e', 'x', 'p', '"', ':'],
        "}"@ =~= seq!['}'],
{
    reveal_strlit("{\"customer_ref\":");
    reveal_strlit(",\"subscription_type\":\"");
    reveal_strlit("\",\"role\":\"");
    reveal_strlit("\",\"exp\":");
    reveal_strlit("}");
}

/// Member names, tier names and role names stand for themselves in JSON.
proof fn lemma_claims_words_plain(t: SubscriptionType, r: RolesEnum)
    ensures
        is_plain_json_text(customer_ref_key()),
        is_plain_json_text(subscription_type_key()),
        is_plain_json_text(role_key()),
        is_plain_json_text(exp_key()),
        is_plain_json_text(subscription_name(t)),
        is_plain_json_text(role_name(r)),
{
    reveal_strlit("Basic");
    reveal_strlit("Standard");
    reveal_strlit("Premium");
    reveal_strlit("InvalidSubscription");
    reveal_strlit("Admin");
    reveal_strlit("Customer");
    reveal_strlit("InvalidRole");
    assert(subscription_name(t).len() > 0);
    assert(role_name(r).len() > 0);
}

/// A member `"key":"value"` whose key and value stand for themselves.
proof fn lemma_read_plain_member(key: Seq<char>, value: Seq<char>, rest: Seq<char>)
    requires
        is_plain_json_text(key),
        is_plain_json_text(value),
    ensures
        read_string_member(seq!['"'] + key + seq!['"', ':', '"'] + value + seq!['"'] + rest) == Some(
            (key, value, rest),
        ),
{
    let s = seq!['"'] + key + seq!['"', ':', '"'] + value + seq!['"'] + rest;
    let after_key = seq![':', '"'] + value + seq!['"'] + rest;
    assert(s.drop_first() =~= key + seq!['"'] + after_key);
    lemma_scan_plain_string(key, after_key);
    assert(after_key.drop_first().drop_first() =~= value + seq!['"'] + rest);
    lemma_scan_plain_string(value, rest);
}

/// A claims object laid out member by member.
pub open spec fn claims_layout(esc: Seq<char>, tier: Seq<char>, role: Seq<char>, dec: Seq<char>) -> Seq<char> {
    seq!['{'] + claims_after_brace(esc, tier, role, dec)
}

/// What follows the opening brace of `claims_layout`.
pub open spec fn claims_after_brace(esc: Seq<char>, tier: Seq<char>, role: Seq<char>, dec: Seq<char>) -> Seq<char> {
    seq!['"'] + customer_ref_key() + seq!['"', ':', '"'] + esc + seq!['"'] + claims_after_reference(tier, role, dec)
}

/// What follows the reference member of `claims_layout`.
pub open spec fn claims_after_reference(tier: Seq<char>, role: Seq<char>, dec: Seq<char>) -> Seq<char> {
    seq![','] + seq!['"'] + subscription_type_key() + seq!['"', ':', '"'] + tier + seq!['"'] + claims_after_tier(role, dec)
}

/// What follows the tier member of `claims_layout`.
pub open spec fn claims_after_tier(role: Seq<char>, dec: Seq<char>) -> Seq<char> {
    seq![','] + seq!['"'] + role_key() + seq!['"', ':', '"'] + role + seq!['"'] + claims_after_role(dec)
}

/// What follows the role member of `claims_layout`.
pub open spec fn claims_after_role(dec: Seq<char>) -> Seq<char> {
    seq![','] + seq!['"'] + exp_key() + seq!['"', ':'] + dec + seq!['}']
}

/// The text of claims is laid out member by member.
proof fn lemma_claims_text_layout(c: Claims)
    ensures
        claims_text(c) == claims_layout(
            json_escaped(c.customer_ref@),
            subscription_name(c.subscription_type),
            role_name(c.role),
            decimal_text(c.exp as int),
        ),
{
    lemma_claims_text_pieces();
    assert(claims_text(c) =~= claims_layout(
        json_escaped(c.customer_ref@),
        subscription_name(c.subscription_type),
        role_name(c.role),
        decimal_text(c.exp as int),
    ));
}

/// Reading the expiry member at the end of a claims object.
proof fn lemma_read_expiry_member(dec: Seq<char>)
    ensures
        read_member_key(claims_after_role(dec).drop_first()) == Some((exp_key(), dec + seq!['}'])),
{
    lemma_claims_words_plain(SubscriptionType::Basic, RolesEnum::Admin);
    let q = seq!['"'];
    let after = seq![':'] + dec + seq!['}'];
    assert(claims_after_role(dec).drop_first() =~= q + exp_key() + q + after);
    assert((q + exp_key() + q + after).drop_first() =~= exp_key() + q + after);
    lemma_scan_plain_string(exp_key(), after);
    assert(after.drop_first() =~= dec + seq!['}']);
}

/// Reading a laid-out claims object gives back its parts.
proof fn lemma_read_claims_layout(x: Seq<char>, tier: Seq<char>, role: Seq<char>, dec: Seq<char>, e: int)
    requires
        is_plain_json_text(tier),
        is_plain_json_text(role),
        read_decimal(dec) == Some(e),
    ensures
        read_claims_object(claims_layout(json_escaped(x), tier, role, dec)) == Some(
            (json_escaped(x), tier, role, e),
        ),
{
    lemma_claims_words_plain(SubscriptionType::Basic, RolesEnum::Admin);
    let q = seq!['"'];
    let esc = json_escaped(x);
    let b = claims_after_reference(tier, role, dec);
    let cc = claims_after_tier(role, dec);
    let d = claims_after_role(dec);
    let t = claims_layout(esc, tier, role, dec);
    let s1 = claims_after_brace(esc, tier, role, dec);
    assert(t.drop_first() =~= s1);
    let after_k1 = seq![':', '"'] + esc + q + b;
    assert(s1.drop_first() =~= customer_ref_key() + q + after_k1);
    lemma_scan_plain_string(customer_ref_key(), after_k1);
    assert(after_k1.drop_first().drop_first() =~= esc + q + b);
    lemma_scan_json_escaped(x, b);
    assert(read_string_member(s1) == Some((customer_ref_key(), esc, b)));
    assert(b.drop_first() =~= q + subscription_type_key() + seq!['"', ':', '"'] + tier + q + cc);
    lemma_read_plain_member(subscription_type_key(), tier, cc);
    assert(cc.drop_first() =~= q + role_key() + seq!['"', ':', '"'] + role + q + d);
    lemma_read_plain_member(role_key(), role, d);
    lemma_read_expiry_member(dec);
    assert((dec + seq!['}']).drop_last() =~= dec);
}

/// Reading the text of claims as a JSON object gives back the claims: the
/// customer reference escaped as a JSON string, the names of the tier and
/// the role (which read back as that tier and that role), and the expiry.
pub proof fn lemma_claims_text_reads_back(c: Claims)
    ensures
        read_claims_object(claims_text(c)) == Some(
            (
                json_escaped(c.customer_ref@),
                subscription_name(c.subscription_type),
                role_name(c.role),
                c.exp as int,
            ),
        ),
        subscription_from_name(read_claims_object(claims_text(c))->Some_0.1) == c.subscription_type,
        role_from_name(read_claims_object(claims_text(c))->Some_0.2) == c.role,
        json_unescape(read_claims_object(claims_text(c))->Some_0.0) == Some(c.customer_ref@),
{
    lemma_json_escaped_reads_back(c.customer_ref@);
    lemma_claims_text_layout(c);
    lemma_claims_words_plain(c.subscription_type, c.role);
    lemma_subscription_name_round_trip(c.subscription_type);
    lemma_role_name_round_trip(c.role);
    lemma_decimal_text_reads_back(c.exp as int);
    lemma_read_claims_layout(
        c.customer_ref@,
        subscription_name(c.subscription_type),
        role_name(c.role),
        decimal_text(c.exp as int),
        c.exp as int,
    );
}

/// The token that the service issues for given claims.
pub open spec fn issued_token(c: Claims) -> Option<Seq<char>> {
    hs256_token(secret_key_bytes(), claims_text(c))
}

/// A claims text is a JSON object: it opens with `{` and closes with `}`.
pub proof fn lemma_claims_text_is_braced(c: Claims)
    ensures
        claims_text(c).len() > 0,
        claims_text(c)[0] == '{',
        claims_text(c).last() == '}',
{
    reveal_strlit("{\"customer_ref\":");
    reveal_strlit("}");
    let head = "{\"customer_ref\":"@;
    let t = claims_text(c);
    assert(head.len() > 0 && head[0] == '{');
    assert("}"@.len() == 1 && "}"@[0] == '}');
    assert(t[0] == head[0]);
    assert(t.last() == "}"@[0]);
}

impl AuthenticateUser {
    /// The claims for a customer at time `now`: the expiry lies
    /// `TOKEN_LIFETIME_HOURS` later; `None` where that is outside chrono's range.
    pub fn claims_at(
        customer_ref: String,
        subscription_type: SubscriptionType,
        role: RolesEnum,
        now: i64,
    ) -> (r: Option<Claims>)
        ensures
            match r {
                Some(c) => expiry_after(now as int) == Some(c.exp) && c.customer_ref@
                    == customer_ref@ && c.subscription_type == subscription_type && c.role == role,
                None => expiry_after(now as int) is None,
            },
    {
        match timestamp_after_hours(now, TOKEN_LIFETIME_HOURS) {
            Some(exp) => Some(Claims { customer_ref, subscription_type, role, exp }),
            None => None,
        }
    }

    /// Writes claims as the JSON text that the token carries. Read as a
    /// JSON object, the text gives back the claims: the reference, the tier
    /// and the role by name, and the expiry.
    pub fn claims_json(claims: &Claims) -> (s: String)
        ensures
            s@ == claims_text(*claims),
            read_claims_object(s@) matches Some((reference, tier, role, exp)) && json_unescape(reference)
                == Some(claims.customer_ref@) && tier == subscription_name(claims.subscription_type)
                && subscription_from_name(tier) == claims.subscription_type && role == role_name(claims.role)
                && role_from_name(role) == claims.role && exp == claims.exp,
    {
        proof {
            lemma_claims_text_reads_back(*claims);
        }
        let quoted = json_quote(claims.customer_ref.as_str()).unwrap();
        let mut s = String::from_str("{\"customer_ref\":");
        s.append(quoted.as_str());
        s.append(",\"subscription_type\":\"");
        s.append(claims.subscription_type.to_string().as_str());
        s.append("\",\"role\":\"");
        s.append(claims.role.to_string().as_str());
        s.append("\",\"exp\":");
        s.append(decimal_string(claims.exp).as_str());
        s.append("}");
        s
    }

    /// Signs claims with the service's secret; this always succeeds, and the
    /// token's signature checks under that secret.
    pub fn sign_claims(claims: &Claims) -> (r: Result<String, AuthError>)
        ensures
            r is Ok,
            issued_token(*claims) == Some(r->Ok_0@),
            hs256_signed(secret_key_bytes(), r->Ok_0@),
    {
        let text = Self::claims_json(claims);
        match encode_hs256(SECRET_KEY.as_bytes(), text.as_str()) {
            Ok(t) => Ok(t),
            Err(e) => Err(AuthError::Token(e)),
        }
    }

    /// Issues a token at time `now` for a customer.
    pub fn generate_jwt_at(
        customer_ref: String,
        subscription_type: SubscriptionType,
        role: RolesEnum,
        now: i64,
    ) -> (r: Result<String, AuthError>)
        ensures
            token_outcome(customer_ref@, subscription_type, role, now as int, r),
    {
        match Self::claims_at(customer_ref, subscription_type, role, now) {
            Some(claims) => Self::sign_claims(&claims),
            None => Err(AuthError::TimestampInvalid),
        }
    }

    /// Issues a token, valid for `TOKEN_LIFETIME_HOURS` from now, for a
    /// customer.
    pub fn generate_jwt(
        customer_ref: String,
        subscription_type: SubscriptionType,
        role: RolesEnum,
    ) -> (r: Result<String, AuthError>)
        ensures
            exists|now: int|
                representable_timestamp(now) && token_outcome(
                    customer_ref@,
                    subscription_type,
                    role,
                    now,
                    r,
                ),
    {
        let now = current_timestamp();
        Self::generate_jwt_at(customer_ref, subscription_type, role, now)
    }

    /// Checks this token's signature and expiry and returns the claims text
    /// it carries, for the caller to read as `Claims`. It fails on any token
    /// not signed under the service's secret. On a token that the service issued for some claims, a success
    /// gives back exactly the text of those claims.
    pub fn decode_token(&self) -> (r: Result<String, AuthError>)
        ensures
            r is Ok ==> hs256_signed(secret_key_bytes(), self.token@),
            forall|c: Claims|
                #![trigger issued_token(c)]
                issued_token(c) == Some(self.token@) ==> (r matches Ok(j) ==> j@ == claims_text(c)),
            r matches Err(e) ==> e is Token,
    {
        proof {
            assert forall|c: Claims| #[trigger] issued_token(c) == Some(self.token@) implies claims_text(c).len() > 0
                && claims_text(c)[0] == '{' && claims_text(c).last() == '}' by {
                lemma_claims_text_is_braced(c);
            }
        }
        match decode_hs256(SECRET_KEY.as_bytes(), self.token.as_str()) {
            Ok(j) => Ok(j),
            Err(e) => Err(AuthError::Token(e)),
        }
    }

    /// Whether claims are still valid at time `now`: their expiry lies after it.
    pub fn is_valid_at(claims: &Claims, now: i64) -> (r: bool)
        ensures
            r == (claims.exp > now),
    {
        claims.exp > now
    }

    /// Whether claims are still valid now, by the clock.
    pub fn is_valid(claims: &Claims) -> (r: bool)
        ensures
            exists|now: int| representable_timestamp(now) && r == (claims.exp > now),
    {
        let now = current_timestamp();
        Self::is_valid_at(claims, now)
    }
}

/// What issuing a token at `now` gives: an error where the expiry is out of
/// range; else the token signed over the claims with that expiry.
pub open spec fn token_outcome(
    customer_ref: Seq<char>,
    subscription_type: SubscriptionType,
    role: RolesEnum,
    now: int,
    r: Result<String, AuthError>,
) -> bool {
    match expiry_after(now) {
        None => r matches Err(e) && e is TimestampInvalid,
        Some(exp) => r is Ok && forall|c: Claims|
            #![trigger claims_text(c)]
            c.customer_ref@ == customer_ref && c.subscription_type == subscription_type && c.role
                == role && c.exp == exp ==> issued_token(c) == Some(r->Ok_0@),
    }
}

/// Claims issued at `now` are valid at every instant before their expiry,
/// `now` included, and at none from the expiry on.
pub proof fn lemma_issued_claims_valid_for_lifetime(now: int, exp: i64, t: int)
    requires
        expiry_after(now) == Some(exp),
    ensures
        exp == now + TOKEN_LIFETIME_HOURS * 3600,
        (exp > t) <==> t < now + TOKEN_LIFETIME_HOURS * 3600,
        exp > now,
{
}

} // verus!
