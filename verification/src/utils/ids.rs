use vstd::prelude::*;
use vstd::arithmetic::div_mod::{lemma_mod_breakdown, lemma_small_mod};

verus! {

/// The value of a hexadecimal digit, in either case.
pub open spec fn hex_value(c: char) -> Option<int> {
    if '0' <= c && c <= '9' {
        Some(c as int - '0' as int)
    } else if 'a' <= c && c <= 'f' {
        Some(c as int - 'a' as int + 10)
    } else if 'A' <= c && c <= 'F' {
        Some(c as int - 'A' as int + 10)
    } else {
        None
    }
}

/// The number that a run of hexadecimal digits stands for, most significant first.
pub open spec fn hex_run_value(s: Seq<char>) -> Option<int>
    decreases s.len(),
{
    if s.len() == 0 {
        Some(0)
    } else {
        match (hex_run_value(s.drop_last()), hex_value(s.last())) {
            (Some(v), Some(d)) => Some(v * 16 + d),
            _ => None,
        }
    }
}

/// Whether `t` has the shape of a hyphenated UUID: 36 characters with hyphens at
/// positions 8, 13, 18 and 23.
pub open spec fn is_hyphenated_shape(t: Seq<char>) -> bool {
    t.len() == 36 && t[8] == '-' && t[13] == '-' && t[18] == '-' && t[23] == '-'
}

/// The 32 digits of a hyphenated UUID, without its hyphens.
pub open spec fn hyphenated_digits(t: Seq<char>) -> Seq<char> {
    t.subrange(0, 8) + t.subrange(9, 13) + t.subrange(14, 18) + t.subrange(19, 23) + t.subrange(24, 36)
}

pub open spec fn ascii_lower(c: char) -> char {
    if 'A' <= c && c <= 'Z' {
        ((c as int) + 32) as char
    } else {
        c
    }
}

/// Whether `p` is `urn:uuid:`, ignoring ASCII case.
pub open spec fn is_urn_prefix(p: Seq<char>) -> bool {
    p.len() == 9 && forall|i: int| 0 <= i < 9 ==> #[trigger] ascii_lower(p[i]) == "urn:uuid:"@[i]
}

/// The 32 digits of a UUID written simple (32 digits), hyphenated, hyphenated in
/// braces, or hyphenated after `urn:uuid:`.
pub open spec fn uuid_digits(s: Seq<char>) -> Option<Seq<char>> {
    if s.len() == 32 {
        Some(s)
    } else if s.len() == 36 {
        if is_hyphenated_shape(s) { Some(hyphenated_digits(s)) } else { None }
    } else if s.len() == 38 && s[0] == '{' && s[37] == '}' && is_hyphenated_shape(s.subrange(1, 37)) {
        Some(hyphenated_digits(s.subrange(1, 37)))
    } else if s.len() == 45 && is_urn_prefix(s.take(9)) && is_hyphenated_shape(s.skip(9)) {
        Some(hyphenated_digits(s.skip(9)))
    } else {
        None
    }
}

/// The UUID, as a number, that text stands for, as `uuid::Uuid::parse_str` reads it.
pub open spec fn spec_parse_uuid(s: Seq<char>) -> Option<u128> {
    match uuid_digits(s) {
        Some(d) => match hex_run_value(d) {
            Some(v) => Some(v as u128),
            None => None,
        },
        None => None,
    }
}

/// The lower-case hexadecimal digit for `d`, where `0 <= d < 16`.
pub open spec fn hex_char(d: int) -> char {
    if d < 10 {
        ('0' as int + d) as char
    } else {
        ('a' as int + d - 10) as char
    }
}

/// The last `n` hexadecimal digits of `x`, most significant first.
pub open spec fn hex_digits(x: nat, n: nat) -> Seq<char>
    decreases n,
{
    if n == 0 {
        Seq::empty()
    } else {
        hex_digits(x / 16, (n - 1) as nat).push(hex_char((x % 16) as int))
    }
}

/// The hyphenated lower-case text of the UUID `id`, as `uuid::Uuid` displays it.
pub open spec fn uuid_hyphenated(id: u128) -> Seq<char> {
    let h = hex_digits(id as nat, 32);
    h.subrange(0, 8) + seq!['-'] + h.subrange(8, 12) + seq!['-'] + h.subrange(12, 16) + seq!['-']
        + h.subrange(16, 20) + seq!['-'] + h.subrange(20, 32)
}

pub open spec fn pow16(n: nat) -> nat
    decreases n,
{
    if n == 0 { 1 } else { (16 * pow16((n - 1) as nat)) as nat }
}

/// Parses a UUID as `uuid::Uuid::parse_str` does, giving it as a number.
///
/// Trusted: calls `uuid::Uuid::parse_str`. The contract states the formats that its
/// source accepts: 32 hexadecimal digits, or the hyphenated form alone, in braces,
/// or after `urn:uuid:` (in any ASCII case), with digits of either case.
#[verifier::external_body]
pub(crate) fn parse_uuid(s: &str) -> (r: Option<u128>)
    ensures
        r == spec_parse_uuid(s@),
{
    uuid::Uuid::parse_str(s).ok().map(|u| u.as_u128())
}

proof fn lemma_hex_char_value(d: int)
    requires
        0 <= d < 16,
    ensures
        hex_value(hex_char(d)) == Some(d),
{
}

proof fn lemma_hex_digits(x: nat, n: nat)
    ensures
        hex_digits(x, n).len() == n,
        hex_run_value(hex_digits(x, n)) == Some((x % pow16(n)) as int),
    decreases n,
{
    if n > 0 {
        lemma_hex_digits(x / 16, (n - 1) as nat);
        lemma_hex_char_value((x % 16) as int);
        let h = hex_digits(x, n);
        assert(h.drop_last() =~= hex_digits(x / 16, (n - 1) as nat));
        assert(pow16((n - 1) as nat) > 0) by {
            lemma_pow16_positive((n - 1) as nat);
        }
        lemma_mod_breakdown(x as int, 16, pow16((n - 1) as nat) as int);
    } else {
        assert(x % 1 == 0);
    }
}

proof fn lemma_pow16_positive(n: nat)
    ensures
        pow16(n) > 0,
    decreases n,
{
    if n > 0 {
        lemma_pow16_positive((n - 1) as nat);
    }
}

/// The hyphenated text of a UUID reads back as that UUID.
pub proof fn lemma_uuid_text_round_trip(id: u128)
    ensures
        spec_parse_uuid(uuid_hyphenated(id)) == Some(id),
{
    let h = hex_digits(id as nat, 32);
    lemma_hex_digits(id as nat, 32);
    assert(pow16(32) == 0x1_0000_0000_0000_0000_0000_0000_0000_0000nat) by {
        reveal_with_fuel(pow16, 33);
    }
    lemma_small_mod(id as nat, pow16(32));
    let t = uuid_hyphenated(id);
    assert(t.len() == 36);
    assert(t[8] == '-');
    assert(t[13] == '-');
    assert(t[18] == '-');
    assert(t[23] == '-');
    assert(hyphenated_digits(t) =~= h);
}

} // verus!
