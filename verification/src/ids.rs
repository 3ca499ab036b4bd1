//! Identifiers of the form `<prefix>_<decimal counter>`, and session id
//! suffixes drawn from the clock.

use std::time::{Duration, SystemTime};
use vstd::prelude::*;

verus! {

/// The decimal digit character of `d` (for `d < 10`).
pub open spec fn digit_char(d: nat) -> char {
    ((48 + d) as u32) as char
}

/// The decimal notation of `n`, without leading zeros.
pub open spec fn decimal_text(n: nat) -> Seq<char>
    decreases n,
{
    if n < 10 {
        seq![digit_char(n)]
    } else {
        decimal_text(n / 10).push(digit_char(n % 10))
    }
}

/// The identifier `<prefix>_<n>`.
pub open spec fn id_text(prefix: Seq<char>, n: nat) -> Seq<char> {
    prefix + seq!['_'] + decimal_text(n)
}

proof fn lemma_digit_char_injective(a: nat, b: nat)
    requires
        a < 10,
        b < 10,
        digit_char(a) == digit_char(b),
    ensures
        a == b,
{
    assert(digit_char(a) as u32 == 48 + a);
    assert(digit_char(b) as u32 == 48 + b);
}

/// Decimal notation is injective.
pub proof fn lemma_decimal_text_injective(a: nat, b: nat)
    requires
        decimal_text(a) == decimal_text(b),
    ensures
        a == b,
    decreases a + b,
{
    let ta = decimal_text(a);
    let tb = decimal_text(b);
    if a < 10 && b < 10 {
        assert(ta[0] == tb[0]);
        lemma_digit_char_injective(a, b);
    } else if a < 10 {
        lemma_decimal_text_nonempty(b / 10);
        assert(tb.len() >= 2);
        assert(ta.len() == 1);
    } else if b < 10 {
        lemma_decimal_text_nonempty(a / 10);
        assert(ta.len() >= 2);
        assert(tb.len() == 1);
    } else {
        assert(ta.last() == digit_char(a % 10));
        assert(tb.last() == digit_char(b % 10));
        lemma_digit_char_injective(a % 10, b % 10);
        assert(ta.drop_last() =~= decimal_text(a / 10));
        assert(tb.drop_last() =~= decimal_text(b / 10));
        lemma_decimal_text_injective(a / 10, b / 10);
    }
}

proof fn lemma_decimal_text_nonempty(n: nat)
    ensures
        decimal_text(n).len() >= 1,
    decreases n,
{
    if n >= 10 {
        lemma_decimal_text_nonempty(n / 10);
    }
}

/// Identifiers with the same prefix and different counters differ.
pub proof fn lemma_id_text_injective(prefix: Seq<char>, a: nat, b: nat)
    requires
        id_text(prefix, a) == id_text(prefix, b),
    ensures
        a == b,
{
    let ia = id_text(prefix, a);
    let k = prefix.len() + 1;
    assert(ia.subrange(k as int, ia.len() as int) =~= decimal_text(a));
    assert(id_text(prefix, b).subrange(k as int, ia.len() as int) =~= decimal_text(b));
    lemma_decimal_text_injective(a, b);
}

fn digit_str(d: u64) -> (s: &'static str)
    requires
        d < 10,
    ensures
        s@ == seq![digit_char(d as nat)],
{
    proof {
        reveal_strlit("0");
        reveal_strlit("1");
        reveal_strlit("2");
        reveal_strlit("3");
        reveal_strlit("4");
        reveal_strlit("5");
        reveal_strlit("6");
        reveal_strlit("7");
        reveal_strlit("8");
        reveal_strlit("9");
    }
    let s = if d == 0 {
        "0"
    } else if d == 1 {
        "1"
    } else if d == 2 {
        "2"
    } else if d == 3 {
        "3"
    } else if d == 4 {
        "4"
    } else if d == 5 {
        "5"
    } else if d == 6 {
        "6"
    } else if d == 7 {
        "7"
    } else if d == 8 {
        "8"
    } else {
        "9"
    };
    assert(s@ =~= seq![digit_char(d as nat)]);
    s
}

/// Append the decimal notation of `n` to `out`.
pub fn push_decimal(out: &mut String, n: u64)
    ensures
        final(out)@ == old(out)@ + decimal_text(n as nat),
    decreases n,
{
    if n >= 10 {
        push_decimal(out, n / 10);
    }
    out.append(digit_str(n % 10));
    assert(decimal_text(n as nat) == if n < 10 {
        seq![digit_char(n as nat)]
    } else {
        decimal_text((n / 10) as nat).push(digit_char((n % 10) as nat))
    });
    proof {
        if n >= 10 {
            assert(old(out)@ + decimal_text((n / 10) as nat) + seq![digit_char((n % 10) as nat)]
                =~= old(out)@ + decimal_text(n as nat));
        } else {
            assert(old(out)@ + seq![digit_char((n % 10) as nat)] =~= old(out)@ + decimal_text(
                n as nat,
            ));
        }
    }
}

/// The identifier `<prefix>_<n>`.
pub fn make_id(prefix: &str, n: u64) -> (id: String)
    ensures
        id@ == id_text(prefix@, n as nat),
{
    let mut id = String::from_str(prefix);
    id.append("_");
    proof {
        reveal_strlit("_");
    }
    push_decimal(&mut id, n);
    assert(id@ =~= id_text(prefix@, n as nat));
    id
}

// ------------------------------------------------------------------
// Session id suffixes from the clock
// ------------------------------------------------------------------

/// The lower-case hexadecimal digit character of `d` (for `d < 16`).
pub open spec fn hex_char(d: nat) -> char {
    if d < 10 {
        digit_char(d)
    } else {
        ((87 + d) as u32) as char
    }
}

/// The last `width` hexadecimal digits of `n`, most significant first,
/// padded with zeros.
pub open spec fn hex_digits(n: nat, width: nat) -> Seq<char>
    decreases width,
{
    if width == 0 {
        Seq::empty()
    } else {
        hex_digits(n / 16, (width - 1) as nat).push(hex_char(n % 16))
    }
}

/// The id suffix made from a sub-second nanosecond count: the count in eight
/// hexadecimal digits, then its bits 16 to 31 in four.
pub open spec fn clock_id_text(nanos: u32) -> Seq<char> {
    hex_digits(nanos as nat, 8) + hex_digits(((nanos as nat) / 65536) % 65536, 4)
}

fn hex_digit_str(d: u64) -> (s: &'static str)
    requires
        d < 16,
    ensures
        s@ == seq![hex_char(d as nat)],
{
    if d < 10 {
        return digit_str(d);
    }
    proof {
        reveal_strlit("a");
        reveal_strlit("b");
        reveal_strlit("c");
        reveal_strlit("d");
        reveal_strlit("e");
        reveal_strlit("f");
    }
    let s = if d == 10 {
        "a"
    } else if d == 11 {
        "b"
    } else if d == 12 {
        "c"
    } else if d == 13 {
        "d"
    } else if d == 14 {
        "e"
    } else {
        "f"
    };
    assert(s@ =~= seq![hex_char(d as nat)]);
    s
}

/// Append the last `width` hexadecimal digits of `n`, zero-padded, to `out`.
pub fn push_hex(out: &mut String, n: u64, width: u32)
    ensures
        final(out)@ == old(out)@ + hex_digits(n as nat, width as nat),
    decreases width,
{
    if width == 0 {
        assert(old(out)@ + hex_digits(n as nat, 0) =~= old(out)@);
        return;
    }
    push_hex(out, n / 16, width - 1);
    out.append(hex_digit_str(n % 16));
    assert(old(out)@ + hex_digits((n / 16) as nat, (width - 1) as nat) + seq![
        hex_char((n % 16) as nat),
    ] =~= old(out)@ + hex_digits(n as nat, width as nat));
}

/// The id suffix for a sub-second nanosecond count, as `clock_id_text` says.
pub fn clock_id(nanos: u32) -> (id: String)
    ensures
        id@ == clock_id_text(nanos),
{
    let high: u32 = (nanos >> 16) & 0xFFFF;
    assert(high == (nanos / 65536) % 65536) by (bit_vector)
        requires
            high == (nanos >> 16) & 0xFFFF,
    ;
    let mut id = String::new();
    push_hex(&mut id, nanos as u64, 8);
    push_hex(&mut id, high as u64, 4);
    assert(id@ =~= clock_id_text(nanos));
    id
}

#[verifier::external_type_specification]
#[verifier::external_body]
pub struct ExSystemTime(SystemTime);

/// `SystemTime::now`: the current time of the system clock. Nothing is
/// promised of it.
#[verifier::external_body]
fn system_now() -> (t: SystemTime) {
    SystemTime::now()
}

/// `SystemTime::duration_since(UNIX_EPOCH)`: the time elapsed since the Unix
/// epoch, or `None` when `t` lies before it. Nothing is promised of the value.
#[verifier::external_body]
fn since_unix_epoch(t: &SystemTime) -> (d: Option<Duration>) {
    t.duration_since(std::time::UNIX_EPOCH).ok()
}

/// `Duration::subsec_nanos`: the fractional part of `d` in nanoseconds, which
/// std documents to be less than one billion.
#[verifier::external_body]
fn subsec_nanos(d: &Duration) -> (n: u32)
    ensures
        n < 1_000_000_000,
{
    d.subsec_nanos()
}

/// A session id suffix drawn from the clock: `clock_id_text` of the
/// sub-second nanoseconds since the Unix epoch (zero when the clock reads
/// before the epoch).
pub fn uuid_simple() -> (id: String)
    ensures
        exists|nanos: u32| nanos < 1_000_000_000 && id@ == clock_id_text(nanos),
{
    let now = system_now();
    let nanos: u32 = match since_unix_epoch(&now) {
        Some(d) => subsec_nanos(&d),
        None => 0,
    };
    clock_id(nanos)
}

} // verus!
