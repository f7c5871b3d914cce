use vstd::prelude::*;
use vstd::string::*;

use crate::format::WavSpec;

verus! {

/// The character of decimal digit `d`.
pub open spec fn digit_char(d: nat) -> char {
    if d == 0 {
        '0'
    } else if d == 1 {
        '1'
    } else if d == 2 {
        '2'
    } else if d == 3 {
        '3'
    } else if d == 4 {
        '4'
    } else if d == 5 {
        '5'
    } else if d == 6 {
        '6'
    } else if d == 7 {
        '7'
    } else if d == 8 {
        '8'
    } else {
        '9'
    }
}

/// `n` written in decimal, without leading zeros.
pub open spec fn decimal(n: nat) -> Seq<char>
    decreases n,
{
    if n < 10 {
        seq![digit_char(n)]
    } else {
        decimal(n / 10) + seq![digit_char(n % 10)]
    }
}

/// The index of the first `-` in `s` at or after `from`, or the length of `s`.
pub open spec fn dash_index(s: Seq<char>, from: int) -> int
    decreases s.len() - from,
{
    if from >= s.len() {
        s.len() as int
    } else if s[from] == '-' {
        from
    } else {
        dash_index(s, from + 1)
    }
}

/// What comes before the first `-` of a request id: all of it where it has none.
pub open spec fn id_prefix(s: Seq<char>) -> Seq<char> {
    s.subrange(0, dash_index(s, 0))
}

/// The separator between the parts of a partition key.
pub open spec fn key_separator() -> Seq<char> {
    seq!['_']
}

/// The partition key of a generated file: the request id's prefix, then the
/// channel count, sample rate and bit depth in decimal, joined by `_`.
pub open spec fn partition_key(spec: WavSpec, request_id: Seq<char>) -> Seq<char> {
    id_prefix(request_id) + key_separator() + decimal(spec.number_of_channels as nat)
        + key_separator() + decimal(spec.sample_rate as nat) + key_separator() + decimal(
        spec.bits_per_sample as nat,
    )
}

fn digit_str(d: u32) -> (r: &'static str)
    requires
        d < 10,
    ensures
        r@ == seq![digit_char(d as nat)],
{
    proof {
        reveal_strlit("0");
        reveal_strlit("1");
        reveal_strlit("2");
        reveal_strlit("3");
        reveal_strlit("4");
        reveal_strlit("5");
        reveal_strlit("6");
        reveal_strlit("7");
        reveal_strlit("8");
        reveal_strlit("9");
    }
    if d == 0 {
        "0"
    } else if d == 1 {
        "1"
    } else if d == 2 {
        "2"
    } else if d == 3 {
        "3"
    } else if d == 4 {
        "4"
    } else if d == 5 {
        "5"
    } else if d == 6 {
        "6"
    } else if d == 7 {
        "7"
    } else if d == 8 {
        "8"
    } else {
        "9"
    }
}

/// Appends `n` in decimal.
fn append_decimal(out: &mut String, n: u32)
    ensures
        final(out)@ == old(out)@ + decimal(n as nat),
    decreases n,
{
    if n >= 10 {
        append_decimal(out, n / 10);
    }
    out.append(digit_str(n % 10));
    assert(final(out)@ =~= old(out)@ + decimal(n as nat));
}

/// Builds the partition key of a generated file from its format and the id of
/// the request that asked for it.
pub fn create_partition_key(spec: &WavSpec, request_id: &str) -> (r: String)
    ensures
        r@ == partition_key(*spec, request_id@),
{
    let len = request_id.unicode_len();
    let mut i: usize = 0;
    while i < len && request_id.get_char(i) != '-'
        invariant
            len == request_id@.len(),
            0 <= i <= len,
            dash_index(request_id@, i as int) == dash_index(request_id@, 0),
        decreases len - i,
    {
        i = i + 1;
    }
    assert(dash_index(request_id@, i as int) == i);
    let prefix = request_id.substring_char(0, i);
    let sep = "_";
    proof {
        reveal_strlit("_");
    }
    let mut key = String::from_str(prefix);
    key.append(sep);
    append_decimal(&mut key, spec.number_of_channels as u32);
    key.append(sep);
    append_decimal(&mut key, spec.sample_rate);
    key.append(sep);
    append_decimal(&mut key, spec.bits_per_sample as u32);
    assert(key@ =~= partition_key(*spec, request_id@));
    key
}

/// Turns the `(is_pm, hour)` of a 12-hour clock, hour in `1..=12`, into an hour
/// count: `hour + 11` after noon, `hour - 1` before.
pub fn hour12_to_hour24(time: (bool, u32)) -> (r: u32)
    requires
        1 <= time.1 <= 12,
    ensures
        r == if time.0 {
            time.1 + 11
        } else {
            time.1 - 1
        },
{
    let (is_pm, hr) = time;
    if is_pm {
        hr + 11
    } else {
        hr - 1
    }
}

} // verus!
