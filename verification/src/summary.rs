//! The length delta of two texts, its significance, and the one-line summary.

use vstd::prelude::*;
use vstd::string::StringExecFns;
use vstd::utf8::encode_utf8;

verus! {

/// The threshold that applies where the caller names none.
pub const DEFAULT_THRESHOLD: i32 = 10;

/// The length of a text in bytes.
pub open spec fn byte_len(text: Seq<char>) -> nat {
    encode_utf8(text).len()
}

/// By how many bytes `after` is longer than `before`; 0 where it is not.
pub open spec fn chars_added(before: Seq<char>, after: Seq<char>) -> nat {
    if byte_len(after) > byte_len(before) {
        (byte_len(after) - byte_len(before)) as nat
    } else {
        0
    }
}

/// By how many bytes `after` is shorter than `before`; 0 where it is not.
pub open spec fn chars_deleted(before: Seq<char>, after: Seq<char>) -> nat {
    if byte_len(before) > byte_len(after) {
        (byte_len(before) - byte_len(after)) as nat
    } else {
        0
    }
}

/// The absolute difference of the two byte lengths.
pub open spec fn length_delta(before: Seq<char>, after: Seq<char>) -> nat {
    chars_added(before, after) + chars_deleted(before, after)
}

/// A change counts as significant from the threshold on, the threshold included.
pub open spec fn significant(diff_size: nat, threshold: int) -> bool {
    diff_size >= threshold
}

/// The threshold a caller asked for, or the default.
pub open spec fn threshold_of(threshold: Option<i32>) -> int {
    match threshold {
        Some(t) => t as int,
        None => DEFAULT_THRESHOLD as int,
    }
}

/// The character that writes a digit.
pub open spec fn digit_char(d: nat) -> char {
    if d == 0 {
        '0'
    } else if d == 1 {
        '1'
    } else if d == 2 {
        '2'
    } else if d == 3 {
        '3'
    } else if d == 4 {
        '4'
    } else if d == 5 {
        '5'
    } else if d == 6 {
        '6'
    } else if d == 7 {
        '7'
    } else if d == 8 {
        '8'
    } else {
        '9'
    }
}

/// A number in decimal, without leading zeros.
pub open spec fn decimal(n: nat) -> Seq<char>
    decreases n,
{
    if n < 10 {
        seq![digit_char(n)]
    } else {
        decimal(n / 10) + seq![digit_char(n % 10)]
    }
}

/// The summary of a length delta: what was added, else what was deleted, else
/// that nothing changed.
pub open spec fn summary_text(added: nat, deleted: nat) -> Seq<char> {
    if added > 0 {
        "+"@ + decimal(added) + " chars"@
    } else if deleted > 0 {
        "-"@ + decimal(deleted) + " chars"@
    } else {
        "no change"@
    }
}

/// Tells whether a length delta reaches the threshold. A negative threshold is
/// reached by every delta.
pub fn is_significant(diff_size: usize, threshold: i32) -> (b: bool)
    ensures
        b == significant(diff_size as nat, threshold as int),
{
    if threshold < 0 {
        true
    } else {
        diff_size >= threshold as usize
    }
}

fn digit_str(d: usize) -> (s: &'static str)
    requires
        d < 10,
    ensures
        s@ == seq![digit_char(d as nat)],
{
    proof {
        reveal_strlit("0");
        reveal_strlit("1");
        reveal_strlit("2");
        reveal_strlit("3");
        reveal_strlit("4");
        reveal_strlit("5");
        reveal_strlit("6");
        reveal_strlit("7");
        reveal_strlit("8");
        reveal_strlit("9");
    }
    let s = if d == 0 {
        "0"
    } else if d == 1 {
        "1"
    } else if d == 2 {
        "2"
    } else if d == 3 {
        "3"
    } else if d == 4 {
        "4"
    } else if d == 5 {
        "5"
    } else if d == 6 {
        "6"
    } else if d == 7 {
        "7"
    } else if d == 8 {
        "8"
    } else {
        "9"
    };
    assert(s@ =~= seq![digit_char(d as nat)]);
    s
}

/// Writes a number in decimal.
pub fn decimal_string(n: usize) -> (s: String)
    ensures
        s@ == decimal(n as nat),
{
    let mut rest: usize = n / 10;
    let mut s = digit_str(n % 10).to_owned();
    while rest > 0
        invariant
            rest > 0 ==> decimal(n as nat) == decimal(rest as nat) + s@,
            rest == 0 ==> decimal(n as nat) == s@,
        decreases rest,
    {
        let ghost prev = s@;
        let mut t = digit_str(rest % 10).to_owned();
        t.append(s.as_str());
        s = t;
        proof {
            let d = seq![digit_char((rest % 10) as nat)];
            assert(s@ == d + prev);
            if rest >= 10 {
                assert(decimal(rest as nat) == decimal((rest / 10) as nat) + d);
                assert((decimal((rest / 10) as nat) + d) + prev =~= decimal((rest / 10) as nat) + (d
                    + prev));
            } else {
                assert(decimal(rest as nat) == d);
            }
        }
        rest = rest / 10;
    }
    s
}

/// Writes the summary of a length delta.
pub fn summary_string(added: usize, deleted: usize) -> (s: String)
    ensures
        s@ == summary_text(added as nat, deleted as nat),
{
    if added > 0 {
        let mut s = "+".to_owned();
        s.append(decimal_string(added).as_str());
        s.append(" chars");
        s
    } else if deleted > 0 {
        let mut s = "-".to_owned();
        s.append(decimal_string(deleted).as_str());
        s.append(" chars");
        s
    } else {
        "no change".to_owned()
    }
}

} // verus!
