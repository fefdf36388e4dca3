use vstd::prelude::*;
use vstd::string::StrSliceExecFns;

verus! {

/// The decimal digit character for `d`, which must be below ten.
pub open spec fn digit_char(d: nat) -> char {
    if d == 0 {
        '0'
    } else if d == 1 {
        '1'
    } else if d == 2 {
        '2'
    } else if d == 3 {
        '3'
    } else if d == 4 {
        '4'
    } else if d == 5 {
        '5'
    } else if d == 6 {
        '6'
    } else if d == 7 {
        '7'
    } else if d == 8 {
        '8'
    } else {
        '9'
    }
}

/// The decimal rendering of `n`: most significant digit first, no sign and
/// no leading zeros, with zero itself rendered as a single digit.
pub open spec fn dec_spec(n: nat) -> Seq<char>
    decreases n,
{
    if n < 10 {
        seq![digit_char(n)]
    } else {
        dec_spec(n / 10) + seq![digit_char(n % 10)]
    }
}

/// Appends the decimal rendering of `n` to `out`.
pub fn append_decimal(out: &mut String, n: u64)
    ensures
        final(out)@ == old(out)@ + dec_spec(n as nat),
    decreases n,
{
    if n >= 10 {
        append_decimal(out, n / 10);
    }
    let d: usize = (n % 10) as usize;
    let digits: &str = "0123456789";
    proof {
        reveal_strlit("0123456789");
    }
    let ds = digits.substring_char(d, d + 1);
    proof {
        assert(ds@ =~= seq![digit_char((n % 10) as nat)]);
    }
    out.append(ds);
    proof {
        assert(out@ =~= old(out)@ + dec_spec(n as nat));
    }
}

/// Whether `needle` occurs contiguously somewhere in `hay`.
pub open spec fn contains_seq(hay: Seq<char>, needle: Seq<char>) -> bool {
    exists|k: int|
        0 <= k && k + needle.len() <= hay.len() && #[trigger] hay.subrange(k, k + needle.len())
            == needle
}

/// A sequence assembled around `needle` contains it.
pub proof fn lemma_concat_contains(prefix: Seq<char>, needle: Seq<char>, suffix: Seq<char>)
    ensures
        contains_seq(prefix + needle + suffix, needle),
{
    let hay = prefix + needle + suffix;
    let k = prefix.len() as int;
    assert(hay.subrange(k, k + needle.len()) =~= needle);
}

/// The decimal rendering of `n` as a fresh string.
pub fn decimal_string(n: u64) -> (r: String)
    ensures
        r@ == dec_spec(n as nat),
{
    let mut out = String::new();
    append_decimal(&mut out, n);
    proof {
        assert(out@ =~= dec_spec(n as nat));
    }
    out
}

} // verus!
