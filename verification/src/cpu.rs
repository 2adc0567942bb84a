//! Parsing of the CPU temperature source: a text holding an integer count
//! of millidegrees Celsius in ASCII digits, with one optional leading plus
//! sign and trailing whitespace tolerated. Anything else has no value and is
//! reported by the caller as the one "source unavailable" condition.

use vstd::prelude::*;

verus! {

/// ASCII decimal digit.
pub open spec fn spec_is_digit(b: u8) -> bool {
    0x30 <= b && b <= 0x39
}

/// ASCII whitespace tolerated at the end of the source text.
pub open spec fn spec_is_space(b: u8) -> bool {
    b == 0x20 || b == 0x09 || b == 0x0A || b == 0x0D
}

/// The text without its trailing whitespace.
pub open spec fn spec_trim_end(s: Seq<u8>) -> Seq<u8>
    decreases s.len(),
{
    if s.len() > 0 && spec_is_space(s.last()) {
        spec_trim_end(s.drop_last())
    } else {
        s
    }
}

/// The text without one optional leading plus sign.
pub open spec fn spec_strip_plus(s: Seq<u8>) -> Seq<u8> {
    if s.len() > 0 && s[0] == 0x2B {
        s.skip(1)
    } else {
        s
    }
}

/// Every byte is an ASCII digit.
pub open spec fn spec_all_digits(s: Seq<u8>) -> bool {
    forall|i: int| 0 <= i < s.len() ==> spec_is_digit(#[trigger] s[i])
}

/// The number a digit run denotes, most significant digit first.
pub open spec fn spec_digits_value(s: Seq<u8>) -> int
    decreases s.len(),
{
    if s.len() == 0 {
        0
    } else {
        spec_digits_value(s.drop_last()) * 10 + (s.last() - 0x30)
    }
}

proof fn lemma_digits_value_nonneg(s: Seq<u8>)
    requires
        spec_all_digits(s),
    ensures
        spec_digits_value(s) >= 0,
    decreases s.len(),
{
    if s.len() > 0 {
        assert forall|i: int| 0 <= i < s.drop_last().len() implies spec_is_digit(
            #[trigger] s.drop_last()[i],
        ) by {
            assert(s.drop_last()[i] == s[i]);
        }
        lemma_digits_value_nonneg(s.drop_last());
    }
}

/// Appending digits never shrinks the denoted number: the value of the whole
/// run is at least the value of any of its prefixes.
proof fn lemma_digits_value_prefix_le(s: Seq<u8>, k: int)
    requires
        spec_all_digits(s),
        0 <= k <= s.len(),
    ensures
        spec_digits_value(s.subrange(0, k)) <= spec_digits_value(s),
    decreases s.len() - k,
{
    if k == s.len() {
        assert(s.subrange(0, k) =~= s);
    } else {
        let pre = s.subrange(0, k);
        let next = s.subrange(0, k + 1);
        assert(next.drop_last() =~= pre);
        assert(next.last() == s[k]);
        assert forall|i: int| 0 <= i < pre.len() implies spec_is_digit(#[trigger] pre[i]) by {
            assert(pre[i] == s[i]);
        }
        lemma_digits_value_nonneg(pre);
        assert(spec_digits_value(next) == spec_digits_value(pre) * 10 + (s[k] - 0x30));
        assert(spec_digits_value(pre) <= spec_digits_value(next));
        lemma_digits_value_prefix_le(s, k + 1);
    }
}

/// Tests a byte for the whitespace tolerated at the end of the source text.
pub fn is_space_byte(b: u8) -> (r: bool)
    ensures
        r == spec_is_space(b),
{
    b == 0x20 || b == 0x09 || b == 0x0A || b == 0x0D
}

/// Parses the CPU temperature source. After trimming trailing whitespace and
/// one optional leading plus sign, the text must be a nonempty run of ASCII
/// digits whose value fits a u32; every other text has no value, if and only
/// if.
pub fn parse_millidegrees(s: &[u8]) -> (r: Option<u32>)
    ensures
        ({
            let d = spec_strip_plus(spec_trim_end(s@));
            &&& r matches Some(v) ==> d.len() > 0 && spec_all_digits(d) && v
                == spec_digits_value(d)
            &&& r is None ==> d.len() == 0 || !spec_all_digits(d) || spec_digits_value(d)
                > u32::MAX
        }),
{
    let ghost whole = s@;
    let mut end: usize = s.len();
    proof {
        assert(whole.subrange(0, whole.len() as int) =~= whole);
    }
    while end > 0 && is_space_byte(s[end - 1])
        invariant
            end <= s@.len(),
            s@ == whole,
            spec_trim_end(whole) == spec_trim_end(whole.subrange(0, end as int)),
        decreases end,
    {
        proof {
            let sub1 = whole.subrange(0, end as int);
            let sub2 = whole.subrange(0, end as int - 1);
            assert(sub1.last() == whole[end - 1]);
            assert(sub1.drop_last() =~= sub2);
        }
        end = end - 1;
    }
    let ghost t = spec_trim_end(whole);
    proof {
        assert(whole.subrange(0, whole.len() as int) =~= whole);
        let sub = whole.subrange(0, end as int);
        if end > 0 {
            assert(sub.last() == whole[end - 1]);
            assert(!spec_is_space(sub.last()));
        }
        assert(t == sub);
    }
    if end == 0 {
        return None;
    }
    let mut start: usize = 0;
    if s[0] == 0x2B {
        start = 1;
    }
    let ghost d = spec_strip_plus(t);
    proof {
        assert(t[0] == whole[0]);
        if whole[0] == 0x2B {
            assert(d =~= t.subrange(1, end as int));
        } else {
            assert(d =~= t.subrange(0, end as int));
        }
    }
    if start == end {
        return None;
    }
    let mut acc: u64 = 0;
    let mut i: usize = start;
    while i < end
        invariant
            start <= i <= end,
            start <= 1,
            end <= s@.len(),
            s@ == whole,
            t == spec_trim_end(whole),
            t == whole.subrange(0, end as int),
            d == spec_strip_plus(t),
            d == t.subrange(start as int, end as int),
            spec_all_digits(d.subrange(0, i - start as int)),
            acc == spec_digits_value(d.subrange(0, i - start as int)),
            acc <= u32::MAX,
        decreases end - i,
    {
        let b = s[i];
        proof {
            assert(d[i - start as int] == t[i as int]);
            assert(t[i as int] == whole[i as int]);
        }
        if b < 0x30 || b > 0x39 {
            proof {
                assert(!spec_is_digit(d[i - start as int]));
            }
            return None;
        }
        let dig = (b - 0x30) as u64;
        let next = acc * 10 + dig;
        proof {
            let j = i - start as int;
            let pre = d.subrange(0, j);
            let ext = d.subrange(0, j + 1);
            assert(ext.drop_last() =~= pre);
            assert(ext.last() == d[j]);
            assert(spec_digits_value(ext) == spec_digits_value(pre) * 10 + (b - 0x30));
            assert forall|k: int| 0 <= k < ext.len() implies spec_is_digit(#[trigger] ext[k]) by {
                assert(ext[k] == d[k]);
            }
        }
        if next > 0xFFFFFFFF {
            proof {
                if spec_all_digits(d) {
                    lemma_digits_value_prefix_le(d, i - start as int + 1);
                }
            }
            return None;
        }
        acc = next;
        i = i + 1;
    }
    proof {
        assert(d.subrange(0, end - start as int) =~= d);
    }
    Some(acc as u32)
}

} // verus!
