//! Version-string comparison.
//!
//! Versions are dot-separated numeric components with an optional `v`
//! prefix.  A component that is empty, non-numeric or too large counts
//! as zero.  A version is outdated when, comparing components in order,
//! the first difference is in the newer version's favour, or when the
//! versions agree on their common prefix and the newer one has more
//! components.

use vstd::prelude::*;

verus! {

/// A decimal digit.
pub open spec fn is_digit(c: char) -> bool {
    48 <= c as u32 <= 57
}

/// All characters are decimal digits.
pub open spec fn all_digits(s: Seq<char>) -> bool {
    forall|i: int| 0 <= i < s.len() ==> is_digit(#[trigger] s[i])
}

/// The numeric value of a digit sequence (most significant first).
pub open spec fn digits_value(s: Seq<char>) -> nat
    decreases s.len(),
{
    if s.len() == 0 {
        0
    } else {
        digits_value(s.drop_last()) * 10 + (if is_digit(s.last()) {
            (s.last() as u32 - 48) as nat
        } else {
            0
        })
    }
}

/// The value of one version component: its digits' value when the
/// component is non-empty, numeric and fits a `u32`; zero otherwise.
pub open spec fn parse_component(s: Seq<char>) -> u32 {
    if s.len() > 0 && all_digits(s) && digits_value(s) <= u32::MAX {
        digits_value(s) as u32
    } else {
        0
    }
}

/// The position of the first dot; the length when there is none.
pub open spec fn first_dot(s: Seq<char>) -> nat
    decreases s.len(),
{
    if s.len() == 0 {
        0
    } else if s[0] == '.' {
        0
    } else {
        1 + first_dot(s.drop_first())
    }
}

/// `first_dot` is characterised by a dot-free prefix followed by a dot
/// (or the end of the string).
pub proof fn lemma_first_dot(s: Seq<char>, k: int)
    requires
        0 <= k <= s.len(),
        forall|j: int| 0 <= j < k ==> s[j] != '.',
        k < s.len() ==> s[k] == '.',
        k == s.len() ==> forall|j: int| 0 <= j < s.len() ==> s[j] != '.',
    ensures
        first_dot(s) == k,
    decreases s.len(),
{
    if s.len() == 0 {
    } else if k == 0 {
        if s.len() > 0 && s[0] != '.' {
            // k == 0 == s.len() is impossible here since s is non-empty,
            // so s[0] must be a dot
            assert(s[0] == '.');
        }
    } else {
        lemma_first_dot(s.drop_first(), k - 1);
    }
}

/// The numeric components of a version string.
pub open spec fn version_components(s: Seq<char>) -> Seq<u32>
    decreases s.len(),
{
    let d = first_dot(s);
    if d >= s.len() {
        seq![parse_component(s)]
    } else {
        seq![parse_component(s.subrange(0, d as int))] + version_components(
            s.subrange(d as int + 1, s.len() as int),
        )
    }
}

/// The string with every leading `v` removed.
pub open spec fn strip_v(s: Seq<char>) -> Seq<char>
    decreases s.len(),
{
    if s.len() > 0 && s[0] == 'v' {
        strip_v(s.drop_first())
    } else {
        s
    }
}

/// `strip_v` drops exactly the maximal leading run of `v`s.
pub proof fn lemma_strip_v(s: Seq<char>, k: int)
    requires
        0 <= k <= s.len(),
        forall|j: int| 0 <= j < k ==> s[j] == 'v',
        k < s.len() ==> s[k] != 'v',
    ensures
        strip_v(s) == s.subrange(k, s.len() as int),
    decreases k,
{
    if k == 0 {
        assert(s.subrange(0, s.len() as int) =~= s);
    } else {
        lemma_strip_v(s.drop_first(), k - 1);
        assert(s.drop_first().subrange(k - 1, s.drop_first().len() as int) =~= s.subrange(
            k,
            s.len() as int,
        ));
    }
}

/// Component-wise "strictly older than": the first differing component
/// decides; with no difference, the shorter list is older.
pub open spec fn components_less(c: Seq<u32>, l: Seq<u32>) -> bool
    decreases c.len(),
{
    if c.len() == 0 || l.len() == 0 {
        c.len() < l.len()
    } else if c[0] < l[0] {
        true
    } else if c[0] > l[0] {
        false
    } else {
        components_less(c.drop_first(), l.drop_first())
    }
}

/// `current` is strictly older than `latest`.
pub open spec fn spec_is_outdated(current: Seq<char>, latest: Seq<char>) -> bool {
    components_less(version_components(strip_v(current)), version_components(strip_v(latest)))
}

/// A digit prefix never exceeds the whole digit string in value.
proof fn lemma_digits_value_prefix_le(s: Seq<char>, k: int)
    requires
        0 <= k <= s.len(),
    ensures
        digits_value(s.subrange(0, k)) <= digits_value(s),
    decreases s.len() - k,
{
    if k == s.len() {
        assert(s.subrange(0, k) =~= s);
    } else {
        assert(s.subrange(0, k + 1).drop_last() =~= s.subrange(0, k));
        lemma_digits_value_prefix_le(s, k + 1);
    }
}

/// Strip the leading `v`s of a version string.
fn strip_v_exec(s: &str) -> (r: &str)
    ensures
        r@ == strip_v(s@),
{
    let len = s.unicode_len();
    let mut i: usize = 0;
    while i < len
        invariant
            0 <= i <= len,
            len == s@.len(),
            forall|j: int| 0 <= j < i ==> s@[j] == 'v',
        decreases len - i,
    {
        if s.get_char(i) != 'v' {
            proof {
                lemma_strip_v(s@, i as int);
            }
            return s.substring_char(i, len);
        }
        i += 1;
    }
    proof {
        lemma_strip_v(s@, len as int);
    }
    s.substring_char(len, len)
}

/// The position of the first dot (the length when there is none).
fn first_dot_exec(s: &str) -> (k: usize)
    ensures
        k as nat == first_dot(s@),
        k <= s@.len(),
        k < s@.len() ==> s@[k as int] == '.',
{
    let len = s.unicode_len();
    let mut i: usize = 0;
    while i < len
        invariant
            0 <= i <= len,
            len == s@.len(),
            forall|j: int| 0 <= j < i ==> s@[j] != '.',
        decreases len - i,
    {
        if s.get_char(i) == '.' {
            proof {
                lemma_first_dot(s@, i as int);
            }
            return i;
        }
        i += 1;
    }
    proof {
        lemma_first_dot(s@, len as int);
    }
    len
}

/// Parse one version component; malformed or oversized components
/// count as zero.
fn parse_component_exec(s: &str) -> (r: u32)
    ensures
        r == parse_component(s@),
{
    let len = s.unicode_len();
    if len == 0 {
        return 0;
    }
    let mut i: usize = 0;
    while i < len
        invariant
            0 <= i <= len,
            len == s@.len(),
            forall|j: int| 0 <= j < i ==> is_digit(#[trigger] s@[j]),
        decreases len - i,
    {
        let c = s.get_char(i);
        let code: u32 = c as u32;
        if code < 48 || code > 57 {
            return 0;
        }
        i += 1;
    }
    let mut val: u64 = 0;
    let mut i: usize = 0;
    while i < len
        invariant
            0 <= i <= len,
            len == s@.len(),
            all_digits(s@),
            val == digits_value(s@.subrange(0, i as int)),
            val <= u32::MAX,
        decreases len - i,
    {
        let c = s.get_char(i);
        let d: u64 = (c as u32 - 48) as u64;
        proof {
            assert(s@.subrange(0, i + 1).drop_last() =~= s@.subrange(0, i as int));
            assert(s@.subrange(0, i + 1).last() == s@[i as int]);
        }
        val = val * 10 + d;
        i += 1;
        if val > u32::MAX as u64 {
            proof {
                lemma_digits_value_prefix_le(s@, i as int);
            }
            return 0;
        }
    }
    proof {
        assert(s@.subrange(0, len as int) =~= s@);
    }
    val as u32
}

/// Compare two stripped version strings component by component.
fn components_less_exec(c: &str, l: &str) -> (r: bool)
    ensures
        r == components_less(version_components(c@), version_components(l@)),
    decreases c@.len(),
{
    let clen = c.unicode_len();
    let llen = l.unicode_len();
    let cd = first_dot_exec(c);
    let ld = first_dot_exec(l);
    let chead = if cd < clen {
        c.substring_char(0, cd)
    } else {
        c
    };
    let lhead = if ld < llen {
        l.substring_char(0, ld)
    } else {
        l
    };
    let hc = parse_component_exec(chead);
    let hl = parse_component_exec(lhead);
    let ghost cc = version_components(c@);
    let ghost ll = version_components(l@);
    proof {
        if cd < clen {
            assert(cc == seq![parse_component(c@.subrange(0, cd as int))] + version_components(
                c@.subrange(cd as int + 1, clen as int),
            ));
            assert(cc[0] == hc);
            assert(cc.drop_first() =~= version_components(c@.subrange(cd as int + 1, clen as int)));
            assert(cc.drop_first().len() >= 1);
        } else {
            assert(c@.subrange(0, clen as int) =~= c@);
            assert(cc == seq![parse_component(c@)]);
            assert(cc[0] == hc);
        }
        if ld < llen {
            assert(ll == seq![parse_component(l@.subrange(0, ld as int))] + version_components(
                l@.subrange(ld as int + 1, llen as int),
            ));
            assert(ll[0] == hl);
            assert(ll.drop_first() =~= version_components(l@.subrange(ld as int + 1, llen as int)));
            assert(ll.drop_first().len() >= 1);
        } else {
            assert(l@.subrange(0, llen as int) =~= l@);
            assert(ll == seq![parse_component(l@)]);
            assert(ll[0] == hl);
        }
    }
    if hc < hl {
        return true;
    }
    if hc > hl {
        return false;
    }
    if cd >= clen && ld >= llen {
        proof {
            assert(cc.drop_first() =~= Seq::<u32>::empty());
            assert(ll.drop_first() =~= Seq::<u32>::empty());
            assert(!components_less(cc.drop_first(), ll.drop_first()));
        }
        false
    } else if cd >= clen {
        // the current version ends here, the latest has more components
        proof {
            assert(cc.drop_first() =~= Seq::<u32>::empty());
            assert(components_less(cc.drop_first(), ll.drop_first()));
        }
        true
    } else if ld >= llen {
        proof {
            assert(ll.drop_first() =~= Seq::<u32>::empty());
            assert(!components_less(cc.drop_first(), ll.drop_first()));
        }
        false
    } else {
        let ctail = c.substring_char(cd + 1, clen);
        let ltail = l.substring_char(ld + 1, llen);
        let r = components_less_exec(ctail, ltail);
        proof {
            assert(components_less(cc, ll) == components_less(cc.drop_first(), ll.drop_first()));
        }
        r
    }
}

/// Compare two version strings (ignoring a `v` prefix); true when
/// `current` is strictly older than `latest`.
pub fn is_outdated(current: &str, latest: &str) -> (r: bool)
    ensures
        r == spec_is_outdated(current@, latest@),
{
    let c = strip_v_exec(current);
    let l = strip_v_exec(latest);
    components_less_exec(c, l)
}

} // verus!
