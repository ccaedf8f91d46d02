//! Runtime environment validation: reading a semantic version out of the
//! installed interpreter's version-query output and holding it against the
//! required minimum.
//!
//! A missing or unreachable interpreter, or output that carries no semantic
//! version, makes the environment invalid — never an error.

use vstd::prelude::*;
use vstd::string::StrSliceExecFns;

use crate::text::{all_digits, dec_value, is_digit, is_digit_char, parse_u64};

verus! {

/// A semantic version.
#[derive(Clone, Copy, Debug, PartialEq, Eq, Structural)]
pub struct SemVer {
    pub major: u64,
    pub minor: u64,
    pub patch: u64,
}

/// The version (`a`, `b`, `c`) is strictly newer than `m`.
pub open spec fn spec_newer_than(a: nat, b: nat, c: nat, m: SemVer) -> bool {
    ||| a > m.major
    ||| (a == m.major && b > m.minor)
    ||| (a == m.major && b == m.minor && c > m.patch)
}

/// `v` is strictly newer than `m`.
pub open spec fn spec_version_gt(v: SemVer, m: SemVer) -> bool {
    spec_newer_than(v.major as nat, v.minor as nat, v.patch as nat, m)
}

/// Strict lexicographic comparison of two versions.
pub fn version_gt(v: &SemVer, m: &SemVer) -> (r: bool)
    ensures
        r == spec_version_gt(*v, *m),
{
    v.major > m.major || (v.major == m.major && v.minor > m.minor) || (v.major == m.major
        && v.minor == m.minor && v.patch > m.patch)
}

/// A version component: one to nineteen decimal digits (so its value fits a
/// machine word).
pub open spec fn valid_run(r: Seq<char>) -> bool {
    all_digits(r) && 1 <= r.len() <= 19
}

/// `s` is `major.minor.patch` with the separators at `i` and `j` and a valid
/// digit run in each of the three components.
pub open spec fn semver_shape(s: Seq<char>, i: int, j: int) -> bool {
    &&& 0 <= i < j < s.len()
    &&& s[i] == '.'
    &&& s[j] == '.'
    &&& valid_run(s.subrange(0, i))
    &&& valid_run(s.subrange(i + 1, j))
    &&& valid_run(s.subrange(j + 1, s.len() as int))
}

/// `s` is `major.minor.patch` with the separators at `i` and `j` and the
/// component values `a`, `b` and `c`.
pub open spec fn semver_split(s: Seq<char>, i: int, j: int, a: nat, b: nat, c: nat) -> bool {
    &&& semver_shape(s, i, j)
    &&& a == dec_value(s.subrange(0, i))
    &&& b == dec_value(s.subrange(i + 1, j))
    &&& c == dec_value(s.subrange(j + 1, s.len() as int))
}

/// Every position of a well-shaped version string other than the two
/// separators holds a digit.
proof fn lemma_shape_covers(s: Seq<char>, i: int, j: int, k: int)
    requires
        semver_shape(s, i, j),
        0 <= k < s.len(),
        k != i,
        k != j,
    ensures
        is_digit(s[k]),
{
    if k < i {
        assert(s.subrange(0, i)[k] == s[k]);
    } else if k < j {
        assert(s.subrange(i + 1, j)[k - i - 1] == s[k]);
    } else {
        assert(s.subrange(j + 1, s.len() as int)[k - j - 1] == s[k]);
    }
}

/// A dot of a well-shaped version string can only be one of its two
/// separators.
proof fn lemma_dot_is_separator(s: Seq<char>, i: int, j: int, k: int)
    requires
        semver_shape(s, i, j),
        0 <= k < s.len(),
        s[k] == '.',
    ensures
        k == i || k == j,
{
    if k != i && k != j {
        lemma_shape_covers(s, i, j, k);
    }
}

/// A version string splits in only one way.
proof fn lemma_shape_unique(s: Seq<char>, i: int, j: int, i2: int, j2: int)
    requires
        semver_shape(s, i, j),
        semver_shape(s, i2, j2),
    ensures
        i == i2,
        j == j2,
{
    lemma_dot_is_separator(s, i, j, i2);
    lemma_dot_is_separator(s, i, j, j2);
}

/// Parses `major.minor.patch` — three runs of decimal digits separated by
/// dots — and nothing else.
pub fn parse_semver(s: &str) -> (r: Option<SemVer>)
    ensures
        r matches Some(v) ==> exists|i: int, j: int, a: nat, b: nat, c: nat|
            semver_split(s@, i, j, a, b, c) && a == v.major && b == v.minor && c == v.patch,
        r is None ==> forall|i: int, j: int| !semver_shape(s@, i, j),
{
    let n = s.unicode_len();
    let mut dots: usize = 0;
    let mut d1: usize = 0;
    let mut d2: usize = 0;
    let mut k: usize = 0;
    while k < n
        invariant
            n == s@.len(),
            k <= n,
            dots <= 2,
            dots == 0 ==> forall|m: int| 0 <= m < k ==> s@[m] != '.',
            dots == 1 ==> d1 < k && s@[d1 as int] == '.' && forall|m: int|
                0 <= m < k && m != d1 ==> s@[m] != '.',
            dots == 2 ==> d1 < d2 && d2 < k && s@[d1 as int] == '.' && s@[d2 as int] == '.'
                && forall|m: int| 0 <= m < k && m != d1 && m != d2 ==> s@[m] != '.',
        decreases n - k,
    {
        let c = s.get_char(k);
        if c == '.' {
            if dots == 0 {
                d1 = k;
                dots = 1;
            } else if dots == 1 {
                d2 = k;
                dots = 2;
            } else {
                // a third dot: no split can place three dots on two separators
                proof {
                    assert forall|i: int, j: int| !semver_shape(s@, i, j) by {
                        if semver_shape(s@, i, j) {
                            lemma_dot_is_separator(s@, i, j, d1 as int);
                            lemma_dot_is_separator(s@, i, j, d2 as int);
                            lemma_dot_is_separator(s@, i, j, k as int);
                        }
                    }
                }
                return None;
            }
        } else if is_digit_char(c) {
        } else {
            // a character that is neither a digit nor a separator
            proof {
                assert forall|i: int, j: int| !semver_shape(s@, i, j) by {
                    if semver_shape(s@, i, j) {
                        lemma_shape_covers(s@, i, j, k as int);
                    }
                }
            }
            return None;
        }
        k += 1;
    }
    if dots != 2 {
        // fewer than two separators
        proof {
            assert forall|i: int, j: int| !semver_shape(s@, i, j) by {
                if semver_shape(s@, i, j) {
                    assert(s@[i] == '.');
                    assert(s@[j] == '.');
                }
            }
        }
        return None;
    }
    let major_str = s.substring_char(0, d1);
    let minor_str = s.substring_char(d1 + 1, d2);
    let patch_str = s.substring_char(d2 + 1, n);
    let major = parse_u64(major_str);
    let minor = parse_u64(minor_str);
    let patch = parse_u64(patch_str);
    let (a, b, c) = match (major, minor, patch) {
        (Some(a), Some(b), Some(c)) => (a, b, c),
        _ => {
            // one component is empty, too long, or not all digits; any split
            // would have to use the same two separators, so none exists
            proof {
                assert forall|i: int, j: int| !semver_shape(s@, i, j) by {
                    if semver_shape(s@, i, j) {
                        lemma_dot_is_separator(s@, i, j, d1 as int);
                        lemma_dot_is_separator(s@, i, j, d2 as int);
                        assert(i == d1 && j == d2);
                    }
                }
            }
            return None;
        },
    };
    let result = SemVer { major: a, minor: b, patch: c };
    proof {
        assert(semver_split(
            s@,
            d1 as int,
            d2 as int,
            result.major as nat,
            result.minor as nat,
            result.patch as nat,
        ));
        assert(exists|i: int, j: int, a2: nat, b2: nat, c2: nat|
            semver_split(s@, i, j, a2, b2, c2) && a2 == result.major && b2 == result.minor && c2
                == result.patch);
    }
    Some(result)
}

/// The characters `[lo, hi)` of `s` form one whitespace-delimited token: a
/// nonempty run without spaces, bounded by spaces or the ends of `s`.
pub open spec fn token_at(s: Seq<char>, lo: int, hi: int) -> bool {
    &&& 0 <= lo < hi <= s.len()
    &&& (lo == 0 || s[lo - 1] == ' ')
    &&& (hi == s.len() || s[hi] == ' ')
    &&& forall|m: int| lo <= m < hi ==> s[m] != ' '
}

/// Two tokens of the same string are ordered or identical.
proof fn lemma_token_disjoint_or_equal(s: Seq<char>, lo: int, hi: int, lo2: int, hi2: int)
    requires
        token_at(s, lo, hi),
        token_at(s, lo2, hi2),
    ensures
        hi <= lo2 || hi2 <= lo || (lo == lo2 && hi == hi2),
{
    if lo < hi2 && lo2 < hi {
        if lo < lo2 {
            assert(s[lo2 - 1] == ' ');
            assert(s[lo2 - 1] != ' ');
        } else if lo2 < lo {
            assert(s[lo - 1] == ' ');
            assert(s[lo - 1] != ' ');
        }
        if hi < hi2 {
            assert(s[hi] != ' ');
        } else if hi2 < hi {
            assert(s[hi2] != ' ');
        }
    }
}

/// The token `[lo, hi)` carries the version (`a`, `b`, `c`), and no earlier
/// token carries any version: it is the first version in the output.
pub open spec fn spec_first_version(s: Seq<char>, lo: int, hi: int, a: nat, b: nat, c: nat) -> bool {
    &&& token_at(s, lo, hi)
    &&& (exists|i: int, j: int| semver_split(s.subrange(lo, hi), i, j, a, b, c))
    &&& forall|lo2: int, hi2: int, i: int, j: int|
        #![trigger token_at(s, lo2, hi2), semver_shape(s.subrange(lo2, hi2), i, j)]
        token_at(s, lo2, hi2) && hi2 <= lo ==> !semver_shape(s.subrange(lo2, hi2), i, j)
}

/// The first version of an output is unique.
proof fn lemma_first_version_unique(
    s: Seq<char>,
    lo: int,
    hi: int,
    a: nat,
    b: nat,
    c: nat,
    lo2: int,
    hi2: int,
    a2: nat,
    b2: nat,
    c2: nat,
)
    requires
        spec_first_version(s, lo, hi, a, b, c),
        spec_first_version(s, lo2, hi2, a2, b2, c2),
    ensures
        lo == lo2,
        hi == hi2,
        a == a2,
        b == b2,
        c == c2,
{
    lemma_token_disjoint_or_equal(s, lo, hi, lo2, hi2);
    let (i, j): (int, int) = choose|i: int, j: int|
        semver_split(s.subrange(lo, hi), i, j, a, b, c);
    let (i2, j2): (int, int) = choose|i2: int, j2: int|
        semver_split(s.subrange(lo2, hi2), i2, j2, a2, b2, c2);
    if hi <= lo2 {
        assert(!semver_shape(s.subrange(lo, hi), i, j));
    } else if hi2 <= lo {
        assert(!semver_shape(s.subrange(lo2, hi2), i2, j2));
    } else {
        lemma_shape_unique(s.subrange(lo, hi), i, j, i2, j2);
    }
}

/// Scans the whitespace-separated tokens of an output, front to back, for
/// the first one that is a semantic version.
pub fn semver_in_output(s: &str) -> (r: Option<SemVer>)
    ensures
        r matches Some(v) ==> exists|lo: int, hi: int, a: nat, b: nat, c: nat|
            spec_first_version(s@, lo, hi, a, b, c) && a == v.major && b == v.minor && c
                == v.patch,
        r is None ==> forall|lo: int, hi: int, i: int, j: int|
            #![trigger token_at(s@, lo, hi), semver_shape(s@.subrange(lo, hi), i, j)]
            token_at(s@, lo, hi) ==> !semver_shape(s@.subrange(lo, hi), i, j),
{
    let n = s.unicode_len();
    let mut cur: usize = 0;
    while cur < n
        invariant
            n == s@.len(),
            cur <= n,
            cur == 0 || cur >= n || s@[cur - 1] == ' ' || s@[cur as int] == ' ',
            forall|lo: int, hi: int, i: int, j: int|
                #![trigger token_at(s@, lo, hi), semver_shape(s@.subrange(lo, hi), i, j)]
                token_at(s@, lo, hi) && lo < cur ==> !semver_shape(s@.subrange(lo, hi), i, j),
        decreases n - cur,
    {
        let c0 = s.get_char(cur);
        if c0 == ' ' {
            proof {
                assert forall|lo: int, hi: int, i: int, j: int|
                    token_at(s@, lo, hi) && lo < cur + 1 implies !semver_shape(
                    s@.subrange(lo, hi),
                    i,
                    j,
                ) by {
                    if token_at(s@, lo, hi) && lo == cur {
                        assert(s@[lo] != ' ');
                    }
                }
            }
            cur += 1;
        } else {
            let t0 = cur;
            proof {
                assert(t0 == 0 || s@[t0 - 1] == ' ');
            }
            let mut t1 = cur + 1;
            while t1 < n && s.get_char(t1) != ' '
                invariant
                    n == s@.len(),
                    t0 < t1 <= n,
                    forall|m: int| t0 <= m < t1 ==> s@[m] != ' ',
                decreases n - t1,
            {
                t1 += 1;
            }
            proof {
                assert(t1 == n || s@[t1 as int] == ' ');
            }
            let token = s.substring_char(t0, t1);
            match parse_semver(token) {
                Some(v) => {
                    proof {
                        assert(token_at(s@, t0 as int, t1 as int));
                        let (i, j, a, b, c): (int, int, nat, nat, nat) = choose|
                            i: int,
                            j: int,
                            a: nat,
                            b: nat,
                            c: nat,
                        |
                            semver_split(token@, i, j, a, b, c) && a == v.major && b == v.minor
                                && c == v.patch;
                        assert forall|lo2: int, hi2: int, i2: int, j2: int|
                            token_at(s@, lo2, hi2) && hi2 <= t0 implies !semver_shape(
                            s@.subrange(lo2, hi2),
                            i2,
                            j2,
                        ) by {
                            assert(lo2 < t0 ==> !semver_shape(s@.subrange(lo2, hi2), i2, j2));
                        }
                        assert(spec_first_version(s@, t0 as int, t1 as int, a, b, c));
                        assert(exists|lo: int, hi: int, a2: nat, b2: nat, c2: nat|
                            spec_first_version(s@, lo, hi, a2, b2, c2) && a2 == v.major && b2
                                == v.minor && c2 == v.patch);
                    }
                    return Some(v);
                },
                None => {
                    proof {
                        assert forall|lo: int, hi: int, i: int, j: int|
                            token_at(s@, lo, hi) && lo < t1 implies !semver_shape(
                            s@.subrange(lo, hi),
                            i,
                            j,
                        ) by {
                            if token_at(s@, lo, hi) && t0 <= lo {
                                assert(lo == t0) by {
                                    if lo > t0 {
                                        assert(s@[lo - 1] != ' ');
                                    }
                                }
                                assert(hi == t1) by {
                                    if hi < t1 {
                                        assert(s@[hi] != ' ');
                                    }
                                    if hi > t1 {
                                        assert(s@[t1 as int] != ' ');
                                        assert(t1 < n ==> s@[t1 as int] == ' ');
                                    }
                                }
                                assert(s@.subrange(lo, hi) == token@);
                            }
                        }
                    }
                    cur = t1;
                },
            }
        }
    }
    proof {
        assert forall|lo: int, hi: int, i: int, j: int|
            token_at(s@, lo, hi) implies !semver_shape(s@.subrange(lo, hi), i, j) by {
            assert(lo < hi <= s@.len());
        }
    }
    None
}

/// Decides whether the installed runtime satisfies the required minimum:
/// `output` is the interpreter's version-query output, `None` when the
/// interpreter is missing or could not be run. True exactly when the first
/// semantic version in the output is strictly newer than `required_min`;
/// every failure is reported as false, never escalated.
pub fn is_environment_valid(output: Option<&str>, required_min: &SemVer) -> (r: bool)
    ensures
        r <==> (output matches Some(s) && exists|lo: int, hi: int, a: nat, b: nat, c: nat|
            spec_first_version(s@, lo, hi, a, b, c) && spec_newer_than(a, b, c, *required_min)),
{
    match output {
        None => false,
        Some(s) => {
            match semver_in_output(s) {
                None => {
                    proof {
                        assert forall|lo: int, hi: int, a: nat, b: nat, c: nat| !(
                        spec_first_version(s@, lo, hi, a, b, c) && spec_newer_than(
                            a,
                            b,
                            c,
                            *required_min,
                        )) by {
                            if spec_first_version(s@, lo, hi, a, b, c) {
                                let (i, j): (int, int) = choose|i: int, j: int|
                                    semver_split(s@.subrange(lo, hi), i, j, a, b, c);
                                assert(token_at(s@, lo, hi));
                                assert(!semver_shape(s@.subrange(lo, hi), i, j));
                            }
                        }
                    }
                    false
                },
                Some(v) => {
                    let gt = version_gt(&v, required_min);
                    proof {
                        let (lo0, hi0, a0, b0, c0): (int, int, nat, nat, nat) = choose|
                            lo0: int,
                            hi0: int,
                            a0: nat,
                            b0: nat,
                            c0: nat,
                        |
                            spec_first_version(s@, lo0, hi0, a0, b0, c0) && a0 == v.major && b0
                                == v.minor && c0 == v.patch;
                        if !gt {
                            assert forall|lo: int, hi: int, a: nat, b: nat, c: nat| !(
                            spec_first_version(s@, lo, hi, a, b, c) && spec_newer_than(
                                a,
                                b,
                                c,
                                *required_min,
                            )) by {
                                if spec_first_version(s@, lo, hi, a, b, c) {
                                    lemma_first_version_unique(
                                        s@,
                                        lo,
                                        hi,
                                        a,
                                        b,
                                        c,
                                        lo0,
                                        hi0,
                                        a0,
                                        b0,
                                        c0,
                                    );
                                }
                            }
                        }
                    }
                    gt
                },
            }
        },
    }
}

} // verus!
