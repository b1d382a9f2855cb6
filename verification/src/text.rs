//! Verified helpers for the character-level work the sync engine needs:
//! trimming path separators, joining URL pieces, rendering decimal numbers,
//! and comparing strings.

use vstd::prelude::*;
use vstd::string::StrSliceExecFns;
use vstd::string::StringExecFns;

verus! {

/// The sequence `s` with every trailing `'/'` removed.
pub open spec fn trimmed_end_slashes(s: Seq<char>) -> Seq<char>
    decreases s.len(),
{
    if s.len() > 0 && s.last() == '/' {
        trimmed_end_slashes(s.drop_last())
    } else {
        s
    }
}

/// The sequence `s` with every leading `'/'` removed.
pub open spec fn trimmed_start_slashes(s: Seq<char>) -> Seq<char>
    decreases s.len(),
{
    if s.len() > 0 && s[0] == '/' {
        trimmed_start_slashes(s.skip(1))
    } else {
        s
    }
}

/// Removes every trailing `'/'` from `s`.
pub fn trim_end_slashes(s: &str) -> (r: String)
    ensures
        r@ == trimmed_end_slashes(s@),
{
    let n = s.unicode_len();
    let mut k = n;
    proof {
        assert(s@.subrange(0, n as int) =~= s@);
    }
    while k > 0 && s.get_char(k - 1) == '/'
        invariant
            k <= n,
            n == s@.len(),
            trimmed_end_slashes(s@) == trimmed_end_slashes(s@.subrange(0, k as int)),
        decreases k,
    {
        proof {
            assert(s@.subrange(0, k as int).drop_last() =~= s@.subrange(0, k - 1 as int));
        }
        k = k - 1;
    }
    let sub = s.substring_char(0, k);
    String::from_str(sub)
}

/// Removes every leading `'/'` from `s`.
pub fn trim_start_slashes(s: &str) -> (r: String)
    ensures
        r@ == trimmed_start_slashes(s@),
{
    let n = s.unicode_len();
    let mut j: usize = 0;
    proof {
        assert(s@.skip(0) =~= s@);
    }
    while j < n && s.get_char(j) == '/'
        invariant
            j <= n,
            n == s@.len(),
            trimmed_start_slashes(s@) == trimmed_start_slashes(s@.skip(j as int)),
        decreases n - j,
    {
        proof {
            assert(s@.skip(j as int).skip(1) =~= s@.skip(j + 1 as int));
        }
        j = j + 1;
    }
    let sub = s.substring_char(j, n);
    proof {
        assert(s@.subrange(j as int, n as int) =~= s@.skip(j as int));
    }
    String::from_str(sub)
}

/// A base and a relative part joined by exactly one `'/'`:
/// trailing slashes leave the base, leading slashes leave the part.
pub open spec fn joined_url(base: Seq<char>, part: Seq<char>) -> Seq<char> {
    trimmed_end_slashes(base) + seq!['/'] + trimmed_start_slashes(part)
}

/// Joins `base` and `part` with a single `'/'` between them.
pub fn join_url(base: &str, part: &str) -> (r: String)
    ensures
        r@ == joined_url(base@, part@),
{
    proof {
        reveal_strlit("/");
        assert("/"@ =~= seq!['/']);
    }
    let mut r = trim_end_slashes(base);
    r.append("/");
    let p = trim_start_slashes(part);
    r.append(p.as_str());
    r
}

/// The decimal digit character for `d` in `0..10`.
pub open spec fn spec_digit_char(d: int) -> char {
    if d == 0 {
        '0'
    } else if d == 1 {
        '1'
    } else if d == 2 {
        '2'
    } else if d == 3 {
        '3'
    } else if d == 4 {
        '4'
    } else if d == 5 {
        '5'
    } else if d == 6 {
        '6'
    } else if d == 7 {
        '7'
    } else if d == 8 {
        '8'
    } else {
        '9'
    }
}

/// The decimal rendering of a non-negative number, most significant digit first.
pub open spec fn spec_decimal(n: int) -> Seq<char>
    decreases n,
{
    if n < 10 {
        seq![spec_digit_char(n)]
    } else {
        spec_decimal(n / 10).push(spec_digit_char(n % 10))
    }
}

fn digit_str(d: u64) -> (r: &'static str)
    requires
        d < 10,
    ensures
        r@ == seq![spec_digit_char(d as int)],
{
    proof {
        reveal_strlit("0");
        reveal_strlit("1");
        reveal_strlit("2");
        reveal_strlit("3");
        reveal_strlit("4");
        reveal_strlit("5");
        reveal_strlit("6");
        reveal_strlit("7");
        reveal_strlit("8");
        reveal_strlit("9");
    }
    let r = if d == 0 {
        "0"
    } else if d == 1 {
        "1"
    } else if d == 2 {
        "2"
    } else if d == 3 {
        "3"
    } else if d == 4 {
        "4"
    } else if d == 5 {
        "5"
    } else if d == 6 {
        "6"
    } else if d == 7 {
        "7"
    } else if d == 8 {
        "8"
    } else {
        "9"
    };
    proof {
        assert(r@ =~= seq![spec_digit_char(d as int)]);
    }
    r
}

/// Renders `n` in decimal.
pub fn u64_to_string(n: u64) -> (r: String)
    ensures
        r@ == spec_decimal(n as int),
    decreases n,
{
    if n < 10 {
        String::from_str(digit_str(n))
    } else {
        let mut r = u64_to_string(n / 10);
        r.append(digit_str(n % 10));
        proof {
            assert(spec_decimal((n / 10) as int) + seq![spec_digit_char((n % 10) as int)]
                =~= spec_decimal((n / 10) as int).push(spec_digit_char((n % 10) as int)));
        }
        r
    }
}

/// Whether `p` is a prefix of `s`.
pub open spec fn has_prefix(s: Seq<char>, p: Seq<char>) -> bool {
    p.len() <= s.len() && s.subrange(0, p.len() as int) == p
}

/// Tests whether `p` is a prefix of `s`.
pub fn str_has_prefix(s: &str, p: &str) -> (r: bool)
    ensures
        r == has_prefix(s@, p@),
{
    let n = s.unicode_len();
    let m = p.unicode_len();
    if m > n {
        return false;
    }
    let mut i: usize = 0;
    while i < m
        invariant
            i <= m,
            m <= n,
            n == s@.len(),
            m == p@.len(),
            forall|j: int| 0 <= j < i ==> s@[j] == p@[j],
        decreases m - i,
    {
        if s.get_char(i) != p.get_char(i) {
            proof {
                assert(s@.subrange(0, p@.len() as int)[i as int] != p@[i as int]);
            }
            return false;
        }
        i = i + 1;
    }
    proof {
        assert(s@.subrange(0, p@.len() as int) =~= p@);
    }
    true
}

/// Tests whether two strings hold the same characters.
pub fn str_eq(a: &str, b: &str) -> (r: bool)
    ensures
        r == (a@ == b@),
{
    let n = a.unicode_len();
    let m = b.unicode_len();
    if n != m {
        return false;
    }
    let mut i: usize = 0;
    while i < n
        invariant
            i <= n,
            n == a@.len(),
            n == b@.len(),
            forall|j: int| 0 <= j < i ==> a@[j] == b@[j],
        decreases n - i,
    {
        if a.get_char(i) != b.get_char(i) {
            return false;
        }
        i = i + 1;
    }
    proof {
        assert(a@ =~= b@);
    }
    true
}

/// The index where the final path component of `s` begins: just after the
/// last `'/'`, or `0` when there is none.
pub open spec fn file_start(s: Seq<char>) -> int
    decreases s.len(),
{
    if s.len() == 0 {
        0
    } else if s.last() == '/' {
        s.len() as int
    } else {
        file_start(s.drop_last())
    }
}

/// The index of the last `'.'` in `s`, or `-1` when there is none.
pub open spec fn last_dot(s: Seq<char>) -> int
    decreases s.len(),
{
    if s.len() == 0 {
        -1
    } else if s.last() == '.' {
        s.len() - 1
    } else {
        last_dot(s.drop_last())
    }
}

/// The path with its extension replaced by `ext`, after ignoring trailing
/// separators as std's paths do: everything up to the last `'.'` of the
/// final component — or the whole trimmed path, when that component holds
/// no `'.'` past its first character — followed by `'.'` and `ext`. A path
/// that is empty or all separators has no file name and stays unchanged.
pub open spec fn with_extension_of(s: Seq<char>, ext: Seq<char>) -> Seq<char> {
    let t = trimmed_end_slashes(s);
    if t.len() == 0 {
        s
    } else {
        let stem_len = if last_dot(t) > file_start(t) {
            last_dot(t)
        } else {
            t.len() as int
        };
        t.subrange(0, stem_len) + seq!['.'] + ext
    }
}

/// Replaces the extension of `path` with `ext`.
pub fn with_extension(path: &str, ext: &str) -> (r: String)
    ensures
        r@ == with_extension_of(path@, ext@),
{
    let trimmed = trim_end_slashes(path);
    let s = trimmed.as_str();
    let n = s.unicode_len();
    if n == 0 {
        return String::from_str(path);
    }
    // where the final component begins
    let mut fs = n;
    proof {
        assert(s@.subrange(0, n as int) =~= s@);
    }
    while fs > 0 && s.get_char(fs - 1) != '/'
        invariant
            fs <= n,
            n == s@.len(),
            file_start(s@) == file_start(s@.subrange(0, fs as int)),
        decreases fs,
    {
        proof {
            assert(s@.subrange(0, fs as int).drop_last() =~= s@.subrange(0, fs - 1 as int));
        }
        fs = fs - 1;
    }
    proof {
        if fs == 0 {
            assert(s@.subrange(0, 0) =~= Seq::<char>::empty());
        } else {
            assert(s@.subrange(0, fs as int).last() == '/');
        }
        assert(file_start(s@) == fs as int);
    }
    // where the last dot sits
    let mut k = n;
    while k > 0 && s.get_char(k - 1) != '.'
        invariant
            k <= n,
            n == s@.len(),
            last_dot(s@) == last_dot(s@.subrange(0, k as int)),
        decreases k,
    {
        proof {
            assert(s@.subrange(0, k as int).drop_last() =~= s@.subrange(0, k - 1 as int));
        }
        k = k - 1;
    }
    proof {
        if k == 0 {
            assert(s@.subrange(0, 0) =~= Seq::<char>::empty());
        } else {
            assert(s@.subrange(0, k as int).last() == '.');
        }
        assert(last_dot(s@) == k - 1);
    }
    let stem_len = if k > 0 && k - 1 > fs {
        k - 1
    } else {
        n
    };
    let stem = s.substring_char(0, stem_len);
    let mut r = String::from_str(stem);
    proof {
        reveal_strlit(".");
        assert("."@ =~= seq!['.']);
    }
    r.append(".");
    r.append(ext);
    r
}

/// What `str::to_lowercase` returns for a given character sequence.
pub uninterp spec fn lower_of(s: Seq<char>) -> Seq<char>;

/// Relies on `str::to_lowercase` from std: the result depends on the
/// characters of the input alone.
#[verifier::external_body]
pub(crate) fn to_lowercase(s: &str) -> (r: String)
    ensures
        r@ == lower_of(s@),
{
    s.to_lowercase()
}

} // verus!
