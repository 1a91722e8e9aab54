//! Short names for full type paths, as used to label serialized collections:
//! `alloc::vec::Vec<app::User>` becomes `User`, `app::Consumer` becomes
//! `Consumer`, and the key a collection is serialized under is that name in
//! lower case with an `s` appended (`users`).
use vstd::prelude::*;
use vstd::string::StrSliceExecFns;

verus! {

/// The first index at or after `from` that holds `c`, or -1.
pub open spec fn first_from(s: Seq<char>, c: char, from: int) -> int
    decreases s.len() - from,
{
    if from < 0 || from >= s.len() {
        -1
    } else if s[from] == c {
        from
    } else {
        first_from(s, c, from + 1)
    }
}

/// The last index below `end` that holds `c`, or -1.
pub open spec fn last_before(s: Seq<char>, c: char, end: int) -> int
    decreases end,
{
    if end <= 0 || end > s.len() {
        -1
    } else if s[end - 1] == c {
        end - 1
    } else {
        last_before(s, c, end - 1)
    }
}

/// The start of the last `::` that ends at or below `end`, or -1.
pub open spec fn last_sep_before(s: Seq<char>, end: int) -> int
    decreases end,
{
    if end < 2 || end > s.len() {
        -1
    } else if s[end - 2] == ':' && s[end - 1] == ':' {
        end - 2
    } else {
        last_sep_before(s, end - 1)
    }
}

/// What follows the last `::` of a path, or the whole path if it has none.
pub open spec fn strip_path(s: Seq<char>) -> Seq<char> {
    let k = last_sep_before(s, s.len() as int);
    if k >= 0 {
        s.subrange(k + 2, s.len() as int)
    } else {
        s
    }
}

/// The simple name of a type: for a generic type (one with `<` and `>`), the
/// last path segment of what lies between the first `<` and the last `>`;
/// otherwise the last path segment of the whole name.
pub open spec fn simple_type_name(s: Seq<char>) -> Seq<char> {
    let a = first_from(s, '<', 0);
    let b = last_before(s, '>', s.len() as int);
    if a >= 0 && b >= 0 {
        strip_path(s.subrange(a + 1, b))
    } else {
        strip_path(s)
    }
}

/// A name can be read when its first `<` does not come after its last `>`.
pub open spec fn well_bracketed(s: Seq<char>) -> bool {
    first_from(s, '<', 0) >= 0 && last_before(s, '>', s.len() as int) >= 0 ==> first_from(
        s,
        '<',
        0,
    ) < last_before(s, '>', s.len() as int)
}

proof fn lemma_first_from_range(s: Seq<char>, c: char, from: int)
    requires
        0 <= from,
    ensures
        first_from(s, c, from) == -1 || from <= first_from(s, c, from) < s.len(),
    decreases s.len() - from,
{
    if from < s.len() && s[from] != c {
        lemma_first_from_range(s, c, from + 1);
    }
}

proof fn lemma_last_before_range(s: Seq<char>, c: char, end: int)
    ensures
        last_before(s, c, end) == -1 || 0 <= last_before(s, c, end) < end,
    decreases end,
{
    if end > 0 && end <= s.len() && s[end - 1] != c {
        lemma_last_before_range(s, c, end - 1);
    }
}

/// The first index of `c` in `s`.
fn find_char(s: &str, n: usize, c: char) -> (r: Option<usize>)
    requires
        n == s@.len(),
    ensures
        match r {
            Some(i) => i as int == first_from(s@, c, 0),
            None => first_from(s@, c, 0) == -1,
        },
{
    let mut i: usize = 0;
    while i < n
        invariant
            i <= n,
            n == s@.len(),
            first_from(s@, c, 0) == first_from(s@, c, i as int),
        decreases n - i,
    {
        if s.get_char(i) == c {
            return Some(i);
        }
        i = i + 1;
    }
    None
}

/// The last index of `c` in `s`.
fn rfind_char(s: &str, n: usize, c: char) -> (r: Option<usize>)
    requires
        n == s@.len(),
    ensures
        match r {
            Some(i) => i as int == last_before(s@, c, n as int),
            None => last_before(s@, c, n as int) == -1,
        },
{
    let mut k: usize = n;
    while k > 0
        invariant
            k <= n,
            n == s@.len(),
            last_before(s@, c, n as int) == last_before(s@, c, k as int),
        decreases k,
    {
        if s.get_char(k - 1) == c {
            return Some(k - 1);
        }
        k = k - 1;
    }
    None
}

/// What follows the last `::` of `s`, or `s` itself.
fn strip_path_of(s: &str) -> (r: &str)
    ensures
        r@ == strip_path(s@),
{
    let n = s.unicode_len();
    let mut k: usize = n;
    while k >= 2
        invariant
            k <= n,
            n == s@.len(),
            last_sep_before(s@, n as int) == last_sep_before(s@, k as int),
        decreases k,
    {
        if s.get_char(k - 2) == ':' && s.get_char(k - 1) == ':' {
            return s.substring_char(k, n);
        }
        k = k - 1;
    }
    s
}

/// The simple name of a type, from its full path: for a generic type, the
/// last path segment of what lies between the first `<` and the last `>`;
/// otherwise the last path segment of the name.
pub fn extract_simple_type_name(full_name: &str) -> (r: &str)
    requires
        well_bracketed(full_name@),
    ensures
        r@ == simple_type_name(full_name@),
{
    let n = full_name.unicode_len();
    let open_at = find_char(full_name, n, '<');
    let close_at = rfind_char(full_name, n, '>');
    proof {
        lemma_first_from_range(full_name@, '<', 0);
        lemma_last_before_range(full_name@, '>', n as int);
    }
    match (open_at, close_at) {
        (Some(a), Some(b)) => {
            let inner = full_name.substring_char(a + 1, b);
            strip_path_of(inner)
        },
        _ => strip_path_of(full_name),
    }
}

/// Whether a name can be read by [`extract_simple_type_name`].
pub fn is_well_bracketed(full_name: &str) -> (r: bool)
    ensures
        r == well_bracketed(full_name@),
{
    let n = full_name.unicode_len();
    match (find_char(full_name, n, '<'), rfind_char(full_name, n, '>')) {
        (Some(a), Some(b)) => a < b,
        _ => true,
    }
}

/// What `str::to_lowercase` returns for a string with these characters.
pub uninterp spec fn lower_of(s: Seq<char>) -> Seq<char>;

/// Relies on `str::to_lowercase`: the lower-case form of a string, which
/// depends on its characters alone.
#[verifier::external_body]
fn lowercase(s: &str) -> (r: String)
    ensures
        r@ == lower_of(s@),
{
    s.to_lowercase()
}

/// The plural of an already lower-cased name: the name followed by `s`.
pub fn pluralize(lowered: String) -> (r: String)
    ensures
        r@ == lowered@ + "s"@,
{
    let mut r = lowered;
    r.append("s");
    r
}

/// The key a value is serialized under: the simple name of its type, lower
/// cased, with an `s` appended.
pub fn type_name_key(full_name: &str) -> (r: String)
    requires
        well_bracketed(full_name@),
    ensures
        r@ == lower_of(simple_type_name(full_name@)) + "s"@,
{
    pluralize(lowercase(extract_simple_type_name(full_name)))
}

/// Whether `Vec<` starts at index `k` of `s`.
pub open spec fn vec_opens_at(s: Seq<char>, k: int) -> bool {
    0 <= k && k + 4 <= s.len() && s[k] == 'V' && s[k + 1] == 'e' && s[k + 2] == 'c' && s[k + 3]
        == '<'
}

/// The first index at or after `from` where `Vec<` starts, or -1.
pub open spec fn first_vec_from(s: Seq<char>, from: int) -> int
    decreases s.len() - from,
{
    if from < 0 || from + 4 > s.len() {
        -1
    } else if vec_opens_at(s, from) {
        from
    } else {
        first_vec_from(s, from + 1)
    }
}

/// The item type of a vector type's name: the last path segment of what lies
/// between the first `Vec<` and the last `>`, when that `>` comes after it.
pub open spec fn vec_item_name(s: Seq<char>) -> Option<Seq<char>> {
    let a = first_vec_from(s, 0);
    let b = last_before(s, '>', s.len() as int);
    if a >= 0 && b >= 0 && a + 4 < b {
        Some(strip_path(s.subrange(a + 4, b)))
    } else {
        None
    }
}

proof fn lemma_first_vec_range(s: Seq<char>, from: int)
    requires
        0 <= from,
    ensures
        first_vec_from(s, from) == -1 || (from <= first_vec_from(s, from) && first_vec_from(s, from)
            + 4 <= s.len()),
    decreases s.len() - from,
{
    if from + 4 <= s.len() && !vec_opens_at(s, from) {
        lemma_first_vec_range(s, from + 1);
    }
}

/// The first index where `Vec<` starts in `s`.
fn find_vec(s: &str, n: usize) -> (r: Option<usize>)
    requires
        n == s@.len(),
    ensures
        match r {
            Some(i) => i as int == first_vec_from(s@, 0),
            None => first_vec_from(s@, 0) == -1,
        },
{
    let mut i: usize = 0;
    while n >= 4 && i <= n - 4
        invariant
            n == s@.len(),
            first_vec_from(s@, 0) == first_vec_from(s@, i as int),
        decreases n - i,
    {
        if s.get_char(i) == 'V' && s.get_char(i + 1) == 'e' && s.get_char(i + 2) == 'c' && s.get_char(
            i + 3,
        ) == '<' {
            return Some(i);
        }
        i = i + 1;
    }
    None
}

/// The key a vector is serialized under: the simple name of its item type,
/// lower cased, with an `s` appended; `None` when the name holds no `Vec<`
/// followed by a `>`.
pub fn vec_item_key(vec_type_name: &str) -> (r: Option<String>)
    ensures
        match vec_item_name(vec_type_name@) {
            Some(item) => r is Some && r.unwrap()@ == lower_of(item) + "s"@,
            None => r is None,
        },
{
    let n = vec_type_name.unicode_len();
    let start = find_vec(vec_type_name, n);
    let end = rfind_char(vec_type_name, n, '>');
    proof {
        lemma_first_vec_range(vec_type_name@, 0);
        lemma_last_before_range(vec_type_name@, '>', n as int);
    }
    match (start, end) {
        (Some(a), Some(b)) => {
            if a + 4 < b {
                let inner = vec_type_name.substring_char(a + 4, b);
                Some(pluralize(lowercase(strip_path_of(inner))))
            } else {
                None
            }
        },
        _ => None,
    }
}

} // verus!
