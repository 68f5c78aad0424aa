//! Character-level operations on strings.
//!
//! Names of deliverables and files are short, so the functions here favour a
//! plain statement over speed: each one says exactly which sequence of
//! characters it returns.

use vstd::prelude::*;
use vstd::string::*;

verus! {

/// The lower-case form of a string.
pub uninterp spec fn lowercase(s: Seq<char>) -> Seq<char>;

/// The upper-case form of a string.
pub uninterp spec fn uppercase(s: Seq<char>) -> Seq<char>;

/// `str::to_lowercase` of the standard library: the result is the lower-case
/// form of the argument, which depends on the argument's characters alone.
pub assume_specification[ str::to_lowercase ](s: &str) -> (r: String)
    ensures
        r@ == lowercase(s@),
;

/// `str::to_uppercase` of the standard library: the result is the upper-case
/// form of the argument, which depends on the argument's characters alone.
pub assume_specification[ str::to_uppercase ](s: &str) -> (r: String)
    ensures
        r@ == uppercase(s@),
;

/// `s` with every `-` turned into `_`.
pub open spec fn underscored(s: Seq<char>) -> Seq<char> {
    s.map_values(|c: char| if c == '-' { '_' } else { c })
}

/// Whether `needle` occurs in `s` as a run of consecutive characters.
pub open spec fn occurs_in(needle: Seq<char>, s: Seq<char>) -> bool {
    exists|i: int| occurs_at(needle, s, i)
}

/// Whether `needle` occurs in `s` starting at index `i`.
pub open spec fn occurs_at(needle: Seq<char>, s: Seq<char>, i: int) -> bool {
    0 <= i && i + needle.len() <= s.len() && s.subrange(i, i + needle.len()) == needle
}

/// The characters of a string, in order.
pub fn chars_of(s: &str) -> (v: Vec<char>)
    ensures
        v@ == s@,
{
    let mut v: Vec<char> = Vec::new();
    for c in it: s.chars()
        invariant
            v@ == it.seq().take(it.index() as int),
            it.seq() == s@,
    {
        v.push(c);
    }
    v
}

/// `a` followed by `b`.
pub fn concat(a: &str, b: &str) -> (r: String)
    ensures
        r@ == a@ + b@,
{
    let mut s = a.to_owned();
    s.append(b);
    s
}

/// `a`, then `b`, then `c`.
pub fn concat3(a: &str, b: &str, c: &str) -> (r: String)
    ensures
        r@ == a@ + b@ + c@,
{
    let mut s = a.to_owned();
    s.append(b);
    s.append(c);
    s
}

/// Whether two strings hold the same characters.
pub fn same(a: &str, b: &str) -> (r: bool)
    ensures
        r == (a@ == b@),
{
    a.to_owned() == b.to_owned()
}

/// Whether the characters of `v` from `at` on begin with `needle`.
pub fn matches_at(v: &Vec<char>, needle: &Vec<char>, at: usize) -> (r: bool)
    ensures
        r == occurs_at(needle@, v@, at as int),
{
    if needle.len() > v.len() || at > v.len() - needle.len() {
        return false;
    }
    let mut k: usize = 0;
    while k < needle.len()
        invariant
            k <= needle.len(),
            at + needle.len() <= v.len(),
            forall|j: int| 0 <= j < k ==> v@[at + j] == needle@[j],
        decreases needle.len() - k,
    {
        if v[at + k] != needle[k] {
            proof {
                assert(v@.subrange(at as int, at + needle.len())[k as int] == v@[at + k]);
            }
            return false;
        }
        k = k + 1;
    }
    proof {
        assert(v@.subrange(at as int, at + needle.len()) =~= needle@);
    }
    true
}

/// Whether `s` begins with `prefix`.
pub fn starts_with(s: &str, prefix: &str) -> (r: bool)
    ensures
        r == prefix@.is_prefix_of(s@),
{
    let v = chars_of(s);
    let p = chars_of(prefix);
    matches_at(&v, &p, 0)
}

/// Whether `s` ends with `suffix`.
pub fn ends_with(s: &str, suffix: &str) -> (r: bool)
    ensures
        r == suffix@.is_suffix_of(s@),
{
    let v = chars_of(s);
    let p = chars_of(suffix);
    if p.len() > v.len() {
        return false;
    }
    matches_at(&v, &p, v.len() - p.len())
}

/// Whether `needle` occurs somewhere in `s`.
pub fn contains(s: &str, needle: &str) -> (r: bool)
    ensures
        r == occurs_in(needle@, s@),
{
    let v = chars_of(s);
    let p = chars_of(needle);
    if p.len() > v.len() {
        return false;
    }
    let last = v.len() - p.len();
    let mut i: usize = 0;
    loop
        invariant
            i <= last,
            last == v.len() - p.len(),
            p.len() <= v.len(),
            v@ == s@,
            p@ == needle@,
            forall|j: int| 0 <= j < i ==> !occurs_at(p@, v@, j),
        decreases last - i,
    {
        if matches_at(&v, &p, i) {
            return true;
        }
        if i == last {
            return false;
        }
        i = i + 1;
    }
}

/// `s` with every `-` turned into `_`.
pub fn dashes_to_underscores(s: &str) -> (r: String)
    ensures
        r@ == underscored(s@),
{
    let n = s.unicode_len();
    let mut out = String::new();
    let mut i: usize = 0;
    while i < n
        invariant
            n == s@.len(),
            i <= n,
            out@ == underscored(s@.take(i as int)),
        decreases n - i,
    {
        let c = s.get_char(i);
        if c == '-' {
            proof {
                reveal_strlit("_");
            }
            out.append("_");
        } else {
            out.append(s.substring_char(i, i + 1));
        }
        proof {
            assert(s@.take(i + 1) =~= s@.take(i as int).push(s@[i as int]));
            assert(s@.subrange(i as int, i + 1) =~= seq![s@[i as int]]);
            assert("_"@ =~= seq!['_']) by {
                reveal_strlit("_");
            }
        }
        i = i + 1;
    }
    proof {
        assert(s@.take(n as int) =~= s@);
    }
    out
}

} // verus!

verus! {

/// Whether a character separates the parts of a path.
pub open spec fn is_separator(c: char) -> bool {
    c == '\\' || c == '/'
}

/// The path `base` extended by `segment`: a `\` stands between them unless
/// `base` is empty or already ends with a separator.
pub open spec fn joined(base: Seq<char>, segment: Seq<char>) -> Seq<char> {
    if base.len() == 0 || is_separator(base.last()) {
        base + segment
    } else {
        base + seq!['\\'] + segment
    }
}

/// The path `base` extended by `segment`.
pub fn join_path(base: &str, segment: &str) -> (r: String)
    ensures
        r@ == joined(base@, segment@),
{
    let n = base.unicode_len();
    if n == 0 {
        return concat(base, segment);
    }
    let last = base.get_char(n - 1);
    if last == '\\' || last == '/' {
        concat(base, segment)
    } else {
        proof {
            reveal_strlit("\\");
            assert("\\"@ =~= seq!['\\']);
        }
        concat3(base, "\\", segment)
    }
}

} // verus!

verus! {

/// The greatest index from `lowest` to `i` at which `s` holds `c`, if
/// there is one.
pub open spec fn last_index_of(s: Seq<char>, c: char, lowest: int, i: int) -> Option<int>
    decreases i - lowest + 1,
{
    if i < lowest || i < 0 {
        None
    } else if i < s.len() && s[i] == c {
        Some(i)
    } else {
        last_index_of(s, c, lowest, i - 1)
    }
}

/// What `last_index_of` finds is the last place of `c` at or after
/// `lowest`; it finds nothing only when `c` does not stand there at all.
pub proof fn lemma_last_index_of(s: Seq<char>, c: char, lowest: int, i: int)
    requires
        0 <= lowest,
        i < s.len(),
    ensures
        match last_index_of(s, c, lowest, i) {
            Some(p) => lowest <= p <= i && s[p] == c && forall|j: int| p < j <= i ==> s[j] != c,
            None => forall|j: int| lowest <= j <= i ==> s[j] != c,
        },
    decreases i - lowest + 1,
{
    if i >= lowest && s[i] != c {
        lemma_last_index_of(s, c, lowest, i - 1);
    }
}

/// The greatest index, not below `lowest`, at which `v` holds `c`.
pub fn rfind(v: &Vec<char>, c: char, lowest: usize) -> (r: Option<usize>)
    ensures
        r is Some <==> last_index_of(v@, c, lowest as int, v.len() - 1) is Some,
        r matches Some(p) ==> last_index_of(v@, c, lowest as int, v.len() - 1) == Some(p as int)
            && p < v.len(),
{
    let mut i: usize = v.len();
    while i > lowest
        invariant
            i <= v.len(),
            last_index_of(v@, c, lowest as int, v.len() - 1) == last_index_of(
                v@,
                c,
                lowest as int,
                i - 1,
            ),
        decreases i,
    {
        if v[i - 1] == c {
            return Some(i - 1);
        }
        i = i - 1;
    }
    None
}

/// The part of `s` from character `from` up to character `to`.
pub(crate) fn slice(s: &str, from: usize, to: usize) -> (r: String)
    requires
        from <= to <= s@.len(),
    ensures
        r@ == s@.subrange(from as int, to as int),
{
    s.substring_char(from, to).to_owned()
}

} // verus!

verus! {

/// The first index at or after `from` at which `needle` occurs in `s` and
/// ends before the end of `s`, if there is one.
pub open spec fn first_inner_occurrence(needle: Seq<char>, s: Seq<char>, from: int) -> Option<int>
    decreases s.len() - from,
{
    if from < 0 || from + needle.len() >= s.len() {
        None
    } else if occurs_at(needle, s, from) {
        Some(from)
    } else {
        first_inner_occurrence(needle, s, from + 1)
    }
}

/// The first index at which `needle` occurs in `v` and ends before the
/// end of `v`.
pub fn find_inner(v: &Vec<char>, needle: &Vec<char>) -> (r: Option<usize>)
    ensures
        r is Some <==> first_inner_occurrence(needle@, v@, 0) is Some,
        r matches Some(p) ==> first_inner_occurrence(needle@, v@, 0) == Some(p as int) && p
            + needle.len() < v.len(),
{
    if needle.len() >= v.len() {
        return None;
    }
    let last = v.len() - needle.len();
    let mut i: usize = 0;
    while i < last
        invariant
            i <= last,
            last == v.len() - needle.len(),
            needle.len() < v.len(),
            first_inner_occurrence(needle@, v@, 0) == first_inner_occurrence(needle@, v@, i as int),
        decreases last - i,
    {
        if matches_at(v, needle, i) {
            return Some(i);
        }
        i = i + 1;
    }
    None
}

/// The parts of a path from index `from` on, when `current` holds the
/// characters of the part that was begun before `from`. Parts are what
/// stands between separators; there is no empty part.
pub open spec fn parts_from(s: Seq<char>, from: int, current: Seq<char>) -> Seq<Seq<char>>
    decreases s.len() - from,
{
    let done = if current.len() > 0 {
        seq![current]
    } else {
        Seq::empty()
    };
    if from < 0 || from >= s.len() {
        done
    } else if is_separator(s[from]) {
        done + parts_from(s, from + 1, Seq::empty())
    } else {
        parts_from(s, from + 1, current.push(s[from]))
    }
}

/// The parts of a path.
pub open spec fn parts_of(s: Seq<char>) -> Seq<Seq<char>> {
    parts_from(s, 0, Seq::empty())
}

/// The views of a list of strings.
pub open spec fn strings_of(list: Seq<String>) -> Seq<Seq<char>> {
    list.map_values(|s: String| s@)
}

/// The parts of a path: what stands between its separators.
pub fn split_path(path: &str) -> (parts: Vec<String>)
    ensures
        strings_of(parts@) == parts_of(path@),
{
    let chars = chars_of(path);
    let mut parts: Vec<String> = Vec::new();
    let mut begin: usize = 0;
    let mut i: usize = 0;
    proof {
        assert(strings_of(parts@) =~= Seq::empty());
        assert(path@.subrange(0, 0) =~= Seq::empty());
        assert(Seq::<Seq<char>>::empty() + parts_of(path@) =~= parts_of(path@));
    }
    while i < chars.len()
        invariant
            begin <= i <= chars.len(),
            chars@ == path@,
            parts_of(path@) == strings_of(parts@) + parts_from(
                path@,
                i as int,
                path@.subrange(begin as int, i as int),
            ),
        decreases chars.len() - i,
    {
        let ghost current = path@.subrange(begin as int, i as int);
        let ghost before = strings_of(parts@);
        let c = chars[i];
        if c == '\\' || c == '/' {
            if begin < i {
                parts.push(slice(path, begin, i));
                proof {
                    assert(strings_of(parts@) =~= before.push(current));
                    assert(before + (seq![current] + parts_from(path@, i + 1, Seq::empty()))
                        =~= before.push(current) + parts_from(path@, i + 1, Seq::empty()));
                }
            } else {
                proof {
                    assert(Seq::<Seq<char>>::empty() + parts_from(path@, i + 1, Seq::empty())
                        =~= parts_from(path@, i + 1, Seq::empty()));
                }
            }
            begin = i + 1;
            proof {
                assert(path@.subrange(i + 1, i + 1) =~= Seq::empty());
            }
        } else {
            proof {
                assert(path@.subrange(begin as int, i + 1) =~= current.push(path@[i as int]));
            }
        }
        i = i + 1;
    }
    let ghost before = strings_of(parts@);
    if begin < i {
        parts.push(slice(path, begin, i));
        proof {
            assert(strings_of(parts@) =~= before.push(path@.subrange(begin as int, i as int)));
            assert(before + seq![path@.subrange(begin as int, i as int)] =~= before.push(
                path@.subrange(begin as int, i as int),
            ));
        }
    } else {
        proof {
            assert(before + Seq::<Seq<char>>::empty() =~= before);
        }
    }
    parts
}

} // verus!

verus! {

/// Whether a character is white space.
pub open spec fn is_whitespace(c: char) -> bool {
    let n = c as u32;
    n == 0x20 || (0x09 <= n <= 0x0d) || n == 0x85 || n == 0xa0 || n == 0x1680 || (0x2000 <= n
        <= 0x200a) || n == 0x2028 || n == 0x2029 || n == 0x202f || n == 0x205f || n == 0x3000
}

/// The first index at or after `i` at which `s` holds no white space, or
/// the length of `s`.
pub open spec fn content_start(s: Seq<char>, i: int) -> int
    decreases s.len() - i,
{
    if 0 <= i < s.len() && is_whitespace(s[i]) {
        content_start(s, i + 1)
    } else {
        i
    }
}

/// The end of the last run of characters, not below `lowest`, that are no
/// white space, looking back from `j`.
pub open spec fn content_end(s: Seq<char>, lowest: int, j: int) -> int
    decreases j,
{
    if lowest < j <= s.len() && 0 < j && is_whitespace(s[j - 1]) {
        content_end(s, lowest, j - 1)
    } else {
        j
    }
}

/// `s` without the white space at its beginning and at its end.
pub open spec fn trimmed(s: Seq<char>) -> Seq<char> {
    let from = content_start(s, 0);
    s.subrange(from, content_end(s, from, s.len() as int))
}

/// Where the content of a string begins and ends.
pub proof fn lemma_content_bounds(s: Seq<char>, i: int, j: int)
    requires
        0 <= i <= j <= s.len(),
    ensures
        i <= content_start(s, i) <= s.len(),
        i <= content_end(s, i, j) <= j,
    decreases s.len() - i, j,
{
    if i < s.len() && is_whitespace(s[i]) {
        lemma_content_bounds(s, i + 1, s.len() as int);
    }
    if i < j && is_whitespace(s[j - 1]) {
        lemma_content_bounds(s, i, j - 1);
    }
}

/// Whether a character is white space.
pub fn char_is_whitespace(c: char) -> (r: bool)
    ensures
        r == is_whitespace(c),
{
    let n = c as u32;
    n == 0x20 || (0x09 <= n && n <= 0x0d) || n == 0x85 || n == 0xa0 || n == 0x1680 || (0x2000 <= n
        && n <= 0x200a) || n == 0x2028 || n == 0x2029 || n == 0x202f || n == 0x205f || n == 0x3000
}

/// `s` without the white space at its beginning and at its end.
pub fn trim(s: &str) -> (r: String)
    ensures
        r@ == trimmed(s@),
{
    let chars = chars_of(s);
    let mut from: usize = 0;
    while from < chars.len() && char_is_whitespace(chars[from])
        invariant
            from <= chars.len(),
            chars@ == s@,
            content_start(s@, 0) == content_start(s@, from as int),
        decreases chars.len() - from,
    {
        from = from + 1;
    }
    let mut to: usize = chars.len();
    while to > from && char_is_whitespace(chars[to - 1])
        invariant
            from <= to <= chars.len(),
            chars@ == s@,
            content_end(s@, from as int, s@.len() as int) == content_end(
                s@,
                from as int,
                to as int,
            ),
        decreases to,
    {
        to = to - 1;
    }
    slice(s, from, to)
}

} // verus!

verus! {

/// Where `first_inner_occurrence` finds `needle`, it occurs and ends
/// before the end of `s`, and it occurs nowhere between `from` and there;
/// where it finds nothing, `needle` does not occur from `from` on, unless
/// at the very end of `s`.
pub proof fn lemma_first_inner_occurrence(needle: Seq<char>, s: Seq<char>, from: int)
    requires
        0 <= from,
    ensures
        match first_inner_occurrence(needle, s, from) {
            Some(p) => from <= p && p + needle.len() < s.len() && occurs_at(needle, s, p)
                && forall|i: int| from <= i < p ==> !occurs_at(needle, s, i),
            None => forall|i: int|
                from <= i && i + needle.len() < s.len() ==> !occurs_at(needle, s, i),
        },
    decreases s.len() - from,
{
    if from + needle.len() < s.len() && !occurs_at(needle, s, from) {
        lemma_first_inner_occurrence(needle, s, from + 1);
    }
}

/// Between `i` and where the content begins there is only white space,
/// and the content begins with a character that is none.
pub proof fn lemma_content_start(s: Seq<char>, i: int)
    requires
        0 <= i <= s.len(),
    ensures
        i <= content_start(s, i) <= s.len(),
        forall|j: int| i <= j < content_start(s, i) ==> is_whitespace(s[j]),
        content_start(s, i) < s.len() ==> !is_whitespace(s[content_start(s, i)]),
    decreases s.len() - i,
{
    if i < s.len() && is_whitespace(s[i]) {
        lemma_content_start(s, i + 1);
    }
}

/// Between where the content ends and `j` there is only white space, and
/// the content ends with a character that is none, unless it ends at
/// `lowest`.
pub proof fn lemma_content_end(s: Seq<char>, lowest: int, j: int)
    requires
        0 <= lowest <= j <= s.len(),
    ensures
        lowest <= content_end(s, lowest, j) <= j,
        forall|k: int| content_end(s, lowest, j) <= k < j ==> is_whitespace(s[k]),
        content_end(s, lowest, j) > lowest ==> !is_whitespace(s[content_end(s, lowest, j) - 1]),
    decreases j,
{
    if lowest < j && is_whitespace(s[j - 1]) {
        lemma_content_end(s, lowest, j - 1);
    }
}

/// A trimmed text is a part of the text it was trimmed from, with only
/// white space before and behind it, and it neither begins nor ends with
/// white space.
pub proof fn lemma_trimmed(s: Seq<char>)
    ensures
        exists|from: int, to: int|
            0 <= from <= to <= s.len() && trimmed(s) == s.subrange(from, to) && (forall|i: int|
                0 <= i < from ==> is_whitespace(s[i])) && (forall|i: int|
                to <= i < s.len() ==> is_whitespace(s[i])),
        trimmed(s).len() > 0 ==> !is_whitespace(trimmed(s).first()) && !is_whitespace(
            trimmed(s).last(),
        ),
{
    let from = content_start(s, 0);
    lemma_content_start(s, 0);
    lemma_content_end(s, from, s.len() as int);
    let to = content_end(s, from, s.len() as int);
    assert(0 <= from <= to <= s.len() && trimmed(s) == s.subrange(from, to) && (forall|i: int|
        0 <= i < from ==> is_whitespace(s[i])) && (forall|i: int|
        to <= i < s.len() ==> is_whitespace(s[i])));
}

/// Whether a text is a part of a path: not empty, and without a
/// separator.
pub open spec fn is_part(p: Seq<char>) -> bool {
    p.len() > 0 && forall|i: int| 0 <= i < p.len() ==> !is_separator(p[i])
}

/// The parts of a path are parts: none is empty and none holds a
/// separator.
pub proof fn lemma_parts_from(s: Seq<char>, from: int, current: Seq<char>)
    requires
        0 <= from,
        forall|i: int| 0 <= i < current.len() ==> !is_separator(current[i]),
    ensures
        forall|k: int|
            0 <= k < parts_from(s, from, current).len() ==> is_part(
                #[trigger] parts_from(s, from, current)[k],
            ),
    decreases s.len() - from,
{
    let done = if current.len() > 0 {
        seq![current]
    } else {
        Seq::<Seq<char>>::empty()
    };
    assert(forall|k: int| 0 <= k < done.len() ==> is_part(#[trigger] done[k]));
    if from < s.len() {
        if is_separator(s[from]) {
            lemma_parts_from(s, from + 1, Seq::empty());
            let rest = parts_from(s, from + 1, Seq::empty());
            assert(parts_from(s, from, current) == done + rest);
            assert forall|k: int| 0 <= k < (done + rest).len() implies is_part(
                #[trigger] (done + rest)[k],
            ) by {
                if k >= done.len() {
                    assert((done + rest)[k] == rest[k - done.len()]);
                }
            }
        } else {
            let longer = current.push(s[from]);
            assert forall|i: int| 0 <= i < longer.len() implies !is_separator(longer[i]) by {
                if i < current.len() {
                    assert(longer[i] == current[i]);
                }
            }
            lemma_parts_from(s, from + 1, longer);
            assert(parts_from(s, from, current) == parts_from(s, from + 1, longer));
        }
    } else {
        assert(parts_from(s, from, current) == done);
    }
}

/// The parts of a path are parts: none is empty and none holds a
/// separator.
pub proof fn lemma_parts_of(s: Seq<char>)
    ensures
        forall|k: int| 0 <= k < parts_of(s).len() ==> is_part(#[trigger] parts_of(s)[k]),
{
    lemma_parts_from(s, 0, Seq::empty());
}

} // verus!
