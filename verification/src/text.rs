//! Text as sequences of characters: comparison, searching, splitting, and the
//! decimal notation of whole and fixed-point numbers.

use vstd::prelude::*;
use vstd::string::*;

verus! {

/// `String::push` puts the character at the end of the string.
pub assume_specification[ String::push ](s: &mut String, c: char)
    ensures
        final(s)@ == old(s)@.push(c),
;

/// `String::pop` takes the last character off the string and hands it back, or
/// leaves an empty string alone and hands back `None`.
pub assume_specification[ String::pop ](s: &mut String) -> (r: Option<char>)
    ensures
        old(s)@.len() == 0 ==> r is None && final(s)@ == old(s)@,
        old(s)@.len() > 0 ==> r == Some(old(s)@.last()) && final(s)@ == old(s)@.drop_last(),
;

/// The characters of `s`.
pub fn chars_of(s: &str) -> (r: Vec<char>)
    ensures
        r@ == s@,
{
    let mut v: Vec<char> = Vec::new();
    for c in it: s.chars()
        invariant
            it.seq() == s@,
            v@ == s@.take(it.index() as int),
    {
        v.push(c);
        assert(v@ =~= s@.take(it.index() + 1));
    }
    assert(s@.take(s@.len() as int) =~= s@);
    v
}

/// The characters `v[lo..hi]` as a string.
pub fn string_of(v: &Vec<char>, lo: usize, hi: usize) -> (r: String)
    requires
        lo <= hi <= v@.len(),
    ensures
        r@ == v@.subrange(lo as int, hi as int),
{
    let mut s = String::new();
    let mut i: usize = lo;
    assert(s@ =~= v@.subrange(lo as int, lo as int));
    while i < hi
        invariant
            lo <= i <= hi <= v@.len(),
            s@ == v@.subrange(lo as int, i as int),
        decreases hi - i,
    {
        s.push(v[i]);
        i = i + 1;
        assert(s@ =~= v@.subrange(lo as int, i as int));
    }
    s
}

/// Whether two texts hold the same characters.
pub fn same_text(a: &str, b: &str) -> (r: bool)
    ensures
        r == (a@ == b@),
{
    a.to_owned() == b.to_owned()
}

/// A fresh string that holds `a`.
pub fn own(a: &str) -> (r: String)
    ensures
        r@ == a@,
{
    a.to_owned()
}

/// The characters of an optional string.
pub open spec fn opt_text(s: Option<String>) -> Option<Seq<char>> {
    match s {
        Some(t) => Some(t@),
        None => None,
    }
}

/// The characters of each string of a list.
pub open spec fn texts(v: Seq<String>) -> Seq<Seq<char>> {
    v.map_values(|s: String| s@)
}

/// Whether one of `v` is the text `s`.
pub open spec fn holds_text(v: Seq<String>, s: Seq<char>) -> bool {
    exists|i: int| 0 <= i < v.len() && (#[trigger] v[i])@ == s
}

/// Whether the list `v` holds the text `s`.
pub fn has_text(v: &Vec<String>, s: &str) -> (r: bool)
    ensures
        r == holds_text(v@, s@),
{
    let mut i: usize = 0;
    while i < v.len()
        invariant
            i <= v@.len(),
            forall|j: int| 0 <= j < i ==> (#[trigger] v@[j])@ != s@,
        decreases v@.len() - i,
    {
        if same_text(v[i].as_str(), s) {
            return true;
        }
        i = i + 1;
    }
    false
}

// --- letter case -----------------------------------------------------------

/// `c`, or its lower-case form where `c` is an ASCII capital.
pub open spec fn lower(c: char) -> char {
    if 'A' <= c && c <= 'Z' {
        ((c as u8) + 32) as u8 as char
    } else {
        c
    }
}

/// `c`, or its upper-case form where `c` is an ASCII small letter.
pub open spec fn upper(c: char) -> char {
    if 'a' <= c && c <= 'z' {
        ((c as u8) - 32) as u8 as char
    } else {
        c
    }
}

/// `s` with its ASCII capitals in lower case.
pub open spec fn lower_text(s: Seq<char>) -> Seq<char> {
    s.map_values(|c: char| lower(c))
}

/// The lower-case form of an ASCII capital; any other character as it is.
pub fn lower_char(c: char) -> (r: char)
    ensures
        r == lower(c),
{
    if 'A' <= c && c <= 'Z' {
        ((c as u8) + 32) as char
    } else {
        c
    }
}

/// The upper-case form of an ASCII small letter; any other character as it is.
pub fn upper_char(c: char) -> (r: char)
    ensures
        r == upper(c),
{
    if 'a' <= c && c <= 'z' {
        ((c as u8) - 32) as char
    } else {
        c
    }
}

/// The characters of `s`, ASCII capitals in lower case.
pub fn lowered(s: &str) -> (r: Vec<char>)
    ensures
        r@ == lower_text(s@),
{
    let v = chars_of(s);
    let mut out: Vec<char> = Vec::new();
    let mut i: usize = 0;
    while i < v.len()
        invariant
            v@ == s@,
            i <= v@.len(),
            out@ == lower_text(s@.take(i as int)),
        decreases v@.len() - i,
    {
        out.push(lower_char(v[i]));
        i = i + 1;
        assert(out@ =~= lower_text(s@.take(i as int)));
    }
    assert(s@.take(i as int) =~= s@);
    out
}

// --- searching -------------------------------------------------------------

/// Whether `needle` stands in `hay` at position `i`.
pub open spec fn stands_at(hay: Seq<char>, needle: Seq<char>, i: int) -> bool {
    0 <= i && i + needle.len() <= hay.len() && hay.subrange(i, i + needle.len()) == needle
}

/// Whether `needle` stands somewhere in `hay`.
pub open spec fn contains_text(hay: Seq<char>, needle: Seq<char>) -> bool {
    exists|i: int| stands_at(hay, needle, i)
}

fn matches_at(hay: &Vec<char>, needle: &Vec<char>, at: usize) -> (r: bool)
    requires
        at + needle@.len() <= hay@.len(),
    ensures
        r == stands_at(hay@, needle@, at as int),
{
    let mut j: usize = 0;
    let total: usize = hay.len();
    while j < needle.len()
        invariant
            at + needle@.len() <= hay@.len() == total,
            j <= needle@.len(),
            forall|k: int| 0 <= k < j ==> hay@[at + k] == #[trigger] needle@[k],
        decreases needle@.len() - j,
    {
        if hay[at + j] != needle[j] {
            assert(hay@.subrange(at as int, at + needle@.len())[j as int] != needle@[j as int]);
            return false;
        }
        j = j + 1;
    }
    assert(hay@.subrange(at as int, at + needle@.len()) =~= needle@);
    true
}

/// Whether `needle` stands somewhere in the characters `hay`.
pub fn has_part(hay: &Vec<char>, needle: &str) -> (r: bool)
    ensures
        r == contains_text(hay@, needle@),
{
    let n = chars_of(needle);
    let mut i: usize = 0;
    while i <= hay.len() && n.len() <= hay.len() - i
        invariant
            n@ == needle@,
            i <= hay@.len() + 1,
            forall|k: int| 0 <= k < i ==> !stands_at(hay@, needle@, k),
        decreases hay@.len() + 1 - i,
    {
        if matches_at(hay, &n, i) {
            return true;
        }
        if i == hay.len() {
            assert forall|k: int| !stands_at(hay@, needle@, k) by {
                if k > i as int {
                }
            }
            return false;
        }
        i = i + 1;
    }
    assert(forall|k: int| !stands_at(hay@, needle@, k));
    false
}

/// Where `c` first stands in `s`, or the length of `s` where it does not.
pub open spec fn find_char(s: Seq<char>, c: char) -> int
    decreases s.len(),
{
    if s.len() == 0 || s[0] == c {
        0
    } else {
        1 + find_char(s.drop_first(), c)
    }
}

pub proof fn lemma_find_char(s: Seq<char>, c: char, i: int)
    requires
        0 <= i <= s.len(),
        forall|j: int| 0 <= j < i ==> s[j] != c,
        i < s.len() ==> s[i] == c,
    ensures
        find_char(s, c) == i,
    decreases s.len(),
{
    if s.len() > 0 && s[0] != c {
        assert forall|j: int| 0 <= j < i - 1 implies s.drop_first()[j] != c by {
            assert(s.drop_first()[j] == s[j + 1]);
        }
        lemma_find_char(s.drop_first(), c, i - 1);
    }
}

/// The position of the first `c` in `v[lo..]`, counted from `lo`.
pub fn find_from(v: &Vec<char>, lo: usize, c: char) -> (r: usize)
    requires
        lo <= v@.len(),
    ensures
        r == find_char(v@.subrange(lo as int, v@.len() as int), c),
        lo + r <= v@.len(),
        forall|j: int| lo <= j < lo + r ==> v@[j] != c,
        lo + r < v@.len() ==> v@[lo + r] == c,
{
    let mut i: usize = lo;
    let ghost s = v@.subrange(lo as int, v@.len() as int);
    while i < v.len() && v[i] != c
        invariant
            lo <= i <= v@.len(),
            forall|j: int| lo <= j < i ==> v@[j] != c,
        decreases v@.len() - i,
    {
        i = i + 1;
    }
    proof {
        assert forall|j: int| 0 <= j < i - lo implies s[j] != c by {
            assert(s[j] == v@[lo + j]);
        }
        lemma_find_char(s, c, i - lo);
    }
    i - lo
}

// --- white space -----------------------------------------------------------

/// The characters that Unicode counts as white space.
pub open spec fn is_space(c: char) -> bool {
    let n = c as u32;
    ||| 9 <= n <= 13
    ||| n == 0x20
    ||| n == 0x85
    ||| n == 0xA0
    ||| n == 0x1680
    ||| 0x2000 <= n <= 0x200A
    ||| n == 0x2028
    ||| n == 0x2029
    ||| n == 0x202F
    ||| n == 0x205F
    ||| n == 0x3000
}

/// `s` without the white space at its two ends.
pub open spec fn trim_text(s: Seq<char>) -> Seq<char>
    decreases s.len(),
{
    if s.len() == 0 {
        s
    } else if is_space(s[0]) {
        trim_text(s.drop_first())
    } else if is_space(s.last()) {
        trim_text(s.drop_last())
    } else {
        s
    }
}

fn space_char(c: char) -> (r: bool)
    ensures
        r == is_space(c),
{
    let n: u32 = c as u32;
    (9 <= n && n <= 13) || n == 0x20 || n == 0x85 || n == 0xA0 || n == 0x1680 || (0x2000 <= n && n
        <= 0x200A) || n == 0x2028 || n == 0x2029 || n == 0x202F || n == 0x205F || n == 0x3000
}

/// `s` without the white space at its two ends.
pub fn trimmed(s: &str) -> (r: String)
    ensures
        r@ == trim_text(s@),
{
    let v = chars_of(s);
    let mut lo: usize = 0;
    let mut hi: usize = v.len();
    assert(v@.subrange(0, v@.len() as int) =~= v@);
    while lo < hi && space_char(v[lo])
        invariant
            lo <= hi == v@.len(),
            trim_text(v@.subrange(lo as int, hi as int)) == trim_text(s@),
        decreases hi - lo,
    {
        assert(v@.subrange(lo as int, hi as int).drop_first() =~= v@.subrange(lo + 1, hi as int));
        lo = lo + 1;
    }
    while lo < hi && space_char(v[hi - 1])
        invariant
            lo <= hi <= v@.len(),
            lo < hi ==> !is_space(v@[lo as int]),
            trim_text(v@.subrange(lo as int, hi as int)) == trim_text(s@),
        decreases hi - lo,
    {
        assert(v@.subrange(lo as int, hi as int).drop_last() =~= v@.subrange(lo as int, hi - 1));
        hi = hi - 1;
    }
    string_of(&v, lo, hi)
}

// --- splitting and joining -------------------------------------------------

/// The pieces of `s` between the occurrences of `sep`; one piece more than there
/// are occurrences.
pub open spec fn split_text(s: Seq<char>, sep: char) -> Seq<Seq<char>>
    decreases s.len(),
{
    if s.len() == 0 {
        seq![Seq::empty()]
    } else {
        let front = split_text(s.drop_last(), sep);
        if s.last() == sep {
            front.push(Seq::empty())
        } else {
            front.drop_last().push(front.last().push(s.last()))
        }
    }
}

/// `parts` one after the other with `sep` between neighbours.
pub open spec fn join_text(parts: Seq<Seq<char>>, sep: char) -> Seq<char>
    decreases parts.len(),
{
    if parts.len() == 0 {
        Seq::empty()
    } else if parts.len() == 1 {
        parts[0]
    } else {
        join_text(parts.drop_last(), sep).push(sep) + parts.last()
    }
}

/// Whether `c` does not occur in `s`.
pub open spec fn lacks(s: Seq<char>, c: char) -> bool {
    forall|i: int| 0 <= i < s.len() ==> s[i] != c
}

pub proof fn lemma_split_nonempty(s: Seq<char>, sep: char)
    ensures
        split_text(s, sep).len() >= 1,
    decreases s.len(),
{
    if s.len() > 0 {
        lemma_split_nonempty(s.drop_last(), sep);
    }
}

pub proof fn lemma_split_extend(s: Seq<char>, t: Seq<char>, sep: char)
    requires
        lacks(t, sep),
    ensures
        split_text(s + t, sep) == split_text(s, sep).drop_last().push(
            split_text(s, sep).last() + t,
        ),
    decreases t.len(),
{
    let base = split_text(s, sep);
    lemma_split_nonempty(s, sep);
    if t.len() == 0 {
        assert(s + t =~= s);
        assert(base.last() + t =~= base.last());
        assert(base.drop_last().push(base.last()) =~= base);
    } else {
        let u = t.drop_last();
        assert forall|i: int| 0 <= i < u.len() implies u[i] != sep by {
            assert(u[i] == t[i]);
        }
        lemma_split_extend(s, u, sep);
        assert((s + t).drop_last() =~= s + u);
        assert((s + t).last() == t.last());
        assert(t.last() == t[t.len() - 1]);
        let front = split_text(s + u, sep);
        assert(front.drop_last() =~= base.drop_last());
        assert((base.last() + u).push(t.last()) =~= base.last() + t);
    }
}

/// Splitting what was joined gives the parts back, where no part holds the
/// separator.
pub proof fn law_split_undoes_join(parts: Seq<Seq<char>>, sep: char)
    requires
        parts.len() >= 1,
        forall|i: int| 0 <= i < parts.len() ==> lacks(#[trigger] parts[i], sep),
    ensures
        split_text(join_text(parts, sep), sep) == parts,
    decreases parts.len(),
{
    if parts.len() == 1 {
        let e = Seq::<char>::empty();
        lemma_split_extend(e, parts[0], sep);
        assert(e + parts[0] =~= parts[0]);
        assert(split_text(parts[0], sep) =~= parts);
    } else {
        let init = parts.drop_last();
        assert forall|i: int| 0 <= i < init.len() implies lacks(#[trigger] init[i], sep) by {
            assert(init[i] == parts[i]);
        }
        law_split_undoes_join(init, sep);
        let head = join_text(init, sep).push(sep);
        assert(head.drop_last() =~= join_text(init, sep));
        assert(split_text(head, sep) == init.push(Seq::empty()));
        assert(parts.last() == parts[parts.len() - 1]);
        lemma_split_extend(head, parts.last(), sep);
        assert(init.push(Seq::<char>::empty()).drop_last() =~= init);
        assert(init.push(Seq::<char>::empty()).last() + parts.last() =~= parts.last());
        assert(init.push(parts.last()) =~= parts);
    }
}

/// The characters of each row of a list of rows.
pub open spec fn rows(v: Seq<Vec<char>>) -> Seq<Seq<char>> {
    v.map_values(|r: Vec<char>| r@)
}

/// The pieces of `v` between the occurrences of `sep`.
pub fn split_chars(v: &Vec<char>, sep: char) -> (r: Vec<Vec<char>>)
    ensures
        rows(r@) == split_text(v@, sep),
{
    let mut out: Vec<Vec<char>> = Vec::new();
    let mut cur: Vec<char> = Vec::new();
    let mut i: usize = 0;
    assert(v@.take(0) =~= Seq::empty());
    assert(rows(out@).push(cur@) =~= split_text(v@.take(0), sep));
    while i < v.len()
        invariant
            i <= v@.len(),
            rows(out@).push(cur@) == split_text(v@.take(i as int), sep),
        decreases v@.len() - i,
    {
        let c = v[i];
        let ghost before = rows(out@).push(cur@);
        assert(v@.take(i + 1).drop_last() =~= v@.take(i as int));
        assert(v@.take(i + 1).last() == c);
        if c == sep {
            let done = cur;
            cur = Vec::new();
            out.push(done);
            assert(rows(out@) =~= before);
            assert(rows(out@).push(cur@) =~= before.push(Seq::empty()));
        } else {
            cur.push(c);
            assert(before.drop_last() =~= rows(out@));
            assert(rows(out@).push(cur@) =~= before.drop_last().push(before.last().push(c)));
        }
        i = i + 1;
    }
    assert(v@.take(i as int) =~= v@);
    let ghost before = rows(out@).push(cur@);
    out.push(cur);
    assert(rows(out@) =~= before);
    out
}

} // verus!
