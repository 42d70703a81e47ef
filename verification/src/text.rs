//! Character-level helpers on strings: substring search, white space, and the
//! cutting of an argument string into arguments.

use vstd::prelude::*;

verus! {

/// Whether `needle` stands in `hay` from position `at` on.
pub open spec fn occurs_at(needle: Seq<char>, hay: Seq<char>, at: int) -> bool {
    &&& 0 <= at
    &&& at + needle.len() <= hay.len()
    &&& hay.subrange(at, at + needle.len()) == needle
}

/// Whether `needle` is a contiguous part of `hay`. Characters are compared as
/// they are, so upper and lower case differ.
pub open spec fn is_substring(needle: Seq<char>, hay: Seq<char>) -> bool {
    exists|at: int| occurs_at(needle, hay, at)
}

/// Whether `c` is white space: a character with the Unicode property
/// `White_Space`.
pub open spec fn is_whitespace(c: char) -> bool {
    let n = c as u32;
    ||| 0x09 <= n <= 0x0D
    ||| n == 0x20
    ||| n == 0x85
    ||| n == 0xA0
    ||| n == 0x1680
    ||| 0x2000 <= n <= 0x200A
    ||| n == 0x2028
    ||| n == 0x2029
    ||| n == 0x202F
    ||| n == 0x205F
    ||| n == 0x3000
}

/// `s` without the white space that it begins with.
pub open spec fn trim_start(s: Seq<char>) -> Seq<char>
    decreases s.len(),
{
    if s.len() > 0 && is_whitespace(s[0]) {
        trim_start(s.subrange(1, s.len() as int))
    } else {
        s
    }
}

/// `s` without the white space that it ends with.
pub open spec fn trim_end(s: Seq<char>) -> Seq<char>
    decreases s.len(),
{
    if s.len() > 0 && is_whitespace(s[s.len() - 1]) {
        trim_end(s.subrange(0, s.len() - 1))
    } else {
        s
    }
}

/// `s` without the white space at either end.
pub open spec fn trim(s: Seq<char>) -> Seq<char> {
    trim_end(trim_start(s))
}

/// The pieces that `s` falls into when it is cut at every `sep`. There is one
/// piece more than there are separators: two separators in a row, or one at
/// either end, leave an empty piece.
pub open spec fn split(s: Seq<char>, sep: char) -> Seq<Seq<char>>
    decreases s.len(),
{
    if s.len() == 0 {
        seq![Seq::<char>::empty()]
    } else {
        let before = split(s.subrange(0, s.len() - 1), sep);
        if s[s.len() - 1] == sep {
            before.push(Seq::<char>::empty())
        } else {
            before.subrange(0, before.len() - 1).push(before[before.len() - 1].push(s[s.len() - 1]))
        }
    }
}

/// The pieces of `pieces` in a row, with `sep` between each two.
pub open spec fn join(pieces: Seq<Seq<char>>, sep: char) -> Seq<char>
    decreases pieces.len(),
{
    if pieces.len() == 0 {
        Seq::<char>::empty()
    } else if pieces.len() == 1 {
        pieces[0]
    } else {
        join(pieces.subrange(0, pieces.len() - 1), sep).push(sep) + pieces[pieces.len() - 1]
    }
}

/// Cutting undoes nothing: the pieces of `s`, joined again with the
/// separator between them, are `s`. There is at least one piece, and no piece
/// holds the separator.
pub proof fn lemma_split_then_join(s: Seq<char>, sep: char)
    ensures
        join(split(s, sep), sep) == s,
        split(s, sep).len() >= 1,
        forall|k: int| 0 <= k < split(s, sep).len() ==> !(#[trigger] split(s, sep)[k]).contains(sep),
    decreases s.len(),
{
    let pieces = split(s, sep);
    if s.len() == 0 {
        assert(join(pieces, sep) =~= s);
    } else {
        let front = s.subrange(0, s.len() - 1);
        let last = s[s.len() - 1];
        let before = split(front, sep);
        lemma_split_then_join(front, sep);
        let kept = before.subrange(0, before.len() - 1);
        let open = before[before.len() - 1];
        if last == sep {
            assert(pieces.subrange(0, pieces.len() - 1) =~= before);
            assert(join(pieces, sep) =~= front.push(sep));
            assert(front.push(sep) =~= s);
        } else {
            assert(pieces.subrange(0, pieces.len() - 1) =~= kept);
            if before.len() == 1 {
                assert(join(pieces, sep) =~= front.push(last));
            } else {
                assert(join(before, sep) =~= join(kept, sep).push(sep) + open);
                assert(join(pieces, sep) =~= join(kept, sep).push(sep) + open.push(last));
                assert(join(pieces, sep) =~= front.push(last));
            }
            assert(front.push(last) =~= s);
            assert forall|k: int| 0 <= k < pieces.len() implies !(#[trigger] pieces[k]).contains(
                sep,
            ) by {
                if k < pieces.len() - 1 {
                    assert(pieces[k] == before[k]);
                } else {
                    assert(!before[before.len() - 1].contains(sep));
                    if pieces[k].contains(sep) {
                        let at = choose|at: int| 0 <= at < pieces[k].len() && pieces[k][at] == sep;
                        assert(open[at] == sep);
                    }
                }
            }
        }
    }
}

/// Whether `s` is white space before `from` and from `to` on, so that the
/// part between them is all that is not white space at the ends.
pub open spec fn is_white_outside(s: Seq<char>, from: int, to: int) -> bool {
    &&& 0 <= from <= to <= s.len()
    &&& forall|k: int| 0 <= k < from ==> is_whitespace(s[k])
    &&& forall|k: int| to <= k < s.len() ==> is_whitespace(s[k])
}

/// What trimming leaves is a part of the text between two runs of white
/// space, and neither begins nor ends with white space.
pub proof fn lemma_trim_is_the_core(s: Seq<char>)
    ensures
        exists|from: int, to: int|
            #[trigger] is_white_outside(s, from, to) && s.subrange(from, to) == trim(s),
        trim(s).len() > 0 ==> !is_whitespace(trim(s)[0]) && !is_whitespace(
            trim(s)[trim(s).len() - 1],
        ),
{
    lemma_trim_start_is_a_tail(s);
    let from = s.len() - trim_start(s).len();
    let tail = s.subrange(from, s.len() as int);
    lemma_trim_end_is_a_head(tail);
    let kept = trim_end(tail).len() as int;
    let to = from + kept;
    assert(s.subrange(from, to) =~= tail.subrange(0, kept));
    assert forall|k: int| to <= k < s.len() implies is_whitespace(s[k]) by {
        assert(s[k] == tail[k - from]);
    }
    if trim(s).len() > 0 {
        assert(trim(s)[0] == tail[0]);
    }
    assert(is_white_outside(s, from, to));
}

/// What is left when leading white space is taken away is the end of the
/// text; all before it is white space, and it does not begin with any.
pub proof fn lemma_trim_start_is_a_tail(s: Seq<char>)
    ensures
        trim_start(s).len() <= s.len(),
        trim_start(s) == s.subrange(s.len() - trim_start(s).len(), s.len() as int),
        forall|k: int| 0 <= k < s.len() - trim_start(s).len() ==> is_whitespace(s[k]),
        trim_start(s).len() > 0 ==> !is_whitespace(trim_start(s)[0]),
    decreases s.len(),
{
    if s.len() > 0 && is_whitespace(s[0]) {
        let rest = s.subrange(1, s.len() as int);
        lemma_trim_start_is_a_tail(rest);
        let cut = rest.len() - trim_start(rest).len();
        assert(rest.subrange(cut, rest.len() as int) =~= s.subrange(cut + 1, s.len() as int));
        assert forall|k: int| 0 <= k < s.len() - trim_start(s).len() implies is_whitespace(
            s[k],
        ) by {
            if k > 0 {
                assert(s[k] == rest[k - 1]);
            }
        }
    } else {
        assert(s.subrange(0, s.len() as int) =~= s);
    }
}

/// What is left when trailing white space is taken away is the beginning of
/// the text; all behind it is white space, and it does not end with any.
pub proof fn lemma_trim_end_is_a_head(s: Seq<char>)
    ensures
        trim_end(s).len() <= s.len(),
        trim_end(s) == s.subrange(0, trim_end(s).len() as int),
        forall|k: int| trim_end(s).len() <= k < s.len() ==> is_whitespace(s[k]),
        trim_end(s).len() > 0 ==> !is_whitespace(trim_end(s)[trim_end(s).len() - 1]),
    decreases s.len(),
{
    if s.len() > 0 && is_whitespace(s[s.len() - 1]) {
        let rest = s.subrange(0, s.len() - 1);
        lemma_trim_end_is_a_head(rest);
        let kept = trim_end(rest).len() as int;
        assert(rest.subrange(0, kept) =~= s.subrange(0, kept));
        assert forall|k: int| trim_end(s).len() <= k < s.len() implies is_whitespace(s[k]) by {
            if k < s.len() - 1 {
                assert(s[k] == rest[k]);
            }
        }
    } else {
        assert(s.subrange(0, s.len() as int) =~= s);
    }
}

/// The characters of `s`, one by one.
pub fn chars_of(s: &str) -> (chars: Vec<char>)
    ensures
        chars@ == s@,
{
    let mut chars: Vec<char> = Vec::new();
    for c in it: s.chars()
        invariant
            chars@ == it.seq().take(it.index()),
            it.seq() == s@,
    {
        chars.push(c);
    }
    chars
}

/// Tells white space from other characters.
pub fn is_space(c: char) -> (space: bool)
    ensures
        space == is_whitespace(c),
{
    let n: u32 = c as u32;
    (0x09 <= n && n <= 0x0D) || n == 0x20 || n == 0x85 || n == 0xA0 || n == 0x1680 || (0x2000 <= n
        && n <= 0x200A) || n == 0x2028 || n == 0x2029 || n == 0x202F || n == 0x205F || n == 0x3000
}

/// Compares `needle` with the part of `hay` that begins at `at`.
fn matches_at(hay: &Vec<char>, needle: &Vec<char>, at: usize) -> (found: bool)
    requires
        at + needle.len() <= hay.len(),
    ensures
        found == occurs_at(needle@, hay@, at as int),
{
    let mut k: usize = 0;
    while k < needle.len()
        invariant
            k <= needle.len(),
            at + needle.len() <= hay.len(),
            forall|j: int| 0 <= j < k ==> hay@[at + j] == needle@[j],
        decreases needle.len() - k,
    {
        if hay[at + k] != needle[k] {
            assert(hay@.subrange(at as int, at + needle.len())[k as int] != needle@[k as int]);
            return false;
        }
        k += 1;
    }
    assert(hay@.subrange(at as int, at + needle.len()) =~= needle@);
    true
}

/// Searches `hay` for `needle`, both given by their characters.
pub fn contains_chars(hay: &Vec<char>, needle: &Vec<char>) -> (found: bool)
    ensures
        found == is_substring(needle@, hay@),
{
    if needle.len() > hay.len() {
        return false;
    }
    let last: usize = hay.len() - needle.len();
    let mut at: usize = 0;
    while at < last
        invariant
            at <= last,
            last == hay.len() - needle.len(),
            forall|i: int| 0 <= i < at ==> !occurs_at(needle@, hay@, i),
        decreases last - at,
    {
        if matches_at(hay, needle, at) {
            return true;
        }
        at += 1;
    }
    matches_at(hay, needle, last)
}

/// Whether `needle` is a contiguous part of `hay`, compared character by
/// character.
pub fn contains(hay: &str, needle: &str) -> (found: bool)
    ensures
        found == is_substring(needle@, hay@),
{
    let hay_chars = chars_of(hay);
    let needle_chars = chars_of(needle);
    contains_chars(&hay_chars, &needle_chars)
}

/// Finds the part of `chars[from..to]` that is left when the white space at
/// its two ends is taken away.
pub fn trim_bounds(chars: &Vec<char>, from: usize, to: usize) -> (bounds: (usize, usize))
    requires
        from <= to <= chars.len(),
    ensures
        from <= bounds.0 <= bounds.1 <= to,
        chars@.subrange(bounds.0 as int, bounds.1 as int) == trim(
            chars@.subrange(from as int, to as int),
        ),
{
    let mut a: usize = from;
    while a < to && is_space(chars[a])
        invariant
            from <= a <= to <= chars.len(),
            trim_start(chars@.subrange(from as int, to as int)) == trim_start(
                chars@.subrange(a as int, to as int),
            ),
        decreases to - a,
    {
        assert(chars@.subrange(a as int, to as int).subrange(1, to - a) =~= chars@.subrange(
            a + 1,
            to as int,
        ));
        a += 1;
    }
    let mut b: usize = to;
    while b > a && is_space(chars[b - 1])
        invariant
            a <= b <= to <= chars.len(),
            trim_end(chars@.subrange(a as int, to as int)) == trim_end(
                chars@.subrange(a as int, b as int),
            ),
        decreases b - a,
    {
        assert(chars@.subrange(a as int, b as int).subrange(0, b - a - 1) =~= chars@.subrange(
            a as int,
            b - 1,
        ));
        b -= 1;
    }
    (a, b)
}

} // verus!
