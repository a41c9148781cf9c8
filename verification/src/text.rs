//! Small operations on text, stated over sequences of characters.

use vstd::prelude::*;

verus! {

/// The characters of a string, one by one.
pub fn chars_of(s: &str) -> (chars: Vec<char>)
    ensures
        chars@ == s@,
{
    let mut chars: Vec<char> = Vec::new();
    for c in it: s.chars()
        invariant
            chars@ == it.seq().take(it.index() as int),
            it.seq() == s@,
    {
        chars.push(c);
    }
    chars
}

/// The decimal digit `d` as a character.
pub open spec fn digit_char(d: int) -> char {
    if d == 0 {
        '0'
    } else if d == 1 {
        '1'
    } else if d == 2 {
        '2'
    } else if d == 3 {
        '3'
    } else if d == 4 {
        '4'
    } else if d == 5 {
        '5'
    } else if d == 6 {
        '6'
    } else if d == 7 {
        '7'
    } else if d == 8 {
        '8'
    } else {
        '9'
    }
}

/// The decimal notation of a natural number, without leading zeros.
pub open spec fn decimal_text(n: nat) -> Seq<char>
    decreases n,
{
    if n < 10 {
        seq![digit_char(n as int)]
    } else {
        decimal_text(n / 10).push(digit_char((n % 10) as int))
    }
}

fn digit(d: u32) -> (text: &'static str)
    requires
        d < 10,
    ensures
        text@ == seq![digit_char(d as int)],
{
    proof {
        reveal_strlit("0");
        reveal_strlit("1");
        reveal_strlit("2");
        reveal_strlit("3");
        reveal_strlit("4");
        reveal_strlit("5");
        reveal_strlit("6");
        reveal_strlit("7");
        reveal_strlit("8");
        reveal_strlit("9");
    }
    let text = if d == 0 {
        "0"
    } else if d == 1 {
        "1"
    } else if d == 2 {
        "2"
    } else if d == 3 {
        "3"
    } else if d == 4 {
        "4"
    } else if d == 5 {
        "5"
    } else if d == 6 {
        "6"
    } else if d == 7 {
        "7"
    } else if d == 8 {
        "8"
    } else {
        "9"
    };
    assert(text@ =~= seq![digit_char(d as int)]);
    text
}

/// The decimal notation of `n`.
pub fn decimal_u64(n: u64) -> (text: String)
    ensures
        text@ == decimal_text(n as nat),
    decreases n,
{
    if n < 10 {
        digit(n as u32).to_owned()
    } else {
        let mut text = decimal_u64(n / 10);
        text.append(digit((n % 10) as u32));
        assert(text@ =~= decimal_text(n as nat));
        text
    }
}

/// The decimal notation of `n`.
pub fn decimal(n: u32) -> (text: String)
    ensures
        text@ == decimal_text(n as nat),
{
    decimal_u64(n as u64)
}

/// The concatenation of two texts.
pub fn concat(left: &str, right: &str) -> (text: String)
    ensures
        text@ == left@ + right@,
{
    left.to_owned().concat(right)
}

/// Whether `needle` stands in `hay` at position `at`.
pub open spec fn occurs_at(hay: Seq<char>, needle: Seq<char>, at: int) -> bool {
    0 <= at && at + needle.len() <= hay.len() && hay.subrange(at, at + needle.len()) == needle
}

/// Whether `needle` stands somewhere in `hay`.
pub open spec fn spec_contains(hay: Seq<char>, needle: Seq<char>) -> bool {
    exists|at: int| occurs_at(hay, needle, at)
}

/// Whether `needle` stands in `hay` at position `at`.
pub fn matches_at(hay: &Vec<char>, needle: &Vec<char>, at: usize) -> (found: bool)
    ensures
        found == occurs_at(hay@, needle@, at as int),
{
    if at > hay.len() || needle.len() > hay.len() - at {
        return false;
    }
    let mut k: usize = 0;
    while k < needle.len()
        invariant
            k <= needle@.len(),
            at + needle@.len() <= hay@.len() <= usize::MAX,
            forall|j: int| 0 <= j < k ==> hay@[at + j] == needle@[j],
        decreases needle@.len() - k,
    {
        if hay[at + k] != needle[k] {
            assert(hay@.subrange(at as int, at + needle@.len())[k as int] != needle@[k as int]);
            return false;
        }
        k += 1;
    }
    assert(hay@.subrange(at as int, at + needle@.len()) =~= needle@);
    true
}

/// The first position at or after `from` where `needle` stands in `hay`.
pub fn find_from(hay: &Vec<char>, needle: &Vec<char>, from: usize) -> (found: Option<usize>)
    ensures
        match found {
            Some(at) => from <= at && occurs_at(hay@, needle@, at as int) && forall|k: int|
                from <= k < at ==> !occurs_at(hay@, needle@, k),
            None => forall|k: int| from <= k ==> !occurs_at(hay@, needle@, k),
        },
{
    if from > hay.len() {
        return None;
    }
    let mut at: usize = from;
    loop
        invariant
            from <= at <= hay@.len() <= usize::MAX,
            forall|k: int| from <= k < at ==> !occurs_at(hay@, needle@, k),
        decreases hay@.len() - at,
    {
        if matches_at(hay, needle, at) {
            return Some(at);
        }
        if at == hay.len() {
            return None;
        }
        at += 1;
    }
}

/// Whether `needle` stands somewhere in `hay`.
pub fn contains(hay: &str, needle: &str) -> (found: bool)
    ensures
        found == spec_contains(hay@, needle@),
{
    let hay_chars = chars_of(hay);
    let needle_chars = chars_of(needle);
    find_from(&hay_chars, &needle_chars, 0).is_some()
}

/// The string that holds the characters of `chars`, in order.
///
/// Calls the standard library's `FromIterator<char>` for `String` (through
/// `Iterator::collect`), which appends each character of the iterator to an
/// empty string.
#[verifier::external_body]
pub(crate) fn text_of(chars: &Vec<char>) -> (text: String)
    ensures
        text@ == chars@,
{
    chars.iter().collect()
}

/// Whether `c` is white space: a character with the Unicode property
/// `White_Space`.
pub open spec fn is_space(c: char) -> bool {
    let n = c as u32;
    (0x09 <= n <= 0x0D) || n == 0x20 || n == 0x85 || n == 0xA0 || n == 0x1680 || (0x2000 <= n
        <= 0x200A) || n == 0x2028 || n == 0x2029 || n == 0x202F || n == 0x205F || n == 0x3000
}

/// Whether `c` is white space.
pub fn is_whitespace(c: char) -> (space: bool)
    ensures
        space == is_space(c),
{
    let n = c as u32;
    (0x09 <= n && n <= 0x0D) || n == 0x20 || n == 0x85 || n == 0xA0 || n == 0x1680 || (0x2000 <= n
        && n <= 0x200A) || n == 0x2028 || n == 0x2029 || n == 0x202F || n == 0x205F || n == 0x3000
}

/// `s` without the white space at its start.
pub open spec fn trim_start_text(s: Seq<char>) -> Seq<char>
    decreases s.len(),
{
    if s.len() > 0 && is_space(s[0]) {
        trim_start_text(s.drop_first())
    } else {
        s
    }
}

/// `s` without the white space at its end.
pub open spec fn trim_end_text(s: Seq<char>) -> Seq<char>
    decreases s.len(),
{
    if s.len() > 0 && is_space(s.last()) {
        trim_end_text(s.drop_last())
    } else {
        s
    }
}

/// `s` without the white space at its start and at its end.
pub open spec fn trim_text(s: Seq<char>) -> Seq<char> {
    trim_end_text(trim_start_text(s))
}

/// Where the trimmed part of `chars` starts and ends.
pub fn trim_bounds(chars: &Vec<char>) -> (bounds: (usize, usize))
    ensures
        bounds.0 <= bounds.1 <= chars@.len(),
        chars@.subrange(bounds.0 as int, bounds.1 as int) == trim_text(chars@),
{
    let mut start: usize = 0;
    assert(chars@.skip(0) =~= chars@);
    while start < chars.len() && is_whitespace(chars[start])
        invariant
            start <= chars@.len(),
            trim_start_text(chars@.skip(start as int)) == trim_start_text(chars@),
        decreases chars@.len() - start,
    {
        assert(chars@.skip(start as int).drop_first() =~= chars@.skip(start + 1));
        assert(chars@.skip(start as int)[0] == chars@[start as int]);
        start += 1;
    }
    assert(trim_start_text(chars@) == chars@.skip(start as int)) by {
        let rest = chars@.skip(start as int);
        if rest.len() > 0 {
            assert(rest[0] == chars@[start as int]);
        }
    }
    let mut end: usize = chars.len();
    assert(chars@.subrange(start as int, end as int) =~= chars@.skip(start as int));
    while end > start && is_whitespace(chars[end - 1])
        invariant
            start <= end <= chars@.len(),
            trim_end_text(chars@.subrange(start as int, end as int)) == trim_text(chars@),
        decreases end - start,
    {
        assert(chars@.subrange(start as int, end as int).drop_last() =~= chars@.subrange(
            start as int,
            end - 1,
        ));
        assert(chars@.subrange(start as int, end as int).last() == chars@[end - 1]);
        end -= 1;
    }
    proof {
        let kept = chars@.subrange(start as int, end as int);
        if kept.len() > 0 {
            assert(kept.last() == chars@[end - 1]);
        }
    }
    (start, end)
}

/// The characters of `chars` from `from` up to `to`.
pub fn slice_of(chars: &Vec<char>, from: usize, to: usize) -> (part: Vec<char>)
    requires
        from <= to <= chars@.len(),
    ensures
        part@ == chars@.subrange(from as int, to as int),
{
    let mut part: Vec<char> = Vec::new();
    let mut i: usize = from;
    while i < to
        invariant
            from <= i <= to <= chars@.len(),
            part@ == chars@.subrange(from as int, i as int),
        decreases to - i,
    {
        part.push(chars[i]);
        assert(part@ =~= chars@.subrange(from as int, i + 1));
        i += 1;
    }
    part
}

/// `s` without the white space at its start and at its end.
pub fn trim(s: &str) -> (text: String)
    ensures
        text@ == trim_text(s@),
{
    let chars = chars_of(s);
    let (start, end) = trim_bounds(&chars);
    text_of(&slice_of(&chars, start, end))
}

/// The words of `s` after the word `current` that is being read: the runs
/// of characters that are not white space, in order.
pub open spec fn words_after(s: Seq<char>, current: Seq<char>) -> Seq<Seq<char>>
    decreases s.len(),
{
    let done: Seq<Seq<char>> = if current.len() > 0 {
        seq![current]
    } else {
        seq![]
    };
    if s.len() == 0 {
        done
    } else if is_space(s[0]) {
        done + words_after(s.drop_first(), seq![])
    } else {
        words_after(s.drop_first(), current.push(s[0]))
    }
}

/// The words of `s`: its maximal runs of characters that are not white
/// space, in order. There is no empty word.
pub open spec fn words(s: Seq<char>) -> Seq<Seq<char>> {
    words_after(s, seq![])
}

/// The texts of a list of strings.
pub open spec fn lines_text(list: Seq<String>) -> Seq<Seq<char>> {
    list.map_values(|s: String| s@)
}

/// The words of `s`.
pub fn split_whitespace(s: &str) -> (list: Vec<String>)
    ensures
        lines_text(list@) == words(s@),
{
    let chars = chars_of(s);
    let mut list: Vec<String> = Vec::new();
    let mut current: Vec<char> = Vec::new();
    let mut i: usize = 0;
    assert(chars@.skip(0) =~= chars@);
    assert(lines_text(list@) =~= Seq::empty());
    while i < chars.len()
        invariant
            i <= chars@.len(),
            chars@ == s@,
            lines_text(list@) + words_after(chars@.skip(i as int), current@) == words(s@),
        decreases chars@.len() - i,
    {
        let ghost rest = chars@.skip(i as int);
        let ghost shown = lines_text(list@);
        let ghost before = current@;
        assert(rest[0] == chars@[i as int]);
        assert(rest.drop_first() =~= chars@.skip(i + 1));
        if is_whitespace(chars[i]) {
            if current.len() > 0 {
                list.push(text_of(&current));
                assert(lines_text(list@) =~= shown + seq![before]);
                current = Vec::new();
            } else {
                assert(lines_text(list@) =~= shown + Seq::<Seq<char>>::empty());
            }
            assert(current@ =~= Seq::<char>::empty());
            assert(lines_text(list@) + words_after(chars@.skip(i + 1), seq![]) =~= shown
                + words_after(rest, before));
        } else {
            current.push(chars[i]);
        }
        i += 1;
    }
    if current.len() > 0 {
        let ghost shown = lines_text(list@);
        list.push(text_of(&current));
        assert(lines_text(list@) =~= shown.push(current@));
    }
    list
}

/// `hay` with every occurrence of `from` replaced by `to`, found from left
/// to right without overlap. An empty `from` occurs nowhere.
pub open spec fn replace_text(hay: Seq<char>, from: Seq<char>, to: Seq<char>) -> Seq<char>
    decreases hay.len(),
{
    if from.len() == 0 || hay.len() < from.len() {
        hay
    } else if hay.subrange(0, from.len() as int) == from {
        to + replace_text(hay.skip(from.len() as int), from, to)
    } else {
        seq![hay[0]] + replace_text(hay.skip(1), from, to)
    }
}

/// Appends the characters of `more` to `out`.
pub fn append_chars(out: &mut Vec<char>, more: &Vec<char>)
    ensures
        final(out)@ == old(out)@ + more@,
{
    let mut k: usize = 0;
    assert(out@ =~= old(out)@ + more@.subrange(0, 0));
    while k < more.len()
        invariant
            k <= more@.len(),
            out@ == old(out)@ + more@.subrange(0, k as int),
        decreases more@.len() - k,
    {
        out.push(more[k]);
        assert(out@ =~= old(out)@ + more@.subrange(0, k + 1));
        k += 1;
    }
    assert(more@.subrange(0, more@.len() as int) =~= more@);
}

/// `hay` with every occurrence of `from` replaced by `to`, as characters.
pub fn replace_chars(hay: &Vec<char>, from: &Vec<char>, to: &Vec<char>) -> (out: Vec<char>)
    ensures
        out@ == replace_text(hay@, from@, to@),
{
    let mut out: Vec<char> = Vec::new();
    if from.len() == 0 {
        append_chars(&mut out, hay);
        assert(out@ =~= hay@);
        return out;
    }
    let mut i: usize = 0;
    assert(hay@.skip(0) =~= hay@);
    assert(out@ + replace_text(hay@.skip(0), from@, to@) =~= replace_text(hay@, from@, to@));
    while i < hay.len()
        invariant
            i <= hay@.len(),
            from@.len() > 0,
            out@ + replace_text(hay@.skip(i as int), from@, to@) == replace_text(
                hay@,
                from@,
                to@,
            ),
        decreases hay@.len() - i,
    {
        let ghost rest = hay@.skip(i as int);
        let ghost shown = out@;
        if matches_at(hay, from, i) {
            assert(rest.subrange(0, from@.len() as int) =~= hay@.subrange(
                i as int,
                i + from@.len(),
            ));
            assert(rest.skip(from@.len() as int) =~= hay@.skip(i + from@.len()));
            append_chars(&mut out, to);
            assert(out@ + replace_text(hay@.skip(i + from@.len()), from@, to@) =~= shown + (to@
                + replace_text(rest.skip(from@.len() as int), from@, to@)));
            i += from.len();
        } else {
            proof {
                assert(rest.skip(1) =~= hay@.skip(i + 1));
                assert(rest[0] == hay@[i as int]);
                if rest.len() >= from@.len() {
                    assert(rest.subrange(0, from@.len() as int) =~= hay@.subrange(
                        i as int,
                        i + from@.len(),
                    ));
                } else {
                    assert(replace_text(rest.skip(1), from@, to@) == rest.skip(1));
                    assert(seq![rest[0]] + rest.skip(1) =~= rest);
                }
            }
            out.push(hay[i]);
            assert(out@ + replace_text(hay@.skip(i + 1), from@, to@) =~= shown + (seq![rest[0]]
                + replace_text(rest.skip(1), from@, to@)));
            i += 1;
        }
    }
    assert(hay@.skip(i as int) =~= Seq::<char>::empty());
    assert(out@ + Seq::<char>::empty() =~= out@);
    out
}

/// `hay` with every occurrence of `from` replaced by `to`.
pub fn replace(hay: &str, from: &str, to: &str) -> (text: String)
    ensures
        text@ == replace_text(hay@, from@, to@),
{
    let out = replace_chars(&chars_of(hay), &chars_of(from), &chars_of(to));
    text_of(&out)
}

/// Whether `hay` begins with `prefix`.
pub open spec fn spec_starts_with(hay: Seq<char>, prefix: Seq<char>) -> bool {
    occurs_at(hay, prefix, 0)
}

/// Whether `hay` begins with `prefix`.
pub fn starts_with(hay: &str, prefix: &str) -> (found: bool)
    ensures
        found == spec_starts_with(hay@, prefix@),
{
    matches_at(&chars_of(hay), &chars_of(prefix), 0)
}

/// Whether two texts are the same.
pub fn same_text(a: &str, b: &str) -> (same: bool)
    ensures
        same == (a@ == b@),
{
    let left = chars_of(a);
    let right = chars_of(b);
    if left.len() != right.len() {
        return false;
    }
    let same = matches_at(&left, &right, 0);
    proof {
        assert(left@.subrange(0, right@.len() as int) =~= left@);
    }
    same
}

/// What `str::to_lowercase` makes of a text: its lowercase equivalent
/// under the Unicode case mappings.
pub uninterp spec fn lowercase_text(s: Seq<char>) -> Seq<char>;

/// What `str::to_uppercase` makes of a text: its uppercase equivalent
/// under the Unicode case mappings.
pub uninterp spec fn uppercase_text(s: Seq<char>) -> Seq<char>;

/// The lowercase equivalent of `s`.
///
/// Calls `str::to_lowercase`, whose result depends on the text alone.
#[verifier::external_body]
pub(crate) fn to_lowercase(s: &str) -> (lower: String)
    ensures
        lower@ == lowercase_text(s@),
{
    s.to_lowercase()
}

/// The uppercase equivalent of `s`.
///
/// Calls `str::to_uppercase`, whose result depends on the text alone.
#[verifier::external_body]
pub(crate) fn to_uppercase(s: &str) -> (upper: String)
    ensures
        upper@ == uppercase_text(s@),
{
    s.to_uppercase()
}

/// `line` without a carriage return at its end.
pub open spec fn without_cr(line: Seq<char>) -> Seq<char> {
    if line.len() > 0 && line.last() == '\r' {
        line.drop_last()
    } else {
        line
    }
}

/// The lines of `s` after the line `current` that is being read.
pub open spec fn lines_after(s: Seq<char>, current: Seq<char>) -> Seq<Seq<char>>
    decreases s.len(),
{
    if s.len() == 0 {
        if current.len() > 0 {
            seq![current]
        } else {
            seq![]
        }
    } else if s[0] == '\n' {
        seq![without_cr(current)] + lines_after(s.drop_first(), seq![])
    } else {
        lines_after(s.drop_first(), current.push(s[0]))
    }
}

/// The lines of `s`. A line ends with a line feed, or with a carriage
/// return and a line feed; neither belongs to the line. What follows the
/// last line feed is a line too unless it is empty.
pub open spec fn lines_of(s: Seq<char>) -> Seq<Seq<char>> {
    lines_after(s, seq![])
}

/// The lines of `s`.
pub fn split_lines(s: &str) -> (list: Vec<String>)
    ensures
        lines_text(list@) == lines_of(s@),
{
    let chars = chars_of(s);
    let mut list: Vec<String> = Vec::new();
    let mut current: Vec<char> = Vec::new();
    let mut i: usize = 0;
    assert(chars@.skip(0) =~= chars@);
    assert(lines_text(list@) =~= Seq::empty());
    while i < chars.len()
        invariant
            i <= chars@.len(),
            chars@ == s@,
            lines_text(list@) + lines_after(chars@.skip(i as int), current@) == lines_of(s@),
        decreases chars@.len() - i,
    {
        let ghost rest = chars@.skip(i as int);
        let ghost shown = lines_text(list@);
        let ghost before = current@;
        assert(rest[0] == chars@[i as int]);
        assert(rest.drop_first() =~= chars@.skip(i + 1));
        if chars[i] == '\n' {
            let n = current.len();
            if n > 0 && current[n - 1] == '\r' {
                current.pop();
                assert(current@ =~= without_cr(before));
            }
            list.push(text_of(&current));
            assert(lines_text(list@) =~= shown + seq![without_cr(before)]);
            current = Vec::new();
            assert(current@ =~= Seq::<char>::empty());
            assert(lines_text(list@) + lines_after(chars@.skip(i + 1), seq![]) =~= shown
                + lines_after(rest, before));
        } else {
            current.push(chars[i]);
        }
        i += 1;
    }
    if current.len() > 0 {
        let ghost shown = lines_text(list@);
        list.push(text_of(&current));
        assert(lines_text(list@) =~= shown.push(current@));
    }
    list
}

/// The first position of the character `c` in `chars`.
pub fn find_char(chars: &Vec<char>, c: char) -> (found: Option<usize>)
    ensures
        match found {
            Some(at) => at < chars@.len() && chars@[at as int] == c && forall|k: int|
                0 <= k < at ==> chars@[k] != c,
            None => forall|k: int| 0 <= k < chars@.len() ==> chars@[k] != c,
        },
{
    let mut i: usize = 0;
    while i < chars.len()
        invariant
            i <= chars@.len(),
            forall|k: int| 0 <= k < i ==> chars@[k] != c,
        decreases chars@.len() - i,
    {
        if chars[i] == c {
            return Some(i);
        }
        i += 1;
    }
    None
}

/// `s` without the characters `c` at its start.
pub open spec fn strip_leading(s: Seq<char>, c: char) -> Seq<char>
    decreases s.len(),
{
    if s.len() > 0 && s[0] == c {
        strip_leading(s.drop_first(), c)
    } else {
        s
    }
}

/// `chars` without the characters `c` at its start.
pub fn strip_leading_chars(chars: &Vec<char>, c: char) -> (rest: Vec<char>)
    ensures
        rest@ == strip_leading(chars@, c),
{
    let mut start: usize = 0;
    assert(chars@.skip(0) =~= chars@);
    while start < chars.len() && chars[start] == c
        invariant
            start <= chars@.len(),
            strip_leading(chars@.skip(start as int), c) == strip_leading(chars@, c),
        decreases chars@.len() - start,
    {
        assert(chars@.skip(start as int).drop_first() =~= chars@.skip(start + 1));
        assert(chars@.skip(start as int)[0] == chars@[start as int]);
        start += 1;
    }
    proof {
        let rest = chars@.skip(start as int);
        if rest.len() > 0 {
            assert(rest[0] == chars@[start as int]);
        }
        assert(chars@.subrange(start as int, chars@.len() as int) =~= rest);
    }
    slice_of(chars, start, chars.len())
}

} // verus!
