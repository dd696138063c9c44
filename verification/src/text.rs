//! Text building blocks shared by the other modules.
use vstd::prelude::*;
use vstd::string::*;

verus! {

/// `String::push` appends one character at the end.
pub assume_specification[ String::push ](s: &mut String, c: char)
    ensures
        final(s)@ == old(s)@.push(c),
;

/// The content of a text that may be absent.
pub open spec fn opt(s: Option<String>) -> Option<Seq<char>> {
    match s {
        Some(t) => Some(t@),
        None => None,
    }
}

/// The content of a borrowed text that may be absent.
pub open spec fn opt_str(s: Option<&str>) -> Option<Seq<char>> {
    match s {
        Some(t) => Some(t@),
        None => None,
    }
}

/// The content of an outcome whose error is a text.
pub open spec fn outcome<T>(outcome: Result<T, String>) -> Result<T, Seq<char>> {
    match outcome {
        Ok(value) => Ok(value),
        Err(e) => Err(e@),
    }
}

/// The two texts, one after the other.
pub fn cat(a: &str, b: &str) -> (res: String)
    ensures
        res@ == a@ + b@,
{
    let mut out = a.to_owned();
    out.append(b);
    out
}

/// The three texts, one after the other.
pub fn cat3(a: &str, b: &str, c: &str) -> (res: String)
    ensures
        res@ == a@ + b@ + c@,
{
    let mut out = cat(a, b);
    out.append(c);
    out
}

/// Whether two texts are the same.
pub fn same(a: &str, b: &str) -> (res: bool)
    ensures
        res == (a@ == b@),
{
    a.to_owned() == b.to_owned()
}

/// Whether `s` begins with `prefix`.
pub open spec fn begins_with(s: Seq<char>, prefix: Seq<char>) -> bool {
    prefix.len() <= s.len() && s.take(prefix.len() as int) == prefix
}

/// What is left of `s` behind `prefix`, where `s` begins with it.
pub fn after_prefix<'a>(s: &'a str, prefix: &str) -> (res: Option<&'a str>)
    ensures
        res is Some <==> begins_with(s@, prefix@),
        res matches Some(rest) ==> s@ == prefix@ + rest@,
{
    let n: usize = s.unicode_len();
    let k: usize = prefix.unicode_len();
    if k <= n && same(s.substring_char(0, k), prefix) {
        let rest = s.substring_char(k, n);
        assert(s@ == prefix@ + rest@);
        Some(rest)
    } else {
        None
    }
}

/// `s` without the run of `c` at its end.
pub open spec fn trimmed_end(s: Seq<char>, c: char) -> Seq<char>
    decreases s.len(),
{
    if s.len() > 0 && s.last() == c {
        trimmed_end(s.drop_last(), c)
    } else {
        s
    }
}

/// `s` without the run of `c` at its end.
pub fn trim_end<'a>(s: &'a str, c: char) -> (res: &'a str)
    ensures
        res@ == trimmed_end(s@, c),
{
    let n: usize = s.unicode_len();
    let mut k: usize = n;
    assert(s@.take(n as int) == s@);
    while k > 0 && s.get_char(k - 1) == c
        invariant
            k <= n,
            n == s@.len(),
            trimmed_end(s@.take(k as int), c) == trimmed_end(s@, c),
        decreases k,
    {
        assert(s@.take(k as int).drop_last() == s@.take(k - 1));
        k = k - 1;
    }
    s.substring_char(0, k)
}

/// `s` with each occurrence of `pattern`, found from the left and without overlap, exchanged for
/// `with`.
pub open spec fn replaced(s: Seq<char>, pattern: Seq<char>, with: Seq<char>) -> Seq<char>
    recommends
        pattern.len() > 0,
    decreases s.len(),
{
    if s.len() == 0 {
        s
    } else if pattern.len() > 0 && begins_with(s, pattern) {
        with + replaced(s.skip(pattern.len() as int), pattern, with)
    } else {
        seq![s[0]] + replaced(s.skip(1), pattern, with)
    }
}

/// `s` with each occurrence of `pattern`, found from the left and without overlap, exchanged for
/// `with`.
pub fn replace(s: &str, pattern: &str, with: &str) -> (res: String)
    requires
        pattern@.len() > 0,
    ensures
        res@ == replaced(s@, pattern@, with@),
{
    let n: usize = s.unicode_len();
    let k: usize = pattern.unicode_len();
    let mut out = String::new();
    let mut i: usize = 0;
    assert(s@.skip(0) == s@);
    while i < n
        invariant
            n == s@.len(),
            k == pattern@.len(),
            k > 0,
            i <= n,
            replaced(s@, pattern@, with@) == out@ + replaced(s@.skip(i as int), pattern@, with@),
        decreases n - i,
    {
        let ghost before = out@;
        let ghost rest = s@.skip(i as int);
        if k <= n - i && same(s.substring_char(i, i + k), pattern) {
            assert(rest.take(k as int) == s@.subrange(i as int, i + k));
            assert(rest.skip(k as int) == s@.skip(i + k));
            out.append(with);
            i = i + k;
            assert(before + (with@ + replaced(s@.skip(i as int), pattern@, with@)) == out@
                + replaced(s@.skip(i as int), pattern@, with@));
        } else {
            assert(k <= n - i ==> rest.take(k as int) == s@.subrange(i as int, i + k));
            assert(rest.skip(1) == s@.skip(i + 1));
            out.push(s.get_char(i));
            i = i + 1;
            assert(before + (seq![rest[0]] + replaced(s@.skip(i as int), pattern@, with@)) == out@
                + replaced(s@.skip(i as int), pattern@, with@));
        }
    }
    assert(s@.skip(n as int).len() == 0);
    out
}

/// A text in which `pattern` does not occur stays as it is.
pub proof fn texts_without_pattern_stay(s: Seq<char>, pattern: Seq<char>, with: Seq<char>)
    requires
        forall|i: int| 0 <= i <= s.len() ==> !begins_with(#[trigger] s.skip(i), pattern),
    ensures
        replaced(s, pattern, with) == s,
    decreases s.len(),
{
    if s.len() > 0 {
        let rest = s.skip(1);
        assert(s.skip(0) == s);
        assert forall|i: int| 0 <= i <= rest.len() implies !begins_with(
            #[trigger] rest.skip(i),
            pattern,
        ) by {
            assert(rest.skip(i) == s.skip(i + 1));
        }
        texts_without_pattern_stay(rest, pattern, with);
    }
}

/// The contents of several texts.
pub open spec fn all(texts: Seq<String>) -> Seq<Seq<char>> {
    texts.map_values(|s: String| s@)
}

/// The pieces of `s` between the occurrences of `c`, from the left. There is one more of them than
/// there are occurrences.
pub open spec fn pieces(s: Seq<char>, c: char) -> Seq<Seq<char>>
    decreases s.len(),
{
    if s.len() == 0 {
        seq![s]
    } else {
        let front = pieces(s.drop_last(), c);
        if s.last() == c {
            front.push(Seq::empty())
        } else {
            front.drop_last().push(front.last().push(s.last()))
        }
    }
}

/// The pieces of `s` between the occurrences of `c`, from the left.
pub fn split(s: &str, c: char) -> (res: Vec<String>)
    ensures
        all(res@) == pieces(s@, c),
{
    let n: usize = s.unicode_len();
    let mut out: Vec<String> = Vec::new();
    let mut current = String::new();
    let mut i: usize = 0;
    assert(s@.take(0) == current@);
    assert(pieces(s@.take(0), c) == all(out@).push(current@));
    while i < n
        invariant
            n == s@.len(),
            i <= n,
            pieces(s@.take(i as int), c) == all(out@).push(current@),
        decreases n - i,
    {
        let ghost before = all(out@).push(current@);
        let x: char = s.get_char(i);
        assert(s@.take(i + 1).drop_last() == s@.take(i as int));
        if x == c {
            out.push(current);
            current = String::new();
            assert(all(out@) == before);
            assert(current@ == Seq::<char>::empty());
        } else {
            current.push(x);
            assert(before.drop_last() == all(out@));
        }
        i = i + 1;
    }
    assert(s@.take(n as int) == s@);
    out.push(current);
    assert(all(out@) == pieces(s@, c));
    out
}

/// Whether a character has the Unicode property `White_Space`.
pub open spec fn white_space(c: char) -> bool {
    let code = c as u32;
    ||| 0x9 <= code <= 0xd
    ||| code == 0x20
    ||| code == 0x85
    ||| code == 0xa0
    ||| code == 0x1680
    ||| 0x2000 <= code <= 0x200a
    ||| code == 0x2028
    ||| code == 0x2029
    ||| code == 0x202f
    ||| code == 0x205f
    ||| code == 0x3000
}

/// `char::is_whitespace`: whether the character has the Unicode property `White_Space`, which these
/// characters have.
pub assume_specification[ char::is_whitespace ](c: char) -> (res: bool)
    ensures
        res == white_space(c),
;

/// `s` without the white space at its beginning.
pub open spec fn trimmed_front(s: Seq<char>) -> Seq<char>
    decreases s.len(),
{
    if s.len() > 0 && white_space(s[0]) {
        trimmed_front(s.skip(1))
    } else {
        s
    }
}

/// `s` without the white space at its end.
pub open spec fn trimmed_back(s: Seq<char>) -> Seq<char>
    decreases s.len(),
{
    if s.len() > 0 && white_space(s.last()) {
        trimmed_back(s.drop_last())
    } else {
        s
    }
}

/// `s` without the white space around it.
pub open spec fn trimmed(s: Seq<char>) -> Seq<char> {
    trimmed_back(trimmed_front(s))
}

/// `s` without the white space around it.
pub fn trim<'a>(s: &'a str) -> (res: &'a str)
    ensures
        res@ == trimmed(s@),
{
    let n: usize = s.unicode_len();
    let mut from: usize = 0;
    assert(s@.skip(0) == s@);
    while from < n && s.get_char(from).is_whitespace()
        invariant
            from <= n,
            n == s@.len(),
            trimmed_front(s@.skip(from as int)) == trimmed_front(s@),
        decreases n - from,
    {
        assert(s@.skip(from as int).skip(1) == s@.skip(from + 1));
        from = from + 1;
    }
    let ghost front = s@.skip(from as int);
    assert(front == trimmed_front(s@));
    let mut to: usize = n;
    assert(s@.subrange(from as int, n as int) == front);
    while from < to && s.get_char(to - 1).is_whitespace()
        invariant
            from <= to <= n,
            n == s@.len(),
            trimmed_back(s@.subrange(from as int, to as int)) == trimmed_back(front),
        decreases to,
    {
        assert(s@.subrange(from as int, to as int).drop_last() == s@.subrange(
            from as int,
            to - 1,
        ));
        to = to - 1;
    }
    s.substring_char(from, to)
}

/// A text begins with another if and only if it is that text and something behind it.
pub proof fn beginnings_are_prefixes(s: Seq<char>, prefix: Seq<char>, rest: Seq<char>)
    ensures
        begins_with(prefix + rest, prefix),
        begins_with(s, prefix) ==> s == prefix + s.skip(prefix.len() as int),
{
    assert((prefix + rest).take(prefix.len() as int) == prefix);
    if begins_with(s, prefix) {
        assert(s == s.take(prefix.len() as int) + s.skip(prefix.len() as int));
    }
}

/// Of a text that is trimmed at its end only the run of that character goes, and all of it.
pub proof fn only_the_run_at_the_end_goes(s: Seq<char>, c: char)
    ensures
        ({
            let left = trimmed_end(s, c);
            &&& left.len() <= s.len()
            &&& left == s.take(left.len() as int)
            &&& forall|i: int| left.len() <= i < s.len() ==> #[trigger] s[i] == c
            &&& left.len() > 0 ==> left.last() != c
        }),
    decreases s.len(),
{
    if s.len() > 0 && s.last() == c {
        let front = s.drop_last();
        only_the_run_at_the_end_goes(front, c);
        let left = trimmed_end(s, c);
        assert(left == s.take(left.len() as int));
        assert forall|i: int| left.len() <= i < s.len() implies #[trigger] s[i] == c by {
            if i < front.len() {
                assert(front[i] == s[i]);
            }
        }
    } else {
        assert(s == s.take(s.len() as int));
    }
}

/// The first occurrence of a pattern is exchanged, what stands before it stays, and what stands
/// behind it is dealt with in the same way.
pub proof fn first_occurrence_is_exchanged(
    s: Seq<char>,
    pattern: Seq<char>,
    with: Seq<char>,
    i: int,
)
    requires
        pattern.len() > 0,
        0 <= i <= s.len(),
        begins_with(s.skip(i), pattern),
        forall|j: int| 0 <= j < i ==> !begins_with(#[trigger] s.skip(j), pattern),
    ensures
        replaced(s, pattern, with) == s.take(i) + with + replaced(
            s.skip(i + pattern.len()),
            pattern,
            with,
        ),
    decreases i,
{
    assert(s.skip(0) == s);
    if i == 0 {
        assert(s.take(0) + with == with);
    } else {
        let rest = s.skip(1);
        assert(rest.skip(i - 1) == s.skip(i));
        assert forall|j: int| 0 <= j < i - 1 implies !begins_with(
            #[trigger] rest.skip(j),
            pattern,
        ) by {
            assert(rest.skip(j) == s.skip(j + 1));
        }
        first_occurrence_is_exchanged(rest, pattern, with, i - 1);
        assert(rest.skip(i - 1 + pattern.len()) == s.skip(i + pattern.len()));
        assert(s.take(i) == seq![s[0]] + rest.take(i - 1));
    }
}

/// The pieces of a text with the separator between them.
pub open spec fn joined(parts: Seq<Seq<char>>, c: char) -> Seq<char>
    decreases parts.len(),
{
    if parts.len() == 0 {
        Seq::empty()
    } else if parts.len() == 1 {
        parts[0]
    } else {
        joined(parts.drop_last(), c).push(c) + parts.last()
    }
}

/// The pieces of a text make the text again, with the separator between them, and none of them holds
/// the separator.
pub proof fn pieces_make_the_text(s: Seq<char>, c: char)
    ensures
        pieces(s, c).len() > 0,
        joined(pieces(s, c), c) == s,
        forall|i: int, j: int|
            0 <= i < pieces(s, c).len() && 0 <= j < pieces(s, c)[i].len() ==> #[trigger] pieces(
                s,
                c,
            )[i][j] != c,
    decreases s.len(),
{
    let parts = pieces(s, c);
    if s.len() > 0 {
        let front = pieces(s.drop_last(), c);
        pieces_make_the_text(s.drop_last(), c);
        assert(s == s.drop_last().push(s.last()));
        if s.last() == c {
            assert(parts.drop_last() == front);
            assert(parts.last() == Seq::<char>::empty());
            assert(joined(parts, c) == s);
            assert forall|i: int, j: int|
                0 <= i < parts.len() && 0 <= j < parts[i].len() implies #[trigger] parts[i][j]
                != c by {
                if i < front.len() {
                    assert(parts[i] == front[i]);
                    assert(front[i][j] != c);
                }
            }
        } else {
            let last = front.last().push(s.last());
            assert(parts.drop_last() == front.drop_last());
            assert(parts.last() == last);
            if front.len() == 1 {
                assert(parts[0] == last);
                assert(joined(front, c) == front[0]);
            } else {
                assert(joined(front, c) == joined(front.drop_last(), c).push(c) + front.last());
            }
            assert(joined(parts, c) == s);
            assert forall|i: int, j: int|
                0 <= i < parts.len() && 0 <= j < parts[i].len() implies #[trigger] parts[i][j]
                != c by {
                if i < front.len() - 1 {
                    assert(parts[i] == front[i]);
                    assert(front[i][j] != c);
                } else if j < front.last().len() {
                    assert(front[front.len() - 1][j] != c);
                }
            }
        }
    }
}

/// At the beginning of a text only white space goes, and all of it.
proof fn only_white_space_goes_in_front(s: Seq<char>)
    ensures
        exists|from: int|
            {
                &&& 0 <= from <= s.len()
                &&& trimmed_front(s) == #[trigger] s.skip(from)
                &&& forall|i: int| 0 <= i < from ==> white_space(#[trigger] s[i])
                &&& from < s.len() ==> !white_space(s[from])
            },
    decreases s.len(),
{
    if s.len() > 0 && white_space(s[0]) {
        let rest = s.skip(1);
        only_white_space_goes_in_front(rest);
        let k = choose|from: int|
            {
                &&& 0 <= from <= rest.len()
                &&& trimmed_front(rest) == #[trigger] rest.skip(from)
                &&& forall|i: int| 0 <= i < from ==> white_space(#[trigger] rest[i])
                &&& from < rest.len() ==> !white_space(rest[from])
            };
        assert(rest.skip(k) == s.skip(k + 1));
        assert forall|i: int| 0 <= i < k + 1 implies white_space(#[trigger] s[i]) by {
            if i > 0 {
                assert(rest[i - 1] == s[i]);
            }
        }
    } else {
        assert(s.skip(0) == s);
    }
}

/// At the end of a text only white space goes, and all of it.
proof fn only_white_space_goes_behind(s: Seq<char>)
    ensures
        exists|to: int|
            {
                &&& 0 <= to <= s.len()
                &&& trimmed_back(s) == #[trigger] s.take(to)
                &&& forall|i: int| to <= i < s.len() ==> white_space(#[trigger] s[i])
                &&& 0 < to ==> !white_space(s[to - 1])
            },
    decreases s.len(),
{
    if s.len() > 0 && white_space(s.last()) {
        let front = s.drop_last();
        only_white_space_goes_behind(front);
        let k = choose|to: int|
            {
                &&& 0 <= to <= front.len()
                &&& trimmed_back(front) == #[trigger] front.take(to)
                &&& forall|i: int| to <= i < front.len() ==> white_space(#[trigger] front[i])
                &&& 0 < to ==> !white_space(front[to - 1])
            };
        assert(front.take(k) == s.take(k));
        assert forall|i: int| k <= i < s.len() implies white_space(#[trigger] s[i]) by {
            if i < front.len() {
                assert(front[i] == s[i]);
            }
        }
    } else {
        assert(s.take(s.len() as int) == s);
    }
}

/// Of a text that is trimmed only the white space around it goes, and all of it.
pub proof fn only_white_space_goes(s: Seq<char>)
    ensures
        exists|from: int, to: int|
            {
                &&& 0 <= from <= to <= s.len()
                &&& trimmed(s) == #[trigger] s.subrange(from, to)
                &&& forall|i: int| 0 <= i < from ==> white_space(#[trigger] s[i])
                &&& forall|i: int| to <= i < s.len() ==> white_space(#[trigger] s[i])
                &&& from < to ==> !white_space(s[from]) && !white_space(s[to - 1])
            },
{
    only_white_space_goes_in_front(s);
    let from = choose|from: int|
        {
            &&& 0 <= from <= s.len()
            &&& trimmed_front(s) == #[trigger] s.skip(from)
            &&& forall|i: int| 0 <= i < from ==> white_space(#[trigger] s[i])
            &&& from < s.len() ==> !white_space(s[from])
        };
    let rest = s.skip(from);
    only_white_space_goes_behind(rest);
    let k = choose|to: int|
        {
            &&& 0 <= to <= rest.len()
            &&& trimmed_back(rest) == #[trigger] rest.take(to)
            &&& forall|i: int| to <= i < rest.len() ==> white_space(#[trigger] rest[i])
            &&& 0 < to ==> !white_space(rest[to - 1])
        };
    let to = from + k;
    assert(rest.take(k) == s.subrange(from, to));
    assert forall|i: int| to <= i < s.len() implies white_space(#[trigger] s[i]) by {
        assert(rest[i - from] == s[i]);
    }
}

} // verus!
