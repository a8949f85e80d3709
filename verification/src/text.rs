//! Text helpers shared by the rest of the library: comparison, search,
//! decimal numerals and joining, each stated over sequences of characters.

use vstd::prelude::*;
use vstd::string::*;

verus! {

/// The characters of each string of `v`, in order.
pub open spec fn texts(v: Seq<String>) -> Seq<Seq<char>> {
    Seq::new(v.len(), |i: int| v[i]@)
}

/// The names that a vector of string slices holds, in order.
pub open spec fn names(v: Seq<&'static str>) -> Seq<Seq<char>> {
    Seq::new(v.len(), |i: int| v[i]@)
}

/// The strings that some string slices name, each as a string of its own.
pub fn to_strings(items: &Vec<&'static str>) -> (r: Vec<String>)
    ensures
        texts(r@) == names(items@),
{
    let mut out: Vec<String> = Vec::new();
    let mut i: usize = 0;
    while i < items.len()
        invariant
            i <= items.len(),
            out@.len() == i,
            forall|k: int| 0 <= k < i ==> (#[trigger] out@[k])@ == items@[k]@,
        decreases items.len() - i,
    {
        out.push(String::from_str(items[i]));
        i = i + 1;
    }
    assert(texts(out@) =~= names(items@));
    out
}

/// Whether two strings hold the same characters.
pub fn same_text(a: &str, b: &str) -> (r: bool)
    ensures
        r == (a@ == b@),
{
    let x = a.to_owned();
    let y = b.to_owned();
    x == y
}

/// The characters of `s` as a vector.
pub fn chars_of(s: &str) -> (r: Vec<char>)
    ensures
        r@ == s@,
{
    let mut out: Vec<char> = Vec::new();
    for c in it: s.chars()
        invariant
            it.seq() == s@,
            out@ == s@.take(it.index()),
    {
        out.push(c);
    }
    out
}

/// `needle` stands in `hay` at offset `at`.
pub open spec fn occurs_at(hay: Seq<char>, needle: Seq<char>, at: int) -> bool {
    &&& 0 <= at
    &&& at + needle.len() <= hay.len()
    &&& hay.subrange(at, at + needle.len()) == needle
}

/// `needle` stands somewhere in `hay`.
pub open spec fn contains_seq(hay: Seq<char>, needle: Seq<char>) -> bool {
    exists|at: int| occurs_at(hay, needle, at)
}

/// `prefix` stands at the start of `s`.
pub open spec fn starts_with_seq(s: Seq<char>, prefix: Seq<char>) -> bool {
    occurs_at(s, prefix, 0)
}

fn matches_at(hay: &Vec<char>, needle: &Vec<char>, at: usize) -> (r: bool)
    requires
        at + needle.len() <= hay.len(),
    ensures
        r == occurs_at(hay@, needle@, at as int),
{
    let mut k: usize = 0;
    while k < needle.len()
        invariant
            k <= needle.len(),
            at + needle.len() <= hay.len(),
            forall|j: int| 0 <= j < k ==> hay@[at + j] == needle@[j],
        decreases needle.len() - k,
    {
        if hay[at + k] != needle[k] {
            assert(hay@.subrange(at as int, at + needle.len())[k as int] != needle@[k as int]);
            return false;
        }
        k = k + 1;
    }
    assert(hay@.subrange(at as int, at + needle.len()) =~= needle@);
    true
}

/// Whether `needle` occurs in `hay`. The empty string occurs in every string.
pub fn contains_text(hay: &str, needle: &str) -> (r: bool)
    ensures
        r == contains_seq(hay@, needle@),
{
    let h = chars_of(hay);
    let n = chars_of(needle);
    if n.len() > h.len() {
        return false;
    }
    if n.len() == 0 {
        assert(h@.subrange(0, 0) =~= n@);
        assert(occurs_at(h@, n@, 0));
        return true;
    }
    let last: usize = h.len() - n.len();
    let mut at: usize = 0;
    while at <= last
        invariant
            h@ == hay@,
            n@ == needle@,
            0 < n.len() <= h.len(),
            last == h.len() - n.len(),
            at <= last + 1,
            forall|k: int| 0 <= k < at ==> !occurs_at(h@, n@, k),
        decreases last + 1 - at,
    {
        if matches_at(&h, &n, at) {
            return true;
        }
        at = at + 1;
    }
    false
}

/// Whether `s` begins with `prefix`.
pub fn starts_with_text(s: &str, prefix: &str) -> (r: bool)
    ensures
        r == starts_with_seq(s@, prefix@),
{
    let h = chars_of(s);
    let n = chars_of(prefix);
    if n.len() > h.len() {
        return false;
    }
    matches_at(&h, &n, 0)
}

/// The place of the first `c` in `s` at or behind `from`; the length of
/// `s` where there is none.
pub open spec fn first_at(s: Seq<char>, c: char, from: int) -> int
    decreases s.len() - from,
{
    if from >= s.len() {
        s.len() as int
    } else if s[from] == c {
        from
    } else {
        first_at(s, c, from + 1)
    }
}

/// The second of the pieces into which the occurrences of `c` cut `s`:
/// what stands between the first `c` and the next one, or the end of `s`
/// where no other follows. Without a `c` in `s` there is no second piece.
pub open spec fn second_piece(s: Seq<char>, c: char) -> Option<Seq<char>> {
    let cut = first_at(s, c, 0);
    if cut >= s.len() {
        None
    } else {
        Some(s.subrange(cut + 1, first_at(s, c, cut + 1)))
    }
}

fn find_from(chars: &Vec<char>, c: char, from: usize) -> (r: usize)
    requires
        from <= chars.len(),
    ensures
        r == first_at(chars@, c, from as int),
        from <= r <= chars.len(),
{
    let mut i: usize = from;
    while i < chars.len()
        invariant
            from <= i <= chars.len(),
            first_at(chars@, c, from as int) == first_at(chars@, c, i as int),
        decreases chars.len() - i,
    {
        if chars[i] == c {
            return i;
        }
        i = i + 1;
    }
    i
}

/// The second of the pieces into which the occurrences of `c` cut `s`.
pub fn piece_after_first(s: &str, c: char) -> (r: Option<String>)
    ensures
        match r {
            Some(piece) => second_piece(s@, c) == Some(piece@),
            None => second_piece(s@, c) is None,
        },
{
    let chars = chars_of(s);
    let cut = find_from(&chars, c, 0);
    if cut >= chars.len() {
        None
    } else {
        let end = find_from(&chars, c, cut + 1);
        Some(String::from_str(s.substring_char(cut + 1, end)))
    }
}

/// The decimal digit for `d`, for `d` below ten.
pub open spec fn digit_char(d: nat) -> char {
    if d == 0 {
        '0'
    } else if d == 1 {
        '1'
    } else if d == 2 {
        '2'
    } else if d == 3 {
        '3'
    } else if d == 4 {
        '4'
    } else if d == 5 {
        '5'
    } else if d == 6 {
        '6'
    } else if d == 7 {
        '7'
    } else if d == 8 {
        '8'
    } else {
        '9'
    }
}

/// The decimal numeral of `n`, without sign or leading zeros.
pub open spec fn decimal(n: nat) -> Seq<char>
    decreases n,
{
    if n < 10 {
        seq![digit_char(n)]
    } else {
        decimal(n / 10).push(digit_char(n % 10))
    }
}

fn digit_text(d: u128) -> (r: &'static str)
    requires
        d < 10,
    ensures
        r@ == seq![digit_char(d as nat)],
{
    proof {
        reveal_strlit("0");
        reveal_strlit("1");
        reveal_strlit("2");
        reveal_strlit("3");
        reveal_strlit("4");
        reveal_strlit("5");
        reveal_strlit("6");
        reveal_strlit("7");
        reveal_strlit("8");
        reveal_strlit("9");
    }
    let r = if d == 0 {
        "0"
    } else if d == 1 {
        "1"
    } else if d == 2 {
        "2"
    } else if d == 3 {
        "3"
    } else if d == 4 {
        "4"
    } else if d == 5 {
        "5"
    } else if d == 6 {
        "6"
    } else if d == 7 {
        "7"
    } else if d == 8 {
        "8"
    } else {
        "9"
    };
    assert(r@ =~= seq![digit_char(d as nat)]);
    r
}

/// The decimal numeral of `n` as a string.
pub fn decimal_string(n: u128) -> (r: String)
    ensures
        r@ == decimal(n as nat),
    decreases n,
{
    if n < 10 {
        String::from_str(digit_text(n))
    } else {
        let mut s = decimal_string(n / 10);
        s.append(digit_text(n % 10));
        assert(s@ =~= decimal(n as nat));
        s
    }
}

/// The parts written one after another with `sep` between neighbours.
pub open spec fn joined(parts: Seq<Seq<char>>, sep: Seq<char>) -> Seq<char>
    decreases parts.len(),
{
    if parts.len() == 0 {
        Seq::empty()
    } else if parts.len() == 1 {
        parts[0]
    } else {
        joined(parts.drop_last(), sep) + sep + parts.last()
    }
}

/// Joins `parts` with `sep` between neighbours.
pub fn join_texts(parts: &Vec<String>, sep: &str) -> (r: String)
    ensures
        r@ == joined(texts(parts@), sep@),
{
    let mut out = String::new();
    let mut i: usize = 0;
    while i < parts.len()
        invariant
            i <= parts.len(),
            out@ == joined(texts(parts@).take(i as int), sep@),
        decreases parts.len() - i,
    {
        let ghost before = texts(parts@).take(i as int);
        let ghost after = texts(parts@).take(i + 1);
        assert(after.drop_last() =~= before);
        assert(after.last() == parts@[i as int]@);
        if i > 0 {
            out.append(sep);
        }
        out.append(parts[i].as_str());
        assert(out@ =~= joined(after, sep@));
        i = i + 1;
    }
    assert(texts(parts@).take(i as int) =~= texts(parts@));
    out
}

/// The text of an optional string; the empty text where there is none.
pub open spec fn text_or_empty(s: Option<String>) -> Seq<char> {
    match s {
        Some(t) => t@,
        None => Seq::empty(),
    }
}

/// What `str::to_lowercase` makes of a text.
pub uninterp spec fn lowercase(s: Seq<char>) -> Seq<char>;

/// `str::to_lowercase` of std: the lowercase equivalent of `s` as a new
/// string. The result depends on the characters of `s` alone; `lowercase`
/// names it, and nothing more is claimed of it.
#[verifier::external_body]
pub(crate) fn to_lowercase(s: &str) -> (r: String)
    ensures
        r@ == lowercase(s@),
{
    s.to_lowercase()
}

/// `String::push` of std appends the given character to the end of the
/// string.
pub assume_specification[ String::push ](s: &mut String, c: char)
    ensures
        final(s)@ == old(s)@.push(c),
;

/// Whether a character is whitespace: whether it has the Unicode property
/// `White_Space`, as `char::is_whitespace` of std tells. These are the
/// controls from tab to carriage return, the space, the next-line control,
/// the no-break space, the Ogham space mark, the spaces from en quad to hair
/// space, the line and paragraph separators, the narrow no-break space, the
/// medium mathematical space and the ideographic space.
pub open spec fn white_space(c: char) -> bool {
    let code = c as u32;
    ||| 0x09 <= code <= 0x0D
    ||| code == 0x20
    ||| code == 0x85
    ||| code == 0xA0
    ||| code == 0x1680
    ||| 0x2000 <= code <= 0x200A
    ||| code == 0x2028
    ||| code == 0x2029
    ||| code == 0x202F
    ||| code == 0x205F
    ||| code == 0x3000
}

/// Whether a character is whitespace.
pub fn is_white_space(c: char) -> (r: bool)
    ensures
        r == white_space(c),
{
    let code: u32 = c as u32;
    (0x09 <= code && code <= 0x0D) || code == 0x20 || code == 0x85 || code == 0xA0 || code
        == 0x1680 || (0x2000 <= code && code <= 0x200A) || code == 0x2028 || code == 0x2029
        || code == 0x202F || code == 0x205F || code == 0x3000
}

/// The characters of `chars` from `from` up to `to`, as a string.
pub fn string_between(chars: &Vec<char>, from: usize, to: usize) -> (r: String)
    requires
        from <= to <= chars.len(),
    ensures
        r@ == chars@.subrange(from as int, to as int),
{
    let mut out = String::new();
    let mut i: usize = from;
    while i < to
        invariant
            from <= i <= to <= chars.len(),
            out@ == chars@.subrange(from as int, i as int),
        decreases to - i,
    {
        out.push(chars[i]);
        assert(chars@.subrange(from as int, i + 1) =~= chars@.subrange(from as int, i as int).push(
            chars@[i as int],
        ));
        i = i + 1;
    }
    out
}

/// `s` from `at` on with the matches of `pattern` replaced by `to`.
pub open spec fn replaced_from(s: Seq<char>, pattern: Seq<char>, to: Seq<char>, at: int) -> Seq<
    char,
>
    decreases s.len() - at,
{
    if at < 0 || at >= s.len() {
        if pattern.len() == 0 {
            to
        } else {
            Seq::empty()
        }
    } else if pattern.len() == 0 {
        to + seq![s[at]] + replaced_from(s, pattern, to, at + 1)
    } else if occurs_at(s, pattern, at) {
        to + replaced_from(s, pattern, to, at + pattern.len())
    } else {
        seq![s[at]] + replaced_from(s, pattern, to, at + 1)
    }
}

/// A text with the matches of `pattern` replaced by `to`, as `str::replace`
/// of std makes it. Matches are looked for from the start and do not
/// overlap. The empty pattern matches before every character and at the
/// end.
pub open spec fn replaced(s: Seq<char>, pattern: Seq<char>, to: Seq<char>) -> Seq<char> {
    replaced_from(s, pattern, to, 0)
}

/// Replaces the matches of `pattern` in `s` by `to`.
pub fn replace_text(s: &str, pattern: &str, to: &str) -> (r: String)
    ensures
        r@ == replaced(s@, pattern@, to@),
{
    let chars = chars_of(s);
    let wanted = chars_of(pattern);
    let n = chars.len();
    let m = wanted.len();
    let mut out = String::new();
    let mut at: usize = 0;
    assert(out@ + replaced_from(s@, pattern@, to@, 0) =~= replaced(s@, pattern@, to@));
    while at < n
        invariant
            chars@ == s@,
            wanted@ == pattern@,
            n == chars.len(),
            m == wanted.len(),
            at <= n,
            replaced(s@, pattern@, to@) == out@ + replaced_from(s@, pattern@, to@, at as int),
        decreases n - at,
    {
        let ghost before = out@;
        if m == 0 {
            out.append(to);
            out.push(chars[at]);
            assert(before + (to@ + seq![s@[at as int]] + replaced_from(s@, pattern@, to@, at + 1))
                =~= before + to@ + seq![s@[at as int]] + replaced_from(s@, pattern@, to@, at + 1));
            assert(out@ =~= before + to@ + seq![s@[at as int]]);
            at = at + 1;
        } else if m <= n - at && matches_at(&chars, &wanted, at) {
            out.append(to);
            assert(before + (to@ + replaced_from(s@, pattern@, to@, at + m)) =~= before + to@
                + replaced_from(s@, pattern@, to@, at + m));
            at = at + m;
        } else {
            out.push(chars[at]);
            assert(before + (seq![s@[at as int]] + replaced_from(s@, pattern@, to@, at + 1))
                =~= before.push(s@[at as int]) + replaced_from(s@, pattern@, to@, at + 1));
            at = at + 1;
        }
    }
    if m == 0 {
        out.append(to);
    } else {
        assert(out@ + Seq::<char>::empty() =~= out@);
    }
    out
}

/// The first `c` at or behind `from` does not lie before `from`, nor
/// beyond the end.
pub proof fn lemma_first_at_bounds(s: Seq<char>, c: char, from: int)
    requires
        0 <= from <= s.len(),
    ensures
        from <= first_at(s, c, from) <= s.len(),
        first_at(s, c, from) < s.len() ==> s[first_at(s, c, from)] == c,
    decreases s.len() - from,
{
    if from < s.len() && s[from] != c {
        lemma_first_at_bounds(s, c, from + 1);
    }
}

/// `line` without the carriage return at its end, where it has one.
pub open spec fn without_return(line: Seq<char>) -> Seq<char> {
    if line.len() > 0 && line.last() == '\r' {
        line.drop_last()
    } else {
        line
    }
}

/// The lines of `s` from `from` on.
pub open spec fn lines_from(s: Seq<char>, from: int) -> Seq<Seq<char>>
    decreases s.len() - from,
{
    if from < 0 || from >= s.len() {
        Seq::empty()
    } else {
        let cut = first_at(s, '\n', from);
        if cut >= s.len() {
            seq![s.subrange(from, s.len() as int)]
        } else {
            proof {
                lemma_first_at_bounds(s, '\n', from);
            }
            seq![without_return(s.subrange(from, cut))] + lines_from(s, cut + 1)
        }
    }
}

/// The lines of a text, as `str::lines` of std yields them. A line ends
/// with a line feed, or with a carriage return and a line feed; neither
/// belongs to the line. What stands behind the last line feed is a line
/// too, unless it is empty; a carriage return at its end stays.
pub open spec fn lines_of(s: Seq<char>) -> Seq<Seq<char>> {
    lines_from(s, 0)
}

/// Cuts a text into its lines.
pub fn split_lines(s: &str) -> (r: Vec<String>)
    ensures
        texts(r@) == lines_of(s@),
{
    let chars = chars_of(s);
    let n = chars.len();
    let mut out: Vec<String> = Vec::new();
    let mut start: usize = 0;
    assert(texts(out@) + lines_from(s@, 0) =~= lines_of(s@));
    while start < n
        invariant
            chars@ == s@,
            n == chars.len(),
            start <= n,
            lines_of(s@) == texts(out@) + lines_from(s@, start as int),
        decreases n - start,
    {
        let ghost before = texts(out@);
        let cut = find_from(&chars, '\n', start);
        if cut >= n {
            let line = string_between(&chars, start, n);
            out.push(line);
            assert(texts(out@) =~= before.push(line@));
            assert(before + seq![line@] =~= before.push(line@));
            start = n;
        } else {
            let end = if cut > start && chars[cut - 1] == '\r' {
                cut - 1
            } else {
                cut
            };
            let line = string_between(&chars, start, end);
            assert(line@ =~= without_return(s@.subrange(start as int, cut as int)));
            out.push(line);
            assert(texts(out@) =~= before.push(line@));
            assert(before + (seq![line@] + lines_from(s@, cut + 1)) =~= before.push(line@)
                + lines_from(s@, cut + 1));
            start = cut + 1;
        }
    }
    assert(texts(out@) + lines_from(s@, start as int) =~= texts(out@));
    out
}

/// The place of the first character of `s` at or behind `from` that is
/// no whitespace; the length of `s` where there is none.
pub open spec fn text_start(s: Seq<char>, from: int) -> int
    decreases s.len() - from,
{
    if from >= s.len() {
        s.len() as int
    } else if !white_space(s[from]) {
        from
    } else {
        text_start(s, from + 1)
    }
}

/// The place behind the last character of `s` before `upto` that is no
/// whitespace; `floor` where there is none from `floor` on.
pub open spec fn text_end(s: Seq<char>, upto: int, floor: int) -> int
    decreases upto,
{
    if upto <= floor || upto <= 0 {
        floor
    } else if !white_space(s[upto - 1]) {
        upto
    } else {
        text_end(s, upto - 1, floor)
    }
}

/// A text without the whitespace at its start and at its end, as
/// `str::trim` of std leaves it.
pub open spec fn trimmed(s: Seq<char>) -> Seq<char> {
    let start = text_start(s, 0);
    s.subrange(start, text_end(s, s.len() as int, start))
}

/// A text without the whitespace at its start and at its end.
pub fn trim_text(s: &str) -> (r: String)
    ensures
        r@ == trimmed(s@),
{
    let chars = chars_of(s);
    let n = chars.len();
    let mut start: usize = 0;
    while start < n && is_white_space(chars[start])
        invariant
            n == chars.len(),
            chars@ == s@,
            start <= n,
            text_start(s@, 0) == text_start(s@, start as int),
        decreases n - start,
    {
        start = start + 1;
    }
    let mut end: usize = n;
    while end > start && is_white_space(chars[end - 1])
        invariant
            n == chars.len(),
            chars@ == s@,
            start <= end <= n,
            text_end(s@, n as int, start as int) == text_end(s@, end as int, start as int),
        decreases end,
    {
        end = end - 1;
    }
    string_between(&chars, start, end)
}

/// The place of the first whitespace in `s` at or behind `from`; the
/// length of `s` where there is none.
pub open spec fn space_at(s: Seq<char>, from: int) -> int
    decreases s.len() - from,
{
    if from >= s.len() {
        s.len() as int
    } else if white_space(s[from]) {
        from
    } else {
        space_at(s, from + 1)
    }
}

/// The first whitespace at or behind `from` does not lie before `from`,
/// nor beyond the end.
pub proof fn lemma_space_at_bounds(s: Seq<char>, from: int)
    requires
        0 <= from <= s.len(),
    ensures
        from <= space_at(s, from) <= s.len(),
    decreases s.len() - from,
{
    if from < s.len() && !white_space(s[from]) {
        lemma_space_at_bounds(s, from + 1);
    }
}

/// The words of `s` from `from` on.
pub open spec fn words_from(s: Seq<char>, from: int) -> Seq<Seq<char>>
    decreases s.len() - from,
{
    if from < 0 || from >= s.len() {
        Seq::empty()
    } else if white_space(s[from]) {
        words_from(s, from + 1)
    } else {
        proof {
            lemma_space_at_bounds(s, from + 1);
        }
        let end = space_at(s, from + 1);
        seq![s.subrange(from, end)] + words_from(s, end)
    }
}

/// The words of a text, as `str::split_whitespace` of std yields them:
/// the runs of characters that are no whitespace, in order.
pub open spec fn words_of(s: Seq<char>) -> Seq<Seq<char>> {
    words_from(s, 0)
}

/// Cuts a text into its words.
pub fn split_words(s: &str) -> (r: Vec<String>)
    ensures
        texts(r@) == words_of(s@),
{
    let chars = chars_of(s);
    let n = chars.len();
    let mut out: Vec<String> = Vec::new();
    let mut at: usize = 0;
    assert(texts(out@) + words_from(s@, 0) =~= words_of(s@));
    while at < n
        invariant
            chars@ == s@,
            n == chars.len(),
            at <= n,
            words_of(s@) == texts(out@) + words_from(s@, at as int),
        decreases n - at,
    {
        if is_white_space(chars[at]) {
            at = at + 1;
        } else {
            let ghost before = texts(out@);
            let mut end: usize = at + 1;
            while end < n && !is_white_space(chars[end])
                invariant
                    chars@ == s@,
                    n == chars.len(),
                    at < end <= n,
                    space_at(s@, at + 1) == space_at(s@, end as int),
                decreases n - end,
            {
                end = end + 1;
            }
            let word = string_between(&chars, at, end);
            out.push(word);
            assert(texts(out@) =~= before.push(word@));
            assert(before + (seq![word@] + words_from(s@, end as int)) =~= before.push(word@)
                + words_from(s@, end as int));
            at = end;
        }
    }
    assert(texts(out@) + words_from(s@, at as int) =~= texts(out@));
    out
}

} // verus!
