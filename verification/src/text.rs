//! Text helpers: trimming, line splitting, joining, decimal rendering and alphabetical order.
//!
//! Every function works on the sequence of characters that a string denotes.

use vstd::prelude::*;
use vstd::string::*;

verus! {

/// Appending one character with `String::push` puts it behind the characters already there.
pub assume_specification[ String::push ](s: &mut String, c: char)
    ensures
        final(s)@ == old(s)@.push(c),
;

/// The lower-case form that `str::to_lowercase` gives of a text.
///
/// The mapping is the Unicode one and is taken as given.
pub uninterp spec fn lowercase(text: Seq<char>) -> Seq<char>;

/// `str::to_lowercase` returns the lower-case form of its argument.
pub assume_specification[ str::to_lowercase ](s: &str) -> (lower: String)
    ensures
        lower@ == lowercase(s@),
;

/// Whether a character has the Unicode `White_Space` property.
pub open spec fn white_space(c: char) -> bool {
    let n = c as int;
    ||| 0x9 <= n <= 0xd
    ||| n == 0x20
    ||| n == 0x85
    ||| n == 0xa0
    ||| n == 0x1680
    ||| 0x2000 <= n <= 0x200a
    ||| n == 0x2028
    ||| n == 0x2029
    ||| n == 0x202f
    ||| n == 0x205f
    ||| n == 0x3000
}

/// Whether a text holds nothing but white space.
pub open spec fn blank(s: Seq<char>) -> bool {
    forall|i: int| 0 <= i < s.len() ==> white_space(#[trigger] s[i])
}

/// Where the leading white space of a text ends.
pub open spec fn lead(s: Seq<char>) -> nat
    decreases s.len(),
{
    if s.len() > 0 && white_space(s[0]) {
        1 + lead(s.drop_first())
    } else {
        0
    }
}

/// Where the trailing white space of a text begins.
pub open spec fn tail(s: Seq<char>) -> nat
    decreases s.len(),
{
    if s.len() > 0 && white_space(s.last()) {
        tail(s.drop_last())
    } else {
        s.len()
    }
}

/// A text without its leading and trailing white space.
pub open spec fn trimmed(s: Seq<char>) -> Seq<char> {
    let rest = s.skip(lead(s) as int);
    rest.take(tail(rest) as int)
}

/// Whether a text holds the character `c`.
pub open spec fn has_char(s: Seq<char>, c: char) -> bool {
    exists|i: int| 0 <= i < s.len() && #[trigger] s[i] == c
}

/// How many characters come before the first of two given ones, or are there at all.
pub open spec fn span(s: Seq<char>, a: char, b: char) -> nat
    decreases s.len(),
{
    if s.len() == 0 || s[0] == a || s[0] == b {
        0
    } else {
        1 + span(s.drop_first(), a, b)
    }
}

/// Whether a text holds the character `c` twice in a row.
pub open spec fn has_double(s: Seq<char>, c: char) -> bool {
    exists|i: int| 0 <= i < s.len() - 1 && #[trigger] s[i] == c && s[i + 1] == c
}

/// The position of the first line feed, or the length where there is none.
pub open spec fn line_end(s: Seq<char>) -> nat
    decreases s.len(),
{
    if s.len() == 0 || s[0] == '\n' {
        0
    } else {
        1 + line_end(s.drop_first())
    }
}

/// A line without the carriage return that precedes its line feed.
pub open spec fn without_cr(s: Seq<char>) -> Seq<char> {
    if s.len() > 0 && s.last() == '\r' {
        s.drop_last()
    } else {
        s
    }
}

/// The lines of a text. A line ends with `\n` or `\r\n`; the last line ending is optional.
pub open spec fn lines(s: Seq<char>) -> Seq<Seq<char>>
    decreases s.len(),
{
    if s.len() == 0 {
        Seq::empty()
    } else if line_end(s) >= s.len() {
        seq![s]
    } else {
        seq![without_cr(s.take(line_end(s) as int))] + lines(s.skip(line_end(s) as int + 1))
    }
}

/// A text with two spaces after every line feed.
pub open spec fn indented(s: Seq<char>) -> Seq<char>
    decreases s.len(),
{
    if s.len() == 0 {
        Seq::empty()
    } else if s.last() == '\n' {
        indented(s.drop_last()) + seq!['\n', ' ', ' ']
    } else {
        indented(s.drop_last()).push(s.last())
    }
}

/// The parts of a list with a separator between each two of them.
pub open spec fn joined(parts: Seq<Seq<char>>, separator: Seq<char>) -> Seq<char>
    decreases parts.len(),
{
    if parts.len() == 0 {
        Seq::empty()
    } else if parts.len() == 1 {
        parts[0]
    } else {
        joined(parts.drop_last(), separator) + separator + parts.last()
    }
}

/// The decimal digit of a number below ten.
pub open spec fn digit(n: nat) -> char {
    ('0' as nat + n) as char
}

/// The decimal notation of a number.
pub open spec fn decimal(n: nat) -> Seq<char>
    decreases n,
{
    if n < 10 {
        seq![digit(n)]
    } else {
        decimal(n / 10).push(digit(n % 10))
    }
}

/// Alphabetical order: by the first character in which two texts differ, a text before its
/// extensions. Characters are ordered by code point.
pub open spec fn before(a: Seq<char>, b: Seq<char>) -> bool
    decreases a.len(),
{
    if b.len() == 0 {
        false
    } else if a.len() == 0 {
        true
    } else if a[0] == b[0] {
        before(a.drop_first(), b.drop_first())
    } else {
        (a[0] as int) < (b[0] as int)
    }
}

/// No text comes before itself.
pub proof fn lemma_before_irreflexive(a: Seq<char>)
    ensures
        !before(a, a),
    decreases a.len(),
{
    if a.len() > 0 {
        lemma_before_irreflexive(a.drop_first());
    }
}

/// Alphabetical order is transitive.
pub proof fn lemma_before_transitive(a: Seq<char>, b: Seq<char>, c: Seq<char>)
    requires
        before(a, b),
        before(b, c),
    ensures
        before(a, c),
    decreases a.len(),
{
    if a.len() > 0 && a[0] == b[0] && b[0] == c[0] {
        lemma_before_transitive(a.drop_first(), b.drop_first(), c.drop_first());
    }
}

/// Of two different texts, one comes before the other.
pub proof fn lemma_before_total(a: Seq<char>, b: Seq<char>)
    ensures
        a == b || before(a, b) || before(b, a),
    decreases a.len(),
{
    if a.len() > 0 && b.len() > 0 && a[0] == b[0] {
        lemma_before_total(a.drop_first(), b.drop_first());
        if a.drop_first() == b.drop_first() {
            assert(a =~= seq![a[0]] + a.drop_first());
            assert(b =~= seq![b[0]] + b.drop_first());
        }
    } else if a.len() == 0 && b.len() == 0 {
        assert(a =~= b);
    }
}

/// The leading white space lies within the text, and what follows it is no white space.
proof fn lemma_lead(s: Seq<char>)
    ensures
        lead(s) <= s.len(),
        forall|i: int| 0 <= i < lead(s) ==> white_space(#[trigger] s[i]),
        lead(s) < s.len() ==> !white_space(s[lead(s) as int]),
    decreases s.len(),
{
    if s.len() > 0 && white_space(s[0]) {
        let rest = s.drop_first();
        lemma_lead(rest);
        assert forall|i: int| 0 <= i < lead(s) implies white_space(#[trigger] s[i]) by {
            if i > 0 {
                assert(s[i] == rest[i - 1]);
            }
        }
    }
}

/// The trailing white space lies within the text, and what precedes it is no white space.
proof fn lemma_tail(s: Seq<char>)
    ensures
        tail(s) <= s.len(),
        forall|i: int| tail(s) <= i < s.len() ==> white_space(#[trigger] s[i]),
        tail(s) > 0 ==> !white_space(s[tail(s) - 1]),
    decreases s.len(),
{
    if s.len() > 0 && white_space(s.last()) {
        let rest = s.drop_last();
        lemma_tail(rest);
        assert forall|i: int| tail(s) <= i < s.len() implies white_space(#[trigger] s[i]) by {
            if i < s.len() - 1 {
                assert(s[i] == rest[i]);
            }
        }
    }
}

/// Trimming leaves nothing exactly where the text is all white space.
pub proof fn lemma_trimmed_empty(s: Seq<char>)
    ensures
        trimmed(s).len() == 0 <==> blank(s),
{
    let rest = s.skip(lead(s) as int);
    lemma_lead(s);
    lemma_tail(rest);
    if blank(s) {
        if lead(s) < s.len() {
            assert(white_space(s[lead(s) as int]));
        }
    } else if trimmed(s).len() == 0 {
        assert forall|i: int| 0 <= i < s.len() implies white_space(#[trigger] s[i]) by {
            if i >= lead(s) {
                assert(s[i] == rest[i - lead(s)]);
            }
        }
    }
}

/// A trimmed text neither starts nor ends with white space.
pub proof fn lemma_trimmed_ends(s: Seq<char>)
    ensures
        trimmed(s).len() > 0 ==> !white_space(trimmed(s)[0]) && !white_space(trimmed(s).last()),
{
    lemma_lead(s);
    lemma_tail(s.skip(lead(s) as int));
}

/// Trimming twice is trimming once.
pub proof fn lemma_trimmed_again(s: Seq<char>)
    ensures
        trimmed(trimmed(s)) == trimmed(s),
{
    let t = trimmed(s);
    lemma_trimmed_ends(s);
    assert(lead(t) == 0);
    assert(t.skip(0) =~= t);
    assert(tail(t) == t.len());
    assert(t.take(t.len() as int) =~= t);
}

/// The views of a list of strings.
pub open spec fn views(list: Seq<String>) -> Seq<Seq<char>> {
    list.map_values(|s: String| s@)
}

/// The texts of an outcome.
pub open spec fn text_outcome(outcome: Result<String, String>) -> Result<Seq<char>, Seq<char>> {
    match outcome {
        Ok(t) => Ok(t@),
        Err(t) => Err(t@),
    }
}

/// The characters of a text.
pub fn chars_of(text: &str) -> (chars: Vec<char>)
    ensures
        chars@ == text@,
{
    let mut chars: Vec<char> = Vec::new();
    for c in it: text.chars()
        invariant
            it.seq() == text@,
            chars@ == text@.take(it.index() as int),
    {
        assert(c == text@[it.index() as int]);
        chars.push(c);
        assert(chars@ =~= text@.take(it.index() + 1));
    }
    chars
}

/// The text that a range of characters spells.
pub fn text_of(chars: &Vec<char>, from: usize, to: usize) -> (text: String)
    requires
        from <= to <= chars@.len(),
    ensures
        text@ == chars@.subrange(from as int, to as int),
{
    let mut text = String::new();
    let mut i: usize = from;
    while i < to
        invariant
            from <= i <= to <= chars@.len(),
            text@ == chars@.subrange(from as int, i as int),
        decreases to - i,
    {
        text.push(chars[i]);
        i = i + 1;
        assert(text@ =~= chars@.subrange(from as int, i as int));
    }
    text
}

/// Whether a character is white space.
pub fn is_white_space(c: char) -> (yes: bool)
    ensures
        yes == white_space(c),
{
    let n: u32 = c as u32;
    (0x9 <= n && n <= 0xd) || n == 0x20 || n == 0x85 || n == 0xa0 || n == 0x1680 || (0x2000 <= n
        && n <= 0x200a) || n == 0x2028 || n == 0x2029 || n == 0x202f || n == 0x205f || n == 0x3000
}

/// Removes leading and trailing white space.
pub fn trim(text: &str) -> (rest: String)
    ensures
        rest@ == trimmed(text@),
{
    let chars = chars_of(text);
    let n: usize = chars.len();
    let ghost s = text@;
    let mut i: usize = 0;
    assert(s.skip(0) =~= s);
    while i < n && is_white_space(chars[i])
        invariant
            i <= n,
            n == s.len(),
            chars@ == s,
            lead(s) == i + lead(s.skip(i as int)),
        decreases n - i,
    {
        assert(s.skip(i as int).drop_first() =~= s.skip(i + 1));
        i = i + 1;
    }
    assert(lead(s) == i);
    let ghost r = s.skip(i as int);
    let mut j: usize = n;
    assert(s.subrange(i as int, n as int) =~= r);
    while i < j && is_white_space(chars[j - 1])
        invariant
            i <= j <= n,
            n == s.len(),
            chars@ == s,
            tail(r) == tail(s.subrange(i as int, j as int)),
        decreases j,
    {
        assert(s.subrange(i as int, j as int).drop_last() =~= s.subrange(i as int, j - 1));
        j = j - 1;
    }
    assert(tail(r) == j - i);
    assert(r.take(j - i) =~= s.subrange(i as int, j as int));
    text_of(&chars, i, j)
}

/// Whether nothing is left of a text once it is trimmed.
pub fn is_blank(text: &str) -> (yes: bool)
    ensures
        yes == (trimmed(text@).len() == 0),
{
    let rest = trim(text);
    rest.as_str().is_empty()
}

/// Whether two texts are the same.
pub fn same(a: &str, b: &str) -> (yes: bool)
    ensures
        yes == (a@ == b@),
{
    a.to_owned() == b.to_owned()
}

/// How many characters come before the first of two given ones, or are there at all.
pub fn count_before(chars: &Vec<char>, a: char, b: char) -> (n: usize)
    ensures
        n == span(chars@, a, b),
        n <= chars@.len(),
{
    let mut i: usize = 0;
    assert(chars@.skip(0) =~= chars@);
    while i < chars.len() && chars[i] != a && chars[i] != b
        invariant
            i <= chars@.len(),
            span(chars@, a, b) == i + span(chars@.skip(i as int), a, b),
        decreases chars@.len() - i,
    {
        assert(chars@.skip(i as int).drop_first() =~= chars@.skip(i + 1));
        i = i + 1;
    }
    i
}

/// Whether a text holds a character.
pub fn contains_char(text: &str, c: char) -> (yes: bool)
    ensures
        yes == has_char(text@, c),
{
    let chars = chars_of(text);
    let mut i: usize = 0;
    while i < chars.len()
        invariant
            i <= chars@.len(),
            chars@ == text@,
            forall|k: int| 0 <= k < i ==> text@[k] != c,
        decreases chars@.len() - i,
    {
        if chars[i] == c {
            assert(text@[i as int] == c);
            return true;
        }
        i = i + 1;
    }
    false
}

/// Whether a text holds a character twice in a row.
pub fn contains_double(text: &str, c: char) -> (yes: bool)
    ensures
        yes == has_double(text@, c),
{
    let chars = chars_of(text);
    let mut i: usize = 1;
    while i < chars.len()
        invariant
            1 <= i,
            chars@ == text@,
            forall|k: int|
                0 <= k < i - 1 && k + 1 < text@.len() ==> !(#[trigger] text@[k] == c && text@[k + 1]
                    == c),
        decreases chars@.len() - i,
    {
        if chars[i - 1] == c && chars[i] == c {
            assert(text@[i - 1] == c);
            return true;
        }
        i = i + 1;
    }
    false
}

/// A line feed is found no later than where the text ends.
proof fn lemma_line_end(s: Seq<char>, k: nat)
    requires
        k <= s.len(),
        forall|i: int| 0 <= i < k ==> s[i] != '\n',
        k < s.len() ==> s[k as int] == '\n',
    ensures
        line_end(s) == k,
    decreases s.len(),
{
    if k > 0 {
        lemma_line_end(s.drop_first(), (k - 1) as nat);
    }
}

/// Splits a text into its lines.
pub fn split_lines(text: &str) -> (list: Vec<String>)
    ensures
        views(list@) == lines(text@),
{
    let chars = chars_of(text);
    let n: usize = chars.len();
    let ghost s = text@;
    let mut list: Vec<String> = Vec::new();
    let mut start: usize = 0;
    assert(s.skip(0) =~= s);
    assert(views(list@) =~= Seq::<Seq<char>>::empty());
    while start < n
        invariant
            start <= n,
            n == s.len(),
            chars@ == s,
            lines(s) == views(list@) + lines(s.skip(start as int)),
        decreases n - start,
    {
        let ghost rest = s.skip(start as int);
        let ghost begin = start as int;
        let ghost done = views(list@);
        let mut end: usize = start;
        while end < n && chars[end] != '\n'
            invariant
                start <= end <= n,
                n == s.len(),
                chars@ == s,
                forall|i: int| start <= i < end ==> s[i] != '\n',
            decreases n - end,
        {
            end = end + 1;
        }
        proof {
            assert(forall|i: int| 0 <= i < end - start ==> rest[i] == s[start + i]);
            lemma_line_end(rest, (end - start) as nat);
            assert(rest.take(end - start) =~= s.subrange(start as int, end as int));
        }
        if end == n {
            let line = text_of(&chars, start, end);
            assert(s.subrange(start as int, end as int) =~= rest);
            list.push(line);
            start = n;
            proof {
                assert(lines(rest) == seq![rest]);
                assert(views(list@) =~= done + seq![rest]);
                assert(lines(s.skip(start as int)) =~= Seq::<Seq<char>>::empty());
                assert(lines(s) =~= views(list@) + lines(s.skip(start as int)));
            }
        } else {
            let stop: usize = if end > start && chars[end - 1] == '\r' {
                end - 1
            } else {
                end
            };
            let line = text_of(&chars, start, stop);
            let ghost whole = s.subrange(start as int, end as int);
            assert(line@ =~= without_cr(whole));
            list.push(line);
            start = end + 1;
            proof {
                assert(rest.skip(end - begin + 1) =~= s.skip(end + 1));
                assert(lines(rest) == seq![without_cr(whole)] + lines(s.skip(end + 1)));
                assert(views(list@) =~= done + seq![without_cr(whole)]);
                assert(lines(s) =~= views(list@) + lines(s.skip(start as int)));
            }
        }
    }
    assert(lines(s.skip(start as int)) =~= Seq::<Seq<char>>::empty());
    assert(lines(s) =~= views(list@));
    list
}

/// Puts two spaces after every line feed of a text.
pub fn indent(text: &str) -> (moved: String)
    ensures
        moved@ == indented(text@),
{
    let chars = chars_of(text);
    let mut moved = String::new();
    let mut i: usize = 0;
    while i < chars.len()
        invariant
            i <= chars@.len(),
            chars@ == text@,
            moved@ == indented(text@.take(i as int)),
        decreases chars@.len() - i,
    {
        assert(text@.take(i + 1).drop_last() =~= text@.take(i as int));
        let ghost before = moved@;
        moved.push(chars[i]);
        if chars[i] == '\n' {
            moved.push(' ');
            moved.push(' ');
            assert(moved@ =~= before + seq!['\n', ' ', ' ']);
        }
        i = i + 1;
    }
    assert(text@.take(i as int) =~= text@);
    moved
}

/// Joins a list of strings with a separator.
pub fn join(list: &Vec<String>, separator: &str) -> (text: String)
    ensures
        text@ == joined(views(list@), separator@),
{
    let mut text = String::new();
    let mut i: usize = 0;
    while i < list.len()
        invariant
            i <= list@.len(),
            text@ == joined(views(list@).take(i as int), separator@),
        decreases list@.len() - i,
    {
        proof {
            let next = views(list@).take(i + 1);
            assert(next.drop_last() =~= views(list@).take(i as int));
            assert(next.last() == list@[i as int]@);
        }
        if i > 0 {
            text.append(separator);
        }
        text.append(list[i].as_str());
        i = i + 1;
    }
    assert(views(list@).take(i as int) =~= views(list@));
    text
}

/// The decimal digit of a number below ten.
fn digit_char(n: u64) -> (c: char)
    requires
        n < 10,
    ensures
        c == digit(n as nat),
{
    (48u8 + n as u8) as char
}

/// Renders a number in decimal notation.
pub fn decimal_text(n: u64) -> (text: String)
    ensures
        text@ == decimal(n as nat),
    decreases n,
{
    let mut text = if n < 10 {
        String::new()
    } else {
        decimal_text(n / 10)
    };
    let ghost prefix = text@;
    text.push(digit_char(n % 10));
    assert(n < 10 ==> text@ =~= seq![digit(n as nat)]);
    text
}

/// The code point of a character.
fn code_point(c: char) -> (n: u32)
    ensures
        n as int == c as int,
{
    c as u32
}

/// Whether one text comes before another in alphabetical order.
pub fn precedes(a: &str, b: &str) -> (yes: bool)
    ensures
        yes == before(a@, b@),
{
    let x = chars_of(a);
    let y = chars_of(b);
    let mut i: usize = 0;
    assert(a@.skip(0) =~= a@ && b@.skip(0) =~= b@);
    while i < x.len() && i < y.len() && x[i] == y[i]
        invariant
            i <= x@.len(),
            i <= y@.len(),
            x@ == a@,
            y@ == b@,
            before(a@, b@) == before(a@.skip(i as int), b@.skip(i as int)),
        decreases x@.len() - i,
    {
        assert(a@.skip(i as int).drop_first() =~= a@.skip(i + 1));
        assert(b@.skip(i as int).drop_first() =~= b@.skip(i + 1));
        i = i + 1;
    }
    if i >= y.len() {
        false
    } else if i >= x.len() {
        true
    } else {
        code_point(x[i]) < code_point(y[i])
    }
}

/// Which characters are white space: those from the tab to the carriage return, the space, the next
/// line, the no-break space, and the spaces and separators of other scripts. No letter, digit or
/// other visible ASCII character is among them.
pub proof fn law_white_space(c: char)
    ensures
        white_space(c) <==> c == ' ' || '\t' <= c <= '\r' || c == '\u{85}' || c == '\u{a0}' || c
            == '\u{1680}' || '\u{2000}' <= c <= '\u{200a}' || c == '\u{2028}' || c == '\u{2029}'
            || c == '\u{202f}' || c == '\u{205f}' || c == '\u{3000}',
        '!' <= c <= '~' ==> !white_space(c),
{
}

/// Trimming cuts a text at both ends: what is cut off is all white space, and what is left, if
/// anything, begins and ends with something else.
pub proof fn law_trimming_cuts_white_space(s: Seq<char>) -> (cut: (int, int))
    ensures
        0 <= cut.0 <= cut.1 <= s.len(),
        trimmed(s) == s.subrange(cut.0, cut.1),
        forall|i: int|
            0 <= i < s.len() && !(cut.0 <= i < cut.1) ==> white_space(#[trigger] s[i]),
        cut.0 < cut.1 ==> !white_space(s[cut.0]) && !white_space(s[cut.1 - 1]),
{
    let rest = s.skip(lead(s) as int);
    lemma_lead(s);
    lemma_tail(rest);
    let from = lead(s) as int;
    let to = from + tail(rest);
    assert(trimmed(s) =~= s.subrange(from, to));
    assert forall|i: int| 0 <= i < s.len() && !(from <= i < to) implies white_space(
        #[trigger] s[i],
    ) by {
        if i >= to {
            assert(s[i] == rest[i - from]);
        }
    }
    (from, to)
}

/// White space around a text is immaterial to what trimming leaves of it.
pub proof fn law_surrounding_white_space_is_immaterial(
    before: Seq<char>,
    s: Seq<char>,
    after: Seq<char>,
)
    requires
        blank(before),
        blank(after),
        s.len() > 0,
        !white_space(s[0]),
        !white_space(s.last()),
    ensures
        trimmed(before + s + after) == s,
{
    let all = before + s + after;
    let cut = law_trimming_cuts_white_space(all);
    assert(all[before.len() as int] == s[0]);
    assert(all[before.len() + s.len() - 1] == s.last());
    if cut.0 < cut.1 {
        if cut.0 < before.len() {
            assert(all[cut.0] == before[cut.0]);
        }
        if cut.1 > before.len() + s.len() {
            assert(all[cut.1 - 1] == after[cut.1 - 1 - before.len() - s.len()]);
        }
    }
    assert(all.subrange(cut.0, cut.1) =~= s);
}

/// The lines of a text. What comes before its first line feed is its first line, without a carriage
/// return right before the line feed, and the lines of the rest follow. A text without line feed is
/// one line, and an empty text has none.
pub proof fn law_lines_are_what_line_feeds_divide(line: Seq<char>, rest: Seq<char>)
    requires
        !has_char(line, '\n'),
    ensures
        line.len() == 0 || line.last() != '\r' ==> lines(line + seq!['\n'] + rest) == seq![line]
            + lines(rest),
        lines(line + seq!['\r', '\n'] + rest) == seq![line] + lines(rest),
        line.len() > 0 ==> lines(line) == seq![line],
        lines(Seq::empty()) == Seq::<Seq<char>>::empty(),
{
    let all = line + seq!['\n'] + rest;
    assert(all[line.len() as int] == '\n');
    assert forall|i: int| 0 <= i < line.len() implies all[i] != '\n' && line[i] != '\n' by {
        assert(all[i] == line[i]);
    }
    lemma_line_end(all, line.len());
    assert(all.take(line.len() as int) =~= line);
    assert(all.skip(line.len() as int + 1) =~= rest);
    let other = line + seq!['\r', '\n'] + rest;
    let longer = line.push('\r');
    assert(other[line.len() as int + 1] == '\n');
    assert forall|i: int| 0 <= i < longer.len() implies other[i] != '\n' by {
        if i < line.len() {
            assert(other[i] == line[i]);
        }
    }
    lemma_line_end(other, longer.len());
    assert(other.take(longer.len() as int) =~= longer);
    assert(longer.drop_last() =~= line);
    assert(other.skip(longer.len() as int + 1) =~= rest);
    lemma_line_end(line, line.len());
}

/// No line of a text holds a line feed.
pub proof fn law_no_line_holds_a_line_feed(s: Seq<char>)
    ensures
        forall|i: int| 0 <= i < lines(s).len() ==> !has_char(#[trigger] lines(s)[i], '\n'),
    decreases s.len(),
{
    if s.len() > 0 {
        let n = line_end(s);
        lemma_line_end_is_first(s);
        if n < s.len() {
            let rest = s.skip(n as int + 1);
            law_no_line_holds_a_line_feed(rest);
            assert(!has_char(without_cr(s.take(n as int)), '\n'));
            assert forall|i: int| 0 <= i < lines(s).len() implies !has_char(
                #[trigger] lines(s)[i],
                '\n',
            ) by {
                if i > 0 {
                    assert(lines(s)[i] == lines(rest)[i - 1]);
                }
            }
        }
    }
}

proof fn lemma_line_end_is_first(s: Seq<char>)
    ensures
        line_end(s) <= s.len(),
        forall|i: int| 0 <= i < line_end(s) ==> s[i] != '\n',
        line_end(s) < s.len() ==> s[line_end(s) as int] == '\n',
    decreases s.len(),
{
    if s.len() > 0 && s[0] != '\n' {
        let rest = s.drop_first();
        lemma_line_end_is_first(rest);
        assert forall|i: int| 0 <= i < line_end(s) implies s[i] != '\n' by {
            if i > 0 {
                assert(s[i] == rest[i - 1]);
            }
        }
    }
}

/// A list that is joined begins with its first part, and each further part follows the separator.
pub proof fn law_joining_appends_parts(parts: Seq<Seq<char>>, part: Seq<char>, separator: Seq<char>)
    ensures
        joined(Seq::empty(), separator) == Seq::<char>::empty(),
        joined(seq![part], separator) == part,
        parts.len() > 0 ==> joined(parts.push(part), separator) == joined(parts, separator)
            + separator + part,
{
    assert(parts.push(part).drop_last() =~= parts);
}

/// The number that a sequence of decimal digits denotes.
pub open spec fn denoted(digits: Seq<char>) -> int
    decreases digits.len(),
{
    if digits.len() == 0 {
        0
    } else {
        10 * denoted(digits.drop_last()) + (digits.last() as int - '0' as int)
    }
}

/// The decimal notation of a number denotes that number, consists of digits, and does not begin with
/// a zero unless it is the notation of zero.
pub proof fn law_decimal_denotes_its_number(n: nat)
    ensures
        denoted(decimal(n)) == n,
        decimal(n).len() > 0,
        forall|i: int| 0 <= i < decimal(n).len() ==> '0' <= #[trigger] decimal(n)[i] <= '9',
        decimal(n)[0] == '0' ==> n == 0,
        n == 0 ==> decimal(n).len() == 1,
    decreases n,
{
    if n < 10 {
        assert(decimal(n).drop_last() =~= Seq::empty());
        assert(denoted(decimal(n).drop_last()) == 0);
    } else {
        law_decimal_denotes_its_number(n / 10);
        assert(decimal(n).drop_last() =~= decimal(n / 10));
    }
}

/// Different numbers have different notations.
pub proof fn law_decimal_tells_numbers_apart(a: nat, b: nat)
    ensures
        decimal(a) == decimal(b) ==> a == b,
{
    law_decimal_denotes_its_number(a);
    law_decimal_denotes_its_number(b);
}

/// Alphabetical order is decided where two texts part: by the code points there, or by which of them
/// ends there.
pub proof fn law_alphabetical_order(common: Seq<char>, a: Seq<char>, b: Seq<char>)
    requires
        a.len() > 0 || b.len() > 0,
        a.len() > 0 && b.len() > 0 ==> a[0] != b[0],
    ensures
        before(common + a, common + b) <==> (b.len() > 0 && (a.len() == 0 || (a[0] as int) < (
        b[0] as int))),
    decreases common.len(),
{
    if common.len() > 0 {
        let rest = common.drop_first();
        law_alphabetical_order(rest, a, b);
        assert((common + a).drop_first() =~= rest + a);
        assert((common + b).drop_first() =~= rest + b);
    } else {
        assert(common + a =~= a);
        assert(common + b =~= b);
    }
}

/// Indenting goes character by character: a line feed gets two spaces behind it, and nothing else
/// changes.
pub proof fn law_indenting_follows_line_feeds(s: Seq<char>, c: char)
    ensures
        indented(Seq::empty()) == Seq::<char>::empty(),
        c != '\n' ==> indented(s.push(c)) == indented(s).push(c),
        indented(s.push('\n')) == indented(s).push('\n').push(' ').push(' '),
{
    assert(s.push(c).drop_last() =~= s);
    assert(s.push('\n').drop_last() =~= s);
    assert(indented(s) + seq!['\n', ' ', ' '] =~= indented(s).push('\n').push(' ').push(' '));
}

/// The characters before the first of two given ones: none of them is one of the two, and what
/// follows them, if anything, is.
pub proof fn law_span_ends_at_the_first(s: Seq<char>, a: char, b: char)
    ensures
        span(s, a, b) <= s.len(),
        forall|i: int| 0 <= i < span(s, a, b) ==> #[trigger] s[i] != a && s[i] != b,
        span(s, a, b) < s.len() ==> s[span(s, a, b) as int] == a || s[span(s, a, b) as int] == b,
    decreases s.len(),
{
    if s.len() > 0 && s[0] != a && s[0] != b {
        let rest = s.drop_first();
        law_span_ends_at_the_first(rest, a, b);
        assert forall|i: int| 0 <= i < span(s, a, b) implies #[trigger] s[i] != a && s[i] != b by {
            if i > 0 {
                assert(s[i] == rest[i - 1]);
            }
        }
    }
}

/// What a text is searched for: a character at some position, or the same one at two positions in a
/// row.
pub proof fn law_searching_finds_positions(s: Seq<char>, c: char, i: int)
    ensures
        0 <= i < s.len() && s[i] == c ==> has_char(s, c),
        0 <= i && i + 1 < s.len() && s[i] == c && s[i + 1] == c ==> has_double(s, c),
        has_double(s, c) ==> has_char(s, c),
        (forall|k: int| 0 <= k < s.len() ==> s[k] != c) ==> !has_char(s, c),
        (forall|k: int| 0 <= k < s.len() - 1 ==> !(s[k] == c && #[trigger] s[k + 1] == c))
            ==> !has_double(s, c),
{
    if has_double(s, c) {
        let k = choose|k: int| 0 <= k < s.len() - 1 && #[trigger] s[k] == c && s[k + 1] == c;
        assert(s[k] == c);
    }
}

/// The texts of a list are as many as its strings, in their order, and those of an outcome are the
/// text of its value or of its error.
pub proof fn law_views_keep_texts(list: Seq<String>, outcome: Result<String, String>, i: int)
    ensures
        views(list).len() == list.len(),
        0 <= i < list.len() ==> views(list)[i] == list[i]@,
        outcome matches Ok(t) ==> text_outcome(outcome) == Ok::<Seq<char>, Seq<char>>(t@),
        outcome matches Err(t) ==> text_outcome(outcome) == Err::<Seq<char>, Seq<char>>(t@),
{
}

} // verus!
