//! Text as sequences of characters: the questions the screens ask of a line
//! (does it start with, does it contain, what is left after trimming) and the
//! decimal rendering of counts.

use vstd::prelude::*;

verus! {

/// `term` stands in `text` at position `at`.
pub open spec fn occurs_at(text: Seq<char>, term: Seq<char>, at: int) -> bool {
    &&& 0 <= at
    &&& at + term.len() <= text.len()
    &&& text.subrange(at, at + term.len()) == term
}

/// `term` stands somewhere in `text`. The empty term stands in every text.
pub open spec fn occurs(text: Seq<char>, term: Seq<char>) -> bool {
    exists|at: int| occurs_at(text, term, at)
}

/// White space: the characters that carry the Unicode property `White_Space`.
pub open spec fn is_space(c: char) -> bool {
    ||| '\u{9}' <= c <= '\u{d}'
    ||| c == ' '
    ||| c == '\u{85}'
    ||| c == '\u{a0}'
    ||| c == '\u{1680}'
    ||| '\u{2000}' <= c <= '\u{200a}'
    ||| c == '\u{2028}'
    ||| c == '\u{2029}'
    ||| c == '\u{202f}'
    ||| c == '\u{205f}'
    ||| c == '\u{3000}'
}

/// The marks that the commit graph draws in front of a log entry, and the
/// blanks between them.
pub open spec fn is_graph_mark(c: char) -> bool {
    c == '|' || c == '\\' || c == '*' || c == ' '
}

/// `text` without its longest prefix of characters that `drop` holds of.
pub open spec fn strip_start(text: Seq<char>, drop: spec_fn(char) -> bool) -> Seq<char>
    decreases text.len(),
{
    if text.len() > 0 && drop(text.first()) {
        strip_start(text.drop_first(), drop)
    } else {
        text
    }
}

/// `text` without its longest suffix of characters that `drop` holds of.
pub open spec fn strip_end(text: Seq<char>, drop: spec_fn(char) -> bool) -> Seq<char>
    decreases text.len(),
{
    if text.len() > 0 && drop(text.last()) {
        strip_end(text.drop_last(), drop)
    } else {
        text
    }
}

/// `text` without the characters that `drop` holds of at either end.
pub open spec fn strip(text: Seq<char>, drop: spec_fn(char) -> bool) -> Seq<char> {
    strip_end(strip_start(text, drop), drop)
}

/// `text` without the white space at either end.
pub open spec fn trimmed(text: Seq<char>) -> Seq<char> {
    strip(text, |c: char| is_space(c))
}

/// `text` without the graph marks at either end.
pub open spec fn ungraphed(text: Seq<char>) -> Seq<char> {
    strip(text, |c: char| is_graph_mark(c))
}

/// `text` from its character `n` on; empty when `text` is no longer than `n`.
pub open spec fn tail(text: Seq<char>, n: nat) -> Seq<char> {
    if n <= text.len() {
        text.skip(n as int)
    } else {
        Seq::empty()
    }
}

/// The first `n` characters of `text`; all of it when `text` is no longer than `n`.
pub open spec fn head(text: Seq<char>, n: nat) -> Seq<char> {
    if n <= text.len() {
        text.take(n as int)
    } else {
        text
    }
}

/// The character that writes the digit `d`.
pub open spec fn digit(d: nat) -> char
    recommends
        d < 10,
{
    if d == 0 {
        '0'
    } else if d == 1 {
        '1'
    } else if d == 2 {
        '2'
    } else if d == 3 {
        '3'
    } else if d == 4 {
        '4'
    } else if d == 5 {
        '5'
    } else if d == 6 {
        '6'
    } else if d == 7 {
        '7'
    } else if d == 8 {
        '8'
    } else {
        '9'
    }
}

/// `n` written in base ten, without leading zeros.
pub open spec fn decimal(n: nat) -> Seq<char>
    decreases n,
{
    if n < 10 {
        seq![digit(n)]
    } else {
        decimal(n / 10).push(digit(n % 10))
    }
}

/// Stripping from the start leaves what follows the first character that stays.
pub proof fn lemma_strip_start(text: Seq<char>, drop: spec_fn(char) -> bool, from: int)
    requires
        0 <= from <= text.len(),
        forall|i: int| 0 <= i < from ==> drop(#[trigger] text[i]),
        from < text.len() ==> !drop(text[from]),
    ensures
        strip_start(text, drop) == text.skip(from),
    decreases text.len(),
{
    if text.len() > 0 && drop(text.first()) {
        assert(from > 0);
        let rest = text.drop_first();
        assert forall|i: int| 0 <= i < from - 1 implies drop(#[trigger] rest[i]) by {
            assert(rest[i] == text[i + 1]);
        }
        lemma_strip_start(rest, drop, from - 1);
        assert(rest.skip(from - 1) =~= text.skip(from));
    } else {
        assert(from == 0);
        assert(text.skip(0) =~= text);
    }
}

/// Stripping from the end leaves what precedes the last character that stays.
pub proof fn lemma_strip_end(text: Seq<char>, drop: spec_fn(char) -> bool, to: int)
    requires
        0 <= to <= text.len(),
        forall|i: int| to <= i < text.len() ==> drop(#[trigger] text[i]),
        0 < to ==> !drop(text[to - 1]),
    ensures
        strip_end(text, drop) == text.take(to),
    decreases text.len(),
{
    if text.len() > 0 && drop(text.last()) {
        assert(to < text.len());
        let rest = text.drop_last();
        assert forall|i: int| to <= i < rest.len() implies drop(#[trigger] rest[i]) by {
            assert(rest[i] == text[i]);
        }
        lemma_strip_end(rest, drop, to);
        assert(rest.take(to) =~= text.take(to));
    } else {
        assert(to == text.len());
        assert(text.take(to) =~= text);
    }
}

/// The characters of `s`, in order.
pub fn chars_of(s: &str) -> (chars: Vec<char>)
    ensures
        chars@ == s@,
{
    let mut chars: Vec<char> = Vec::new();
    for c in it: s.chars()
        invariant
            chars@ == it.seq().take(it.index()),
            it.seq() == s@,
    {
        chars.push(c);
    }
    chars
}

/// Whether `c` is white space.
pub fn is_space_char(c: char) -> (space: bool)
    ensures
        space == is_space(c),
{
    ('\u{9}' <= c && c <= '\u{d}') || c == ' ' || c == '\u{85}' || c == '\u{a0}' || c
        == '\u{1680}' || ('\u{2000}' <= c && c <= '\u{200a}') || c == '\u{2028}' || c
        == '\u{2029}' || c == '\u{202f}' || c == '\u{205f}' || c == '\u{3000}'
}

/// Whether `c` is one of the marks of the commit graph.
pub fn is_graph_mark_char(c: char) -> (mark: bool)
    ensures
        mark == is_graph_mark(c),
{
    c == '|' || c == '\\' || c == '*' || c == ' '
}

/// Whether `text` begins with the character `first`.
pub fn starts_with_char(text: &str, first: char) -> (starts: bool)
    ensures
        starts == (text@.len() > 0 && text@[0] == first),
{
    text.unicode_len() > 0 && text.get_char(0) == first
}

/// Whether `text` begins with `prefix`.
pub fn starts_with(text: &str, prefix: &str) -> (starts: bool)
    ensures
        starts == prefix@.is_prefix_of(text@),
{
    let hay = chars_of(text);
    let needle = chars_of(prefix);
    if needle.len() > hay.len() {
        return false;
    }
    stands_at(&hay, &needle, 0)
}

/// Whether `a` and `b` are the same text.
pub fn same_text(a: &str, b: &str) -> (same: bool)
    ensures
        same == (a@ == b@),
{
    let left = chars_of(a);
    let right = chars_of(b);
    if left.len() != right.len() {
        return false;
    }
    let same = stands_at(&left, &right, 0);
    assert(left@.subrange(0, right@.len() as int) =~= left@);
    same
}

/// Whether `needle` stands in `hay` at position `at`.
fn stands_at(hay: &Vec<char>, needle: &Vec<char>, at: usize) -> (stands: bool)
    requires
        at + needle.len() <= hay.len(),
    ensures
        stands == occurs_at(hay@, needle@, at as int),
{
    let mut k: usize = 0;
    while k < needle.len()
        invariant
            k <= needle.len(),
            at + needle.len() <= hay.len(),
            forall|j: int| 0 <= j < k ==> hay@[at + j] == needle@[j],
        decreases needle.len() - k,
    {
        if hay[at + k] != needle[k] {
            proof {
                let part = hay@.subrange(at as int, at + needle.len());
                assert(part[k as int] == hay@[at + k]);
            }
            return false;
        }
        k += 1;
    }
    assert(hay@.subrange(at as int, at + needle.len()) =~= needle@);
    true
}

/// Whether `term` stands somewhere in `text`.
pub fn contains(text: &str, term: &str) -> (found: bool)
    ensures
        found == occurs(text@, term@),
{
    let hay = chars_of(text);
    let needle = chars_of(term);
    if needle.len() > hay.len() {
        return false;
    }
    let last: usize = hay.len() - needle.len();
    let mut at: usize = 0;
    loop
        invariant
            at <= last,
            last == hay.len() - needle.len(),
            needle.len() <= hay.len(),
            hay@ == text@,
            needle@ == term@,
            forall|i: int| 0 <= i < at ==> !occurs_at(hay@, needle@, i),
        decreases last - at,
    {
        if stands_at(&hay, &needle, at) {
            return true;
        }
        if at == last {
            return false;
        }
        at += 1;
    }
}

/// `text` without the characters at either end that `drop` answers `true` for.
fn strip_by<F: Fn(char) -> bool>(text: &str, drop: F, Ghost(dropped): Ghost<spec_fn(char) -> bool>) -> (
    rest: String
)
    requires
        forall|c: char| call_requires(drop, (c,)),
        forall|c: char, b: bool| call_ensures(drop, (c,), b) ==> b == dropped(c),
    ensures
        rest@ == strip(text@, dropped),
{
    let chars = chars_of(text);
    let mut from: usize = 0;
    while from < chars.len() && drop(chars[from])
        invariant
            from <= chars.len(),
            forall|c: char| call_requires(drop, (c,)),
            forall|c: char, b: bool| call_ensures(drop, (c,), b) ==> b == dropped(c),
            forall|i: int| 0 <= i < from ==> dropped(#[trigger] chars@[i]),
        decreases chars.len() - from,
    {
        from += 1;
    }
    let mut to: usize = chars.len();
    while to > from && drop(chars[to - 1])
        invariant
            from <= to <= chars.len(),
            forall|c: char| call_requires(drop, (c,)),
            forall|c: char, b: bool| call_ensures(drop, (c,), b) ==> b == dropped(c),
            forall|i: int| to <= i < chars.len() ==> dropped(#[trigger] chars@[i]),
        decreases to,
    {
        to -= 1;
    }
    proof {
        lemma_strip_start(chars@, dropped, from as int);
        let middle = chars@.skip(from as int);
        assert forall|i: int| to - from <= i < middle.len() implies dropped(#[trigger] middle[i]) by {
            assert(middle[i] == chars@[from + i]);
        }
        if to > from {
            assert(middle[to - from - 1] == chars@[to - 1]);
        }
        lemma_strip_end(middle, dropped, to - from);
        assert(middle.take(to - from) =~= chars@.subrange(from as int, to as int));
    }
    text.substring_char(from, to).to_owned()
}

/// `text` without the white space at either end.
pub fn trim(text: &str) -> (rest: String)
    ensures
        rest@ == trimmed(text@),
{
    strip_by(text, is_space_char, Ghost(|c: char| is_space(c)))
}

/// `text` without the graph marks at either end.
pub fn trim_graph(text: &str) -> (rest: String)
    ensures
        rest@ == ungraphed(text@),
{
    strip_by(text, is_graph_mark_char, Ghost(|c: char| is_graph_mark(c)))
}

/// `text` from its character `n` on.
pub fn skip_chars(text: &str, n: usize) -> (rest: String)
    ensures
        rest@ == tail(text@, n as nat),
{
    let len = text.unicode_len();
    if n <= len {
        text.substring_char(n, len).to_owned()
    } else {
        String::new()
    }
}

/// The first `n` characters of `text`.
pub fn take_chars(text: &str, n: usize) -> (start: String)
    ensures
        start@ == head(text@, n as nat),
{
    let len = text.unicode_len();
    if n <= len {
        text.substring_char(0, n).to_owned()
    } else {
        text.to_owned()
    }
}

/// The text that writes the digit `d`.
fn digit_text(d: usize) -> (text: &'static str)
    requires
        d < 10,
    ensures
        text@ == seq![digit(d as nat)],
{
    proof {
        reveal_strlit("0");
        reveal_strlit("1");
        reveal_strlit("2");
        reveal_strlit("3");
        reveal_strlit("4");
        reveal_strlit("5");
        reveal_strlit("6");
        reveal_strlit("7");
        reveal_strlit("8");
        reveal_strlit("9");
    }
    let text = if d == 0 {
        "0"
    } else if d == 1 {
        "1"
    } else if d == 2 {
        "2"
    } else if d == 3 {
        "3"
    } else if d == 4 {
        "4"
    } else if d == 5 {
        "5"
    } else if d == 6 {
        "6"
    } else if d == 7 {
        "7"
    } else if d == 8 {
        "8"
    } else {
        "9"
    };
    assert(text@ =~= seq![digit(d as nat)]);
    text
}

/// `n` written in base ten.
pub fn decimal_text(n: usize) -> (text: String)
    ensures
        text@ == decimal(n as nat),
    decreases n,
{
    if n < 10 {
        digit_text(n).to_owned()
    } else {
        let mut text = decimal_text(n / 10);
        text.append(digit_text(n % 10));
        assert(text@ =~= decimal(n as nat));
        text
    }
}

} // verus!
