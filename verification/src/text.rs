//! Small operations on text that the rest of the library builds on.

use vstd::prelude::*;
use vstd::string::StringExecFns;

verus! {

/// The text of each string of a sequence, in order.
pub open spec fn texts(strings: Seq<String>) -> Seq<Seq<char>> {
    strings.map_values(|s: String| s@)
}

/// The text of an optional string.
pub open spec fn optional_text(text: Option<String>) -> Option<Seq<char>> {
    match text {
        Some(t) => Some(t@),
        None => None,
    }
}

/// The text of an optional string slice.
pub open spec fn optional_str(text: Option<&str>) -> Option<Seq<char>> {
    match text {
        Some(t) => Some(t@),
        None => None,
    }
}

/// A result that holds text either way, as plain text.
pub open spec fn outcome_view(outcome: Result<String, String>) -> Result<Seq<char>, Seq<char>> {
    match outcome {
        Ok(text) => Ok(text@),
        Err(reason) => Err(reason@),
    }
}

/// The character of a decimal digit.
pub open spec fn digit_char(digit: nat) -> char
    recommends
        digit < 10,
{
    if digit == 0 {
        '0'
    } else if digit == 1 {
        '1'
    } else if digit == 2 {
        '2'
    } else if digit == 3 {
        '3'
    } else if digit == 4 {
        '4'
    } else if digit == 5 {
        '5'
    } else if digit == 6 {
        '6'
    } else if digit == 7 {
        '7'
    } else if digit == 8 {
        '8'
    } else {
        '9'
    }
}

/// A number in decimal notation, without sign or leading zeros.
pub open spec fn decimal(n: nat) -> Seq<char>
    decreases n,
{
    if n < 10 {
        seq![digit_char(n)]
    } else {
        decimal(n / 10).push(digit_char(n % 10))
    }
}

/// Whether a character is a decimal digit.
pub open spec fn is_digit(c: char) -> bool {
    0x30 <= c as u32 <= 0x39
}

/// The number that a sequence of decimal digits denotes.
pub open spec fn decimal_value(digits: Seq<char>) -> nat
    decreases digits.len(),
{
    if digits.len() == 0 {
        0
    } else {
        decimal_value(digits.drop_last()) * 10 + (digits.last() as u32 - 0x30) as nat
    }
}

/// The decimal notation of a number is made of digits, at least one, and
/// denotes the number.
pub proof fn lemma_decimal(n: nat)
    ensures
        decimal(n).len() >= 1,
        forall|i: int| 0 <= i < decimal(n).len() ==> is_digit(#[trigger] decimal(n)[i]),
        decimal_value(decimal(n)) == n,
    decreases n,
{
    if n < 10 {
        assert(decimal(n).drop_last() =~= Seq::<char>::empty());
        assert(decimal_value(decimal(n).drop_last()) == 0);
    } else {
        lemma_decimal(n / 10);
        assert(decimal(n).drop_last() =~= decimal(n / 10));
        assert(decimal(n).last() == digit_char(n % 10));
        assert forall|i: int| 0 <= i < decimal(n).len() implies is_digit(
            #[trigger] decimal(n)[i],
        ) by {
            if i < decimal(n / 10).len() {
                assert(decimal(n)[i] == decimal(n / 10)[i]);
            }
        }
    }
}

/// Two numbers with one decimal notation are one number.
pub proof fn lemma_decimal_injective(a: nat, b: nat)
    requires
        decimal(a) == decimal(b),
    ensures
        a == b,
{
    lemma_decimal(a);
    lemma_decimal(b);
}

fn digit_text(digit: u8) -> (text: &'static str)
    requires
        digit < 10,
    ensures
        text@ == seq![digit_char(digit as nat)],
{
    proof {
        reveal_strlit("0");
        reveal_strlit("1");
        reveal_strlit("2");
        reveal_strlit("3");
        reveal_strlit("4");
        reveal_strlit("5");
        reveal_strlit("6");
        reveal_strlit("7");
        reveal_strlit("8");
        reveal_strlit("9");
    }
    let text = if digit == 0 {
        "0"
    } else if digit == 1 {
        "1"
    } else if digit == 2 {
        "2"
    } else if digit == 3 {
        "3"
    } else if digit == 4 {
        "4"
    } else if digit == 5 {
        "5"
    } else if digit == 6 {
        "6"
    } else if digit == 7 {
        "7"
    } else if digit == 8 {
        "8"
    } else {
        "9"
    };
    assert(text@ =~= seq![digit_char(digit as nat)]);
    text
}

/// Writes `n` in decimal notation.
pub fn decimal_string(n: u128) -> (text: String)
    ensures
        text@ == decimal(n as nat),
{
    let mut digits: Vec<u8> = Vec::new();
    let mut rest = n;
    while rest >= 10
        invariant
            forall|i: int| 0 <= i < digits.len() ==> (#[trigger] digits[i]) < 10,
            decimal(n as nat) == decimal(rest as nat) + Seq::new(
                digits.len() as nat,
                |i: int| digit_char(digits[digits.len() - 1 - i] as nat),
            ),
        decreases rest,
    {
        let ghost before = digits@;
        let ghost rest_before = rest;
        digits.push((rest % 10) as u8);
        rest = rest / 10;
        assert(decimal(rest_before as nat) == decimal(rest as nat).push(
            digit_char((rest_before % 10) as nat),
        ));
        assert(decimal(rest_before as nat) + Seq::new(
            before.len() as nat,
            |i: int| digit_char(before[before.len() - 1 - i] as nat),
        ) =~= decimal(rest as nat) + Seq::new(
            digits.len() as nat,
            |i: int| digit_char(digits[digits.len() - 1 - i] as nat),
        ));
    }
    let mut text = String::from_str(digit_text(rest as u8));
    let mut k = digits.len();
    while k > 0
        invariant
            k <= digits.len(),
            forall|i: int| 0 <= i < digits.len() ==> (#[trigger] digits[i]) < 10,
            text@ == decimal(rest as nat) + Seq::new(
                (digits.len() - k) as nat,
                |i: int| digit_char(digits[digits.len() - 1 - i] as nat),
            ),
        decreases k,
    {
        let ghost before = text@;
        k = k - 1;
        text.append(digit_text(digits[k]));
        assert(text@ =~= decimal(rest as nat) + Seq::new(
            (digits.len() - k) as nat,
            |i: int| digit_char(digits[digits.len() - 1 - i] as nat),
        ));
    }
    text
}

/// The characters of a string, in order.
pub fn chars_of(text: &str) -> (chars: Vec<char>)
    ensures
        chars@ == text@,
{
    let mut chars: Vec<char> = Vec::new();
    for c in it: text.chars()
        invariant
            chars@ == it.seq().take(it.index()),
            it.seq() == text@,
    {
        chars.push(c);
    }
    chars
}

/// Whether a character is white space, as Unicode defines it.
pub open spec fn white(c: char) -> bool {
    let code = c as u32;
    ||| 0x09 <= code <= 0x0D
    ||| code == 0x20
    ||| code == 0x85
    ||| code == 0xA0
    ||| code == 0x1680
    ||| 0x2000 <= code <= 0x200A
    ||| code == 0x2028
    ||| code == 0x2029
    ||| code == 0x202F
    ||| code == 0x205F
    ||| code == 0x3000
}

/// Whether `c` is white space.
pub fn is_white(c: char) -> (space: bool)
    ensures
        space == white(c),
{
    let code = c as u32;
    (0x09 <= code && code <= 0x0D) || code == 0x20 || code == 0x85 || code == 0xA0 || code
        == 0x1680 || (0x2000 <= code && code <= 0x200A) || code == 0x2028 || code == 0x2029
        || code == 0x202F || code == 0x205F || code == 0x3000
}

/// A class of characters.
#[derive(Clone, Copy, Debug, PartialEq, Eq, Structural)]
pub enum CharClass {
    /// White space.
    Space,
    /// Anything but white space.
    Word,
    /// Anything but a line feed.
    SameLine,
}

/// Whether `c` is of `class`.
pub open spec fn in_class(class: CharClass, c: char) -> bool {
    match class {
        CharClass::Space => white(c),
        CharClass::Word => !white(c),
        CharClass::SameLine => c != '\n',
    }
}

/// The number of characters of `class` with which `s` begins.
pub open spec fn run_length(s: Seq<char>, class: CharClass) -> nat
    decreases s.len(),
{
    if s.len() > 0 && in_class(class, s[0]) {
        1 + run_length(s.drop_first(), class)
    } else {
        0
    }
}

/// The number of white characters with which `s` ends.
pub open spec fn trailing_space(s: Seq<char>) -> nat
    decreases s.len(),
{
    if s.len() > 0 && white(s.last()) {
        1 + trailing_space(s.drop_last())
    } else {
        0
    }
}

/// A run is known by its end: the characters before it are of the class,
/// and the one at it, if there is one, is not.
pub proof fn lemma_run_length(s: Seq<char>, class: CharClass, k: int)
    requires
        0 <= k <= s.len(),
        forall|i: int| 0 <= i < k ==> in_class(class, #[trigger] s[i]),
        k == s.len() || !in_class(class, s[k]),
    ensures
        run_length(s, class) == k,
    decreases k,
{
    if k > 0 {
        let rest = s.drop_first();
        assert forall|i: int| 0 <= i < k - 1 implies in_class(class, #[trigger] rest[i]) by {
            assert(rest[i] == s[i + 1]);
        }
        lemma_run_length(rest, class, k - 1);
    }
}

/// The white space at the end is known by its start: the characters from
/// it on are white, and the one before it, if there is one, is not.
pub proof fn lemma_trailing_space(s: Seq<char>, k: int)
    requires
        0 <= k <= s.len(),
        forall|i: int| k <= i < s.len() ==> white(#[trigger] s[i]),
        k == 0 || !white(s[k - 1]),
    ensures
        trailing_space(s) == s.len() - k,
    decreases s.len() - k,
{
    if k < s.len() {
        let rest = s.drop_last();
        assert forall|i: int| k <= i < rest.len() implies white(#[trigger] rest[i]) by {
            assert(rest[i] == s[i]);
        }
        lemma_trailing_space(rest, k);
    }
}

/// A run does not reach beyond the text.
pub proof fn lemma_run_length_bound(s: Seq<char>, class: CharClass)
    ensures
        run_length(s, class) <= s.len(),
        forall|i: int| 0 <= i < run_length(s, class) ==> in_class(class, #[trigger] s[i]),
        run_length(s, class) < s.len() ==> !in_class(class, s[run_length(s, class) as int]),
    decreases s.len(),
{
    if s.len() > 0 && in_class(class, s[0]) {
        let rest = s.drop_first();
        lemma_run_length_bound(rest, class);
        assert forall|i: int| 0 <= i < run_length(s, class) implies in_class(
            class,
            #[trigger] s[i],
        ) by {
            if i > 0 {
                assert(s[i] == rest[i - 1]);
            }
        }
        if run_length(s, class) < s.len() {
            assert(s[run_length(s, class) as int] == rest[run_length(rest, class) as int]);
        }
    }
}

/// Whether `c` is of `class`.
pub fn is_of_class(class: CharClass, c: char) -> (member: bool)
    ensures
        member == in_class(class, c),
{
    match class {
        CharClass::Space => is_white(c),
        CharClass::Word => !is_white(c),
        CharClass::SameLine => c != '\n',
    }
}

/// The index at which the run of `class` that starts at `from` ends.
pub fn scan_run(chars: &Vec<char>, from: usize, class: CharClass) -> (end: usize)
    requires
        from <= chars.len(),
    ensures
        from <= end <= chars.len(),
        end - from == run_length(chars@.skip(from as int), class),
{
    let mut end = from;
    while end < chars.len() && is_of_class(class, chars[end])
        invariant
            from <= end <= chars.len(),
            forall|i: int| from <= i < end ==> in_class(class, #[trigger] chars@[i]),
        decreases chars.len() - end,
    {
        end = end + 1;
    }
    proof {
        let rest = chars@.skip(from as int);
        assert forall|i: int| 0 <= i < end - from implies in_class(class, #[trigger] rest[i]) by {
            assert(rest[i] == chars@[from + i]);
        }
        lemma_run_length(rest, class, end - from);
    }
    end
}

/// A text without the white space at its ends.
pub open spec fn trimmed(s: Seq<char>) -> Seq<char> {
    let start = run_length(s, CharClass::Space) as int;
    if start == s.len() {
        Seq::empty()
    } else {
        s.subrange(start, s.len() - trailing_space(s))
    }
}

/// Takes the white space off both ends of `text`.
pub fn trim(text: &str) -> (inner: String)
    ensures
        inner@ == trimmed(text@),
{
    let chars = chars_of(text);
    let start = scan_run(&chars, 0, CharClass::Space);
    assert(chars@.skip(0) =~= chars@);
    if start == chars.len() {
        let inner = String::from_str("");
        proof {
            reveal_strlit("");
            assert(inner@ =~= Seq::<char>::empty());
        }
        return inner;
    }
    let mut end = chars.len();
    while end > start + 1 && is_white(chars[end - 1])
        invariant
            start < end <= chars.len(),
            forall|i: int| end <= i < chars.len() ==> white(#[trigger] chars@[i]),
        decreases end,
    {
        end = end - 1;
    }
    proof {
        lemma_run_length_bound(chars@, CharClass::Space);
        assert(!white(chars@[start as int]));
        lemma_trailing_space(chars@, end as int);
    }
    text.substring_char(start, end).to_owned()
}

/// Whether `needle` stands in `hay` at `at`.
pub open spec fn occurs_at(hay: Seq<char>, needle: Seq<char>, at: int) -> bool {
    0 <= at && at + needle.len() <= hay.len() && hay.subrange(at, at + needle.len()) == needle
}

/// Whether `needle` stands somewhere in `hay`.
pub open spec fn occurs_in(hay: Seq<char>, needle: Seq<char>) -> bool {
    exists|at: int| occurs_at(hay, needle, at)
}

fn matches_at(hay: &Vec<char>, needle: &Vec<char>, at: usize) -> (found: bool)
    requires
        at + needle.len() <= hay.len(),
    ensures
        found == occurs_at(hay@, needle@, at as int),
{
    let mut k: usize = 0;
    while k < needle.len()
        invariant
            k <= needle.len(),
            at + needle.len() <= hay.len(),
            forall|i: int| 0 <= i < k ==> hay@[at + i] == #[trigger] needle@[i],
        decreases needle.len() - k,
    {
        if hay[at + k] != needle[k] {
            assert(hay@.subrange(at as int, at + needle.len())[k as int] != needle@[k as int]);
            return false;
        }
        k = k + 1;
    }
    assert(hay@.subrange(at as int, at + needle.len()) =~= needle@);
    true
}

/// Whether `needle` stands somewhere in `hay`.
pub fn contains_text(hay: &str, needle: &str) -> (found: bool)
    ensures
        found == occurs_in(hay@, needle@),
{
    let hay_chars = chars_of(hay);
    let needle_chars = chars_of(needle);
    if needle_chars.len() > hay_chars.len() {
        return false;
    }
    let last = hay_chars.len() - needle_chars.len();
    let mut at: usize = 0;
    while at < last
        invariant
            hay_chars@ == hay@,
            needle_chars@ == needle@,
            last == hay_chars.len() - needle_chars.len(),
            at <= last,
            forall|i: int| 0 <= i < at ==> !occurs_at(hay@, needle@, i),
        decreases last - at,
    {
        if matches_at(&hay_chars, &needle_chars, at) {
            return true;
        }
        at = at + 1;
    }
    matches_at(&hay_chars, &needle_chars, last)
}

/// Whether `s` ends with `suffix`.
pub open spec fn ends_with(s: Seq<char>, suffix: Seq<char>) -> bool {
    suffix.len() <= s.len() && s.subrange(s.len() - suffix.len(), s.len() as int) == suffix
}

/// Whether `text` ends with `suffix`.
pub fn has_suffix(text: &str, suffix: &str) -> (found: bool)
    ensures
        found == ends_with(text@, suffix@),
{
    let chars = chars_of(text);
    let suffix_chars = chars_of(suffix);
    if suffix_chars.len() > chars.len() {
        return false;
    }
    matches_at(&chars, &suffix_chars, chars.len() - suffix_chars.len())
}

/// Whether the first character of `s` is `c`.
pub open spec fn starts_with_char(s: Seq<char>, c: char) -> bool {
    s.len() > 0 && s[0] == c
}

/// The index before `to` at which the run of `class` that starts at
/// `from` ends.
pub fn scan_between(chars: &Vec<char>, from: usize, to: usize, class: CharClass) -> (end: usize)
    requires
        from <= to <= chars.len(),
    ensures
        from <= end <= to,
        end - from == run_length(chars@.subrange(from as int, to as int), class),
{
    let mut end = from;
    while end < to && is_of_class(class, chars[end])
        invariant
            from <= end <= to <= chars.len(),
            forall|i: int| from <= i < end ==> in_class(class, #[trigger] chars@[i]),
        decreases to - end,
    {
        end = end + 1;
    }
    proof {
        let part = chars@.subrange(from as int, to as int);
        assert forall|i: int| 0 <= i < end - from implies in_class(class, #[trigger] part[i]) by {
            assert(part[i] == chars@[from + i]);
        }
        lemma_run_length(part, class, end - from);
    }
    end
}

/// The first word of a line: what stands between the white space at its
/// start and the next white space. It is empty for a blank line.
pub open spec fn first_word(line: Seq<char>) -> Seq<char> {
    let start = run_length(line, CharClass::Space) as int;
    line.subrange(start, start + run_length(line.skip(start), CharClass::Word))
}

/// The first word of each line of a text that has one, in order. The lines
/// end at line feeds.
pub open spec fn first_words(s: Seq<char>) -> Seq<Seq<char>>
    decreases s.len(),
{
    if s.len() == 0 {
        Seq::empty()
    } else {
        let n = run_length(s, CharClass::SameLine) as int;
        let word = first_word(s.take(n));
        let rest = if n < s.len() {
            first_words(s.skip(n + 1))
        } else {
            Seq::empty()
        };
        if word.len() > 0 {
            seq![word] + rest
        } else {
            rest
        }
    }
}

/// Collects the first word of each line of `text` that has one.
pub fn first_word_of_each_line(text: &str) -> (words: Vec<String>)
    ensures
        texts(words@) == first_words(text@),
{
    let chars = chars_of(text);
    let mut words: Vec<String> = Vec::new();
    let mut pos: usize = 0;
    assert(chars@.skip(0) =~= chars@);
    assert(texts(words@) + first_words(chars@.skip(0)) =~= first_words(text@));
    while pos < chars.len()
        invariant
            chars@ == text@,
            pos <= chars.len(),
            texts(words@) + first_words(chars@.skip(pos as int)) == first_words(
                text@,
            ),
        decreases chars.len() - pos,
    {
        let ghost here = chars@.skip(pos as int);
        let ghost before = texts(words@);
        let line_end = scan_run(&chars, pos, CharClass::SameLine);
        let word_start = scan_between(&chars, pos, line_end, CharClass::Space);
        let word_end = scan_between(&chars, word_start, line_end, CharClass::Word);
        let next = if line_end < chars.len() {
            line_end + 1
        } else {
            line_end
        };
        proof {
            let n = (line_end - pos) as int;
            let line = here.take(n);
            assert(line =~= chars@.subrange(pos as int, line_end as int));
            let start = (word_start - pos) as int;
            assert(line.skip(start) =~= chars@.subrange(word_start as int, line_end as int));
            assert(first_word(line) =~= chars@.subrange(word_start as int, word_end as int));
            if n < here.len() {
                assert(here.skip(n + 1) =~= chars@.skip(next as int));
            } else {
                assert(chars@.skip(next as int) =~= Seq::<char>::empty());
            }
        }
        if word_end > word_start {
            let word = text.substring_char(word_start, word_end).to_owned();
            words.push(word);
            assert(texts(words@) =~= before.push(
                chars@.subrange(word_start as int, word_end as int),
            ));
            assert(texts(words@) + first_words(chars@.skip(next as int))
                =~= before + first_words(here));
        }
        pos = next;
    }
    assert(first_words(chars@.skip(pos as int)) =~= Seq::<Seq<char>>::empty());
    assert(texts(words@) =~= texts(words@) + first_words(
        chars@.skip(pos as int),
    ));
    words
}

} // verus!
