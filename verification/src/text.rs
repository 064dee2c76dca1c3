//! Text as sequences of characters: trimming, splitting, joining, shortening.
use vstd::prelude::*;
use vstd::string::*;

verus! {

/// `str::eq`: two string slices are equal exactly when they hold the same characters.
pub assume_specification[ <str as PartialEq>::eq ](left: &str, right: &str) -> (equal: bool)
    ensures
        equal == (left@ == right@),
;

/// `String::push`: appends the given character to the end of the string.
pub assume_specification[ String::push ](string: &mut String, c: char)
    ensures
        final(string)@ == old(string)@.push(c),
;

/// The text that `String::from_utf8_lossy` makes of bytes.
pub uninterp spec fn lossy_text(bytes: Seq<u8>) -> Seq<char>;

/// `String::from_utf8_lossy`: the text that the bytes encode, with replacement characters where
/// they encode none. The result is named; of bytes that are valid UTF-8 it is their text.
#[verifier::external_body]
pub(crate) fn from_utf8_lossy(bytes: &Vec<u8>) -> (text: String)
    ensures
        text@ == lossy_text(bytes@),
        vstd::utf8::valid_utf8(bytes@) ==> text@ == vstd::utf8::decode_utf8(bytes@),
{
    String::from_utf8_lossy(bytes).into_owned()
}

/// The form that `str`'s `Debug` gives a text.
pub uninterp spec fn debug_text(text: Seq<char>) -> Seq<char>;

/// `str`'s `Debug`: the text in quotes, with escapes. The result is named, and depends on the
/// text alone.
#[verifier::external_body]
pub(crate) fn quoted(text: &str) -> (form: String)
    ensures
        form@ == debug_text(text@),
{
    format!("{:?}", text)
}

/// The characters with the Unicode property White_Space.
pub open spec fn is_white(c: char) -> bool {
    ||| '\u{9}' <= c <= '\u{d}'
    ||| c == '\u{20}'
    ||| c == '\u{85}'
    ||| c == '\u{a0}'
    ||| c == '\u{1680}'
    ||| '\u{2000}' <= c <= '\u{200a}'
    ||| c == '\u{2028}'
    ||| c == '\u{2029}'
    ||| c == '\u{202f}'
    ||| c == '\u{205f}'
    ||| c == '\u{3000}'
}

/// The sets of characters that text is trimmed of.
#[derive(Debug, Clone, Copy, PartialEq, Eq, Structural)]
pub enum CharClass {
    White,
    Quote,
    FullStop,
    LineFeed,
}

impl CharClass {
    pub open spec fn has(self, c: char) -> bool {
        match self {
            CharClass::White => is_white(c),
            CharClass::Quote => c == '"' || c == '\'' || c == '`' || c == '*',
            CharClass::FullStop => c == '.' || c == '\u{3002}',
            CharClass::LineFeed => c == '\n',
        }
    }

    pub fn holds(self, c: char) -> (held: bool)
        ensures
            held == self.has(c),
    {
        match self {
            CharClass::White => ('\u{9}' <= c && c <= '\u{d}') || c == '\u{20}' || c == '\u{85}'
                || c == '\u{a0}' || c == '\u{1680}' || ('\u{2000}' <= c && c <= '\u{200a}') || c
                == '\u{2028}' || c == '\u{2029}' || c == '\u{202f}' || c == '\u{205f}' || c
                == '\u{3000}',
            CharClass::Quote => c == '"' || c == '\'' || c == '`' || c == '*',
            CharClass::FullStop => c == '.' || c == '\u{3002}',
            CharClass::LineFeed => c == '\n',
        }
    }
}

/// `s` without its leading characters of the class.
pub open spec fn without_leading(s: Seq<char>, class: CharClass) -> Seq<char>
    decreases s.len(),
{
    if s.len() > 0 && class.has(s.first()) {
        without_leading(s.drop_first(), class)
    } else {
        s
    }
}

/// `s` without its trailing characters of the class.
pub open spec fn without_trailing(s: Seq<char>, class: CharClass) -> Seq<char>
    decreases s.len(),
{
    if s.len() > 0 && class.has(s.last()) {
        without_trailing(s.drop_last(), class)
    } else {
        s
    }
}

/// `s` without white space at either end.
pub open spec fn trimmed(s: Seq<char>) -> Seq<char> {
    without_trailing(without_leading(s, CharClass::White), CharClass::White)
}

/// The part of `s` before its first `stop`, or all of `s` if there is none.
pub open spec fn before_char(s: Seq<char>, stop: char) -> Seq<char>
    decreases s.len(),
{
    if s.len() == 0 || s.first() == stop {
        Seq::empty()
    } else {
        seq![s.first()] + before_char(s.drop_first(), stop)
    }
}

/// The longest prefix of `s` that holds no white space.
pub open spec fn leading_word(s: Seq<char>) -> Seq<char>
    decreases s.len(),
{
    if s.len() == 0 || is_white(s.first()) {
        Seq::empty()
    } else {
        seq![s.first()] + leading_word(s.drop_first())
    }
}

/// The maximal runs of characters other than white space, in order.
pub open spec fn words(s: Seq<char>) -> Seq<Seq<char>>
    decreases s.len(),
    via words_shrink
{
    let rest = without_leading(s, CharClass::White);
    if rest.len() == 0 {
        Seq::empty()
    } else {
        let word = leading_word(rest);
        seq![word] + words(rest.skip(word.len() as int))
    }
}

#[via_fn]
proof fn words_shrink(s: Seq<char>) {
    lemma_without_leading(s, CharClass::White);
    let rest = without_leading(s, CharClass::White);
    if rest.len() > 0 {
        lemma_leading_word(rest);
    }
}

/// The parts in order, with `separator` between each two neighbours.
pub open spec fn joined(parts: Seq<Seq<char>>, separator: Seq<char>) -> Seq<char>
    decreases parts.len(),
{
    if parts.len() == 0 {
        Seq::empty()
    } else if parts.len() == 1 {
        parts[0]
    } else {
        joined(parts.drop_last(), separator) + separator + parts.last()
    }
}

/// `s` itself if it has at most `limit` characters, else a shorter text that ends in dots.
pub open spec fn shortened(s: Seq<char>, limit: nat) -> Seq<char> {
    if s.len() <= limit {
        s
    } else {
        let keep: int = if limit >= 3 { limit - 3 } else { 0 };
        s.take(keep) + "..."@
    }
}

/// The decimal digits of `n`, without leading zeros.
pub open spec fn decimal_digits(n: nat) -> Seq<char>
    decreases n,
{
    let digit = ('0' as int + n % 10) as char;
    if n < 10 {
        seq![digit]
    } else {
        decimal_digits(n / 10).push(digit)
    }
}

/// The decimal text of a whole number, with a minus sign where it is negative.
pub open spec fn decimal_text(n: int) -> Seq<char> {
    if n < 0 {
        seq!['-'] + decimal_digits((-n) as nat)
    } else {
        decimal_digits(n as nat)
    }
}

pub open spec fn starts_with(s: Seq<char>, prefix: Seq<char>) -> bool {
    prefix.is_prefix_of(s)
}

pub proof fn lemma_without_leading(s: Seq<char>, class: CharClass)
    ensures
        without_leading(s, class).len() <= s.len(),
        without_leading(s, class) == s.skip(s.len() - without_leading(s, class).len()),
        without_leading(s, class).len() > 0 ==> !class.has(without_leading(s, class).first()),
    decreases s.len(),
{
    if s.len() > 0 && class.has(s.first()) {
        lemma_without_leading(s.drop_first(), class);
    }
    assert(s.skip(0) =~= s);
    assert(without_leading(s, class) =~= s.skip(s.len() - without_leading(s, class).len()));
}

pub proof fn lemma_leading_word(s: Seq<char>)
    ensures
        leading_word(s).len() <= s.len(),
        leading_word(s) == s.take(leading_word(s).len() as int),
        s.len() > 0 && !is_white(s.first()) ==> leading_word(s).len() > 0,
    decreases s.len(),
{
    if s.len() > 0 && !is_white(s.first()) {
        lemma_leading_word(s.drop_first());
    }
    assert(leading_word(s) =~= s.take(leading_word(s).len() as int));
}

proof fn lemma_leading_step(s: Seq<char>, class: CharClass, i: int)
    requires
        0 <= i < s.len(),
        class.has(s[i]),
    ensures
        without_leading(s.skip(i), class) == without_leading(s.skip(i + 1), class),
{
    assert(s.skip(i).drop_first() =~= s.skip(i + 1));
}

proof fn lemma_trailing_step(s: Seq<char>, class: CharClass, n: int)
    requires
        0 < n <= s.len(),
        class.has(s[n - 1]),
    ensures
        without_trailing(s.take(n), class) == without_trailing(s.take(n - 1), class),
{
    assert(s.take(n).drop_last() =~= s.take(n - 1));
}

proof fn lemma_joined_push(parts: Seq<Seq<char>>, separator: Seq<char>, part: Seq<char>)
    ensures
        joined(parts.push(part), separator) == if parts.len() == 0 {
            part
        } else {
            joined(parts, separator) + separator + part
        },
{
    assert(parts.push(part).drop_last() =~= parts);
}

/// The characters of `text`, in order.
pub fn chars_of(text: &str) -> (chars: Vec<char>)
    ensures
        chars@ == text@,
{
    let mut chars: Vec<char> = Vec::new();
    for c in it: text.chars()
        invariant
            chars@ == it.seq().take(it.index()),
            it.seq() == text@,
    {
        chars.push(c);
    }
    chars
}

/// Whether two texts hold the same characters.
pub fn same(left: &str, right: &str) -> (equal: bool)
    ensures
        equal == (left@ == right@),
{
    *left == *right
}

/// Whether an optional text is present and equal to `right`.
pub fn is_some_text(left: &Option<String>, right: &str) -> (equal: bool)
    ensures
        equal == (left.deep_view() == Some(right@)),
{
    match left {
        Some(text) => same(text.as_str(), right),
        None => false,
    }
}

pub fn copy_option(text: &Option<String>) -> (copy: Option<String>)
    ensures
        copy.deep_view() == text.deep_view(),
{
    match text {
        Some(value) => Some(value.clone()),
        None => None,
    }
}

pub fn copy_texts(texts: &Vec<String>) -> (copy: Vec<String>)
    ensures
        copy.deep_view() == texts.deep_view(),
{
    let mut copy: Vec<String> = Vec::new();
    for i in 0..texts.len()
        invariant
            copy@.len() == i,
            forall|k: int| 0 <= k < i ==> copy@[k]@ == texts@[k]@,
    {
        copy.push(texts[i].clone());
    }
    assert(copy.deep_view() =~= texts.deep_view());
    copy
}

/// `text` without its leading characters of the class.
pub fn trim_start_of<'a>(text: &'a str, class: CharClass) -> (rest: &'a str)
    ensures
        rest@ == without_leading(text@, class),
{
    let chars = chars_of(text);
    let mut i: usize = 0;
    assert(text@.skip(0) =~= text@);
    while i < chars.len() && class.holds(chars[i])
        invariant
            i <= chars@.len(),
            chars@ == text@,
            without_leading(text@.skip(i as int), class) == without_leading(text@, class),
        decreases chars@.len() - i,
    {
        proof {
            lemma_leading_step(text@, class, i as int);
        }
        i += 1;
    }
    assert(text@.subrange(i as int, text@.len() as int) =~= text@.skip(i as int));
    text.substring_char(i, chars.len())
}

/// `text` without its trailing characters of the class.
pub fn trim_end_of<'a>(text: &'a str, class: CharClass) -> (rest: &'a str)
    ensures
        rest@ == without_trailing(text@, class),
{
    let chars = chars_of(text);
    let mut n: usize = chars.len();
    assert(text@.take(n as int) =~= text@);
    while n > 0 && class.holds(chars[n - 1])
        invariant
            n <= chars@.len(),
            chars@ == text@,
            without_trailing(text@.take(n as int), class) == without_trailing(text@, class),
        decreases n,
    {
        proof {
            lemma_trailing_step(text@, class, n as int);
        }
        n -= 1;
    }
    assert(text@.subrange(0, n as int) =~= text@.take(n as int));
    text.substring_char(0, n)
}

/// `text` without white space at either end.
pub fn trim(text: &str) -> (rest: &str)
    ensures
        rest@ == trimmed(text@),
{
    trim_end_of(trim_start_of(text, CharClass::White), CharClass::White)
}

/// The part of `text` before its first `stop`.
pub fn take_until<'a>(text: &'a str, stop: char) -> (part: &'a str)
    ensures
        part@ == before_char(text@, stop),
{
    let chars = chars_of(text);
    let mut i: usize = 0;
    assert(text@.skip(0) =~= text@);
    assert(text@.take(0) =~= Seq::<char>::empty());
    while i < chars.len() && chars[i] != stop
        invariant
            i <= chars@.len(),
            chars@ == text@,
            before_char(text@, stop) == text@.take(i as int) + before_char(
                text@.skip(i as int),
                stop,
            ),
        decreases chars@.len() - i,
    {
        assert(text@.skip(i as int).drop_first() =~= text@.skip(i + 1));
        assert(text@.take(i + 1) + before_char(text@.skip(i + 1), stop) =~= text@.take(i as int) + (
        seq![text@[i as int]] + before_char(text@.skip(i + 1), stop)));
        i += 1;
    }
    assert(before_char(text@.skip(i as int), stop) =~= Seq::<char>::empty());
    assert(text@.subrange(0, i as int) =~= text@.take(i as int) + Seq::<char>::empty());
    text.substring_char(0, i)
}

/// The longest prefix of `text` without white space.
pub fn first_word<'a>(text: &'a str) -> (word: &'a str)
    ensures
        word@ == leading_word(text@),
{
    let chars = chars_of(text);
    let mut n: usize = 0;
    assert(text@.skip(0) =~= text@);
    while n < chars.len() && !CharClass::White.holds(chars[n])
        invariant
            n <= chars@.len(),
            chars@ == text@,
            leading_word(text@) == text@.take(n as int) + leading_word(text@.skip(n as int)),
        decreases chars@.len() - n,
    {
        assert(text@.skip(n as int).drop_first() =~= text@.skip(n + 1));
        assert(text@.take(n + 1) + leading_word(text@.skip(n + 1)) =~= text@.take(n as int) + (
        seq![text@[n as int]] + leading_word(text@.skip(n + 1))));
        n += 1;
    }
    assert(leading_word(text@.skip(n as int)) =~= Seq::<char>::empty());
    assert(text@.subrange(0, n as int) =~= leading_word(text@));
    text.substring_char(0, n)
}

/// The words of `text`, in order.
pub fn split_words(text: &str) -> (parts: Vec<String>)
    ensures
        parts.deep_view() == words(text@),
{
    let mut parts: Vec<String> = Vec::new();
    let mut rest = trim_start_of(text, CharClass::White);
    proof {
        lemma_without_leading(text@, CharClass::White);
        assert(parts.deep_view() =~= Seq::<Seq<char>>::empty());
        lemma_trim_idempotent(text@);
    }
    while !rest.is_empty()
        invariant
            words(text@) == parts.deep_view() + words(rest@),
            without_leading(rest@, CharClass::White) == rest@,
        decreases rest@.len(),
    {
        proof {
            lemma_leading_word(rest@);
        }
        let first = first_word(rest);
        let n: usize = first.unicode_len();
        let length: usize = rest.unicode_len();
        let ghost before = rest@;
        let ghost old_parts = parts.deep_view();
        let word = first.to_owned();
        let tail = rest.substring_char(n, length);
        parts.push(word);
        rest = trim_start_of(tail, CharClass::White);
        proof {
            lemma_leading_word(before);
            lemma_without_leading(before, CharClass::White);
            lemma_without_leading(tail@, CharClass::White);
            lemma_trim_idempotent(tail@);
            assert(tail@ =~= before.skip(leading_word(before).len() as int));
            assert(parts.deep_view() =~= old_parts.push(word@));
            assert(words(before) == seq![leading_word(before)] + words(tail@));
            assert(old_parts + (seq![word@] + words(rest@)) =~= old_parts.push(word@) + words(
                rest@,
            ));
        }
    }
    assert(words(rest@) =~= Seq::<Seq<char>>::empty());
    assert(parts.deep_view() + Seq::<Seq<char>>::empty() =~= parts.deep_view());
    parts
}

proof fn lemma_trim_idempotent(s: Seq<char>)
    ensures
        without_leading(without_leading(s, CharClass::White), CharClass::White) == without_leading(
            s,
            CharClass::White,
        ),
        words(without_leading(s, CharClass::White)) == words(s),
{
    lemma_without_leading(s, CharClass::White);
}

/// `first` followed by `second`.
pub fn concat2(first: &str, second: &str) -> (whole: String)
    ensures
        whole@ == first@ + second@,
{
    let mut whole = first.to_owned();
    whole.append(second);
    whole
}

/// The three texts, one after the other.
pub fn concat3(first: &str, second: &str, third: &str) -> (whole: String)
    ensures
        whole@ == first@ + second@ + third@,
{
    let mut whole = concat2(first, second);
    whole.append(third);
    whole
}

/// The four texts, one after the other.
pub fn concat4(first: &str, second: &str, third: &str, fourth: &str) -> (whole: String)
    ensures
        whole@ == first@ + second@ + third@ + fourth@,
{
    let mut whole = concat3(first, second, third);
    whole.append(fourth);
    whole
}

/// The five texts, one after the other.
pub fn concat5(first: &str, second: &str, third: &str, fourth: &str, fifth: &str) -> (whole: String)
    ensures
        whole@ == first@ + second@ + third@ + fourth@ + fifth@,
{
    let mut whole = concat4(first, second, third, fourth);
    whole.append(fifth);
    whole
}

/// The parts with `separator` between each two neighbours.
pub fn join(parts: &Vec<String>, separator: &str) -> (whole: String)
    ensures
        whole@ == joined(parts.deep_view(), separator@),
{
    let mut whole = String::new();
    assert(parts.deep_view().take(0) =~= Seq::<Seq<char>>::empty());
    for i in 0..parts.len()
        invariant
            whole@ == joined(parts.deep_view().take(i as int), separator@),
    {
        proof {
            let done = parts.deep_view().take(i as int);
            assert(parts.deep_view().take(i + 1) =~= done.push(parts@[i as int]@));
            lemma_joined_push(done, separator@, parts@[i as int]@);
        }
        if i > 0 {
            whole.append(separator);
        }
        assert(i == 0 ==> whole@ + parts@[i as int]@ =~= parts@[i as int]@);
        whole.append(parts[i].as_str());
    }
    assert(parts.deep_view().take(parts@.len() as int) =~= parts.deep_view());
    whole
}

/// Keeps at most `max_chars` characters, with dots in place of what was cut off.
pub fn truncate_chars(text: &str, max_chars: usize) -> (short: String)
    ensures
        short@ == shortened(text@, max_chars as nat),
{
    if text.unicode_len() <= max_chars {
        return text.to_owned();
    }
    let keep: usize = if max_chars >= 3 {
        max_chars - 3
    } else {
        0
    };
    assert(text@.subrange(0, keep as int) =~= text@.take(keep as int));
    concat2(text.substring_char(0, keep), "...")
}

/// Whether `text` holds the character `wanted`.
pub fn contains_char(text: &str, wanted: char) -> (found: bool)
    ensures
        found == text@.contains(wanted),
{
    let chars = chars_of(text);
    for i in 0..chars.len()
        invariant
            chars@ == text@,
            forall|k: int| 0 <= k < i ==> text@[k] != wanted,
    {
        if chars[i] == wanted {
            return true;
        }
    }
    false
}

/// What follows `prefix` in `text`, if `text` begins with it.
pub fn strip_prefix<'a>(text: &'a str, prefix: &str) -> (rest: Option<&'a str>)
    ensures
        match rest {
            Some(rest) => starts_with(text@, prefix@) && rest@ == text@.skip(prefix@.len() as int),
            None => !starts_with(text@, prefix@),
        },
{
    let n: usize = text.unicode_len();
    let m: usize = prefix.unicode_len();
    if m > n {
        return None;
    }
    let head = text.substring_char(0, m);
    if same(head, prefix) {
        assert(text@.subrange(m as int, n as int) =~= text@.skip(m as int));
        Some(text.substring_char(m, n))
    } else {
        assert(starts_with(text@, prefix@) ==> head@ =~= prefix@);
        None
    }
}

/// `s` parted at its first `mark`, which belongs to neither part.
pub open spec fn parted(s: Seq<char>, mark: char) -> Option<(Seq<char>, Seq<char>)> {
    if s.contains(mark) {
        let head = before_char(s, mark);
        Some((head, s.skip(head.len() as int + 1)))
    } else {
        None
    }
}

/// What `before_char` gives: a prefix without the mark, up to the mark or to the end.
pub proof fn lemma_before_char(s: Seq<char>, mark: char)
    ensures
        before_char(s, mark).len() <= s.len(),
        before_char(s, mark) == s.take(before_char(s, mark).len() as int),
        !before_char(s, mark).contains(mark),
        before_char(s, mark).len() < s.len() ==> s[before_char(s, mark).len() as int] == mark,
        before_char(s, mark).len() < s.len() <==> s.contains(mark),
    decreases s.len(),
{
    let head = before_char(s, mark);
    if s.len() > 0 && s.first() != mark {
        let rest = s.drop_first();
        lemma_before_char(rest, mark);
        assert(head =~= s.take(head.len() as int));
        assert forall|i: int| 0 <= i < head.len() implies head[i] != mark by {
            if i > 0 {
                assert(before_char(rest, mark)[i - 1] == head[i]);
                assert(before_char(rest, mark).contains(head[i]));
            }
        }
        if s.contains(mark) {
            let i = choose|i: int| 0 <= i < s.len() && s[i] == mark;
            assert(rest[i - 1] == mark);
        }
        if rest.contains(mark) {
            let i = choose|i: int| 0 <= i < rest.len() && rest[i] == mark;
            assert(s[i + 1] == mark);
        }
    } else if s.len() > 0 {
        assert(s[0] == mark);
        assert(head =~= s.take(0));
    } else {
        assert(head =~= s.take(0));
    }
}

/// `text` parted at its first `mark`.
pub fn split_once<'a>(text: &'a str, mark: char) -> (parts: Option<(&'a str, &'a str)>)
    ensures
        parts.deep_view() == parted(text@, mark),
{
    proof {
        lemma_before_char(text@, mark);
    }
    let head = take_until(text, mark);
    let n: usize = text.unicode_len();
    let m: usize = head.unicode_len();
    if m < n {
        assert(text@.subrange(m + 1, n as int) =~= text@.skip(m + 1));
        Some((head, text.substring_char(m + 1, n)))
    } else {
        None
    }
}

/// The decimal digits of `n`.
pub fn decimal(n: u64) -> (text: String)
    ensures
        text@ == decimal_digits(n as nat),
    decreases n,
{
    let digit: char = (48u8 + (n % 10) as u8) as char;
    let mut text = if n < 10 {
        String::new()
    } else {
        decimal(n / 10)
    };
    text.push(digit);
    assert(n < 10 ==> text@ =~= seq![digit]);
    text
}

/// The decimal text of a signed number.
pub fn signed_decimal(n: i64) -> (text: String)
    ensures
        text@ == decimal_text(n as int),
{
    if n < 0 {
        let magnitude: u64 = if n == i64::MIN {
            9223372036854775808u64
        } else {
            (-n) as u64
        };
        let digits = decimal(magnitude);
        let text = concat2("-", digits.as_str());
        proof {
            reveal_strlit("-");
            assert("-"@ =~= seq!['-']);
        }
        text
    } else {
        decimal(n as u64)
    }
}

proof fn lemma_without_trailing(s: Seq<char>, class: CharClass)
    ensures
        without_trailing(s, class).len() <= s.len(),
        without_trailing(s, class) == s.take(without_trailing(s, class).len() as int),
        without_trailing(s, class).len() > 0 ==> !class.has(without_trailing(s, class).last()),
    decreases s.len(),
{
    if s.len() > 0 && class.has(s.last()) {
        lemma_without_trailing(s.drop_last(), class);
    }
    assert(without_trailing(s, class) =~= s.take(without_trailing(s, class).len() as int));
}

/// A trimmed text has no white space at its ends, and trimming it again leaves it as it is.
pub proof fn trimmed_is_trimmed(s: Seq<char>)
    ensures
        trimmed(s).len() > 0 ==> !is_white(trimmed(s).first()) && !is_white(trimmed(s).last()),
        trimmed(trimmed(s)) == trimmed(s),
{
    lemma_without_leading(s, CharClass::White);
    lemma_without_trailing(without_leading(s, CharClass::White), CharClass::White);
}

/// A shortened text is no longer than the limit; a text that fits is kept as it is, and one that
/// does not keeps its beginning.
pub proof fn shortened_fits(s: Seq<char>, limit: nat)
    requires
        limit >= 3,
    ensures
        shortened(s, limit).len() <= limit,
        s.len() <= limit ==> shortened(s, limit) == s,
        s.len() > limit ==> shortened(s, limit).len() == limit && shortened(s, limit).take(
            limit - 3,
        ) == s.take(limit - 3),
{
    reveal_strlit("...");
    if s.len() > limit {
        assert(shortened(s, limit).take(limit - 3) =~= s.take(limit - 3));
    }
}

/// A number has at least one digit, and nothing but digits.
pub proof fn lemma_decimal_digits(n: nat)
    ensures
        decimal_digits(n).len() > 0,
        forall|i: int|
            0 <= i < decimal_digits(n).len() ==> '0' <= #[trigger] decimal_digits(n)[i] <= '9',
    decreases n,
{
    if n >= 10 {
        lemma_decimal_digits(n / 10);
    }
}

/// Different numbers have different digits.
pub proof fn decimal_digits_differ(a: nat, b: nat)
    requires
        decimal_digits(a) == decimal_digits(b),
    ensures
        a == b,
    decreases a,
{
    lemma_decimal_digits(a / 10);
    lemma_decimal_digits(b / 10);
    let left = ('0' as int + a % 10) as char;
    let right = ('0' as int + b % 10) as char;
    assert(decimal_digits(a).last() == left && decimal_digits(b).last() == right);
    assert(left as int == '0' as int + a % 10 && right as int == '0' as int + b % 10);
    if a >= 10 && b >= 10 {
        assert(decimal_digits(a).drop_last() =~= decimal_digits(a / 10));
        assert(decimal_digits(b).drop_last() =~= decimal_digits(b / 10));
        decimal_digits_differ(a / 10, b / 10);
    } else if a >= 10 {
        assert(decimal_digits(b).len() == 1);
    } else if b >= 10 {
        assert(decimal_digits(a).len() == 1);
    }
}

proof fn lemma_joined_first(parts: Seq<Seq<char>>, separator: Seq<char>)
    requires
        parts.len() >= 2,
    ensures
        joined(parts, separator) == parts[0] + separator + joined(parts.drop_first(), separator),
    decreases parts.len(),
{
    let init = parts.drop_last();
    if parts.len() == 2 {
        assert(joined(init, separator) == parts[0]);
        assert(joined(parts.drop_first(), separator) == parts[1]);
    } else {
        lemma_joined_first(init, separator);
        assert(init.drop_first() =~= parts.drop_first().drop_last());
        assert(joined(parts.drop_first(), separator) == joined(init.drop_first(), separator)
            + separator + parts.last());
        assert(joined(parts, separator) =~= parts[0] + separator + (joined(
            init.drop_first(),
            separator,
        ) + separator + parts.last()));
    }
}

/// A word: something, without white space in it.
pub open spec fn is_word(s: Seq<char>) -> bool {
    s.len() > 0 && forall|i: int| 0 <= i < s.len() ==> !is_white(#[trigger] s[i])
}

proof fn lemma_leading_word_is_word(s: Seq<char>)
    ensures
        forall|i: int| 0 <= i < leading_word(s).len() ==> !is_white(#[trigger] leading_word(s)[i]),
    decreases s.len(),
{
    if s.len() > 0 && !is_white(s.first()) {
        let rest = leading_word(s.drop_first());
        lemma_leading_word_is_word(s.drop_first());
        assert forall|i: int| 0 <= i < leading_word(s).len() implies !is_white(
            #[trigger] leading_word(s)[i],
        ) by {
            if i > 0 {
                assert(leading_word(s)[i] == rest[i - 1]);
            }
        }
    }
}

/// What a text is split into are words.
pub proof fn words_are_words(s: Seq<char>)
    ensures
        forall|i: int| 0 <= i < words(s).len() ==> is_word(#[trigger] words(s)[i]),
    decreases s.len(),
{
    let rest = without_leading(s, CharClass::White);
    lemma_without_leading(s, CharClass::White);
    if rest.len() > 0 {
        lemma_leading_word(rest);
        lemma_leading_word_is_word(rest);
        let tail = rest.skip(leading_word(rest).len() as int);
        words_are_words(tail);
        assert forall|i: int| 0 <= i < words(s).len() implies is_word(#[trigger] words(s)[i]) by {
            if i > 0 {
                assert(words(s)[i] == words(tail)[i - 1]);
            }
        }
    }
}

/// The leading word of a word with white space, or nothing, behind it.
pub proof fn lemma_word_then(word: Seq<char>, rest: Seq<char>)
    requires
        forall|i: int| 0 <= i < word.len() ==> !is_white(#[trigger] word[i]),
        rest.len() > 0 ==> is_white(rest.first()),
    ensures
        leading_word(word + rest) == word,
    decreases word.len(),
{
    if word.len() > 0 {
        assert((word + rest).drop_first() =~= word.drop_first() + rest);
        lemma_word_then(word.drop_first(), rest);
        assert(seq![word.first()] + word.drop_first() =~= word);
    } else {
        assert(word + rest =~= rest);
        assert(leading_word(rest) =~= word);
    }
}

/// Words that are joined by spaces are split into the same words.
pub proof fn joined_words_split(parts: Seq<Seq<char>>)
    requires
        forall|i: int| 0 <= i < parts.len() ==> is_word(#[trigger] parts[i]),
    ensures
        words(joined(parts, " "@)) == parts,
    decreases parts.len(),
{
    reveal_strlit(" ");
    let whole = joined(parts, " "@);
    if parts.len() == 0 {
        assert(words(whole) =~= parts);
    } else {
        let word = parts[0];
        let tail = parts.drop_first();
        assert(is_word(word));
        assert(!is_white(word[0]));
        assert forall|i: int| 0 <= i < tail.len() implies is_word(#[trigger] tail[i]) by {
            assert(is_word(parts[i + 1]));
        }
        joined_words_split(tail);
        let rest = if parts.len() == 1 {
            Seq::empty()
        } else {
            " "@ + joined(tail, " "@)
        };
        if parts.len() == 1 {
            assert(whole =~= word + rest);
            assert(joined(tail, " "@) =~= rest);
        } else {
            lemma_joined_first(parts, " "@);
            assert(whole =~= word + rest);
            assert(rest.drop_first() =~= joined(tail, " "@));
        }
        lemma_word_then(word, rest);
        assert(whole.first() == word[0]);
        assert(whole.skip(word.len() as int) =~= rest);
        assert(words(rest) == words(joined(tail, " "@)));
        assert(words(whole) == seq![word] + words(rest));
        assert(words(whole) =~= parts);
    }
}

/// Where two texts without the mark are each followed by it, the wholes are equal only where the
/// texts and what follows are.
pub proof fn lemma_marked_parts(a: Seq<char>, b: Seq<char>, c: Seq<char>, d: Seq<char>, mark: char)
    requires
        !a.contains(mark),
        !c.contains(mark),
        a + seq![mark] + b == c + seq![mark] + d,
    ensures
        a == c,
        b == d,
{
    let left = a + seq![mark] + b;
    let right = c + seq![mark] + d;
    if a.len() < c.len() {
        assert(left[a.len() as int] == mark);
        assert(c[a.len() as int] == mark);
    } else if c.len() < a.len() {
        assert(right[c.len() as int] == mark);
        assert(a[c.len() as int] == mark);
    } else {
        assert(a =~= c) by {
            assert forall|i: int| 0 <= i < a.len() implies a[i] == c[i] by {
                assert(left[i] == a[i]);
                assert(right[i] == c[i]);
            }
        }
        assert(left.len() == right.len());
        assert(b =~= d) by {
            assert forall|i: int| 0 <= i < b.len() implies b[i] == d[i] by {
                assert(left[a.len() + 1 + i] == b[i]);
                assert(right[c.len() + 1 + i] == d[i]);
            }
        }
    }
}

} // verus!
