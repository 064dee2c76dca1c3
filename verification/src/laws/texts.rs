//! What the small operations on texts and paths give, said of the characters that go in.
use crate::agent::contains_text;
use crate::command_safety::occurs_at;
use crate::json::{JsonView, field};
use crate::paths::{
    last_position, lemma_last_position, path_extension, path_file_name, path_joined,
};
use crate::text::{
    CharClass, before_char, decimal_digits, decimal_text, is_white, is_word, joined, leading_word,
    lemma_before_char, lemma_decimal_digits, parted, shortened, starts_with, trimmed,
    without_leading, without_trailing, words,
};
use vstd::prelude::*;

verus! {

/// White space are the tab, the line ends and the spaces of Unicode, and no other character.
pub proof fn white_space_is_known(c: char)
    ensures
        is_white(c) <==> c == '\t' || c == '\n' || c == '\u{b}' || c == '\u{c}' || c == '\r' || c
            == ' ' || c == '\u{85}' || c == '\u{a0}' || c == '\u{1680}' || '\u{2000}' <= c
            <= '\u{200a}' || c == '\u{2028}' || c == '\u{2029}' || c == '\u{202f}' || c
            == '\u{205f}' || c == '\u{3000}',
        CharClass::White.has(c) <==> is_white(c),
        CharClass::LineFeed.has(c) <==> c == '\n',
        CharClass::Quote.has(c) <==> c == '"' || c == '\'' || c == '`' || c == '*',
        CharClass::FullStop.has(c) <==> c == '.' || c == '\u{3002}',
{
}

/// Every character of a text is of a class.
pub open spec fn all_of(s: Seq<char>, class: CharClass) -> bool {
    forall|i: int| 0 <= i < s.len() ==> class.has(#[trigger] s[i])
}

/// What is taken off the beginning of a text is all of the class, and what is left does not begin
/// with a character of it.
pub proof fn leading_characters_go(s: Seq<char>, class: CharClass) -> (front: Seq<char>)
    ensures
        s == front + without_leading(s, class),
        all_of(front, class),
        without_leading(s, class).len() > 0 ==> !class.has(without_leading(s, class).first()),
    decreases s.len(),
{
    if s.len() > 0 && class.has(s.first()) {
        let front = leading_characters_go(s.drop_first(), class);
        let whole = seq![s.first()] + front;
        assert(s =~= seq![s.first()] + s.drop_first());
        assert(s =~= whole + without_leading(s, class));
        assert forall|i: int| 0 <= i < whole.len() implies class.has(#[trigger] whole[i]) by {
            if i > 0 {
                assert(whole[i] == front[i - 1]);
            }
        }
        whole
    } else {
        assert(s =~= Seq::<char>::empty() + s);
        Seq::empty()
    }
}

/// What is taken off the end of a text is all of the class, and what is left does not end with a
/// character of it.
pub proof fn trailing_characters_go(s: Seq<char>, class: CharClass) -> (back: Seq<char>)
    ensures
        s == without_trailing(s, class) + back,
        all_of(back, class),
        without_trailing(s, class).len() > 0 ==> !class.has(without_trailing(s, class).last()),
    decreases s.len(),
{
    if s.len() > 0 && class.has(s.last()) {
        let back = trailing_characters_go(s.drop_last(), class);
        let whole = back.push(s.last());
        assert(s =~= s.drop_last().push(s.last()));
        assert(s =~= without_trailing(s, class) + whole);
        assert forall|i: int| 0 <= i < whole.len() implies class.has(#[trigger] whole[i]) by {
            if i < back.len() {
                assert(whole[i] == back[i]);
            }
        }
        whole
    } else {
        assert(s =~= s + Seq::<char>::empty());
        Seq::empty()
    }
}

/// Trimming takes nothing but white space off the two ends of a text, and all of it.
pub proof fn trimming_takes_white_space_only(s: Seq<char>) -> (ends: (Seq<char>, Seq<char>))
    ensures
        s == ends.0 + trimmed(s) + ends.1,
        all_of(ends.0, CharClass::White),
        all_of(ends.1, CharClass::White),
        trimmed(s).len() > 0 ==> !is_white(trimmed(s).first()) && !is_white(trimmed(s).last()),
{
    let front = leading_characters_go(s, CharClass::White);
    let rest = without_leading(s, CharClass::White);
    let back = trailing_characters_go(rest, CharClass::White);
    assert(s =~= front + trimmed(s) + back);
    if trimmed(s).len() > 0 {
        assert(trimmed(s).first() == rest.first());
    }
    (front, back)
}

/// Parts are joined in their order, with the separator between each two of them and nowhere else.
pub proof fn parts_are_joined_in_order(
    parts: Seq<Seq<char>>,
    separator: Seq<char>,
    part: Seq<char>,
)
    ensures
        parts.len() == 0 ==> joined(parts, separator) == Seq::<char>::empty(),
        parts.len() == 0 ==> joined(parts.push(part), separator) == part,
        parts.len() > 0 ==> joined(parts.push(part), separator) == joined(parts, separator)
            + separator + part,
{
    assert(parts.push(part).drop_last() =~= parts);
}

/// Every part stands in what the parts are joined to.
pub proof fn joined_text_holds_each_part(parts: Seq<Seq<char>>, separator: Seq<char>, i: int)
    requires
        0 <= i < parts.len(),
    ensures
        contains_text(joined(parts, separator), parts[i]),
    decreases parts.len(),
{
    let whole = joined(parts, separator);
    if parts.len() == 1 {
        assert(whole.subrange(0, whole.len() as int) =~= whole);
        assert(occurs_at(whole, parts[i], 0));
    } else if i == parts.len() - 1 {
        let start = whole.len() - parts[i].len();
        assert(whole.subrange(start, whole.len() as int) =~= parts[i]);
        assert(occurs_at(whole, parts[i], start));
    } else {
        let before = joined(parts.drop_last(), separator);
        joined_text_holds_each_part(parts.drop_last(), separator, i);
        let k = choose|k: int| #[trigger] occurs_at(before, parts[i], k);
        assert(whole.subrange(k, k + parts[i].len()) =~= before.subrange(k, k + parts[i].len()));
        assert(occurs_at(whole, parts[i], k));
    }
}

/// One text stands in another exactly where the other is made of it and of what comes before and
/// behind it.
pub proof fn text_is_contained_where_it_stands(
    text: Seq<char>,
    needle: Seq<char>,
    before: Seq<char>,
    behind: Seq<char>,
)
    ensures
        contains_text(before + needle + behind, needle),
        contains_text(text, needle) ==> exists|head: Seq<char>, tail: Seq<char>|
            #![trigger head + needle + tail]
            text == head + needle + tail,
{
    let whole = before + needle + behind;
    let start = before.len() as int;
    assert(whole.subrange(start, start + needle.len()) =~= needle);
    assert(occurs_at(whole, needle, start));
    if contains_text(text, needle) {
        let i = choose|i: int| #[trigger] occurs_at(text, needle, i);
        let head = text.take(i);
        let tail = text.skip(i + needle.len());
        assert(text =~= head + text.subrange(i, i + needle.len()) + tail);
        assert(text == head + needle + tail);
    }
}

/// A text begins with another exactly where it is the other and something behind it.
pub proof fn text_starts_with_its_beginning(s: Seq<char>, prefix: Seq<char>, rest: Seq<char>)
    ensures
        starts_with(prefix + rest, prefix),
        starts_with(s, prefix) ==> s == prefix + s.skip(prefix.len() as int),
{
    assert((prefix + rest).take(prefix.len() as int) =~= prefix);
    if starts_with(s, prefix) {
        assert(s =~= prefix + s.skip(prefix.len() as int));
    }
}

/// A text is parted at the first of its marks: the parts with the mark between them are the text,
/// and the first part has no mark in it.
pub proof fn text_is_parted_at_its_first_mark(s: Seq<char>, mark: char)
    ensures
        parted(s, mark) is Some <==> s.contains(mark),
        parted(s, mark) matches Some((head, tail)) ==> s == head + seq![mark] + tail
            && !head.contains(mark),
        !s.contains(mark) ==> before_char(s, mark) == s,
        parted(s, mark) matches Some((head, _)) ==> before_char(s, mark) == head,
{
    lemma_before_char(s, mark);
    if s.contains(mark) {
        let head = before_char(s, mark);
        assert(s =~= head + seq![mark] + s.skip(head.len() as int + 1));
    } else {
        assert(s.take(s.len() as int) =~= s);
    }
}

/// The number that decimal digits stand for.
pub open spec fn number_read(digits: Seq<char>) -> int
    decreases digits.len(),
{
    if digits.len() == 0 {
        0
    } else {
        10 * number_read(digits.drop_last()) + (digits.last() as int - '0' as int)
    }
}

/// A number is read back from its digits, which are digits and begin with no zero but that of the
/// number itself; a negative number has its sign before the digits.
pub proof fn number_is_read_back(n: nat)
    ensures
        number_read(decimal_digits(n)) == n,
        decimal_digits(n).len() > 0,
        forall|i: int|
            0 <= i < decimal_digits(n).len() ==> '0' <= #[trigger] decimal_digits(n)[i] <= '9',
        n > 0 ==> decimal_digits(n)[0] != '0',
        decimal_text(n as int) == decimal_digits(n),
        n > 0 ==> decimal_text(-n) == seq!['-'] + decimal_digits(n),
    decreases n,
{
    lemma_decimal_digits(n);
    let digits = decimal_digits(n);
    let digit = ('0' as int + n % 10) as char;
    assert(digit as int == '0' as int + n % 10);
    if n >= 10 {
        number_is_read_back(n / 10);
        assert(digits.drop_last() =~= decimal_digits(n / 10));
        assert(digits[0] == decimal_digits(n / 10)[0]);
    } else {
        assert(digits.drop_last() =~= Seq::empty());
        reveal_with_fuel(number_read, 2);
    }
}

/// A text that is too long is cut, and ends in three dots.
pub proof fn cut_text_ends_in_dots(s: Seq<char>, limit: nat)
    requires
        limit >= 3,
    ensures
        s.len() <= limit ==> shortened(s, limit) == s,
        s.len() > limit ==> shortened(s, limit) == s.take(limit - 3) + seq!['.', '.', '.'],
{
    reveal_strlit("...");
    assert("..."@ =~= seq!['.', '.', '.']);
}

/// A text has the words that stand in it between white space: white space before it adds none, and
/// a word that white space follows comes before the words of what is left.
pub proof fn words_stand_between_white_space(s: Seq<char>, word: Seq<char>, c: char)
    requires
        is_white(c),
        is_word(word),
    ensures
        words(Seq::<char>::empty()).len() == 0,
        words(seq![c] + s) == words(s),
        words(word) == seq![word],
        words(word + seq![c] + s) == seq![word] + words(s),
{
    let white = seq![c] + s;
    assert(white.drop_first() =~= s);
    assert(without_leading(white, CharClass::White) == without_leading(s, CharClass::White));
    lemma_leading_word_of(word, Seq::empty());
    assert(word + Seq::<char>::empty() =~= word);
    assert(word.skip(word.len() as int) =~= Seq::empty());
    let long = word + seq![c] + s;
    assert(long =~= word + (seq![c] + s));
    lemma_leading_word_of(word, seq![c] + s);
    assert(long.skip(word.len() as int) =~= seq![c] + s);
    assert(without_leading(word, CharClass::White) == word);
    assert(without_leading(long, CharClass::White) == long);
    reveal_with_fuel(words, 2);
}

proof fn lemma_leading_word_of(word: Seq<char>, rest: Seq<char>)
    requires
        forall|i: int| 0 <= i < word.len() ==> !is_white(#[trigger] word[i]),
        rest.len() == 0 || is_white(rest.first()),
    ensures
        leading_word(word + rest) == word,
    decreases word.len(),
{
    let whole = word + rest;
    if word.len() > 0 {
        let tail = word.drop_first();
        assert(whole.drop_first() =~= tail + rest);
        assert forall|i: int| 0 <= i < tail.len() implies !is_white(#[trigger] tail[i]) by {
            assert(tail[i] == word[i + 1]);
        }
        lemma_leading_word_of(tail, rest);
        assert(whole.first() == word[0]);
        assert(seq![word[0]] + tail =~= word);
    } else {
        assert(whole =~= rest);
        assert(leading_word(whole) =~= word);
    }
}

/// A relative path is seen from its base, with one slash between them; an absolute one is itself.
pub proof fn path_is_seen_from_its_base(base: Seq<char>, path: Seq<char>)
    ensures
        path.len() > 0 && path[0] == '/' ==> path_joined(base, path) == path,
        path.len() > 0 && path[0] != '/' && base.len() > 0 && base.last() != '/' ==> path_joined(
            base,
            path,
        ) == base.push('/') + path,
        path.len() > 0 && path[0] != '/' && base.len() > 0 && base.last() == '/' ==> path_joined(
            base,
            path,
        ) == base + path,
        path.len() > 0 && base.len() == 0 ==> path_joined(base, path) == path,
        path.len() == 0 && base.len() > 0 && base.last() != '/' ==> path_joined(base, path)
            == base.push('/'),
{
    reveal_strlit("/");
    assert("/"@ =~= seq!['/']);
    assert(base + seq!['/'] + path =~= base.push('/') + path);
    assert(Seq::<char>::empty() + path =~= path);
    if base.len() == 0 {
        assert(base =~= Seq::empty());
    }
}

/// A path's last component: something without a slash in it that is neither this directory nor the
/// one above.
pub open spec fn names_a_file(name: Seq<char>) -> bool {
    &&& name.len() > 0
    &&& !name.contains('/')
    &&& name != seq!['.']
    &&& name != seq!['.', '.']
}

/// The file name of a path is what follows the last slash, where that names a file; a slash at the
/// end does not change it, and the directory above has none.
pub proof fn file_name_is_the_last_component(path: Seq<char>, name: Seq<char>)
    requires
        names_a_file(name),
    ensures
        path_file_name(name) == Some(name),
        path_file_name(path.push('/') + name) == Some(name),
        path_file_name(path.push('/')) == path_file_name(path),
        path_file_name(path.push('/').push('.')) == path_file_name(path),
        path_file_name(path.push('/').push('.').push('.')) is None,
{
    reveal_strlit("");
    reveal_strlit(".");
    reveal_strlit("..");
    assert(""@ =~= Seq::empty());
    assert("."@ =~= seq!['.']);
    assert(".."@ =~= seq!['.', '.']);
    lemma_last_position(name, '/');
    assert(last_position(name, '/') == -1) by {
        if last_position(name, '/') >= 0 {
            assert(name.contains('/'));
        }
    }
    assert(name.skip(0) =~= name);
    let full = path.push('/') + name;
    lemma_slash_at(full, path.len() as int);
    assert(full.skip(path.len() as int + 1) =~= name);
    let slashed = path.push('/');
    lemma_slash_at(slashed, path.len() as int);
    assert(slashed.skip(path.len() as int + 1) =~= Seq::empty());
    assert(slashed.take(path.len() as int) =~= path);
    let here = slashed.push('.');
    lemma_slash_at(here, path.len() as int);
    assert(here.skip(path.len() as int + 1) =~= seq!['.']);
    assert(here.take(path.len() as int) =~= path);
    let above = here.push('.');
    lemma_slash_at(above, path.len() as int);
    assert(above.skip(path.len() as int + 1) =~= seq!['.', '.']);
    assert(seq!['.', '.'].len() == 2 && seq!['.'].len() == 1);
}

proof fn lemma_slash_at(path: Seq<char>, at: int)
    requires
        0 <= at < path.len(),
        path[at] == '/',
        forall|i: int| at < i < path.len() ==> (#[trigger] path[i]) != '/',
    ensures
        last_position(path, '/') == at,
{
    lemma_last_position(path, '/');
}

/// The extension of a file is what follows the last dot of its name; a name without a dot, or with
/// one at its beginning only, has none.
pub proof fn extension_follows_the_last_dot(dir: Seq<char>, stem: Seq<char>, extension: Seq<char>)
    requires
        !stem.contains('/'),
        !extension.contains('/'),
        !extension.contains('.'),
        stem.len() > 0,
        names_a_file(stem.push('.') + extension),
    ensures
        path_extension(dir.push('/') + (stem.push('.') + extension)) == Some(extension),
        path_extension(stem.push('.') + extension) == Some(extension),
        names_a_file(extension) ==> path_extension(dir.push('/') + extension) is None,
        names_a_file(seq!['.'] + extension) ==> path_extension(
            dir.push('/') + (seq!['.'] + extension),
        ) is None,
{
    let name = stem.push('.') + extension;
    file_name_is_the_last_component(dir, name);
    lemma_last_position(name, '.');
    assert(name[stem.len() as int] == '.');
    let dot = last_position(name, '.');
    if dot > stem.len() {
        assert(extension[dot - stem.len() - 1] == '.');
        assert(extension.contains('.'));
    }
    assert(name.skip(stem.len() as int + 1) =~= extension);
    if names_a_file(extension) {
        file_name_is_the_last_component(dir, extension);
        lemma_last_position(extension, '.');
    }
    let hidden = seq!['.'] + extension;
    if names_a_file(hidden) {
        file_name_is_the_last_component(dir, hidden);
        lemma_last_position(hidden, '.');
        let at = last_position(hidden, '.');
        if at > 0 {
            assert(extension[at - 1] == '.');
            assert(extension.contains('.'));
        }
    }
}

/// A field is looked up by its name: the first one with the name counts.
pub proof fn first_field_counts(
    fields: Seq<(Seq<char>, JsonView)>,
    name: Seq<char>,
    value: JsonView,
    rest: Seq<(Seq<char>, JsonView)>,
)
    requires
        forall|i: int| 0 <= i < fields.len() ==> (#[trigger] fields[i]).0 != name,
    ensures
        field(fields, name) is None,
        field(fields + seq![(name, value)] + rest, name) == Some(value),
    decreases fields.len(),
{
    let whole = fields + seq![(name, value)] + rest;
    if fields.len() > 0 {
        let tail = fields.drop_first();
        assert(fields[0].0 != name);
        assert forall|i: int| 0 <= i < tail.len() implies (#[trigger] tail[i]).0 != name by {
            assert(tail[i] == fields[i + 1]);
        }
        first_field_counts(tail, name, value, rest);
        assert(whole.drop_first() =~= tail + seq![(name, value)] + rest);
        assert(whole[0] == fields[0]);
    } else {
        assert(whole[0] == (name, value));
    }
}

} // verus!
