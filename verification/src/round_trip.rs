//! Reading undoes writing: what the library writes out, it reads back as the
//! same value.

use crate::batch::{batch, nth_run};
use crate::boundary::joined;
use crate::error::RoverErrorView;
use crate::position::{parse_coordinates, parse_direction, parse_position, RoverPosition};
use crate::text::{
    all_digits, decimal_digits, decimal_u16, decimal_value, digit_char, digit_value, is_digit,
    is_whitespace, lemma_word_len_bound, line_len, lines, tokens, word_len,
};
use crate::theorems::batch_keeps_input_order;
use vstd::prelude::*;

verus! {

/// The characters that a whitespace-free run counts are no whitespace.
proof fn lemma_word_holds_no_whitespace(s: Seq<char>, j: int)
    requires
        0 <= j < word_len(s),
    ensures
        j < s.len(),
        !is_whitespace(s[j]),
    decreases s.len(),
{
    if j > 0 {
        lemma_word_holds_no_whitespace(s.drop_first(), j - 1);
    }
}

/// Every token holds at least one character and no whitespace.
pub proof fn tokens_are_words(s: Seq<char>, i: int)
    requires
        0 <= i < tokens(s).len(),
    ensures
        tokens(s)[i].len() > 0,
        forall|j: int| 0 <= j < tokens(s)[i].len() ==> !is_whitespace(#[trigger] tokens(s)[i][j]),
    decreases s.len(),
{
    if is_whitespace(s[0]) {
        tokens_are_words(s.drop_first(), i);
    } else {
        lemma_word_len_bound(s);
        let n = word_len(s) as int;
        if i == 0 {
            assert forall|j: int| 0 <= j < s.take(n).len() implies !is_whitespace(
                #[trigger] s.take(n)[j],
            ) by {
                lemma_word_holds_no_whitespace(s, j);
            }
        } else {
            tokens_are_words(s.skip(n), i - 1);
        }
    }
}

/// A whitespace-free text in front of a text that is empty or starts with
/// whitespace is the first token of the whole.
proof fn lemma_tokens_after_word(word: Seq<char>, rest: Seq<char>)
    requires
        word.len() > 0,
        forall|j: int| 0 <= j < word.len() ==> !is_whitespace(#[trigger] word[j]),
        rest.len() == 0 || is_whitespace(rest[0]),
    ensures
        tokens(word + rest) == seq![word] + tokens(rest),
{
    lemma_word_len_of_concat(word, rest);
    let whole = word + rest;
    assert(whole.take(word.len() as int) =~= word);
    assert(whole.skip(word.len() as int) =~= rest);
}

/// The whitespace-free run at the head of such a concatenation is the word.
proof fn lemma_word_len_of_concat(word: Seq<char>, rest: Seq<char>)
    requires
        forall|j: int| 0 <= j < word.len() ==> !is_whitespace(#[trigger] word[j]),
        rest.len() == 0 || is_whitespace(rest[0]),
    ensures
        word_len(word + rest) == word.len(),
    decreases word.len(),
{
    if word.len() == 0 {
        assert(word + rest =~= rest);
    } else {
        assert((word + rest).drop_first() =~= word.drop_first() + rest);
        assert(!is_whitespace(word[0]));
        lemma_word_len_of_concat(word.drop_first(), rest);
    }
}

/// The decimal writing of a number consists of digits, is not empty and
/// denotes that number.
pub proof fn decimal_digits_denote(n: nat)
    ensures
        decimal_digits(n).len() > 0,
        all_digits(decimal_digits(n)),
        decimal_value(decimal_digits(n)) == n,
    decreases n,
{
    let digits = decimal_digits(n);
    assert(digit_value(digit_char(n % 10)) == n % 10);
    assert(is_digit(digit_char(n % 10)));
    if n < 10 {
        assert(digits.drop_last() =~= Seq::<char>::empty());
        assert(decimal_value(Seq::<char>::empty()) == 0);
        assert(digits.last() == digit_char(n));
    } else {
        decimal_digits_denote(n / 10);
        assert(digits.drop_last() =~= decimal_digits(n / 10));
        assert(digits.last() == digit_char(n % 10));
        assert forall|i: int| 0 <= i < digits.len() implies is_digit(#[trigger] digits[i]) by {
            if i < digits.len() - 1 {
                assert(digits[i] == decimal_digits(n / 10)[i]);
            }
        }
    }
}

/// A 16-bit number that is written out reads back as itself.
pub proof fn written_number_reads_back(n: u16)
    ensures
        decimal_u16(decimal_digits(n as nat)) == Some(n),
{
    decimal_digits_denote(n as nat);
    assert(is_digit(decimal_digits(n as nat)[0]));
}

/// A position that is written out reads back as itself.
pub proof fn written_position_reads_back(position: RoverPosition)
    ensures
        parse_position(position.text()) == Ok::<_, RoverErrorView>(position),
{
    let latitude = decimal_digits(position.current_location.latitude as nat);
    let longitude = decimal_digits(position.current_location.longitude as nat);
    let letter = seq![position.facing.code()];
    let space = seq![' '];
    decimal_digits_denote(position.current_location.latitude as nat);
    decimal_digits_denote(position.current_location.longitude as nat);
    written_number_reads_back(position.current_location.latitude);
    written_number_reads_back(position.current_location.longitude);
    let after_longitude = space + letter;
    let after_latitude = space + (longitude + after_longitude);
    assert(position.text() =~= latitude + after_latitude);

    lemma_tokens_after_word(letter, Seq::empty());
    assert(letter + Seq::<char>::empty() =~= letter);
    assert(tokens(Seq::<char>::empty()) =~= Seq::<Seq<char>>::empty());
    assert(after_longitude.drop_first() =~= letter);
    assert(tokens(after_longitude) == tokens(letter));
    assert forall|j: int| 0 <= j < longitude.len() implies !is_whitespace(
        #[trigger] longitude[j],
    ) by {
        assert(is_digit(longitude[j]));
    }
    lemma_tokens_after_word(longitude, after_longitude);
    assert(after_latitude.drop_first() =~= longitude + after_longitude);
    assert(tokens(after_latitude) == tokens(longitude + after_longitude));
    assert forall|j: int| 0 <= j < latitude.len() implies !is_whitespace(
        #[trigger] latitude[j],
    ) by {
        assert(is_digit(latitude[j]));
    }
    lemma_tokens_after_word(latitude, after_latitude);
    assert(tokens(position.text()) =~= seq![latitude, longitude, letter]);
    assert(parse_direction(position.facing.code()) == Ok::<_, RoverErrorView>(position.facing));
}

/// A text without line feed is one line.
proof fn lemma_line_len_without_feed(s: Seq<char>)
    requires
        forall|j: int| 0 <= j < s.len() ==> #[trigger] s[j] != '\n',
    ensures
        line_len(s) == s.len(),
    decreases s.len(),
{
    if s.len() > 0 {
        assert(s[0] != '\n');
        lemma_line_len_without_feed(s.drop_first());
    }
}

/// The first line ends where the first line feed stands.
proof fn lemma_line_len_bound(s: Seq<char>)
    ensures
        line_len(s) <= s.len(),
        line_len(s) < s.len() ==> s[line_len(s) as int] == '\n',
    decreases s.len(),
{
    if s.len() > 0 && s[0] != '\n' {
        lemma_line_len_bound(s.drop_first());
    }
}

/// What follows a line feed has no say in where the first line ends.
proof fn lemma_line_len_of_concat(head: Seq<char>, tail: Seq<char>)
    ensures
        line_len(head + seq!['\n'] + tail) == line_len(head),
    decreases head.len(),
{
    let whole = head + seq!['\n'] + tail;
    if head.len() > 0 && head[0] != '\n' {
        assert(whole.drop_first() =~= head.drop_first() + seq!['\n'] + tail);
        lemma_line_len_of_concat(head.drop_first(), tail);
    }
}

/// The lines of two texts joined by a line feed are the lines of the first
/// followed by the lines of the second.
pub proof fn lines_of_joined_pair(head: Seq<char>, tail: Seq<char>)
    ensures
        lines(head + seq!['\n'] + tail) == lines(head) + lines(tail),
    decreases head.len(),
{
    let whole = head + seq!['\n'] + tail;
    let n = line_len(head) as int;
    lemma_line_len_of_concat(head, tail);
    lemma_line_len_bound(head);
    if n >= head.len() {
        assert(whole.take(n) =~= head);
        assert(whole.skip(n + 1) =~= tail);
        assert(lines(whole) =~= lines(head) + lines(tail));
    } else {
        assert(whole.take(n) =~= head.take(n));
        assert(whole.skip(n + 1) =~= head.skip(n + 1) + seq!['\n'] + tail);
        lines_of_joined_pair(head.skip(n + 1), tail);
        assert(lines(whole) =~= lines(head) + lines(tail));
    }
}

/// Joining lines and splitting the result gives the lines back, provided
/// there is at least one and none holds a line feed.
pub proof fn joined_lines_split_back(ls: Seq<Seq<char>>)
    requires
        ls.len() > 0,
        forall|i: int, j: int|
            0 <= i < ls.len() && 0 <= j < ls[i].len() ==> #[trigger] ls[i][j] != '\n',
    ensures
        lines(joined(ls)) == ls,
    decreases ls.len(),
{
    lemma_line_len_without_feed(ls.last());
    if ls.len() == 1 {
        assert(lines(joined(ls)) =~= ls);
    } else {
        joined_lines_split_back(ls.drop_last());
        lines_of_joined_pair(joined(ls.drop_last()), ls.last());
        assert(lines(joined(ls)) =~= ls);
    }
}

/// A host that splits the joined report of a successful batch at the line
/// feeds gets the report back, line for line.
pub proof fn joined_report_splits_back(
    top_right: Seq<char>,
    instructions: Seq<char>,
    report: Seq<Seq<char>>,
)
    requires
        batch(top_right, instructions) == Ok::<_, RoverErrorView>(report),
    ensures
        lines(joined(report)) == report,
{
    batch_keeps_input_order(top_right, instructions, report);
    let corner = parse_coordinates(top_right)->Ok_0;
    assert forall|i: int, j: int|
        0 <= i < report.len() && 0 <= j < report[i].len() implies #[trigger] report[i][j]
        != '\n' by {
        let end = nth_run(corner, lines(instructions), i)->Ok_0;
        let latitude = decimal_digits(end.current_location.latitude as nat);
        let longitude = decimal_digits(end.current_location.longitude as nat);
        decimal_digits_denote(end.current_location.latitude as nat);
        decimal_digits_denote(end.current_location.longitude as nat);
        if j < latitude.len() {
            assert(is_digit(latitude[j]));
        } else if latitude.len() < j <= latitude.len() + longitude.len() {
            assert(is_digit(longitude[j - latitude.len() - 1]));
        }
    }
    joined_lines_split_back(report);
}

/// The joined report of a successful batch is not empty, so a record never
/// holds an empty report after a success.
pub proof fn joined_report_is_not_empty(
    top_right: Seq<char>,
    instructions: Seq<char>,
    report: Seq<Seq<char>>,
)
    requires
        batch(top_right, instructions) == Ok::<_, RoverErrorView>(report),
    ensures
        joined(report).len() > 0,
{
    batch_keeps_input_order(top_right, instructions, report);
    let corner = parse_coordinates(top_right)->Ok_0;
    let last = nth_run(corner, lines(instructions), report.len() - 1)->Ok_0;
    assert(report.last() == last.text());
    assert(last.text().len() >= 2);
}

} // verus!
