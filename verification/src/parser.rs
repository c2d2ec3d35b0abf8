//! The lexical scanner: white space, line terminators and comments.
//!
//! Every function here takes the source text from its first character on
//! and either recognises a token at its start, handing back the rest of the
//! text and the token, or says why it could not. The text is taken to be a
//! piece of a longer one: where it ends before a token is decided, the
//! answer is [`ScanError::Incomplete`], not a token and not a mismatch.
//! [`line_terminator_sequence`] alone looks for its token anywhere in the
//! text, and so never waits for more.

use vstd::prelude::*;
use vstd::std_specs::iter::IteratorSpec;

verus! {

/// Why no token was recognised.
#[derive(Clone, Copy, Debug, PartialEq, Eq, Structural)]
pub enum ScanError {
    /// The text ended before the token was decided; more text may complete it.
    Incomplete,
    /// The text does not hold the token where it was looked for.
    Mismatch,
}

/// White space: tab, vertical tab, form feed, space, no-break space, the
/// byte order mark and the space separators.
pub open spec fn is_white_space(c: char) -> bool {
    ||| c == '\t'
    ||| c == '\u{000B}'
    ||| c == '\u{000C}'
    ||| c == ' '
    ||| c == '\u{00A0}'
    ||| c == '\u{FEFF}'
    ||| c == '\u{1680}'
    ||| ('\u{2000}' <= c && c <= '\u{200A}')
    ||| c == '\u{202F}'
    ||| c == '\u{205F}'
    ||| c == '\u{3000}'
}

/// Line terminators: line feed, carriage return, line separator and
/// paragraph separator.
pub open spec fn is_line_terminator(c: char) -> bool {
    c == '\n' || c == '\r' || c == '\u{2028}' || c == '\u{2029}'
}

/// Whether `s` starts with `first` and then `second`.
pub open spec fn starts_with_pair(s: Seq<char>, first: char, second: char) -> bool {
    s.len() >= 2 && s[0] == first && s[1] == second
}

/// Whether `s` ends before it could hold `first` and a second character:
/// it is empty, or it is `first` alone.
pub open spec fn ends_within_pair(s: Seq<char>, first: char) -> bool {
    s.len() == 0 || (s.len() == 1 && s[0] == first)
}

/// Whether `at` is the place of the first line terminator of `s` at or
/// after `from`.
pub open spec fn first_line_terminator_at(s: Seq<char>, from: int, at: int) -> bool {
    &&& from <= at < s.len()
    &&& is_line_terminator(s[at])
    &&& forall|i: int| from <= i < at ==> !is_line_terminator(#[trigger] s[i])
}

/// Whether `s` holds a line terminator at or after `from`.
pub open spec fn has_line_terminator(s: Seq<char>, from: int) -> bool {
    exists|at: int| first_line_terminator_at(s, from, at)
}

/// Whether `*/` stands in `s` with its `/` at `at`.
pub open spec fn closes_at(s: Seq<char>, at: int) -> bool {
    0 < at < s.len() && s[at - 1] == '*' && s[at] == '/'
}

/// Whether `at` is the place of the `/` of the first `*/` of `s` whose `*`
/// stands at or after `from`.
pub open spec fn first_close_at(s: Seq<char>, from: int, at: int) -> bool {
    &&& from < at
    &&& closes_at(s, at)
    &&& forall|i: int| from < i < at ==> !#[trigger] closes_at(s, i)
}

/// Whether `s` holds a `*/` whose `*` stands at or after `from`.
pub open spec fn has_close(s: Seq<char>, from: int) -> bool {
    exists|at: int| first_close_at(s, from, at)
}

/// One character of any kind.
pub open spec fn source_character_spec(s: Seq<char>) -> Result<nat, ScanError> {
    if s.len() == 0 {
        Err(ScanError::Incomplete)
    } else {
        Ok(1)
    }
}

/// One character of the class `class`.
pub open spec fn one_of_spec(s: Seq<char>, class: spec_fn(char) -> bool) -> Result<
    nat,
    ScanError,
> {
    if s.len() == 0 {
        Err(ScanError::Incomplete)
    } else if class(s[0]) {
        Ok(1)
    } else {
        Err(ScanError::Mismatch)
    }
}

/// The first line terminator sequence of `s`, wherever it stands, as the
/// places where it starts and ends: a carriage return and the line feed
/// behind it together, or else one line terminator.
pub open spec fn line_terminator_sequence_spec(s: Seq<char>) -> Result<(nat, nat), ScanError> {
    if has_line_terminator(s, 0) {
        let start = choose|at: int| first_line_terminator_at(s, 0, at);
        if s[start] == '\r' && start + 1 < s.len() && s[start + 1] == '\n' {
            Ok((start as nat, (start + 2) as nat))
        } else {
            Ok((start as nat, (start + 1) as nat))
        }
    } else {
        Err(ScanError::Mismatch)
    }
}

/// One character that may stand in a single-line comment: any but a line
/// terminator.
pub open spec fn single_line_comment_char_spec(s: Seq<char>) -> Result<nat, ScanError> {
    one_of_spec(s, |c: char| !is_line_terminator(c))
}

/// The characters of a single-line comment: at least one, up to the first
/// line terminator. Without a line terminator the text may go on.
pub open spec fn single_line_comment_chars_spec(s: Seq<char>) -> Result<nat, ScanError> {
    if s.len() == 0 {
        Err(ScanError::Incomplete)
    } else if is_line_terminator(s[0]) {
        Err(ScanError::Mismatch)
    } else if has_line_terminator(s, 0) {
        Ok((choose|at: int| first_line_terminator_at(s, 0, at)) as nat)
    } else {
        Err(ScanError::Incomplete)
    }
}

/// A single-line comment: `//` and all that follows up to the first line
/// terminator, which is not part of it.
pub open spec fn single_line_comment_spec(s: Seq<char>) -> Result<nat, ScanError> {
    if starts_with_pair(s, '/', '/') {
        if has_line_terminator(s, 2) {
            Ok((choose|at: int| first_line_terminator_at(s, 2, at)) as nat)
        } else {
            Err(ScanError::Incomplete)
        }
    } else if ends_within_pair(s, '/') {
        Err(ScanError::Incomplete)
    } else {
        Err(ScanError::Mismatch)
    }
}

/// One character of a multi-line comment that is not `*`.
pub open spec fn multi_line_not_asterisk_char_spec(s: Seq<char>) -> Result<nat, ScanError> {
    one_of_spec(s, |c: char| c != '*')
}

/// One character of a multi-line comment that is neither `*` nor `/`.
pub open spec fn multi_line_not_forward_slash_or_asterisk_char_spec(s: Seq<char>) -> Result<
    nat,
    ScanError,
> {
    one_of_spec(s, |c: char| c != '*' && c != '/')
}

/// The characters of a multi-line comment: all up to the `/` of the first
/// `*/`, the `*` included. Without a `*/` the text may go on.
pub open spec fn multi_line_comment_chars_spec(s: Seq<char>) -> Result<nat, ScanError> {
    if has_close(s, 0) {
        Ok((choose|at: int| first_close_at(s, 0, at)) as nat)
    } else {
        Err(ScanError::Incomplete)
    }
}

/// The characters of a multi-line comment behind a `*`: as
/// [`multi_line_comment_chars_spec`], but they do not start with `/`.
pub open spec fn post_asterisk_comment_chars_spec(s: Seq<char>) -> Result<nat, ScanError> {
    if s.len() > 0 && s[0] == '/' {
        Err(ScanError::Mismatch)
    } else {
        multi_line_comment_chars_spec(s)
    }
}

/// A multi-line comment: `/*` and all that follows up to and with the first
/// `*/` behind it.
pub open spec fn multi_line_comment_spec(s: Seq<char>) -> Result<nat, ScanError> {
    if starts_with_pair(s, '/', '*') {
        if has_close(s, 2) {
            Ok(((choose|at: int| first_close_at(s, 2, at)) + 1) as nat)
        } else {
            Err(ScanError::Incomplete)
        }
    } else if ends_within_pair(s, '/') {
        Err(ScanError::Incomplete)
    } else {
        Err(ScanError::Mismatch)
    }
}

/// A comment: a multi-line comment, or else a single-line comment.
pub open spec fn comment_spec(s: Seq<char>) -> Result<nat, ScanError> {
    match multi_line_comment_spec(s) {
        Err(ScanError::Mismatch) => single_line_comment_spec(s),
        outcome => outcome,
    }
}

/// Whether `r` is what a scan of `input` hands back when the token is
/// `expected`: the first `n` characters as the token and the others as the
/// rest, or the error.
pub open spec fn recognised(
    input: Seq<char>,
    expected: Result<nat, ScanError>,
    r: Result<(&str, &str), ScanError>,
) -> bool {
    match expected {
        Ok(n) => {
            &&& n <= input.len()
            &&& r matches Ok((rest, token))
            &&& token@ == input.take(n as int)
            &&& rest@ == input.skip(n as int)
        },
        Err(error) => r == Err::<(&str, &str), ScanError>(error),
    }
}

/// Whether `r` is what a scan of `input` for one character hands back when
/// the token is `expected`: the first character and the rest, or the error.
pub open spec fn recognised_char(
    input: Seq<char>,
    expected: Result<nat, ScanError>,
    r: Result<(&str, char), ScanError>,
) -> bool {
    match expected {
        Ok(n) => {
            &&& n == 1 <= input.len()
            &&& r matches Ok((rest, token))
            &&& token == input[0]
            &&& rest@ == input.skip(1)
        },
        Err(error) => r == Err::<(&str, char), ScanError>(error),
    }
}

/// Whether `r` is what a search of `input` hands back when the token
/// stands at `expected`: the characters from its start to its end as the
/// token and those behind it as the rest, or the error.
pub open spec fn found(
    input: Seq<char>,
    expected: Result<(nat, nat), ScanError>,
    r: Result<(&str, &str), ScanError>,
) -> bool {
    match expected {
        Ok((start, end)) => {
            &&& start <= end <= input.len()
            &&& r matches Ok((rest, token))
            &&& token@ == input.subrange(start as int, end as int)
            &&& rest@ == input.skip(end as int)
        },
        Err(error) => r == Err::<(&str, &str), ScanError>(error),
    }
}

/// A text has one first line terminator at most.
pub proof fn lemma_first_line_terminator_unique(s: Seq<char>, from: int, a: int, b: int)
    requires
        first_line_terminator_at(s, from, a),
        first_line_terminator_at(s, from, b),
    ensures
        a == b,
{
    if a < b {
        assert(!is_line_terminator(s[a]));
    } else if b < a {
        assert(!is_line_terminator(s[b]));
    }
}

/// A text has one first `*/` at most.
pub proof fn lemma_first_close_unique(s: Seq<char>, from: int, a: int, b: int)
    requires
        first_close_at(s, from, a),
        first_close_at(s, from, b),
    ensures
        a == b,
{
    if a < b {
        assert(!closes_at(s, a));
    } else if b < a {
        assert(!closes_at(s, b));
    }
}

/// What a recognised single-line comment is: it starts with `//`, holds
/// no line terminator, and a line terminator follows it.
pub proof fn lemma_single_line_comment_token(s: Seq<char>, n: nat)
    requires
        single_line_comment_spec(s) == Ok::<nat, ScanError>(n),
    ensures
        2 <= n < s.len(),
        s[0] == '/' && s[1] == '/',
        forall|i: int| 2 <= i < n ==> !is_line_terminator(#[trigger] s[i]),
        is_line_terminator(s[n as int]),
{
    let chosen = choose|at: int| first_line_terminator_at(s, 2, at);
    assert(first_line_terminator_at(s, 2, chosen));
}

/// What a recognised multi-line comment is: it starts with `/*` and ends
/// with a `*/` of its own, and no `*/` stands in it before that one.
pub proof fn lemma_multi_line_comment_token(s: Seq<char>, n: nat)
    requires
        multi_line_comment_spec(s) == Ok::<nat, ScanError>(n),
    ensures
        4 <= n <= s.len(),
        s[0] == '/' && s[1] == '*',
        s[n - 2] == '*' && s[n - 1] == '/',
        forall|i: int| 2 < i < n - 1 ==> !#[trigger] closes_at(s, i),
{
    let chosen = choose|at: int| first_close_at(s, 2, at);
    assert(first_close_at(s, 2, chosen));
}

/// A comment is a multi-line comment where the text starts with `/*`, and
/// a single-line comment where it does not.
pub proof fn lemma_comment_kinds(s: Seq<char>)
    ensures
        comment_spec(s) == if starts_with_pair(s, '/', '*') {
            multi_line_comment_spec(s)
        } else {
            single_line_comment_spec(s)
        },
{
}

/// A single-line comment that is recognised, or a mismatch, stays what it
/// is however the text goes on: only `Incomplete` waits for more text.
pub proof fn lemma_single_line_comment_decided(s: Seq<char>, more: Seq<char>)
    requires
        single_line_comment_spec(s) != Err::<nat, ScanError>(ScanError::Incomplete),
    ensures
        single_line_comment_spec(s + more) == single_line_comment_spec(s),
{
    let longer = s + more;
    if starts_with_pair(s, '/', '/') {
        let at = choose|at: int| first_line_terminator_at(s, 2, at);
        assert(first_line_terminator_at(s, 2, at));
        assert(first_line_terminator_at(longer, 2, at)) by {
            assert(longer[at] == s[at]);
            assert forall|i: int| 2 <= i < at implies !is_line_terminator(
                #[trigger] longer[i],
            ) by {
                assert(longer[i] == s[i]);
            }
        }
        assert(longer[0] == s[0] && longer[1] == s[1]);
        let chosen = choose|at: int| first_line_terminator_at(longer, 2, at);
        lemma_first_line_terminator_unique(longer, 2, at, chosen);
    } else {
        assert(longer[0] == s[0]);
        if s.len() >= 2 {
            assert(longer[1] == s[1]);
        }
    }
}

/// A multi-line comment that is recognised, or a mismatch, stays what it is
/// however the text goes on: only `Incomplete` waits for more text.
pub proof fn lemma_multi_line_comment_decided(s: Seq<char>, more: Seq<char>)
    requires
        multi_line_comment_spec(s) != Err::<nat, ScanError>(ScanError::Incomplete),
    ensures
        multi_line_comment_spec(s + more) == multi_line_comment_spec(s),
{
    let longer = s + more;
    if starts_with_pair(s, '/', '*') {
        let at = choose|at: int| first_close_at(s, 2, at);
        assert(first_close_at(s, 2, at));
        assert(first_close_at(longer, 2, at)) by {
            assert(longer[at] == s[at] && longer[at - 1] == s[at - 1]);
            assert forall|i: int| 2 < i < at implies !#[trigger] closes_at(longer, i) by {
                assert(!closes_at(s, i));
                assert(longer[i] == s[i] && longer[i - 1] == s[i - 1]);
            }
        }
        assert(longer[0] == s[0] && longer[1] == s[1]);
        let chosen = choose|at: int| first_close_at(longer, 2, at);
        lemma_first_close_unique(longer, 2, at, chosen);
    } else {
        assert(longer[0] == s[0]);
        if s.len() >= 2 {
            assert(longer[1] == s[1]);
        }
    }
}

/// A comment that is recognised, or a mismatch, stays what it is however
/// the text goes on: only `Incomplete` waits for more text.
pub proof fn lemma_comment_decided(s: Seq<char>, more: Seq<char>)
    requires
        comment_spec(s) != Err::<nat, ScanError>(ScanError::Incomplete),
    ensures
        comment_spec(s + more) == comment_spec(s),
{
    lemma_multi_line_comment_decided(s, more);
    if multi_line_comment_spec(s) == Err::<nat, ScanError>(ScanError::Mismatch) {
        lemma_single_line_comment_decided(s, more);
    }
}

fn white_space_char(c: char) -> (b: bool)
    ensures
        b == is_white_space(c),
{
    c == '\t' || c == '\u{000B}' || c == '\u{000C}' || c == ' ' || c == '\u{00A0}' || c
        == '\u{FEFF}' || c == '\u{1680}' || ('\u{2000}' <= c && c <= '\u{200A}') || c
        == '\u{202F}' || c == '\u{205F}' || c == '\u{3000}'
}

fn line_terminator_char(c: char) -> (b: bool)
    ensures
        b == is_line_terminator(c),
{
    c == '\n' || c == '\r' || c == '\u{2028}' || c == '\u{2029}'
}

/// The characters of `text`, one by one.
fn chars_of(text: &str) -> (chars: Vec<char>)
    ensures
        chars@ == text@,
{
    broadcast use vstd::string::axiom_spec_iter;

    let mut chars: Vec<char> = Vec::new();
    for c in it: text.chars()
        invariant
            it.seq() == text@,
            chars@ == it.seq().take(it.index() as int),
    {
        chars.push(c);
    }
    assert(chars@ =~= text@);
    chars
}

/// The rest of `input` behind its first `at` characters, and those
/// characters.
fn split<'a>(input: &'a str, at: usize) -> (r: (&'a str, &'a str))
    requires
        at <= input@.len(),
    ensures
        r.0@ == input@.skip(at as int),
        r.1@ == input@.take(at as int),
{
    let len = input.unicode_len();
    (input.substring_char(at, len), input.substring_char(0, at))
}

/// The place of the first line terminator at or after `from`.
fn find_line_terminator(chars: &Vec<char>, from: usize) -> (place: Option<usize>)
    requires
        from <= chars.len(),
    ensures
        match place {
            Some(at) => first_line_terminator_at(chars@, from as int, at as int),
            None => !has_line_terminator(chars@, from as int),
        },
{
    let mut at: usize = from;
    while at < chars.len()
        invariant
            from <= at <= chars.len(),
            forall|i: int| from <= i < at ==> !is_line_terminator(#[trigger] chars@[i]),
        decreases chars.len() - at,
    {
        if line_terminator_char(chars[at]) {
            return Some(at);
        }
        at = at + 1;
    }
    assert forall|other: int| !first_line_terminator_at(chars@, from as int, other) by {
        if from <= other < chars@.len() {
            assert(!is_line_terminator(chars@[other]));
        }
    }
    None
}

/// The place of the `/` of the first `*/` whose `*` stands at or after
/// `from`.
fn find_close(chars: &Vec<char>, from: usize) -> (place: Option<usize>)
    requires
        from <= chars.len(),
    ensures
        match place {
            Some(at) => first_close_at(chars@, from as int, at as int),
            None => !has_close(chars@, from as int),
        },
{
    if chars.len() - from < 2 {
        assert forall|other: int| !first_close_at(chars@, from as int, other) by {}
        return None;
    }
    let mut at: usize = from + 1;
    while at < chars.len()
        invariant
            from < at <= chars.len(),
            forall|i: int| from < i < at ==> !#[trigger] closes_at(chars@, i),
        decreases chars.len() - at,
    {
        if chars[at - 1] == '*' && chars[at] == '/' {
            return Some(at);
        }
        at = at + 1;
    }
    assert forall|other: int| !first_close_at(chars@, from as int, other) by {
        if from < other < chars@.len() {
            assert(!closes_at(chars@, other));
        }
    }
    None
}

/// Recognises one character of any kind.
pub fn source_character<'a>(input: &'a str) -> (r: Result<(&'a str, &'a str), ScanError>)
    ensures
        recognised(input@, source_character_spec(input@), r),
{
    if input.is_empty() {
        Err(ScanError::Incomplete)
    } else {
        Ok(split(input, 1))
    }
}

/// Recognises one white space character.
pub fn white_space<'a>(input: &'a str) -> (r: Result<(&'a str, char), ScanError>)
    ensures
        recognised_char(input@, one_of_spec(input@, |c: char| is_white_space(c)), r),
{
    if input.is_empty() {
        return Err(ScanError::Incomplete);
    }
    let first = input.get_char(0);
    if white_space_char(first) {
        Ok((split(input, 1).0, first))
    } else {
        Err(ScanError::Mismatch)
    }
}

/// Recognises one line terminator.
pub fn line_terminator<'a>(input: &'a str) -> (r: Result<(&'a str, char), ScanError>)
    ensures
        recognised_char(input@, one_of_spec(input@, |c: char| is_line_terminator(c)), r),
{
    if input.is_empty() {
        return Err(ScanError::Incomplete);
    }
    let first = input.get_char(0);
    if line_terminator_char(first) {
        Ok((split(input, 1).0, first))
    } else {
        Err(ScanError::Mismatch)
    }
}

/// Finds the first line terminator sequence of the text, wherever it
/// stands: a carriage return with the line feed behind it, or else one line
/// terminator. What stands before it is passed over. A text without line
/// terminator is a mismatch.
pub fn line_terminator_sequence<'a>(input: &'a str) -> (r: Result<(&'a str, &'a str), ScanError>)
    ensures
        found(input@, line_terminator_sequence_spec(input@), r),
{
    let chars = chars_of(input);
    match find_line_terminator(&chars, 0) {
        Some(start) => {
            proof {
                let chosen = choose|at: int| first_line_terminator_at(input@, 0, at);
                lemma_first_line_terminator_unique(input@, 0, start as int, chosen);
            }
            let end = if chars[start] == '\r' && chars.len() - start > 1 && chars[start + 1]
                == '\n' {
                start + 2
            } else {
                start + 1
            };
            Ok((input.substring_char(end, chars.len()), input.substring_char(start, end)))
        },
        None => Err(ScanError::Mismatch),
    }
}

/// Recognises one character that is not a line terminator.
pub fn single_line_comment_char<'a>(input: &'a str) -> (r: Result<(&'a str, &'a str), ScanError>)
    ensures
        recognised(input@, single_line_comment_char_spec(input@), r),
{
    if input.is_empty() {
        return Err(ScanError::Incomplete);
    }
    if line_terminator_char(input.get_char(0)) {
        Err(ScanError::Mismatch)
    } else {
        Ok(split(input, 1))
    }
}

/// Recognises the characters of a single-line comment: one or more, up to
/// the first line terminator.
pub fn single_line_comment_chars<'a>(input: &'a str) -> (r: Result<(&'a str, &'a str), ScanError>)
    ensures
        recognised(input@, single_line_comment_chars_spec(input@), r),
{
    let chars = chars_of(input);
    if chars.len() == 0 {
        return Err(ScanError::Incomplete);
    }
    if line_terminator_char(chars[0]) {
        return Err(ScanError::Mismatch);
    }
    match find_line_terminator(&chars, 0) {
        Some(at) => {
            proof {
                let chosen = choose|at: int| first_line_terminator_at(input@, 0, at);
                lemma_first_line_terminator_unique(input@, 0, at as int, chosen);
            }
            Ok(split(input, at))
        },
        None => Err(ScanError::Incomplete),
    }
}

/// Recognises a single-line comment: `//` and what follows, up to the
/// first line terminator.
pub fn single_line_comment<'a>(input: &'a str) -> (r: Result<(&'a str, &'a str), ScanError>)
    ensures
        recognised(input@, single_line_comment_spec(input@), r),
{
    let chars = chars_of(input);
    if chars.len() >= 2 && chars[0] == '/' && chars[1] == '/' {
        match find_line_terminator(&chars, 2) {
            Some(at) => {
                proof {
                    let chosen = choose|at: int| first_line_terminator_at(input@, 2, at);
                    lemma_first_line_terminator_unique(input@, 2, at as int, chosen);
                }
                Ok(split(input, at))
            },
            None => Err(ScanError::Incomplete),
        }
    } else if chars.len() == 0 || (chars.len() == 1 && chars[0] == '/') {
        Err(ScanError::Incomplete)
    } else {
        Err(ScanError::Mismatch)
    }
}

/// Recognises one character that is not `*`.
pub fn multi_line_not_asterisk_char<'a>(input: &'a str) -> (r: Result<
    (&'a str, &'a str),
    ScanError,
>)
    ensures
        recognised(input@, multi_line_not_asterisk_char_spec(input@), r),
{
    if input.is_empty() {
        return Err(ScanError::Incomplete);
    }
    if input.get_char(0) == '*' {
        Err(ScanError::Mismatch)
    } else {
        Ok(split(input, 1))
    }
}

/// Recognises one character that is neither `*` nor `/`.
pub fn multi_line_not_forward_slash_or_asterisk_char<'a>(input: &'a str) -> (r: Result<
    (&'a str, &'a str),
    ScanError,
>)
    ensures
        recognised(input@, multi_line_not_forward_slash_or_asterisk_char_spec(input@), r),
{
    if input.is_empty() {
        return Err(ScanError::Incomplete);
    }
    let first = input.get_char(0);
    if first == '*' || first == '/' {
        Err(ScanError::Mismatch)
    } else {
        Ok(split(input, 1))
    }
}

/// Recognises the characters of a multi-line comment: all up to the `/`
/// of the first `*/`, so that the token ends with that `*`.
pub fn multi_line_comment_chars<'a>(input: &'a str) -> (r: Result<(&'a str, &'a str), ScanError>)
    ensures
        recognised(input@, multi_line_comment_chars_spec(input@), r),
{
    let chars = chars_of(input);
    match find_close(&chars, 0) {
        Some(at) => {
            proof {
                let chosen = choose|at: int| first_close_at(input@, 0, at);
                lemma_first_close_unique(input@, 0, at as int, chosen);
            }
            Ok(split(input, at))
        },
        None => Err(ScanError::Incomplete),
    }
}

/// Recognises the characters of a multi-line comment behind a `*`: as
/// [`multi_line_comment_chars`], but a `/` at the start is a mismatch.
pub fn post_asterisk_comment_chars<'a>(input: &'a str) -> (r: Result<
    (&'a str, &'a str),
    ScanError,
>)
    ensures
        recognised(input@, post_asterisk_comment_chars_spec(input@), r),
{
    if !input.is_empty() && input.get_char(0) == '/' {
        Err(ScanError::Mismatch)
    } else {
        multi_line_comment_chars(input)
    }
}

/// Recognises a multi-line comment: `/*`, the characters of the comment,
/// and the `*/` that closes it.
pub fn multi_line_comment<'a>(input: &'a str) -> (r: Result<(&'a str, &'a str), ScanError>)
    ensures
        recognised(input@, multi_line_comment_spec(input@), r),
{
    let chars = chars_of(input);
    if chars.len() >= 2 && chars[0] == '/' && chars[1] == '*' {
        match find_close(&chars, 2) {
            Some(at) => {
                proof {
                    let chosen = choose|at: int| first_close_at(input@, 2, at);
                    lemma_first_close_unique(input@, 2, at as int, chosen);
                }
                Ok(split(input, at + 1))
            },
            None => Err(ScanError::Incomplete),
        }
    } else if chars.len() == 0 || (chars.len() == 1 && chars[0] == '/') {
        Err(ScanError::Incomplete)
    } else {
        Err(ScanError::Mismatch)
    }
}

/// Recognises a comment: a multi-line comment, or else a single-line
/// comment.
pub fn comment<'a>(input: &'a str) -> (r: Result<(&'a str, &'a str), ScanError>)
    ensures
        recognised(input@, comment_spec(input@), r),
{
    match multi_line_comment(input) {
        Err(ScanError::Mismatch) => single_line_comment(input),
        outcome => outcome,
    }
}

} // verus!
