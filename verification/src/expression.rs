//! Regular expressions: which ones find every match in its turn, and which of
//! those may match nothing.
//!
//! The engine knows constructs that lose its place in some texts: references to
//! groups that are still open, starts of matches that are moved, conditions.
//! Expressions are therefore taken only where every construct is one that does
//! not.
use vstd::prelude::*;
use vstd::string::StrSliceExecFns;

verus! {

/// That a backslash before this character stands for a character, a class of
/// characters or a place in the text. Behind a backslash, digits and `k` refer to
/// groups, and `K` and `G` speak of where matches start.
pub open spec fn is_plain_escape(letter: char) -> bool {
    ||| ' ' <= letter <= '/'
    ||| ':' <= letter <= '@'
    ||| '[' <= letter <= '`'
    ||| '{' <= letter <= '~'
    ||| letter == 'A' || letter == 'B' || letter == 'D' || letter == 'H' || letter == 'P'
        || letter == 'S' || letter == 'U' || letter == 'W'
    ||| letter == 'a' || letter == 'b' || letter == 'd' || letter == 'e' || letter == 'f'
        || letter == 'h' || letter == 'n' || letter == 'p' || letter == 'r' || letter == 's'
        || letter == 't' || letter == 'u' || letter == 'v' || letter == 'w' || letter == 'x'
        || letter == 'z'
}

/// That a backslash before this character stands for an edge of a word, or for
/// no edge.
pub open spec fn is_word_edge(letter: char) -> bool {
    letter == 'b' || letter == 'B' || letter == '<' || letter == '>'
}

/// That a backslash stands before `at` and makes what stands there part of an
/// escape.
pub open spec fn is_escaped(pattern: Seq<char>, at: int) -> bool
    decreases at,
{
    at > 0 && pattern[at - 1] == '\\' && !is_escaped(pattern, at - 1)
}

/// A flag other than the one that lets expressions hold blanks and comments.
pub open spec fn is_flag(letter: char) -> bool {
    letter == 'i' || letter == 'm' || letter == 's' || letter == 'U' || letter == 'u' || letter
        == '-'
}

/// That flags stand from `at` on, up to a colon or a closing parenthesis.
pub open spec fn holds_flags(pattern: Seq<char>, at: int) -> bool
    decreases pattern.len() - at,
{
    at < pattern.len() && {
        ||| pattern[at] == ':'
        ||| pattern[at] == ')'
        ||| is_flag(pattern[at]) && holds_flags(pattern, at + 1)
    }
}

/// That what stands from `at` on, behind a parenthesis and a question mark, opens
/// a group, a named group, a lookahead or a lookbehind, or sets flags.
pub open spec fn opens_plainly(pattern: Seq<char>, at: int) -> bool {
    at < pattern.len() && {
        ||| pattern[at] == '='
        ||| pattern[at] == '!'
        ||| pattern[at] == '<'
        ||| pattern[at] == 'P' && at + 1 < pattern.len() && pattern[at + 1] == '<'
        ||| holds_flags(pattern, at)
    }
}

/// That the character before `at` may end a quantifier.
pub open spec fn may_follow_quantifier(pattern: Seq<char>, at: int) -> bool {
    at > 0 && !is_escaped(pattern, at - 1) && {
        ||| pattern[at - 1] == '+'
        ||| pattern[at - 1] == '*'
        ||| pattern[at - 1] == '?'
        ||| pattern[at - 1] == '}' && at > 1 && ('0' <= pattern[at - 2] <= '9' || pattern[at - 2]
            == ',')
    }
}

/// That nothing but a plain construct starts at `at`, if one does: a backslash
/// starts a plain escape, a parenthesis with a question mark opens plainly, and a
/// plus does not make a quantifier possessive.
pub open spec fn is_ordinary_at(pattern: Seq<char>, at: int) -> bool {
    is_escaped(pattern, at) || {
        &&& pattern[at] == '\\' ==> at + 1 < pattern.len() && is_plain_escape(pattern[at + 1])
        &&& pattern[at] == '(' && at + 1 < pattern.len() && pattern[at + 1] == '?'
            ==> opens_plainly(pattern, at + 2)
        &&& pattern[at] == '+' ==> !may_follow_quantifier(pattern, at)
    }
}

/// That an expression is made of plain constructs alone. Its matches then start
/// where the one before ends or later, and they are looked for without a panic.
pub open spec fn is_ordinary(pattern: Seq<char>) -> bool {
    forall|at: int| 0 <= at < pattern.len() ==> #[trigger] is_ordinary_at(pattern, at)
}

/// That a lookahead, a lookbehind or a word edge may stand at `at`.
pub open spec fn looks_around_at(pattern: Seq<char>, at: int) -> bool {
    ||| {
        &&& pattern[at] == '('
        &&& at + 2 < pattern.len()
        &&& pattern[at + 1] == '?'
        &&& {
            ||| pattern[at + 2] == '='
            ||| pattern[at + 2] == '!'
            ||| pattern[at + 2] == '<' && at + 3 < pattern.len() && (pattern[at + 3] == '='
                || pattern[at + 3] == '!')
        }
    }
    ||| pattern[at] == '\\' && at + 1 < pattern.len() && is_word_edge(pattern[at + 1])
}

/// That an expression may look at characters that it does not match.
pub open spec fn looks_around(pattern: Seq<char>) -> bool {
    exists|at: int| 0 <= at < pattern.len() && #[trigger] looks_around_at(pattern, at)
}

/// That a regular expression matches the empty text; one that cannot be
/// compiled counts as if it did.
pub uninterp spec fn matches_empty_text(pattern: Seq<char>) -> bool;

/// Trusted: `SysRegex::new` compiles a regular expression, and
/// `SysRegex::find_iter` finds its matches in the empty text. It gives up on some
/// expressions that look around, and those are left out.
#[verifier::external_body]
fn finds_in_empty_text(pattern: &str) -> (found: bool)
    requires
        is_ordinary(pattern@),
        !looks_around(pattern@),
    ensures
        found == matches_empty_text(pattern@),
{
    match tokenizers::utils::SysRegex::new(pattern) {
        Ok(regex) => regex.find_iter("").next().is_some(),
        Err(_) => true,
    }
}

/// That an ordinary expression may match nothing before the first character of
/// a text. One that does not look around does so on the empty text too.
pub open spec fn may_match_nothing(pattern: Seq<char>) -> bool {
    looks_around(pattern) || matches_empty_text(pattern)
}

fn is_plain_escape_char(letter: char) -> (plain: bool)
    ensures
        plain == is_plain_escape(letter),
{
    match letter {
        ' '..='/' | ':'..='@' | '['..='`' | '{'..='~' => true,
        'A' | 'B' | 'D' | 'H' | 'P' | 'S' | 'U' | 'W' => true,
        'a' | 'b' | 'd' | 'e' | 'f' | 'h' | 'n' | 'p' | 'r' | 's' | 't' | 'u' | 'v' | 'w' | 'x'
        | 'z' => true,
        _ => false,
    }
}

fn check_flags(pattern: &str, start: usize) -> (flags: bool)
    requires
        start <= pattern@.len(),
    ensures
        flags == holds_flags(pattern@, start as int),
{
    let length: usize = pattern.unicode_len();
    let mut at: usize = start;
    while at < length
        invariant
            length == pattern@.len(),
            at <= length,
            holds_flags(pattern@, start as int) == holds_flags(pattern@, at as int),
        decreases length - at,
    {
        let letter: char = pattern.get_char(at);
        if letter == ':' || letter == ')' {
            return true;
        }
        if letter != 'i' && letter != 'm' && letter != 's' && letter != 'U' && letter != 'u'
            && letter != '-' {
            return false;
        }
        at += 1;
    }
    false
}

fn check_opening(pattern: &str, at: usize) -> (plain: bool)
    requires
        at <= pattern@.len(),
    ensures
        plain == opens_plainly(pattern@, at as int),
{
    let length: usize = pattern.unicode_len();
    if at == length {
        return false;
    }
    match pattern.get_char(at) {
        '=' | '!' | '<' => true,
        'P' => length - at > 1 && pattern.get_char(at + 1) == '<',
        _ => check_flags(pattern, at),
    }
}

fn check_plus(pattern: &str, at: usize) -> (follows: bool)
    requires
        0 < at < pattern@.len(),
        !is_escaped(pattern@, at - 1),
    ensures
        follows == may_follow_quantifier(pattern@, at as int),
{
    match pattern.get_char(at - 1) {
        '+' | '*' | '?' => true,
        '}' => at > 1 && {
            let inside: char = pattern.get_char(at - 2);
            '0' <= inside && inside <= '9' || inside == ','
        },
        _ => false,
    }
}

fn check_construct(pattern: &str, at: usize, follows_escape: bool) -> (ordinary: bool)
    requires
        at < pattern@.len(),
        !is_escaped(pattern@, at as int),
        follows_escape == is_escaped(pattern@, at - 1),
    ensures
        ordinary == is_ordinary_at(pattern@, at as int),
{
    let length: usize = pattern.unicode_len();
    match pattern.get_char(at) {
        '\\' => length - at > 1 && is_plain_escape_char(pattern.get_char(at + 1)),
        '(' => length - at == 1 || pattern.get_char(at + 1) != '?' || check_opening(
            pattern,
            at + 2,
        ),
        '+' => at == 0 || follows_escape || !check_plus(pattern, at),
        _ => true,
    }
}

/// Whether an expression is made of plain constructs alone.
pub fn check_expression(pattern: &str) -> (ordinary: bool)
    ensures
        ordinary == is_ordinary(pattern@),
{
    let length: usize = pattern.unicode_len();
    let mut at: usize = 0;
    let mut escaped: bool = false;
    let mut follows_escape: bool = false;
    while at < length
        invariant
            length == pattern@.len(),
            at <= length,
            escaped == is_escaped(pattern@, at as int),
            follows_escape == is_escaped(pattern@, at - 1),
            forall|i: int| 0 <= i < at ==> #[trigger] is_ordinary_at(pattern@, i),
        decreases length - at,
    {
        if !escaped && !check_construct(pattern, at, follows_escape) {
            assert(!is_ordinary_at(pattern@, at as int));
            return false;
        }
        follows_escape = escaped;
        escaped = !escaped && pattern.get_char(at) == '\\';
        at += 1;
    }
    true
}

fn opens_lookaround(pattern: &str, at: usize) -> (opens: bool)
    requires
        at < pattern@.len(),
    ensures
        opens == looks_around_at(pattern@, at as int),
{
    let length: usize = pattern.unicode_len();
    match pattern.get_char(at) {
        '(' => length - at > 2 && pattern.get_char(at + 1) == '?' && match pattern.get_char(at + 2) {
            '=' | '!' => true,
            '<' => length - at > 3 && (pattern.get_char(at + 3) == '=' || pattern.get_char(at + 3)
                == '!'),
            _ => false,
        },
        '\\' => length - at > 1 && match pattern.get_char(at + 1) {
            'b' | 'B' | '<' | '>' => true,
            _ => false,
        },
        _ => false,
    }
}

/// Whether an ordinary expression may match nothing before the first character
/// of a text.
pub fn expression_may_match_nothing(pattern: &str) -> (may: bool)
    requires
        is_ordinary(pattern@),
    ensures
        may == may_match_nothing(pattern@),
{
    let length: usize = pattern.unicode_len();
    let mut at: usize = 0;
    while at < length
        invariant
            length == pattern@.len(),
            at <= length,
            forall|i: int| 0 <= i < at ==> !#[trigger] looks_around_at(pattern@, i),
        decreases length - at,
    {
        if opens_lookaround(pattern, at) {
            return true;
        }
        at += 1;
    }
    finds_in_empty_text(pattern)
}

/// A backslash makes the character behind it part of an escape, unless it is part
/// of one itself.
pub proof fn escapes_come_in_pairs(pattern: Seq<char>, at: int)
    requires
        0 <= at < pattern.len(),
    ensures
        !is_escaped(pattern, 0),
        pattern[at] != '\\' ==> !is_escaped(pattern, at + 1),
        pattern[at] == '\\' ==> (is_escaped(pattern, at + 1) <==> !is_escaped(pattern, at)),
{
}

/// Every printable ASCII character may be escaped but digits, which refer to
/// groups, and the letters that have no escape or one that refers to a group or to
/// where matches start. No other character may.
pub proof fn plain_escapes_are_these(letter: char)
    ensures
        '0' <= letter <= '9' ==> !is_plain_escape(letter),
        letter < ' ' || letter > '~' ==> !is_plain_escape(letter),
        ' ' <= letter <= '~' && !('0' <= letter <= '9') && !('A' <= letter <= 'Z') && !('a'
            <= letter <= 'z') ==> is_plain_escape(letter),
        'A' <= letter <= 'Z' ==> (!is_plain_escape(letter) <==> letter == 'C' || 'E' <= letter
            <= 'G' || 'I' <= letter <= 'O' || letter == 'Q' || letter == 'R' || letter == 'T'
            || letter == 'V' || 'X' <= letter <= 'Z'),
        'a' <= letter <= 'z' ==> (!is_plain_escape(letter) <==> letter == 'c' || letter == 'g'
            || 'i' <= letter <= 'm' || letter == 'o' || letter == 'q' || letter == 'y'),
{
}

/// That letters from `at` on are flags, and what stands at `end` ends them.
pub open spec fn flags_end_at(pattern: Seq<char>, at: int, end: int) -> bool {
    &&& at <= end < pattern.len()
    &&& pattern[end] == ':' || pattern[end] == ')'
    &&& forall|i: int|
        at <= i < end ==> (#[trigger] pattern[i] == 'i' || pattern[i] == 'm' || pattern[i] == 's'
            || pattern[i] == 'U' || pattern[i] == 'u' || pattern[i] == '-')
}

/// Flags are any number of flag letters with a colon or a closing parenthesis
/// behind them.
pub proof fn flags_are_letters_with_an_end(pattern: Seq<char>, at: int)
    requires
        0 <= at,
    ensures
        holds_flags(pattern, at) <==> exists|end: int| flags_end_at(pattern, at, end),
    decreases pattern.len() - at,
{
    if at < pattern.len() {
        flags_are_letters_with_an_end(pattern, at + 1);
        if holds_flags(pattern, at) {
            if pattern[at] == ':' || pattern[at] == ')' {
                assert(flags_end_at(pattern, at, at));
            } else {
                let next = at + 1;
                let end = choose|end: int| flags_end_at(pattern, next, end);
                assert(flags_end_at(pattern, at, end));
            }
        }
        if exists|end: int| flags_end_at(pattern, at, end) {
            let end = choose|end: int| flags_end_at(pattern, at, end);
            if at < end {
                assert(is_flag(pattern[at]));
                assert(flags_end_at(pattern, at + 1, end));
            }
        }
    }
}

/// That what is written from `at` on starts plainly: a backslash stands before a
/// character that may be escaped, a parenthesis with a question mark opens a
/// lookaround, a named group or flags, and a plus does not stand behind a
/// quantifier.
pub open spec fn starts_plainly(pattern: Seq<char>, at: int) -> bool {
    let rest = pattern.skip(at);
    &&& rest[0] == '\\' ==> rest.len() > 1 && is_plain_escape(rest[1])
    &&& rest[0] == '(' && rest.len() > 1 && rest[1] == '?' ==> rest.len() > 2 && {
        ||| rest[2] == '=' || rest[2] == '!' || rest[2] == '<'
        ||| rest[2] == 'P' && rest.len() > 3 && rest[3] == '<'
        ||| exists|end: int| flags_end_at(rest, 2, end)
    }
    &&& rest[0] == '+' && at > 0 && !is_escaped(pattern, at - 1) ==> {
        let before = pattern[at - 1];
        &&& before != '+' && before != '*' && before != '?'
        &&& before == '}' && at > 1 ==> pattern[at - 2] != ',' && !('0' <= pattern[at - 2]
            <= '9')
    }
}

/// An expression is ordinary exactly where everything outside of escapes starts
/// plainly.
pub proof fn ordinary_expressions_hold_plain_constructs(pattern: &str, ordinary: bool)
    requires
        call_ensures(check_expression, (pattern,), ordinary),
    ensures
        ordinary <==> forall|at: int|
            0 <= at < pattern@.len() && !is_escaped(pattern@, at) ==> #[trigger] starts_plainly(
                pattern@,
                at,
            ),
{
    let text = pattern@;
    assert forall|at: int| 0 <= at < text.len() implies #[trigger] is_ordinary_at(text, at) == (
    is_escaped(text, at) || starts_plainly(text, at)) by {
        flags_are_letters_with_an_end(text, at + 2);
        let behind = at + 2;
        let rest = text.skip(at);
        if exists|end: int| flags_end_at(text, behind, end) {
            let end = choose|end: int| flags_end_at(text, behind, end);
            assert(flags_end_at(rest, 2, end - at)) by {
                assert forall|i: int| 2 <= i < end - at implies (#[trigger] rest[i] == 'i'
                    || rest[i] == 'm' || rest[i] == 's' || rest[i] == 'U' || rest[i] == 'u'
                    || rest[i] == '-') by {
                    assert(rest[i] == text[at + i]);
                }
            }
        }
        if exists|end: int| flags_end_at(rest, 2, end) {
            let end = choose|end: int| flags_end_at(rest, 2, end);
            assert(flags_end_at(text, behind, end + at)) by {
                assert forall|i: int| behind <= i < end + at implies (#[trigger] text[i] == 'i'
                    || text[i] == 'm' || text[i] == 's' || text[i] == 'U' || text[i] == 'u'
                    || text[i] == '-') by {
                    assert(rest[i - at] == text[i]);
                }
            }
        }
    }
    if ordinary {
        assert forall|at: int| 0 <= at < text.len() && !is_escaped(text, at) implies
            #[trigger] starts_plainly(text, at) by {
            assert(is_ordinary_at(text, at));
        }
    } else {
        let at = choose|at: int| 0 <= at < text.len() && !#[trigger] is_ordinary_at(text, at);
        assert(!starts_plainly(text, at));
    }
}

/// An expression without backslashes, parentheses and pluses is ordinary.
pub proof fn simple_expressions_are_ordinary(pattern: &str, ordinary: bool)
    requires
        call_ensures(check_expression, (pattern,), ordinary),
        forall|i: int|
            0 <= i < pattern@.len() ==> #[trigger] pattern@[i] != '\\' && pattern@[i] != '('
                && pattern@[i] != '+',
    ensures
        ordinary,
{
    assert forall|at: int| 0 <= at < pattern@.len() implies #[trigger] is_ordinary_at(
        pattern@,
        at,
    ) by {
        assert(pattern@[at] != '\\' && pattern@[at] != '(' && pattern@[at] != '+');
    }
}

/// An expression may match nothing where it opens a lookahead or a lookbehind or
/// escapes a word edge, and otherwise exactly where it matches the empty text.
pub proof fn expressions_match_nothing_where_they_look_around(pattern: &str, may: bool)
    requires
        call_ensures(expression_may_match_nothing, (pattern,), may),
    ensures
        may <==> {
            ||| matches_empty_text(pattern@)
            ||| exists|at: int|
                0 <= at && #[trigger] opens_look(pattern@, at)
        },
{
    assert forall|at: int| 0 <= at < pattern@.len() implies #[trigger] looks_around_at(
        pattern@,
        at,
    ) == opens_look(pattern@, at) by {}
    if looks_around(pattern@) {
        let at = choose|at: int| 0 <= at < pattern@.len() && looks_around_at(pattern@, at);
        assert(opens_look(pattern@, at));
    }
    if exists|at: int| 0 <= at && #[trigger] opens_look(pattern@, at) {
        let at = choose|at: int| 0 <= at && #[trigger] opens_look(pattern@, at);
        assert(looks_around_at(pattern@, at));
    }
}

/// That a lookahead, a lookbehind or the escape of a word edge is written from
/// `at` on.
pub open spec fn opens_look(pattern: Seq<char>, at: int) -> bool {
    ||| starts_with_at(pattern, at, seq!['(', '?', '='])
    ||| starts_with_at(pattern, at, seq!['(', '?', '!'])
    ||| starts_with_at(pattern, at, seq!['(', '?', '<', '='])
    ||| starts_with_at(pattern, at, seq!['(', '?', '<', '!'])
    ||| starts_with_at(pattern, at, seq!['\\', 'b'])
    ||| starts_with_at(pattern, at, seq!['\\', 'B'])
    ||| starts_with_at(pattern, at, seq!['\\', '<'])
    ||| starts_with_at(pattern, at, seq!['\\', '>'])
}

/// That a text stands in another from `at` on.
pub open spec fn starts_with_at(pattern: Seq<char>, at: int, part: Seq<char>) -> bool {
    at + part.len() <= pattern.len() && forall|i: int|
        0 <= i < part.len() ==> #[trigger] part[i] == pattern[at + i]
}

} // verus!
