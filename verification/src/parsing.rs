use core::convert::Infallible;
use core::ops::ControlFlow;
use vstd::prelude::*;
use vstd::std_specs::iter::IteratorSpec;
use vstd::string::StrSliceExecFns;
use vstd::string::StringSliceAdditionalSpecFns;
use vstd::utf8::is_char_boundary;

use crate::residual::TryxResidual;

verus! {

broadcast use vstd::string::group_string_axioms;

/// Number of bytes of the offending input that a failure keeps.
pub const FOUND_LIMIT: usize = 16;

/// Parser outcome carrying the parsed value and remaining input.
#[derive(Debug, Clone, PartialEq, Eq)]
pub enum Parsing<'a, T> {
    Done { value: T, rest: &'a str },
    Failed(ParseFailure<'a>),
}

/// Borrowed parse failure.
#[derive(Debug, Clone, PartialEq, Eq)]
pub struct ParseFailure<'a> {
    pub position: usize,
    pub expected: &'static str,
    pub found: &'a str,
}

impl TryxResidual for ParseFailure<'_> {}

/// Owned parse error for escaping borrowed parser lifetimes.
#[derive(Debug, Clone, PartialEq, Eq)]
pub struct ParseError {
    pub position: usize,
    pub expected: &'static str,
    pub found: String,
}

/// A failure rendered against the source text it was found in.
pub struct ParseDisplay<'s, 'a> {
    failure: &'s ParseFailure<'a>,
    source: &'s str,
}

impl<'a, T> Parsing<'a, T> {
    /// Transform a parsed value; the remaining input is kept.
    pub fn map<U>(self, f: impl FnOnce(T) -> U) -> (res: Parsing<'a, U>)
        requires
            self matches Parsing::Done { value, rest } ==> call_requires(f, (value,)),
        ensures
            match self {
                Parsing::Done { value, rest } => res matches Parsing::Done { value: u, rest: r }
                    && r == rest && call_ensures(f, (value,), u),
                Parsing::Failed(failure) => res == Parsing::<'a, U>::Failed(failure),
            },
    {
        match self {
            Parsing::Done { value, rest } => Parsing::Done { value: f(value), rest },
            Parsing::Failed(failure) => Parsing::Failed(failure),
        }
    }

    /// Chain another parser after a successful parse; it receives the value
    /// and the remaining input.
    pub fn and_then<U>(self, f: impl FnOnce(T, &'a str) -> Parsing<'a, U>) -> (res: Parsing<'a, U>)
        requires
            self matches Parsing::Done { value, rest } ==> call_requires(f, (value, rest)),
        ensures
            match self {
                Parsing::Done { value, rest } => call_ensures(f, (value, rest), res),
                Parsing::Failed(failure) => res == Parsing::<'a, U>::Failed(failure),
            },
    {
        match self {
            Parsing::Done { value, rest } => f(value, rest),
            Parsing::Failed(failure) => Parsing::Failed(failure),
        }
    }

    /// Wrap the value and remaining input that `?` continues with.
    #[verifier::allow_in_spec]
    pub fn from_output(output: (T, &'a str)) -> Self
        returns
            (Self::Done { value: output.0, rest: output.1 }),
    {
        let (value, rest) = output;
        Parsing::Done { value, rest }
    }

    /// Split into the value and remaining input that continue, or the
    /// failure that short-circuits.
    #[verifier::allow_in_spec]
    pub fn branch(self) -> ControlFlow<ParseFailure<'a>, (T, &'a str)>
        returns
            match self {
                Parsing::Done { value, rest } => ControlFlow::Continue((value, rest)),
                Parsing::Failed(failure) => ControlFlow::Break(failure),
            },
    {
        match self {
            Parsing::Done { value, rest } => ControlFlow::Continue((value, rest)),
            Parsing::Failed(failure) => ControlFlow::Break(failure),
        }
    }

    /// Rebuild the outcome that a short-circuit carried out.
    #[verifier::allow_in_spec]
    pub fn from_residual(residual: ParseFailure<'a>) -> Self
        returns
            Parsing::<'a, T>::Failed(residual),
    {
        Parsing::Failed(residual)
    }

    /// Absorb a `Result` that failed with a borrowed parse failure.
    pub fn from_error_residual(residual: Result<Infallible, ParseFailure<'a>>) -> (res: Self)
        ensures
            residual matches Err(e) ==> res == Parsing::<'a, T>::Failed(e),
    {
        match residual {
            Err(failure) => Parsing::Failed(failure),
        }
    }
}

/// `error` owns what `failure` borrows.
pub open spec fn owns_failure(error: ParseError, failure: ParseFailure) -> bool {
    &&& error.position == failure.position
    &&& error.expected == failure.expected
    &&& error.found@ == failure.found@
}

impl<'a> ParseFailure<'a> {
    /// Convert the borrowed failure into an owned error.
    pub fn to_error(&self) -> (error: ParseError)
        ensures
            owns_failure(error, *self),
    {
        ParseError { position: self.position, expected: self.expected, found: self.found.to_string() }
    }

    /// Return a display wrapper that renders this failure against `source`.
    pub fn display_with_source<'s>(&'s self, source: &'s str) -> (shown: ParseDisplay<'s, 'a>)
        ensures
            shown.failure() == self,
            shown.source() == source,
    {
        ParseDisplay { failure: self, source }
    }

    /// Absorb the failure into a `Result` whose error converts from the owned
    /// `ParseError`.
    pub fn into_result<T, E: From<ParseError>>(self) -> (res: Result<T, E>)
        ensures
            match res {
                Err(e) => exists|error: ParseError|
                    owns_failure(error, self) && #[trigger] call_ensures(E::from, (error,), e),
                Ok(_) => false,
            },
    {
        let error = self.to_error();
        let ghost owned = error;
        let res: Result<T, E> = Err(error.into());
        assert(owns_failure(owned, self) && call_ensures(E::from, (owned,), res->Err_0));
        res
    }
}

/// A run of `n` spaces.
pub open spec fn spaces(n: nat) -> Seq<char> {
    Seq::new(n, |i: int| ' ')
}

/// `source` on one line, then a caret under byte `position` naming what was expected.
pub open spec fn caret_diagnostic(source: Seq<char>, position: nat, expected: Seq<char>) -> Seq<char> {
    source + seq!['\n'] + spaces(position) + "^ expected "@ + expected + seq!['\n']
}

/// The decimal digit for `d`, which is below ten.
pub open spec fn digit_char(d: nat) -> char {
    if d == 0 { '0' } else if d == 1 { '1' } else if d == 2 { '2' } else if d == 3 { '3' }
    else if d == 4 { '4' } else if d == 5 { '5' } else if d == 6 { '6' } else if d == 7 { '7' }
    else if d == 8 { '8' } else { '9' }
}

/// The decimal notation of `n`, without leading zeros.
pub open spec fn decimal(n: nat) -> Seq<char>
    decreases n,
{
    if n < 10 {
        seq![digit_char(n)]
    } else {
        decimal(n / 10) + seq![digit_char(n % 10)]
    }
}

/// What `{:?}` prints for a string: the text in double quotes, with escapes.
pub uninterp spec fn debug_quoted(text: Seq<char>) -> Seq<char>;

/// `format!("{:?}", text)`: the Debug rendering of a `str`, which quotes and
/// escapes it. Its result is named by `debug_quoted`; nothing more of the
/// escaping rules is stated.
#[verifier::external_body]
fn debug_quote(text: &str) -> (quoted: String)
    ensures
        quoted@ == debug_quoted(text@),
{
    format!("{:?}", text)
}

fn append_digit(out: &mut String, d: usize)
    requires
        d < 10,
    ensures
        final(out)@ == old(out)@.push(digit_char(d as nat)),
{
    proof {
        reveal_strlit("0");
        reveal_strlit("1");
        reveal_strlit("2");
        reveal_strlit("3");
        reveal_strlit("4");
        reveal_strlit("5");
        reveal_strlit("6");
        reveal_strlit("7");
        reveal_strlit("8");
        reveal_strlit("9");
    }
    let digit = if d == 0 { "0" } else if d == 1 { "1" } else if d == 2 { "2" } else if d == 3 { "3" }
        else if d == 4 { "4" } else if d == 5 { "5" } else if d == 6 { "6" } else if d == 7 { "7" }
        else if d == 8 { "8" } else { "9" };
    out.append(digit);
}

fn append_decimal(out: &mut String, n: usize)
    ensures
        final(out)@ == old(out)@ + decimal(n as nat),
    decreases n,
{
    if n >= 10 {
        append_decimal(out, n / 10);
    }
    append_digit(out, n % 10);
}

impl ParseError {
    /// The message this error displays.
    pub fn to_string(&self) -> (text: String)
        ensures
            text@ == "expected "@ + self.expected@ + " at byte "@ + decimal(self.position as nat)
                + ", found "@ + debug_quoted(self.found@),
    {
        let mut text = String::from_str("expected ");
        text.append(self.expected);
        text.append(" at byte ");
        append_decimal(&mut text, self.position);
        text.append(", found ");
        let quoted = debug_quote(self.found.as_str());
        text.append(quoted.as_str());
        text
    }
}

impl<'s, 'a> ParseDisplay<'s, 'a> {
    /// Render the source, then a caret under the failure's position naming
    /// what was expected.
    pub fn to_string(&self) -> (text: String)
        ensures
            text@ == caret_diagnostic(self.source()@, self.failure().position as nat, self.failure().expected@),
    {
        proof {
            reveal_strlit("\n");
        }
        let mut text = String::from_str(self.source);
        text.append("\n");
        let ghost head = text@;
        let mut column: usize = 0;
        while column < self.failure.position
            invariant
                column <= self.failure.position,
                text@ == head + spaces(column as nat),
            decreases self.failure.position - column,
        {
            proof {
                reveal_strlit(" ");
            }
            text.append(" ");
            column = column + 1;
            assert(text@ =~= head + spaces(column as nat));
        }
        text.append("^ expected ");
        text.append(self.failure.expected);
        text.append("\n");
        text
    }

    /// The failure being rendered.
    pub closed spec fn failure(&self) -> &'s ParseFailure<'a> {
        self.failure
    }

    /// The source text the failure is rendered against.
    pub closed spec fn source(&self) -> &'s str {
        self.source
    }
}

/// The first `FOUND_LIMIT` bytes of `bytes`, or all of them when there are fewer.
pub open spec fn found_prefix(bytes: Seq<u8>) -> Seq<u8> {
    if bytes.len() <= FOUND_LIMIT {
        bytes
    } else {
        bytes.subrange(0, FOUND_LIMIT as int)
    }
}

/// `found` can be cut to at most `FOUND_LIMIT` bytes without splitting a character.
pub open spec fn found_cut_ok(found: &str) -> bool {
    found.spec_bytes().len() <= FOUND_LIMIT || is_char_boundary(found.spec_bytes(), FOUND_LIMIT as int)
}

/// `f` reports `expected` at `position`, quoting the start of `found`.
pub open spec fn is_failure(f: ParseFailure, position: int, expected: &str, found: &str) -> bool {
    &&& f.position == position
    &&& f.expected@ == expected@
    &&& f.found.spec_bytes() == found_prefix(found.spec_bytes())
}

fn failure<'a>(
    _source: &'a str,
    position: usize,
    expected: &'static str,
    found: &'a str,
) -> (f: ParseFailure<'a>)
    requires
        found_cut_ok(found),
    ensures
        f.position == position,
        f.expected == expected,
        f.found.spec_bytes() == found_prefix(found.spec_bytes()),
{
    let cut = if found.as_bytes().len() <= FOUND_LIMIT {
        found
    } else {
        found.split_at(FOUND_LIMIT).0
    };
    ParseFailure { position, expected, found: cut }
}

/// Succeed with `()` exactly when no input is left.
pub fn eof(input: &str) -> (res: Parsing<'_, ()>)
    requires
        input@.len() == 0 || found_cut_ok(input),
    ensures
        input@.len() == 0 ==> res == (Parsing::Done { value: (), rest: input }),
        input@.len() != 0 ==> (res matches Parsing::Failed(f) && is_failure(f, 0, "end of input", input)),
{
    if input.is_empty() {
        Parsing::Done { value: (), rest: input }
    } else {
        Parsing::Failed(failure(input, 0, "end of input", input))
    }
}

/// Take the longest prefix of `input` whose characters all satisfy `pred`;
/// this never fails.
pub fn take_while<'a>(input: &'a str, pred: impl Fn(char) -> bool) -> (res: Parsing<'a, &'a str>)
    requires
        forall|c: char| call_requires(pred, (c,)),
    ensures
        res matches Parsing::Done { value, rest } && value@ + rest@ == input@
            && (forall|j: int| 0 <= j < value@.len() ==> call_ensures(pred, (#[trigger] value@[j],), true))
            && (rest@.len() > 0 ==> call_ensures(pred, (rest@[0],), false)),
{
    let n = input.unicode_len();
    let ghost s = input@;
    let mut it = input.chars();
    let mut end: usize = 0;
    loop
        invariant_except_break
            it.remaining() == s.skip(end as int),
        invariant
            n == s.len(),
            s == input@,
            end <= n,
            forall|c: char| call_requires(pred, (c,)),
            forall|j: int| 0 <= j < end ==> call_ensures(pred, (#[trigger] s[j],), true),
        ensures
            end <= n,
            forall|j: int| 0 <= j < end ==> call_ensures(pred, (#[trigger] s[j],), true),
            end < n ==> call_ensures(pred, (s[end as int],), false),
        decreases n - end,
    {
        match it.next() {
            Some(ch) => {
                if pred(ch) {
                    end = end + 1;
                } else {
                    break;
                }
            },
            None => {
                break;
            },
        }
    }
    let value = input.substring_char(0, end);
    let rest = input.substring_char(end, n);
    assert(value@ + rest@ =~= input@);
    Parsing::Done { value, rest }
}

/// A character that may start an identifier.
pub open spec fn is_ident_start(c: char) -> bool {
    c == '_' || ('a' <= c && c <= 'z') || ('A' <= c && c <= 'Z')
}

/// A character that may continue an identifier.
pub open spec fn is_ident_char(c: char) -> bool {
    is_ident_start(c) || ('0' <= c && c <= '9')
}

fn ident_start(c: char) -> (b: bool)
    ensures
        b == is_ident_start(c),
{
    c == '_' || ('a' <= c && c <= 'z') || ('A' <= c && c <= 'Z')
}

fn ident_char(c: char) -> (b: bool)
    ensures
        b == is_ident_char(c),
{
    ident_start(c) || ('0' <= c && c <= '9')
}

/// The characters that a scan runs over.
enum Span {
    IdentChars,
    NonQuotes,
}

spec fn span_accepts(span: Span, c: char) -> bool {
    match span {
        Span::IdentChars => is_ident_char(c),
        Span::NonQuotes => c != '"',
    }
}

/// Index of the first character at or after `start` that `span` does not
/// accept, or `n` when there is none.
fn scan(input: &str, n: usize, start: usize, span: Span) -> (end: usize)
    requires
        n == input@.len(),
        start <= n,
    ensures
        start <= end <= n,
        forall|j: int| start <= j < end ==> span_accepts(span, #[trigger] input@[j]),
        end < n ==> !span_accepts(span, input@[end as int]),
{
    let ghost s = input@;
    let mut it = input.chars();
    let mut skipped: usize = 0;
    while skipped < start
        invariant
            s == input@,
            n == s.len(),
            skipped <= start <= n,
            it.remaining() == s.skip(skipped as int),
        decreases start - skipped,
    {
        let _ = it.next();
        skipped = skipped + 1;
    }
    let mut end: usize = start;
    loop
        invariant_except_break
            it.remaining() == s.skip(end as int),
        invariant
            s == input@,
            n == s.len(),
            start <= end <= n,
            forall|j: int| start <= j < end ==> span_accepts(span, #[trigger] s[j]),
        ensures
            start <= end <= n,
            forall|j: int| start <= j < end ==> span_accepts(span, #[trigger] s[j]),
            end < n ==> !span_accepts(span, s[end as int]),
        decreases n - end,
    {
        match it.next() {
            Some(ch) => {
                let accepted = match span {
                    Span::IdentChars => ident_char(ch),
                    Span::NonQuotes => ch != '"',
                };
                if accepted {
                    end = end + 1;
                } else {
                    break;
                }
            },
            None => {
                break;
            },
        }
    }
    end
}

/// `input` begins with `c`.
pub open spec fn starts_with_char(input: &str, c: char) -> bool {
    input@.len() > 0 && input@[0] == c
}

/// `input` begins with a character that may start an identifier.
pub open spec fn starts_ident(input: &str) -> bool {
    input@.len() > 0 && (input@[0] == '_' || ('a' <= input@[0] && input@[0] <= 'z')
        || ('A' <= input@[0] && input@[0] <= 'Z'))
}

/// Match `expected` as the first character of `input`.
pub fn literal(input: &str, expected: char) -> (res: Parsing<'_, char>)
    requires
        starts_with_char(input, expected) || found_cut_ok(input),
    ensures
        starts_with_char(input, expected) ==> (res matches Parsing::Done { value, rest }
            && value == expected && rest@ == input@.drop_first()),
        !starts_with_char(input, expected) ==> (res matches Parsing::Failed(f)
            && is_failure(f, 0, "literal", input)),
{
    let n = input.unicode_len();
    if n > 0 {
        let found = input.get_char(0);
        if found == expected {
            let rest = input.substring_char(1, n);
            return Parsing::Done { value: found, rest };
        }
    }
    Parsing::Failed(failure(input, 0, "literal", input))
}

/// Match an identifier: an ASCII letter or `_`, then as many ASCII letters,
/// digits and `_` as follow.
pub fn ident(input: &str) -> (res: Parsing<'_, &str>)
    requires
        starts_ident(input) || found_cut_ok(input),
    ensures
        starts_ident(input) ==> (res matches Parsing::Done { value, rest }
            && value@ + rest@ == input@
            && value@.len() >= 1
            && value@[0] == input@[0]
            && (forall|j: int| 1 <= j < value@.len() ==> #[trigger] value@[j] == '_'
                || ('a' <= value@[j] && value@[j] <= 'z') || ('A' <= value@[j] && value@[j] <= 'Z')
                || ('0' <= value@[j] && value@[j] <= '9'))
            && (rest@.len() > 0 ==> !(rest@[0] == '_'
                || ('a' <= rest@[0] && rest@[0] <= 'z') || ('A' <= rest@[0] && rest@[0] <= 'Z')
                || ('0' <= rest@[0] && rest@[0] <= '9')))),
        !starts_ident(input) ==> (res matches Parsing::Failed(f)
            && is_failure(f, 0, "identifier", input)),
{
    let n = input.unicode_len();
    if n == 0 || !ident_start(input.get_char(0)) {
        return Parsing::Failed(failure(input, 0, "identifier", input));
    }
    let end = scan(input, n, 1, Span::IdentChars);
    let value = input.substring_char(0, end);
    let rest = input.substring_char(end, n);
    assert(value@ + rest@ =~= input@);
    Parsing::Done { value, rest }
}

/// Match a double-quoted string and return the text between the quotes;
/// there are no escapes, so the string ends at the next `"`.
pub fn quoted_string(input: &str) -> (res: Parsing<'_, &str>)
    requires
        starts_with_char(input, '"') || found_cut_ok(input),
    ensures
        !starts_with_char(input, '"') ==> (res matches Parsing::Failed(f)
            && is_failure(f, 0, "quoted string", input)),
        starts_with_char(input, '"') && input@.drop_first().contains('"') ==> (res matches Parsing::Done { value, rest }
            && input@ == seq!['"'] + value@ + seq!['"'] + rest@
            && !value@.contains('"')),
        starts_with_char(input, '"') && !input@.drop_first().contains('"') ==> (res matches Parsing::Failed(f)
            && is_failure(f, input.spec_bytes().len() as int, "closing quote", "")),
{
    let n = input.unicode_len();
    if n == 0 || input.get_char(0) != '"' {
        return Parsing::Failed(failure(input, 0, "quoted string", input));
    }
    let end = scan(input, n, 1, Span::NonQuotes);
    if end == n {
        proof {
            reveal_strlit("");
            if input@.drop_first().contains('"') {
                let k = choose|k: int| 0 <= k < input@.drop_first().len() && input@.drop_first()[k] == '"';
                assert(input@[k + 1] == '"');
            }
        }
        return Parsing::Failed(failure(input, input.as_bytes().len(), "closing quote", ""));
    }
    let value = input.substring_char(1, end);
    let rest = input.substring_char(end + 1, n);
    proof {
        assert(input@ =~= seq!['"'] + value@ + seq!['"'] + rest@);
        assert(input@.drop_first().contains('"')) by {
            assert(input@.drop_first()[end - 1] == '"');
        }
        if value@.contains('"') {
            let k = choose|k: int| 0 <= k < value@.len() && value@[k] == '"';
            assert(input@[k + 1] == '"');
        }
    }
    Parsing::Done { value, rest }
}

} // verus!
