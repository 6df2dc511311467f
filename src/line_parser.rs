//! Source lines: an optional label, then whitespace and `command=operand` tokens.
use crate::error::AssemblyError;
use crate::expression::{Expr, SpecExpr};
use crate::operand_parser::{expr_at, is_alpha, is_ident_char};
use crate::source_text::{comment_start, remove_after_double_semicolon};
use crate::statement::{statement_view, statements_view, Line, SpecStatement, Statement};
use crate::text::text_of;
use vstd::prelude::*;

verus! {

/// Whether `c` is white space in Unicode's sense.
pub uninterp spec fn unicode_whitespace(c: char) -> bool;

/// Relies on `char::is_whitespace`: Unicode's White_Space property, which on ASCII holds of
/// space, tab, line feed, vertical tab, form feed and carriage return alone.
#[verifier::external_body]
fn char_is_whitespace(c: char) -> (r: bool)
    ensures
        r == unicode_whitespace(c),
        (c as u32) < 128 ==> (r <==> (c == ' ' || c == '\t' || c == '\n' || c == '\x0b' || c
            == '\x0c' || c == '\r')),
{
    c.is_whitespace()
}

/// The end of the label at the start of a line: a letter or `.`, then letters, digits and
/// `_`; 0 where the line has no label.
pub open spec fn label_end(s: Seq<char>) -> int {
    if s.len() > 0 && (is_alpha(s[0]) || s[0] == '.') {
        crate::operand_parser::run_end(s, 1, s.len() as int, crate::operand_parser::IDENT_CHARS)
    } else {
        0
    }
}

/// The index of the first `"` at or after `i`.
pub open spec fn quote_at_or_after(s: Seq<char>, i: int) -> Option<int>
    decreases s.len() - i,
{
    if i < 0 || i >= s.len() {
        None
    } else if s[i] == '"' {
        Some(i)
    } else {
        quote_at_or_after(s, i + 1)
    }
}

/// The end of the token that goes on at `i`: it runs over characters other than white space,
/// and over a quoted string (white space included) where the quote is closed.
pub open spec fn token_end(s: Seq<char>, i: int) -> int
    decreases s.len() - i,
{
    if i < 0 || i >= s.len() {
        i
    } else if s[i] == '"' && (quote_at_or_after(s, i + 1) matches Some(q) && i < q < s.len()) {
        token_end(s, quote_at_or_after(s, i + 1)->Some_0 + 1)
    } else if unicode_whitespace(s[i]) {
        i
    } else {
        token_end(s, i + 1)
    }
}

/// The tokens of `s` from `i` on, separated by white space.
pub open spec fn tokens_from(s: Seq<char>, i: int) -> Seq<Seq<char>>
    decreases s.len() - i, 1int,
{
    if i < 0 || i >= s.len() {
        seq![]
    } else if unicode_whitespace(s[i]) {
        tokens_from(s, i + 1)
    } else if i < token_end(s, i) <= s.len() {
        seq![s.subrange(i, token_end(s, i))] + tokens_from(s, token_end(s, i))
    } else {
        seq![]
    }
}

/// The index of the first `=` in `t`, if any.
pub open spec fn first_equals(t: Seq<char>, i: int) -> Option<int>
    decreases t.len() - i,
{
    if i < 0 || i >= t.len() {
        None
    } else if t[i] == '=' {
        Some(i)
    } else {
        first_equals(t, i + 1)
    }
}

/// The command text and operand text of a token: what stands before and after its first `=`
/// where both are non-empty; otherwise the first character alone, with no operand.
pub open spec fn token_parts(t: Seq<char>) -> (Seq<char>, Seq<char>) {
    match first_equals(t, 0) {
        Some(p) => if 0 < p < t.len() - 1 {
            (t.subrange(0, p), t.subrange(p + 1, t.len() as int))
        } else {
            (t.subrange(0, 1), seq![])
        },
        None => (t.subrange(0, 1), seq![]),
    }
}

/// An operand text parsed; the empty text is the empty operand.
pub open spec fn operand_of(t: Seq<char>) -> Option<SpecExpr> {
    if t.len() == 0 {
        Some(SpecExpr::Empty)
    } else {
        match expr_at(t, 0) {
            Some((e, _)) => Some(e),
            None => None,
        }
    }
}

/// The statement that a token writes.
pub open spec fn token_statement(t: Seq<char>) -> Option<SpecStatement> {
    let (c, o) = token_parts(t);
    if t.len() == 0 {
        None
    } else {
    match (operand_of(c), operand_of(o)) {
        (Some(ce), Some(oe)) => Some((ce, oe)),
        _ => None,
    }
    }
}

/// The statements that the tokens write, in order.
pub open spec fn tokens_statements(ts: Seq<Seq<char>>) -> Option<Seq<SpecStatement>>
    decreases ts.len(),
{
    if ts.len() == 0 {
        Some(seq![])
    } else {
        match (tokens_statements(ts.drop_last()), token_statement(ts.last())) {
            (Some(a), Some(b)) => Some(a.push(b)),
            _ => None,
        }
    }
}

/// The body of a line: what follows the label where white space follows it.
pub open spec fn body_tokens(s: Seq<char>) -> Seq<Seq<char>> {
    let l = label_end(s);
    if 0 <= l < s.len() && unicode_whitespace(s[l]) {
        tokens_from(s.subrange(l, s.len() as int), 0)
    } else {
        seq![]
    }
}

fn chars_of(text: &str) -> (r: Vec<char>)
    ensures
        r@ == text@,
{
    let n = text.unicode_len();
    let mut r: Vec<char> = Vec::new();
    let mut i: usize = 0;
    while i < n
        invariant
            n == text@.len(),
            i <= n,
            r@ == text@.subrange(0, i as int),
        decreases n - i,
    {
        r.push(text.get_char(i));
        i += 1;
        assert(r@ =~= text@.subrange(0, i as int));
    }
    assert(text@.subrange(0, n as int) =~= text@);
    r
}

fn find_quote(s: &Vec<char>, i: usize) -> (r: Option<usize>)
    ensures
        match quote_at_or_after(s@, i as int) {
            Some(q) => r == Some(q as usize) && i <= q < s@.len(),
            None => r is None,
        },
{
    let mut k = i;
    while k < s.len()
        invariant
            i <= k,
            quote_at_or_after(s@, i as int) == quote_at_or_after(s@, k as int),
        decreases s@.len() - k,
    {
        if s[k] == '"' {
            return Some(k);
        }
        k += 1;
    }
    None
}

proof fn lemma_quote_bounds(s: Seq<char>, i: int)
    requires
        0 <= i,
    ensures
        quote_at_or_after(s, i) matches Some(q) ==> i <= q < s.len(),
    decreases s.len() - i,
{
    if i < s.len() && s[i] != '"' {
        lemma_quote_bounds(s, i + 1);
    }
}

fn token_stop(s: &Vec<char>, i: usize) -> (r: usize)
    requires
        i <= s@.len(),
    ensures
        r as int == token_end(s@, i as int),
        i <= r <= s@.len(),
{
    let mut k = i;
    while k < s.len()
        invariant
            i <= k <= s@.len(),
            token_end(s@, i as int) == token_end(s@, k as int),
        decreases s@.len() - k,
    {
        if s[k] == '"' {
            if let Some(q) = find_quote(s, k + 1) {
                k = q + 1;
                continue;
            }
        }
        proof {
            lemma_quote_bounds(s@, k + 1);
        }
        if char_is_whitespace(s[k]) {
            return k;
        }
        k += 1;
    }
    k
}

/// The tokens of the text after the label: each run of characters other than white space,
/// where a quoted string may hold white space.
pub fn tokenize(text: &str) -> (r: Vec<String>)
    ensures
        r@.map_values(|t: String| t@) == tokens_from(text@, 0),
{
    let s = chars_of(text);
    let mut r: Vec<String> = Vec::new();
    let mut i: usize = 0;
    while i < s.len()
        invariant
            s@ == text@,
            i <= s@.len(),
            tokens_from(s@, 0) == r@.map_values(|t: String| t@) + tokens_from(s@, i as int),
        decreases s@.len() - i,
    {
        if char_is_whitespace(s[i]) {
            i += 1;
        } else {
            let j = token_stop(&s, i);
            if j == i {
                assert(tokens_from(s@, i as int) =~= seq![]);
                assert(tokens_from(s@, 0) =~= r@.map_values(|t: String| t@) + tokens_from(
                    s@,
                    s@.len() as int,
                ));
                i = s.len();
            } else {
                let ghost before = r@;
                r.push(text_of(text.substring_char(i, j)));
                assert(r@.map_values(|t: String| t@) =~= before.map_values(|t: String| t@).push(
                    s@.subrange(i as int, j as int),
                ));
                assert(tokens_from(s@, 0) =~= r@.map_values(|t: String| t@) + tokens_from(
                    s@,
                    j as int,
                ));
                i = j;
            }
        }
    }
    assert(r@.map_values(|t: String| t@) + tokens_from(s@, i as int) =~= r@.map_values(
        |t: String| t@,
    ));
    r
}

fn first_equals_of(s: &Vec<char>) -> (r: Option<usize>)
    ensures
        match first_equals(s@, 0) {
            Some(p) => r == Some(p as usize) && 0 <= p < s@.len(),
            None => r is None,
        },
{
    let mut k: usize = 0;
    while k < s.len()
        invariant
            first_equals(s@, 0) == first_equals(s@, k as int),
        decreases s@.len() - k,
    {
        if s[k] == '=' {
            return Some(k);
        }
        k += 1;
    }
    None
}

proof fn lemma_first_equals_bounds(s: Seq<char>, i: int)
    requires
        0 <= i,
    ensures
        first_equals(s, i) matches Some(p) ==> i <= p < s.len(),
    decreases s.len() - i,
{
    if i < s.len() && s[i] != '=' {
        lemma_first_equals_bounds(s, i + 1);
    }
}

fn operand_text(text: &str) -> (r: Result<Expr, AssemblyError>)
    ensures
        match operand_of(text@) {
            Some(e) => r matches Ok(x) && x@ == e,
            None => r is Err,
        },
{
    Expr::parse(text)
}

/// The statement that a token writes: `command=operand`, split at the first `=`, or a
/// single command character.
pub fn parse_token(token: &str) -> (r: Result<Statement, AssemblyError>)
    ensures
        match token_statement(token@) {
            Some(st) => r matches Ok(x) && statement_view(x) == st,
            None => r is Err,
        },
{
    let s = chars_of(token);
    let n = s.len();
    if n == 0 {
        return Err(AssemblyError::token(token));
    }
    proof {
        lemma_first_equals_bounds(s@, 0);
    }
    let (command, operand) = match first_equals_of(&s) {
        Some(p) => if 0 < p && p < n - 1 {
            (token.substring_char(0, p), token.substring_char(p + 1, n))
        } else {
            (token.substring_char(0, 1), token.substring_char(0, 0))
        },
        None => (token.substring_char(0, 1), token.substring_char(0, 0)),
    };
    assert(operand@ =~= token_parts(token@).1);
    assert(command@ =~= token_parts(token@).0);
    let command = operand_text(command)?;
    let expression = operand_text(operand)?;
    Ok(Statement { command, expression })
}

/// The statements that the tokens write, in order.
pub fn parse_statements(tokens: Vec<String>) -> (r: Result<Vec<Statement>, AssemblyError>)
    ensures
        match tokens_statements(tokens@.map_values(|t: String| t@)) {
            Some(sts) => r matches Ok(v) && statements_view(v@) == sts,
            None => r is Err,
        },
{
    let ghost ts = tokens@.map_values(|t: String| t@);
    let mut statements: Vec<Statement> = Vec::new();
    let mut i: usize = 0;
    while i < tokens.len()
        invariant
            ts == tokens@.map_values(|t: String| t@),
            i <= tokens@.len(),
            tokens_statements(ts.subrange(0, i as int)) == Some(statements_view(statements@)),
        decreases tokens@.len() - i,
    {
        assert(ts.subrange(0, i + 1).drop_last() =~= ts.subrange(0, i as int));
        match parse_token(tokens[i].as_str()) {
            Ok(statement) => {
                let ghost before = statements@;
                statements.push(statement);
                assert(statements_view(statements@) =~= statements_view(before).push(
                    statement_view(statement),
                ));
            },
            Err(e) => {
                proof {
                    lemma_statements_prefix(ts, i as int + 1);
                }
                return Err(e);
            },
        }
        i += 1;
    }
    assert(ts.subrange(0, i as int) =~= ts);
    Ok(statements)
}

proof fn lemma_statements_prefix(ts: Seq<Seq<char>>, k: int)
    requires
        0 <= k <= ts.len(),
        tokens_statements(ts.subrange(0, k)) is None,
    ensures
        tokens_statements(ts) is None,
    decreases ts.len() - k,
{
    if k < ts.len() {
        assert(ts.subrange(0, k + 1).drop_last() =~= ts.subrange(0, k));
        lemma_statements_prefix(ts, k + 1);
    } else {
        assert(ts.subrange(0, k) =~= ts);
    }
}

/// A source line without its comment.
pub open spec fn code_of(line: Seq<char>) -> Seq<char> {
    line.subrange(0, comment_start(line, 0, false))
}

/// The label of a line, if it has one.
pub open spec fn label_of(s: Seq<char>) -> Option<Seq<char>> {
    if label_end(s) > 0 {
        Some(s.subrange(0, label_end(s)))
    } else {
        None
    }
}

/// Parses a source line: its comment dropped, its label, and the statements of its tokens.
pub fn parse_line(line: &str, line_num: usize) -> (r: Result<Line, AssemblyError>)
    ensures
        ({
            let c = code_of(line@);
            match tokens_statements(body_tokens(c)) {
                Some(sts) => r matches Ok(l) && l.line_number == line_num && l.address == 0
                    && (match l.label {
                    Some(x) => label_of(c) == Some(x@),
                    None => label_of(c) is None,
                }) && statements_view(l.statements@) == sts && l.object_codes@.len() == 0,
                None => r matches Err(e) && e is Syntax,
            }
        }),
{
    let code = remove_after_double_semicolon(line);
    let text = code.as_str();
    let s = chars_of(text);
    let n = s.len();
    let l = if n > 0 && (('a' <= s[0] && s[0] <= 'z') || ('A' <= s[0] && s[0] <= 'Z') || s[0]
        == '.') {
        crate::operand_parser::scan_run(&s, 1, n, crate::operand_parser::IDENT_CHARS)
    } else {
        0
    };
    let label = if l > 0 {
        Some(text_of(text.substring_char(0, l)))
    } else {
        None
    };
    let tokens = if l < n && char_is_whitespace(s[l]) {
        tokenize(text.substring_char(l, n))
    } else {
        let v = Vec::new();
        assert(v@.map_values(|t: String| t@) =~= seq![]);
        v
    };
    match parse_statements(tokens) {
        Ok(statements) => Ok(Line::new(line_num, 0, label, statements, Vec::new())),
        Err(e) => Err(AssemblyError::line(line_num, e.message())),
    }
}

/// The end of the run of white space from `i`.
pub open spec fn space_end(s: Seq<char>, i: int) -> int
    decreases s.len() - i,
{
    if i < 0 || i >= s.len() || !unicode_whitespace(s[i]) {
        i
    } else {
        space_end(s, i + 1)
    }
}

/// The file that an include directive names: white space, `+="name"`, and nothing after it
/// but white space; the name is not empty.
pub open spec fn include_target(s: Seq<char>) -> Option<Seq<char>> {
    let a = space_end(s, 0);
    if a == 0 || !(a + 2 < s.len() && s[a] == '+' && s[a + 1] == '=' && s[a + 2] == '"') {
        None
    } else {
        match quote_at_or_after(s, a + 3) {
            Some(q) => if q > a + 3 && space_end(s, q + 1) == s.len() {
                Some(s.subrange(a + 3, q))
            } else {
                None
            },
            None => None,
        }
    }
}

fn space_stop(s: &Vec<char>, i: usize) -> (r: usize)
    requires
        i <= s@.len(),
    ensures
        r == space_end(s@, i as int),
        i <= r <= s@.len(),
{
    let mut k = i;
    while k < s.len() && char_is_whitespace(s[k])
        invariant
            i <= k <= s@.len(),
            space_end(s@, i as int) == space_end(s@, k as int),
        decreases s@.len() - k,
    {
        k += 1;
    }
    k
}

/// The file named by an include directive line, if the line is one.
pub fn detect_include_directive(line: &str) -> (r: Option<String>)
    ensures
        match include_target(line@) {
            Some(name) => r matches Some(x) && x@ == name,
            None => r is None,
        },
{
    let s = chars_of(line);
    let n = s.len();
    let a = space_stop(&s, 0);
    if a == 0 || !(n - a > 2 && s[a] == '+' && s[a + 1] == '=' && s[a + 2] == '"') {
        return None;
    }
    proof {
        lemma_quote_bounds(s@, a + 3);
    }
    match find_quote(&s, a + 3) {
        Some(q) => if q > a + 3 && space_stop(&s, q + 1) == n {
            Some(text_of(line.substring_char(a + 3, q)))
        } else {
            None
        },
        None => None,
    }
}

} // verus!
