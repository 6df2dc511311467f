//! The operand grammar: the text of a command or operand parsed into an [`Expr`].
//!
//! An operand is a term, or a term, a binary operator and an operand (operators associate to
//! the right). A term is the first of these that matches: a decimal number, `$` and one to
//! four hex digits, `%` and one to sixteen binary digits, a character in single quotes,
//! `>label`, `<label`, an identifier, an operand in parentheses, an operand in brackets, a
//! run of system-operator characters, or a string in double quotes. Text after the operand
//! is ignored.
use crate::error::AssemblyError;
use crate::expression::{Expr, Operator, SpecExpr};
use vstd::prelude::*;

verus! {

pub open spec fn is_digit(c: char) -> bool {
    '0' <= c <= '9'
}

pub open spec fn is_alpha(c: char) -> bool {
    ('a' <= c <= 'z') || ('A' <= c <= 'Z')
}

pub open spec fn is_ident_char(c: char) -> bool {
    is_alpha(c) || is_digit(c) || c == '_'
}

pub open spec fn is_hex_digit(c: char) -> bool {
    is_digit(c) || ('a' <= c <= 'f') || ('A' <= c <= 'F')
}

pub open spec fn is_bin_digit(c: char) -> bool {
    c == '0' || c == '1'
}

pub open spec fn is_sysop_char(c: char) -> bool {
    c == '-' || c == '<' || c == '>' || c == '=' || c == '/' || c == '+' || c == '_' || c == '#'
        || c == '\\' || c == '!' || c == '^' || c == ':' || c == ';' || c == '*' || c == '@'
        || c == '?' || c == '$' || c == '&' || c == '(' || c == ')' || c == '[' || c == ']'
        || c == '~'
}

/// The operator a character stands for between two terms.
pub open spec fn operator_of(c: char) -> Option<Operator> {
    if c == '+' {
        Some(Operator::Add)
    } else if c == '-' {
        Some(Operator::Sub)
    } else if c == '*' {
        Some(Operator::Mul)
    } else if c == '/' {
        Some(Operator::Div)
    } else if c == '&' {
        Some(Operator::And)
    } else if c == '|' {
        Some(Operator::Or)
    } else if c == '^' {
        Some(Operator::Xor)
    } else if c == ',' {
        Some(Operator::Comma)
    } else if c == '>' {
        Some(Operator::Greater)
    } else if c == '<' {
        Some(Operator::Less)
    } else if c == '=' {
        Some(Operator::Equal)
    } else if c == '\\' {
        Some(Operator::NotEqual)
    } else {
        None
    }
}

/// The character classes that runs are made of.
pub const DIGITS: u8 = 0;

pub const HEX_DIGITS: u8 = 1;

pub const BIN_DIGITS: u8 = 2;

pub const IDENT_CHARS: u8 = 3;

pub const SYSOP_CHARS: u8 = 4;

pub open spec fn in_class(class: u8, c: char) -> bool {
    if class == DIGITS {
        is_digit(c)
    } else if class == HEX_DIGITS {
        is_hex_digit(c)
    } else if class == BIN_DIGITS {
        is_bin_digit(c)
    } else if class == IDENT_CHARS {
        is_ident_char(c)
    } else {
        is_sysop_char(c)
    }
}

/// The end of the longest run of characters of `class` from `i`, stopping at `limit`.
pub open spec fn run_end(s: Seq<char>, i: int, limit: int, class: u8) -> int
    decreases limit - i,
{
    if i < 0 || i >= limit || i >= s.len() || !in_class(class, s[i]) {
        i
    } else {
        run_end(s, i + 1, limit, class)
    }
}

/// The value of a digit in base 16 or lower.
pub open spec fn digit_value(c: char) -> nat {
    if is_digit(c) {
        (c as u32 - '0' as u32) as nat
    } else if 'a' <= c <= 'f' {
        (c as u32 - 'a' as u32 + 10) as nat
    } else {
        (c as u32 - 'A' as u32 + 10) as nat
    }
}

/// The number that the digits `s[i..j]` write in `base`.
pub open spec fn digits_value(s: Seq<char>, i: int, j: int, base: nat) -> nat
    decreases j - i,
{
    if j <= i {
        0
    } else {
        digits_value(s, i, j - 1, base) * base + digit_value(s[j - 1])
    }
}

/// The identifier that starts at `i`, and where it ends.
pub open spec fn identifier_at(s: Seq<char>, i: int) -> Option<(Seq<char>, int)> {
    if 0 <= i < s.len() && (is_alpha(s[i]) || s[i] == '_' || s[i] == '.') {
        let j = run_end(s, i + 1, s.len() as int, IDENT_CHARS);
        Some((s.subrange(i, j), j))
    } else {
        None
    }
}

/// The end of the body of a string literal that starts at `i` (after its opening quote): the
/// index of the closing quote; a backslash escapes a backslash or a quote.
pub open spec fn string_end(s: Seq<char>, i: int) -> Option<int>
    decreases s.len() - i,
{
    if i < 0 || i >= s.len() {
        None
    } else if s[i] == '"' {
        Some(i)
    } else if s[i] == '\\' {
        if i + 1 < s.len() && (s[i + 1] == '\\' || s[i + 1] == '"') {
            string_end(s, i + 2)
        } else {
            None
        }
    } else {
        string_end(s, i + 1)
    }
}

/// A number term at `i`: decimal, hex or binary.
pub open spec fn number_at(s: Seq<char>, i: int) -> Option<(SpecExpr, int)> {
    if !(0 <= i < s.len()) {
        None
    } else if is_digit(s[i]) {
        let j = run_end(s, i, s.len() as int, DIGITS);
        let v = digits_value(s, i, j, 10);
        if v <= 65535 {
            Some((SpecExpr::DecimalNum(v as u16), j))
        } else {
            None
        }
    } else if s[i] == '$' {
        let j = run_end(s, i + 1, i + 5, HEX_DIGITS);
        let v = digits_value(s, i + 1, j, 16);
        if j == i + 1 {
            None
        } else if j <= i + 3 {
            Some((SpecExpr::ByteNum(v as u8), j))
        } else {
            Some((SpecExpr::WordNum(v as u16), j))
        }
    } else if s[i] == '%' {
        let j = run_end(s, i + 1, i + 17, BIN_DIGITS);
        let v = digits_value(s, i + 1, j, 2);
        if j == i + 1 {
            None
        } else if j <= i + 9 {
            Some((SpecExpr::ByteNum(v as u8), j))
        } else {
            Some((SpecExpr::WordNum(v as u16), j))
        }
    } else {
        None
    }
}

/// A term at `i` that is not a number: character, byte of a label, identifier, parenthesized
/// or bracketed operand, system operator or string.
pub open spec fn term_at(s: Seq<char>, i: int) -> Option<(SpecExpr, int)>
    decreases s.len() - i, 0int,
{
    if !(0 <= i < s.len()) {
        None
    } else if number_at(s, i) is Some {
        number_at(s, i)
    } else if s[i] == '\'' && i + 2 < s.len() && s[i + 1] != '\'' && s[i + 2] == '\'' {
        Some((SpecExpr::ByteNum((s[i + 1] as u32 % 256) as u8), i + 3))
    } else if s[i] == '>' && identifier_at(s, i + 1) is Some {
        let (name, j) = identifier_at(s, i + 1)->Some_0;
        Some((SpecExpr::HiByte(Box::new(SpecExpr::Identifier(name))), j))
    } else if s[i] == '<' && identifier_at(s, i + 1) is Some {
        let (name, j) = identifier_at(s, i + 1)->Some_0;
        Some((SpecExpr::LoByte(Box::new(SpecExpr::Identifier(name))), j))
    } else if identifier_at(s, i) is Some {
        let (name, j) = identifier_at(s, i)->Some_0;
        Some((SpecExpr::Identifier(name), j))
    } else if s[i] == '(' && closed_at(s, i + 1, ')') is Some {
        let (e, j) = closed_at(s, i + 1, ')')->Some_0;
        Some((SpecExpr::Parenthesized(Box::new(e)), j))
    } else if s[i] == '[' && closed_at(s, i + 1, ']') is Some {
        let (e, j) = closed_at(s, i + 1, ']')->Some_0;
        Some((SpecExpr::Bracketed(Box::new(e)), j))
    } else if is_sysop_char(s[i]) {
        let j = run_end(s, i, s.len() as int, SYSOP_CHARS);
        Some((SpecExpr::SystemOperator(s.subrange(i, j)), j))
    } else if s[i] == '"' && string_end(s, i + 1) is Some {
        let j = string_end(s, i + 1)->Some_0;
        Some((SpecExpr::StringLiteral(s.subrange(i + 1, j)), j + 1))
    } else {
        None
    }
}

/// An operand at `i` followed by the character `close`, and the index after `close`.
pub open spec fn closed_at(s: Seq<char>, i: int, close: char) -> Option<(SpecExpr, int)>
    decreases s.len() - i, 2int,
{
    match expr_at(s, i) {
        Some((e, j)) => if i <= j < s.len() && s[j] == close {
            Some((e, j + 1))
        } else {
            None
        },
        None => None,
    }
}

/// An operand at `i`: a term, and where an operator follows it, the operator and the operand
/// after it.
pub open spec fn expr_at(s: Seq<char>, i: int) -> Option<(SpecExpr, int)>
    decreases s.len() - i, 1int,
{
    match term_at(s, i) {
        Some((l, j)) => if i < j < s.len() && operator_of(s[j]) is Some && expr_at(s, j + 1) is Some {
            let (r, k) = expr_at(s, j + 1)->Some_0;
            Some((SpecExpr::BinOp(Box::new(l), operator_of(s[j])->Some_0, Box::new(r)), k))
        } else {
            Some((l, j))
        },
        None => None,
    }
}

/// `base` to the power `n`.
pub open spec fn power(base: nat, n: nat) -> nat
    decreases n,
{
    if n == 0 {
        1
    } else {
        base * power(base, (n - 1) as nat)
    }
}

proof fn lemma_power_grows(base: nat, n: nat, m: nat)
    requires
        base >= 1,
        n <= m,
    ensures
        power(base, n) <= power(base, m),
    decreases m - n,
{
    if n < m {
        lemma_power_grows(base, n, (m - 1) as nat);
        assert(power(base, (m - 1) as nat) <= base * power(base, (m - 1) as nat)) by (nonlinear_arith)
            requires
                base >= 1,
        ;
    }
}

proof fn lemma_digit_powers()
    ensures
        power(16, 4) == 65536,
        power(2, 16) == 65536,
{
    reveal_with_fuel(power, 17);
}

fn class_has(class: u8, c: char) -> (r: bool)
    ensures
        r == in_class(class, c),
{
    if class == DIGITS {
        '0' <= c && c <= '9'
    } else if class == HEX_DIGITS {
        ('0' <= c && c <= '9') || ('a' <= c && c <= 'f') || ('A' <= c && c <= 'F')
    } else if class == BIN_DIGITS {
        c == '0' || c == '1'
    } else if class == IDENT_CHARS {
        ('a' <= c && c <= 'z') || ('A' <= c && c <= 'Z') || ('0' <= c && c <= '9') || c == '_'
    } else {
        c == '-' || c == '<' || c == '>' || c == '=' || c == '/' || c == '+' || c == '_' || c
            == '#' || c == '\\' || c == '!' || c == '^' || c == ':' || c == ';' || c == '*' || c
            == '@' || c == '?' || c == '$' || c == '&' || c == '(' || c == ')' || c == '[' || c
            == ']' || c == '~'
    }
}

fn scan(s: &Vec<char>, i: usize, limit: usize, class: u8) -> (r: usize)
    requires
        i <= s@.len(),
    ensures
        r == run_end(s@, i as int, limit as int, class),
        i <= r <= s@.len(),
        r <= limit || r == i,
        forall|k: int| i <= k < r ==> in_class(class, #[trigger] s@[k]),
{
    let mut k = i;
    while k < limit && k < s.len() && class_has(class, s[k])
        invariant
            i <= k <= s@.len(),
            k <= limit || k == i,
            run_end(s@, i as int, limit as int, class) == run_end(s@, k as int, limit as int, class),
            forall|m: int| i <= m < k ==> in_class(class, #[trigger] s@[m]),
        decreases s@.len() - k,
    {
        k += 1;
    }
    k
}

fn digit_val(c: char) -> (r: u64)
    requires
        is_hex_digit(c),
    ensures
        r == digit_value(c),
        r < 16,
        is_digit(c) ==> r < 10,
        is_bin_digit(c) ==> r < 2,
{
    if '0' <= c && c <= '9' {
        (c as u32 - '0' as u32) as u64
    } else if 'a' <= c && c <= 'f' {
        (c as u32 - 'a' as u32 + 10) as u64
    } else {
        (c as u32 - 'A' as u32 + 10) as u64
    }
}

/// The value of the decimal digits `s[i..j]`, or 65536 where it is larger.
fn decimal_value(s: &Vec<char>, i: usize, j: usize) -> (r: u64)
    requires
        i <= j <= s@.len(),
        forall|k: int| i <= k < j ==> is_digit(#[trigger] s@[k]),
    ensures
        r == if digits_value(s@, i as int, j as int, 10) <= 65535 {
            digits_value(s@, i as int, j as int, 10)
        } else {
            65536
        },
{
    let mut v: u64 = 0;
    let mut k = i;
    while k < j
        invariant
            i <= k <= j <= s@.len(),
            forall|m: int| i <= m < j ==> is_digit(#[trigger] s@[m]),
            v == if digits_value(s@, i as int, k as int, 10) <= 65535 {
                digits_value(s@, i as int, k as int, 10)
            } else {
                65536
            },
        decreases j - k,
    {
        let d = digit_val(s[k]);
        if v <= 65535 {
            v = v * 10 + d;
            if v > 65535 {
                v = 65536;
            }
        }
        k += 1;
    }
    v
}

/// The value of the digits `s[i..j]` in `base`, where there are few enough to stay below
/// 65536.
fn small_value(s: &Vec<char>, i: usize, j: usize, base: u64) -> (r: u64)
    requires
        i <= j <= s@.len(),
        base == 2 || base == 16,
        forall|k: int| i <= k < j ==> in_class(if base == 2 { BIN_DIGITS } else { HEX_DIGITS }, #[trigger] s@[k]),
        power(base as nat, (j - i) as nat) <= 65536,
    ensures
        r == digits_value(s@, i as int, j as int, base as nat),
        r < 65536,
{
    let mut v: u64 = 0;
    let mut k = i;
    while k < j
        invariant
            i <= k <= j <= s@.len(),
            base == 2 || base == 16,
            forall|m: int| i <= m < j ==> in_class(if base == 2 { BIN_DIGITS } else { HEX_DIGITS }, #[trigger] s@[m]),
            power(base as nat, (j - i) as nat) <= 65536,
            v == digits_value(s@, i as int, k as int, base as nat),
            v < power(base as nat, (k - i) as nat),
        decreases j - k,
    {
        let d = digit_val(s[k]);
        proof {
            lemma_power_grows(base as nat, (k + 1 - i) as nat, (j - i) as nat);
            let p = power(base as nat, (k - i) as nat);
            assert(power(base as nat, (k + 1 - i) as nat) == base * p);
            assert(v * base + d < base * p) by (nonlinear_arith)
                requires
                    v < p,
                    d < base,
            ;
        }
        v = v * base + d;
        k += 1;
    }
    v
}

/// A limit past the end of the text stops a run where the end does.
proof fn lemma_run_end_cap(s: Seq<char>, k: int, limit: int, class: u8)
    requires
        0 <= k,
        limit >= s.len(),
    ensures
        run_end(s, k, limit, class) == run_end(s, k, s.len() as int, class),
    decreases s.len() - k,
{
    if k < s.len() && in_class(class, s[k]) {
        lemma_run_end_cap(s, k + 1, limit, class);
    }
}

/// `i + n`, or the end of the text where that lies beyond it; a run stops there alike.
/// The end of the run of characters of `class` from `i` within `s[..limit]`.
pub fn scan_run(s: &Vec<char>, i: usize, limit: usize, class: u8) -> (r: usize)
    requires
        i <= s@.len(),
    ensures
        r == run_end(s@, i as int, limit as int, class),
        i <= r <= s@.len(),
{
    scan(s, i, limit, class)
}

fn run_limit(s: &Vec<char>, i: usize, n: usize, class: u8) -> (r: usize)
    requires
        i <= s@.len(),
    ensures
        r <= s@.len(),
        r <= i + n,
        forall|k: int|
            0 <= k ==> #[trigger] run_end(s@, k, r as int, class) == run_end(s@, k, i + n, class),
{
    if s.len() - i >= n {
        i + n
    } else {
        proof {
            assert forall|k: int| 0 <= k implies #[trigger] run_end(s@, k, s@.len() as int, class)
                == run_end(s@, k, i + n, class) by {
                lemma_run_end_cap(s@, k, i + n, class);
            }
        }
        s.len()
    }
}

fn number(s: &Vec<char>, i: usize) -> (r: Option<(Expr, usize)>)
    ensures
        r matches Some((_, k)) ==> k <= s@.len(),
        match number_at(s@, i as int) {
            Some((e, j)) => r matches Some((x, k)) && x@ == e && k as int == j,
            None => r is None,
        },
{
    if i >= s.len() {
        return None;
    }
    let c = s[i];
    if '0' <= c && c <= '9' {
        let j = scan(s, i, s.len(), DIGITS);
        let v = decimal_value(s, i, j);
        if v <= 65535 {
            Some((Expr::DecimalNum(v as u16), j))
        } else {
            None
        }
    } else if c == '$' || c == '%' {
        let (class, width, base) = if c == '$' {
            (HEX_DIGITS, 4usize, 16u64)
        } else {
            (BIN_DIGITS, 16usize, 2u64)
        };
        let limit = run_limit(s, i + 1, width, class);
        let j = scan(s, i + 1, limit, class);
        if j == i + 1 {
            return None;
        }
        proof {
            lemma_digit_powers();
            lemma_power_grows(base as nat, (j - i - 1) as nat, width as nat);
        }
        let v = small_value(s, i + 1, j, base);
        if j - (i + 1) <= width / 2 {
            Some((Expr::ByteNum(v as u8), j))
        } else {
            Some((Expr::WordNum(v as u16), j))
        }
    } else {
        None
    }
}

fn identifier(text: &str, s: &Vec<char>, i: usize) -> (r: Option<(String, usize)>)
    requires
        s@ == text@,
    ensures
        r matches Some((_, k)) ==> k <= s@.len(),
        match identifier_at(s@, i as int) {
            Some((name, j)) => r matches Some((x, k)) && x@ == name && k as int == j,
            None => r is None,
        },
{
    if i < s.len() {
        let c = s[i];
        if ('a' <= c && c <= 'z') || ('A' <= c && c <= 'Z') || c == '_' || c == '.' {
            let j = scan(s, i + 1, s.len(), IDENT_CHARS);
            return Some((crate::text::text_of(text.substring_char(i, j)), j));
        }
    }
    None
}

proof fn lemma_string_end_bounds(s: Seq<char>, i: int)
    ensures
        string_end(s, i) matches Some(j) ==> i <= j < s.len(),
    decreases s.len() - i,
{
    if 0 <= i < s.len() && s[i] != '"' {
        if s[i] == '\\' {
            if i + 1 < s.len() {
                lemma_string_end_bounds(s, i + 2);
            }
        } else {
            lemma_string_end_bounds(s, i + 1);
        }
    }
}

fn string_close(s: &Vec<char>, i: usize) -> (r: Option<usize>)
    ensures
        match string_end(s@, i as int) {
            Some(j) => r == Some(j as usize) && i <= j < s@.len(),
            None => r is None,
        },
{
    let mut k = i;
    proof {
        lemma_string_end_bounds(s@, i as int);
    }
    while k < s.len()
        invariant
            i <= k,
            string_end(s@, i as int) == string_end(s@, k as int),
            string_end(s@, k as int) matches Some(j) ==> k <= j < s@.len(),
        decreases s@.len() - k,
    {
        if s[k] == '"' {
            return Some(k);
        }
        proof {
            lemma_string_end_bounds(s@, k + 1);
            lemma_string_end_bounds(s@, k + 2);
        }
        if s[k] == '\\' {
            if k + 1 < s.len() && (s[k + 1] == '\\' || s[k + 1] == '"') {
                k = k + 2;
            } else {
                return None;
            }
        } else {
            k += 1;
        }
    }
    None
}

fn term(text: &str, s: &Vec<char>, i: usize) -> (r: Option<(Expr, usize)>)
    requires
        s@ == text@,
    ensures
        r matches Some((_, k)) ==> k <= s@.len(),
        match term_at(s@, i as int) {
            Some((e, j)) => r matches Some((x, k)) && x@ == e && k as int == j,
            None => r is None,
        },
    decreases s@.len() - i, 0int,
{
    if i >= s.len() {
        return None;
    }
    if let Some(n) = number(s, i) {
        return Some(n);
    }
    let c = s[i];
    if c == '\'' && s.len() - i > 2 && s[i + 1] != '\'' && s[i + 2] == '\'' {
        return Some((Expr::ByteNum(((s[i + 1] as u32) % 256) as u8), i + 3));
    }
    if c == '>' {
        if let Some((name, j)) = identifier(text, s, i + 1) {
            let inner = Expr::Identifier(name);
            assert(inner@ == SpecExpr::Identifier(name@));
            return Some((Expr::HiByte(Box::new(inner)), j));
        }
    }
    if c == '<' {
        if let Some((name, j)) = identifier(text, s, i + 1) {
            let inner = Expr::Identifier(name);
            assert(inner@ == SpecExpr::Identifier(name@));
            return Some((Expr::LoByte(Box::new(inner)), j));
        }
    }
    if let Some((name, j)) = identifier(text, s, i) {
        return Some((Expr::Identifier(name), j));
    }
    if c == '(' {
        if let Some((e, j)) = closed(text, s, i + 1, ')') {
            return Some((Expr::Parenthesized(Box::new(e)), j));
        }
    }
    if c == '[' {
        if let Some((e, j)) = closed(text, s, i + 1, ']') {
            return Some((Expr::Bracketed(Box::new(e)), j));
        }
    }
    if class_has(SYSOP_CHARS, c) {
        let j = scan(s, i, s.len(), SYSOP_CHARS);
        return Some((Expr::SystemOperator(crate::text::text_of(text.substring_char(i, j))), j));
    }
    if c == '"' {
        if let Some(j) = string_close(s, i + 1) {
            return Some(
                (Expr::StringLiteral(crate::text::text_of(text.substring_char(i + 1, j))), j + 1),
            );
        }
    }
    None
}

fn closed(text: &str, s: &Vec<char>, i: usize, close: char) -> (r: Option<(Expr, usize)>)
    requires
        s@ == text@,
    ensures
        r matches Some((_, k)) ==> k <= s@.len(),
        match closed_at(s@, i as int, close) {
            Some((e, j)) => r matches Some((x, k)) && x@ == e && k as int == j,
            None => r is None,
        },
    decreases s@.len() - i, 2int,
{
    match expr(text, s, i) {
        Some((e, j)) => if i <= j && j < s.len() && s[j] == close {
            Some((e, j + 1))
        } else {
            None
        },
        None => None,
    }
}

fn operator(c: char) -> (r: Option<Operator>)
    ensures
        r == operator_of(c),
{
    if c == '+' {
        Some(Operator::Add)
    } else if c == '-' {
        Some(Operator::Sub)
    } else if c == '*' {
        Some(Operator::Mul)
    } else if c == '/' {
        Some(Operator::Div)
    } else if c == '&' {
        Some(Operator::And)
    } else if c == '|' {
        Some(Operator::Or)
    } else if c == '^' {
        Some(Operator::Xor)
    } else if c == ',' {
        Some(Operator::Comma)
    } else if c == '>' {
        Some(Operator::Greater)
    } else if c == '<' {
        Some(Operator::Less)
    } else if c == '=' {
        Some(Operator::Equal)
    } else if c == '\\' {
        Some(Operator::NotEqual)
    } else {
        None
    }
}

fn expr(text: &str, s: &Vec<char>, i: usize) -> (r: Option<(Expr, usize)>)
    requires
        s@ == text@,
    ensures
        r matches Some((_, k)) ==> k <= s@.len(),
        match expr_at(s@, i as int) {
            Some((e, j)) => r matches Some((x, k)) && x@ == e && k as int == j,
            None => r is None,
        },
    decreases s@.len() - i, 1int,
{
    match term(text, s, i) {
        Some((l, j)) => {
            if i < j && j < s.len() {
                if let Some(op) = operator(s[j]) {
                    if let Some((r, k)) = expr(text, s, j + 1) {
                        return Some((Expr::BinOp(Box::new(l), op, Box::new(r)), k));
                    }
                }
            }
            Some((l, j))
        },
        None => None,
    }
}

fn chars_of(text: &str) -> (r: Vec<char>)
    ensures
        r@ == text@,
{
    let n = text.unicode_len();
    let mut r: Vec<char> = Vec::new();
    let mut i: usize = 0;
    while i < n
        invariant
            n == text@.len(),
            i <= n,
            r@ == text@.subrange(0, i as int),
        decreases n - i,
    {
        r.push(text.get_char(i));
        i += 1;
        assert(r@ =~= text@.subrange(0, i as int));
    }
    assert(text@.subrange(0, n as int) =~= text@);
    r
}

impl Expr {
    /// Parses operand text; empty text is the empty operand.
    pub fn parse(input: &str) -> (r: Result<Expr, AssemblyError>)
        ensures
            input@.len() == 0 ==> (r matches Ok(e) && e@ == SpecExpr::Empty),
            input@.len() > 0 ==> (r is Ok <==> expr_at(input@, 0) is Some),
            input@.len() > 0 ==> (r matches Ok(e) ==> e@ == expr_at(input@, 0)->Some_0.0),
            r matches Err(e) ==> e is Syntax,
    {
        let s = chars_of(input);
        if s.len() == 0 {
            return Ok(Expr::Empty);
        }
        match expr(input, &s, 0) {
            Some((e, _)) => Ok(e),
            None => Err(AssemblyError::expression(input)),
        }
    }
}

/// The text after position `j`.
fn rest_of<'a>(text: &'a str, j: usize) -> (r: &'a str)
    requires
        j <= text@.len(),
    ensures
        r@ == text@.subrange(j as int, text@.len() as int),
{
    text.substring_char(j, text.unicode_len())
}

/// An operand at the start of `input`, and the text after it.
pub fn parse_expr(input: &str) -> (r: Result<(&str, Expr), AssemblyError>)
    ensures
        match expr_at(input@, 0) {
            Some((e, j)) => r matches Ok((rest, x)) && x@ == e && rest@ == input@.subrange(
                j,
                input@.len() as int,
            ),
            None => r is Err,
        },
{
    let s = chars_of(input);
    match expr(input, &s, 0) {
        Some((e, j)) => {
            Ok((rest_of(input, j), e))
        },
        None => Err(AssemblyError::expression(input)),
    }
}

/// An identifier at the start of `input`, and the text after it.
pub fn parse_identifier(input: &str) -> (r: Result<(&str, Expr), AssemblyError>)
    ensures
        match identifier_at(input@, 0) {
            Some((name, j)) => r matches Ok((rest, x)) && x@ == SpecExpr::Identifier(name)
                && rest@ == input@.subrange(j, input@.len() as int),
            None => r is Err,
        },
{
    let s = chars_of(input);
    match identifier(input, &s, 0) {
        Some((name, j)) => Ok((rest_of(input, j), Expr::Identifier(name))),
        None => Err(AssemblyError::expression(input)),
    }
}

/// `<label` at the start of `input`: the low byte of the label, and the text after it.
pub fn parse_lobyte(input: &str) -> (r: Result<(&str, Expr), AssemblyError>)
    ensures
        match (input@.len() > 0 && input@[0] == '<', identifier_at(input@, 1)) {
            (true, Some((name, j))) => r matches Ok((rest, x)) && x@ == SpecExpr::LoByte(
                Box::new(SpecExpr::Identifier(name)),
            ) && rest@ == input@.subrange(j, input@.len() as int),
            _ => r is Err,
        },
{
    let s = chars_of(input);
    if s.len() > 0 && s[0] == '<' {
        if let Some((name, j)) = identifier(input, &s, 1) {
            let inner = Expr::Identifier(name);
            assert(inner@ == SpecExpr::Identifier(name@));
            return Ok((rest_of(input, j), Expr::LoByte(Box::new(inner))));
        }
    }
    Err(AssemblyError::expression(input))
}

/// A binary operation at the start of `input` (a term, an operator and an operand), and the
/// text after it.
pub fn parse_bin_op(input: &str) -> (r: Result<(&str, Expr), AssemblyError>)
    ensures
        match expr_at(input@, 0) {
            Some((e, j)) => if e is BinOp {
                r matches Ok((rest, x)) && x@ == e && rest@ == input@.subrange(
                    j,
                    input@.len() as int,
                )
            } else {
                r is Err
            },
            None => r is Err,
        },
{
    let s = chars_of(input);
    match expr(input, &s, 0) {
        Some((e, j)) => {
            if let Expr::BinOp(_, _, _) = e {
                Ok((rest_of(input, j), e))
            } else {
                Err(AssemblyError::expression(input))
            }
        },
        None => Err(AssemblyError::expression(input)),
    }
}

} // verus!
