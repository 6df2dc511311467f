//! Matchers that take an operand apart by its shape, each failing on any other shape.
use crate::error::AssemblyError;
use crate::expression::{Expr, Operator};
use crate::text::same_text;
use vstd::prelude::*;

verus! {

/// `r` carries exactly what `s` holds: the value where `s` is `Some`, an error where it is
/// `None`.
pub open spec fn agrees<T>(r: Result<T, AssemblyError>, s: Option<T>) -> bool {
    match r {
        Ok(v) => s == Some(v),
        Err(_) => s is None,
    }
}

/// An 8-bit number: a byte literal, or a decimal literal up to 255.
pub open spec fn num8_of(e: Expr) -> Option<u8> {
    match e {
        Expr::ByteNum(n) => Some(n),
        Expr::DecimalNum(n) => if n <= 255 {
            Some(n as u8)
        } else {
            None
        },
        _ => None,
    }
}

/// A 16-bit number: a word literal or a decimal literal.
pub open spec fn num16_of(e: Expr) -> Option<u16> {
    match e {
        Expr::WordNum(n) => Some(n),
        Expr::DecimalNum(n) => Some(n),
        _ => None,
    }
}

/// `e` is the identifier `name`.
pub open spec fn is_register(e: Expr, name: Seq<char>) -> bool {
    match e {
        Expr::Identifier(s) => s@ == name,
        _ => false,
    }
}

/// `e` is the system operator `symbol`.
pub open spec fn is_sysop(e: Expr, symbol: Seq<char>) -> bool {
    match e {
        Expr::SystemOperator(s) => s@ == symbol,
        _ => false,
    }
}

/// The two sides of `e` where it is a binary operation with `op`.
pub open spec fn operands(e: Expr, op: Operator) -> Option<(Expr, Expr)> {
    match e {
        Expr::BinOp(l, o, r) => if o == op {
            Some((*l, *r))
        } else {
            None
        },
        _ => None,
    }
}

fn syntax_error<T>(msg: &str) -> (r: Result<T, AssemblyError>)
    ensures
        r matches Err(e) && e is Syntax,
{
    Err(AssemblyError::syntax(msg))
}

pub fn byte(expr: &Expr) -> (r: Result<u8, AssemblyError>)
    ensures
        r matches Err(e) ==> e is Syntax,
        agrees(r, match *expr {
            Expr::ByteNum(n) => Some(n),
            _ => None,
        }),
{
    match expr {
        Expr::ByteNum(num) => Ok(*num),
        _ => syntax_error("invalid byte"),
    }
}

pub fn word(expr: &Expr) -> (r: Result<u16, AssemblyError>)
    ensures
        r matches Err(e) ==> e is Syntax,
        agrees(r, match *expr {
            Expr::WordNum(n) => Some(n),
            _ => None,
        }),
{
    match expr {
        Expr::WordNum(num) => Ok(*num),
        _ => syntax_error("invalid word"),
    }
}

pub fn decimal(expr: &Expr) -> (r: Result<u16, AssemblyError>)
    ensures
        r matches Err(e) ==> e is Syntax,
        agrees(r, match *expr {
            Expr::DecimalNum(n) => Some(n),
            _ => None,
        }),
{
    match expr {
        Expr::DecimalNum(num) => Ok(*num),
        _ => syntax_error("invalid decimal"),
    }
}

fn decimal8bit(expr: &Expr) -> (r: Result<u8, AssemblyError>)
    ensures
        r matches Err(e) ==> e is Syntax,
        agrees(r, match *expr {
            Expr::DecimalNum(n) => if n <= 255 {
                Some(n as u8)
            } else {
                None
            },
            _ => None,
        }),
{
    let num = match decimal(expr) {
        Ok(n) => n,
        Err(e) => {
            return Err(e);
        },
    };
    if num > 255 {
        syntax_error("operand must be 8bit")
    } else {
        Ok(num as u8)
    }
}

pub fn num8bit(expr: &Expr) -> (r: Result<u8, AssemblyError>)
    ensures
        r matches Err(e) ==> e is Syntax,
        agrees(r, num8_of(*expr)),
{
    match byte(expr) {
        Ok(n) => Ok(n),
        Err(_) => decimal8bit(expr),
    }
}

pub fn num16bit(expr: &Expr) -> (r: Result<u16, AssemblyError>)
    ensures
        r matches Err(e) ==> e is Syntax,
        agrees(r, num16_of(*expr)),
{
    match word(expr) {
        Ok(n) => Ok(n),
        Err(_) => decimal(expr),
    }
}

pub fn identifier(expr: &Expr) -> (r: Result<String, AssemblyError>)
    ensures
        r matches Err(e) ==> e is Syntax,
        agrees(r, match *expr {
            Expr::Identifier(s) => Some(s),
            _ => None,
        }),
{
    match expr {
        Expr::Identifier(s) => Ok(s.clone()),
        _ => syntax_error("invalid identifier"),
    }
}

/// Succeeds where `expr` is the identifier `name`.
fn register(expr: &Expr, name: &str) -> (r: Result<(), AssemblyError>)
    ensures
        r matches Err(e) ==> e is Syntax,
        r is Ok <==> is_register(*expr, name@),
{
    match expr {
        Expr::Identifier(s) => if same_text(s.as_str(), name) {
            Ok(())
        } else {
            syntax_error("invalid register")
        },
        _ => syntax_error("invalid register"),
    }
}

pub fn register_y(expr: &Expr) -> (r: Result<(), AssemblyError>)
    ensures
        r matches Err(e) ==> e is Syntax,
        r is Ok <==> is_register(*expr, "Y"@),
{
    register(expr, "Y")
}

pub fn register_x(expr: &Expr) -> (r: Result<(), AssemblyError>)
    ensures
        r matches Err(e) ==> e is Syntax,
        r is Ok <==> is_register(*expr, "X"@),
{
    register(expr, "X")
}

pub fn register_a(expr: &Expr) -> (r: Result<(), AssemblyError>)
    ensures
        r matches Err(e) ==> e is Syntax,
        r is Ok <==> is_register(*expr, "A"@),
{
    register(expr, "A")
}

pub fn register_ac(expr: &Expr) -> (r: Result<(), AssemblyError>)
    ensures
        r matches Err(e) ==> e is Syntax,
        r is Ok <==> is_register(*expr, "AC"@),
{
    register(expr, "AC")
}

pub fn binop(expr: &Expr) -> (r: Result<(Expr, Operator, Expr), AssemblyError>)
    ensures
        r matches Err(e) ==> e is Syntax,
        agrees(r, match *expr {
            Expr::BinOp(l, op, rt) => Some((*l, op, *rt)),
            _ => None,
        }),
{
    match expr {
        Expr::BinOp(left, op, right) => Ok((left.duplicate(), *op, right.duplicate())),
        _ => syntax_error("invalid binop"),
    }
}

pub fn hi(expr: &Expr) -> (r: Result<Expr, AssemblyError>)
    ensures
        r matches Err(e) ==> e is Syntax,
        agrees(r, match *expr {
            Expr::HiByte(inner) => Some(*inner),
            _ => None,
        }),
{
    match expr {
        Expr::HiByte(inner) => Ok(inner.duplicate()),
        _ => syntax_error("invalid hi"),
    }
}

pub fn lo(expr: &Expr) -> (r: Result<Expr, AssemblyError>)
    ensures
        r matches Err(e) ==> e is Syntax,
        agrees(r, match *expr {
            Expr::LoByte(inner) => Some(*inner),
            _ => None,
        }),
{
    match expr {
        Expr::LoByte(inner) => Ok(inner.duplicate()),
        _ => syntax_error("invalid lo"),
    }
}

/// The two sides of `expr` where it is a binary operation with `op`.
fn sides(expr: &Expr, op: Operator) -> (r: Result<(Expr, Expr), AssemblyError>)
    ensures
        r matches Err(e) ==> e is Syntax,
        agrees(r, operands(*expr, op)),
{
    match expr {
        Expr::BinOp(left, o, right) => if *o == op {
            Ok((left.duplicate(), right.duplicate()))
        } else {
            syntax_error("unexpected operator")
        },
        _ => syntax_error("invalid binop"),
    }
}

pub fn comma(expr: &Expr) -> (r: Result<(Expr, Expr), AssemblyError>)
    ensures
        r matches Err(e) ==> e is Syntax,
        agrees(r, operands(*expr, Operator::Comma)),
{
    sides(expr, Operator::Comma)
}

pub fn plus(expr: &Expr) -> (r: Result<(Expr, Expr), AssemblyError>)
    ensures
        r matches Err(e) ==> e is Syntax,
        agrees(r, operands(*expr, Operator::Add)),
{
    sides(expr, Operator::Add)
}

pub fn minus(expr: &Expr) -> (r: Result<(Expr, Expr), AssemblyError>)
    ensures
        r matches Err(e) ==> e is Syntax,
        agrees(r, operands(*expr, Operator::Sub)),
{
    sides(expr, Operator::Sub)
}

pub fn or(expr: &Expr) -> (r: Result<(Expr, Expr), AssemblyError>)
    ensures
        r matches Err(e) ==> e is Syntax,
        agrees(r, operands(*expr, Operator::Or)),
{
    sides(expr, Operator::Or)
}

pub fn and(expr: &Expr) -> (r: Result<(Expr, Expr), AssemblyError>)
    ensures
        r matches Err(e) ==> e is Syntax,
        agrees(r, operands(*expr, Operator::And)),
{
    sides(expr, Operator::And)
}

pub fn eor(expr: &Expr) -> (r: Result<(Expr, Expr), AssemblyError>)
    ensures
        r matches Err(e) ==> e is Syntax,
        agrees(r, operands(*expr, Operator::Xor)),
{
    sides(expr, Operator::Xor)
}

pub fn parenthesized(expr: &Expr) -> (r: Result<Expr, AssemblyError>)
    ensures
        r matches Err(e) ==> e is Syntax,
        agrees(r, match *expr {
            Expr::Parenthesized(inner) => Some(*inner),
            _ => None,
        }),
{
    match expr {
        Expr::Parenthesized(inner) => Ok(inner.duplicate()),
        _ => syntax_error("invalid parenthesized"),
    }
}

pub fn bracketed(expr: &Expr) -> (r: Result<Expr, AssemblyError>)
    ensures
        r matches Err(e) ==> e is Syntax,
        agrees(r, match *expr {
            Expr::Bracketed(inner) => Some(*inner),
            _ => None,
        }),
{
    match expr {
        Expr::Bracketed(inner) => Ok(inner.duplicate()),
        _ => syntax_error("invalid bracketed"),
    }
}

pub fn sysop(expr: &Expr) -> (r: Result<String, AssemblyError>)
    ensures
        r matches Err(e) ==> e is Syntax,
        agrees(r, match *expr {
            Expr::SystemOperator(s) => Some(s),
            _ => None,
        }),
{
    match expr {
        Expr::SystemOperator(c) => Ok(c.clone()),
        _ => syntax_error("invalid system operator"),
    }
}

pub fn sysop_or_identifier(expr: &Expr) -> (r: Result<String, AssemblyError>)
    ensures
        r matches Err(e) ==> e is Syntax,
        agrees(r, match *expr {
            Expr::SystemOperator(s) => Some(s),
            Expr::Identifier(s) => Some(s),
            _ => None,
        }),
{
    match expr {
        Expr::SystemOperator(c) => Ok(c.clone()),
        Expr::Identifier(s) => Ok(s.clone()),
        _ => syntax_error("invalid system operator or identifier"),
    }
}

} // verus!
