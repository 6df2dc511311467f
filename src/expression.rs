//! Operands: their syntax tree, and how they resolve to addresses and numbers.
use crate::error::AssemblyError;
use crate::labels::{address_op, Address, LabelTable};
use crate::text::{same_text, text_of};
use vstd::prelude::*;

verus! {

/// A binary operator of the operand notation.
#[derive(Debug, Clone, Copy, PartialEq, Eq, Structural)]
pub enum Operator {
    Add,
    Sub,
    Mul,
    Div,
    And,
    Or,
    Xor,
    Comma,
    Greater,
    Less,
    Equal,
    NotEqual,
}

/// How an operator is written.
pub open spec fn operator_symbol(op: Operator) -> Seq<char> {
    match op {
        Operator::Add => "+"@,
        Operator::Sub => "-"@,
        Operator::Mul => "*"@,
        Operator::Div => "/"@,
        Operator::And => "&"@,
        Operator::Or => "|"@,
        Operator::Xor => "^"@,
        Operator::Comma => ","@,
        Operator::Greater => ">"@,
        Operator::Less => "<"@,
        Operator::Equal => "="@,
        Operator::NotEqual => "\\"@,
    }
}

impl Operator {
    pub fn to_string(&self) -> (r: String)
        ensures
            r@ == operator_symbol(*self),
    {
        match self {
            Operator::Add => text_of("+"),
            Operator::Sub => text_of("-"),
            Operator::Mul => text_of("*"),
            Operator::Div => text_of("/"),
            Operator::And => text_of("&"),
            Operator::Or => text_of("|"),
            Operator::Xor => text_of("^"),
            Operator::Comma => text_of(","),
            // stands for "greater or equal"
            Operator::Greater => text_of(">"),
            Operator::Less => text_of("<"),
            Operator::Equal => text_of("="),
            Operator::NotEqual => text_of("\\"),
        }
    }
}

/// An operand.
#[derive(Debug, PartialEq)]
pub enum Expr {
    DecimalNum(u16),
    ByteNum(u8),
    WordNum(u16),
    HiByte(Box<Expr>),
    LoByte(Box<Expr>),
    StringLiteral(String),
    Identifier(String),
    BinOp(Box<Expr>, Operator, Box<Expr>),
    Parenthesized(Box<Expr>),
    Bracketed(Box<Expr>),
    SystemOperator(String),
    Empty,
}

/// An operand as a mathematical value: its text as character sequences.
pub enum SpecExpr {
    DecimalNum(u16),
    ByteNum(u8),
    WordNum(u16),
    HiByte(Box<SpecExpr>),
    LoByte(Box<SpecExpr>),
    StringLiteral(Seq<char>),
    Identifier(Seq<char>),
    BinOp(Box<SpecExpr>, Operator, Box<SpecExpr>),
    Parenthesized(Box<SpecExpr>),
    Bracketed(Box<SpecExpr>),
    SystemOperator(Seq<char>),
    Empty,
}

pub open spec fn expr_view(e: Expr) -> SpecExpr
    decreases e,
{
    match e {
        Expr::DecimalNum(n) => SpecExpr::DecimalNum(n),
        Expr::ByteNum(n) => SpecExpr::ByteNum(n),
        Expr::WordNum(n) => SpecExpr::WordNum(n),
        Expr::HiByte(x) => SpecExpr::HiByte(Box::new(expr_view(*x))),
        Expr::LoByte(x) => SpecExpr::LoByte(Box::new(expr_view(*x))),
        Expr::StringLiteral(s) => SpecExpr::StringLiteral(s@),
        Expr::Identifier(s) => SpecExpr::Identifier(s@),
        Expr::BinOp(l, op, r) => SpecExpr::BinOp(
            Box::new(expr_view(*l)),
            op,
            Box::new(expr_view(*r)),
        ),
        Expr::Parenthesized(x) => SpecExpr::Parenthesized(Box::new(expr_view(*x))),
        Expr::Bracketed(x) => SpecExpr::Bracketed(Box::new(expr_view(*x))),
        Expr::SystemOperator(s) => SpecExpr::SystemOperator(s@),
        Expr::Empty => SpecExpr::Empty,
    }
}

impl View for Expr {
    type V = SpecExpr;

    open spec fn view(&self) -> SpecExpr {
        expr_view(*self)
    }
}

/// The character of a hex digit.
pub open spec fn hex_digit_char(d: nat) -> char {
    if d < 10 {
        crate::text::digit_char(d)
    } else if d == 10 {
        'A'
    } else if d == 11 {
        'B'
    } else if d == 12 {
        'C'
    } else if d == 13 {
        'D'
    } else if d == 14 {
        'E'
    } else {
        'F'
    }
}

/// The last `width` hex digits of `v`.
pub open spec fn hex_text(v: nat, width: nat) -> Seq<char>
    decreases width,
{
    if width == 0 {
        seq![]
    } else {
        hex_text(v / 16, (width - 1) as nat).push(hex_digit_char(v % 16))
    }
}

/// How an operand is written.
pub open spec fn expr_text(e: SpecExpr) -> Seq<char>
    decreases e,
{
    match e {
        SpecExpr::DecimalNum(n) => crate::text::decimal_digits(n as nat),
        SpecExpr::ByteNum(n) => "$"@ + hex_text(n as nat, 2),
        SpecExpr::WordNum(n) => "$"@ + hex_text(n as nat, 4),
        SpecExpr::HiByte(x) => ">"@ + expr_text(*x),
        SpecExpr::LoByte(x) => "<"@ + expr_text(*x),
        SpecExpr::StringLiteral(s) => "\""@ + s + "\""@,
        SpecExpr::Identifier(s) => s,
        SpecExpr::BinOp(l, op, r) => expr_text(*l) + operator_symbol(op) + expr_text(*r),
        SpecExpr::Parenthesized(x) => "("@ + expr_text(*x) + ")"@,
        SpecExpr::Bracketed(x) => "["@ + expr_text(*x) + "]"@,
        SpecExpr::SystemOperator(s) => s,
        SpecExpr::Empty => seq![],
    }
}

fn hex_digit(d: u16) -> (r: &'static str)
    requires
        d < 16,
    ensures
        r@ == seq![hex_digit_char(d as nat)],
{
    proof {
        reveal_strlit("A");
        reveal_strlit("B");
        reveal_strlit("C");
        reveal_strlit("D");
        reveal_strlit("E");
        reveal_strlit("F");
    }
    if d < 10 {
        crate::text::digit_text(d as usize)
    } else if d == 10 {
        "A"
    } else if d == 11 {
        "B"
    } else if d == 12 {
        "C"
    } else if d == 13 {
        "D"
    } else if d == 14 {
        "E"
    } else {
        "F"
    }
}

fn hex_string(v: u16, width: usize) -> (r: String)
    ensures
        r@ == hex_text(v as nat, width as nat),
    decreases width,
{
    if width == 0 {
        let r = String::new();
        assert(r@ =~= hex_text(v as nat, 0));
        r
    } else {
        let mut r = hex_string(v / 16, width - 1);
        r.append(hex_digit(v % 16));
        assert(r@ =~= hex_text(v as nat, width as nat));
        r
    }
}

fn wrapped(open: &str, inner: &str, close: &str) -> (r: String)
    ensures
        r@ == open@ + inner@ + close@,
{
    let mut r = text_of(open);
    r.append(inner);
    r.append(close);
    r
}

/// The items of a right-leaning comma chain, in order.
pub open spec fn comma_items(e: Expr) -> Seq<Expr>
    decreases e,
{
    match e {
        Expr::BinOp(l, Operator::Comma, r) => comma_items(*l) + comma_items(*r),
        _ => seq![e],
    }
}

/// The address that `e` denotes, given the labels; `None` where a label is missing, the
/// addresses do not combine, or `e` has no address.
pub open spec fn address_of(e: Expr, labels: Map<Seq<char>, Address>) -> Option<Address>
    decreases e,
{
    match e {
        Expr::DecimalNum(n) => if n <= 255 {
            Some(Address::ZeroPage(n as u8))
        } else {
            Some(Address::Full(n))
        },
        Expr::ByteNum(n) => Some(Address::ZeroPage(n)),
        Expr::WordNum(n) => Some(Address::Full(n)),
        Expr::Identifier(name) => if labels.contains_key(name@) {
            Some(labels[name@])
        } else {
            None
        },
        Expr::BinOp(l, op, r) => match (address_of(*l, labels), address_of(*r, labels)) {
            (Some(a), Some(b)) => address_op(a, b, op),
            _ => None,
        },
        Expr::Parenthesized(inner) => address_of(*inner, labels),
        _ => None,
    }
}

/// Whether resolving `e` to an address fails with a program error (a missing label, or an
/// operand that has no address) rather than with a syntax error (addresses that do not
/// combine).
pub open spec fn address_fails_in_program(e: Expr, labels: Map<Seq<char>, Address>) -> bool
    decreases e,
{
    match e {
        Expr::BinOp(l, op, r) => if address_of(*l, labels) is None {
            address_fails_in_program(*l, labels)
        } else if address_of(*r, labels) is None {
            address_fails_in_program(*r, labels)
        } else {
            false
        },
        Expr::Parenthesized(inner) => address_fails_in_program(*inner, labels),
        _ => true,
    }
}

/// Whether evaluating `e` fails with a program error; only an address in parentheses whose
/// parts do not combine fails with a syntax error.
pub open spec fn value_fails_in_program(e: Expr, labels: Map<Seq<char>, Address>, pc: u16) -> bool
    decreases e,
{
    match e {
        Expr::BinOp(l, op, r) => if value_of(*l, labels, pc) is None {
            value_fails_in_program(*l, labels, pc)
        } else if value_of(*r, labels, pc) is None {
            value_fails_in_program(*r, labels, pc)
        } else {
            true
        },
        Expr::Parenthesized(inner) => address_fails_in_program(*inner, labels),
        _ => true,
    }
}

/// `op` on two numbers: arithmetic wraps modulo 65536, a comparison gives 1 or 0; `None` for
/// a comma or a division by zero.
pub open spec fn number_op(l: u16, r: u16, op: Operator) -> Option<u16> {
    match op {
        Operator::Greater => Some(if l >= r { 1u16 } else { 0u16 }),
        Operator::Less => Some(if l < r { 1u16 } else { 0u16 }),
        Operator::Equal => Some(if l == r { 1u16 } else { 0u16 }),
        Operator::NotEqual => Some(if l != r { 1u16 } else { 0u16 }),
        _ => crate::labels::word_op(l, r, op),
    }
}

/// The number that `e` denotes, where `*` stands for the current address `pc`.
pub open spec fn value_of(e: Expr, labels: Map<Seq<char>, Address>, pc: u16) -> Option<u16>
    decreases e,
{
    match e {
        Expr::SystemOperator(s) => if s@ == "*"@ {
            Some(pc)
        } else {
            None
        },
        Expr::DecimalNum(n) => Some(n),
        Expr::ByteNum(n) => Some(n as u16),
        Expr::WordNum(n) => Some(n),
        Expr::Identifier(name) => if labels.contains_key(name@) {
            Some(labels[name@].value())
        } else {
            None
        },
        Expr::BinOp(l, op, r) => match (value_of(*l, labels, pc), value_of(*r, labels, pc)) {
            (Some(a), Some(b)) => number_op(a, b, op),
            _ => None,
        },
        Expr::Parenthesized(inner) => match address_of(*inner, labels) {
            Some(a) => Some(a.value()),
            None => None,
        },
        _ => None,
    }
}

fn number_calc(l: u16, r: u16, op: Operator) -> (res: Option<u16>)
    ensures
        res == number_op(l, r, op),
{
    match op {
        Operator::Greater => Some(if l >= r { 1 } else { 0 }),
        Operator::Less => Some(if l < r { 1 } else { 0 }),
        Operator::Equal => Some(if l == r { 1 } else { 0 }),
        Operator::NotEqual => Some(if l != r { 1 } else { 0 }),
        _ => match Address::Full(l).calculate_with(&Address::Full(r), &op) {
            Ok(a) => Some(a.value_of()),
            Err(_) => None,
        },
    }
}

impl Clone for Expr {
    fn clone(&self) -> (r: Self)
        ensures
            r == *self,
    {
        self.duplicate()
    }
}

impl Expr {
    /// How the operand is written.
    pub fn to_text(&self) -> (r: String)
        ensures
            r@ == expr_text(self@),
        decreases self,
    {
        match self {
            Expr::DecimalNum(n) => crate::text::number_text(*n as usize),
            Expr::ByteNum(n) => crate::text::join("$", hex_string(*n as u16, 2).as_str()),
            Expr::WordNum(n) => crate::text::join("$", hex_string(*n, 4).as_str()),
            Expr::HiByte(x) => crate::text::join(">", (**x).to_text().as_str()),
            Expr::LoByte(x) => crate::text::join("<", (**x).to_text().as_str()),
            Expr::StringLiteral(s) => wrapped("\"", s.as_str(), "\""),
            Expr::Identifier(s) => text_of(s.as_str()),
            Expr::BinOp(l, op, r) => {
                let mut t = (**l).to_text();
                t.append(op.to_string().as_str());
                t.append((**r).to_text().as_str());
                t
            },
            Expr::Parenthesized(x) => wrapped("(", (**x).to_text().as_str(), ")"),
            Expr::Bracketed(x) => wrapped("[", (**x).to_text().as_str(), "]"),
            Expr::SystemOperator(s) => text_of(s.as_str()),
            Expr::Empty => {
                let r = String::new();
                assert(r@ =~= seq![]);
                r
            },
        }
    }

    /// A copy of the operand.
    pub fn duplicate(&self) -> (r: Expr)
        ensures
            r == *self,
        decreases self,
    {
        match self {
            Expr::DecimalNum(n) => Expr::DecimalNum(*n),
            Expr::ByteNum(n) => Expr::ByteNum(*n),
            Expr::WordNum(n) => Expr::WordNum(*n),
            Expr::HiByte(e) => Expr::HiByte(Box::new((**e).duplicate())),
            Expr::LoByte(e) => Expr::LoByte(Box::new((**e).duplicate())),
            Expr::StringLiteral(s) => Expr::StringLiteral(s.clone()),
            Expr::Identifier(s) => Expr::Identifier(s.clone()),
            Expr::BinOp(l, op, r) => Expr::BinOp(
                Box::new((**l).duplicate()),
                *op,
                Box::new((**r).duplicate()),
            ),
            Expr::Parenthesized(e) => Expr::Parenthesized(Box::new((**e).duplicate())),
            Expr::Bracketed(e) => Expr::Bracketed(Box::new((**e).duplicate())),
            Expr::SystemOperator(s) => Expr::SystemOperator(s.clone()),
            Expr::Empty => Expr::Empty,
        }
    }

    /// Flattens a right-leaning comma chain into its items.
    pub fn traverse_comma(&self) -> (r: Vec<Expr>)
        ensures
            r@ == comma_items(*self),
        decreases self,
    {
        match self {
            Expr::BinOp(left, Operator::Comma, right) => {
                let mut result = (**left).traverse_comma();
                let mut rest = (**right).traverse_comma();
                result.append(&mut rest);
                result
            },
            _ => {
                let mut result = Vec::new();
                result.push(self.duplicate());
                assert(result@ =~= seq![*self]);
                result
            },
        }
    }

    /// The address that the operand denotes.
    pub fn calculate_address(&self, labels: &LabelTable) -> (r: Result<Address, AssemblyError>)
        ensures
            r is Ok <==> address_of(*self, labels@) is Some,
            r matches Ok(a) ==> a == address_of(*self, labels@)->Some_0,
            r matches Err(e) ==> if address_fails_in_program(*self, labels@) {
                e is Program
            } else {
                e is Syntax
            },
        decreases self,
    {
        match self {
            Expr::DecimalNum(n) => if *n <= 255 {
                Ok(Address::ZeroPage(*n as u8))
            } else {
                Ok(Address::Full(*n))
            },
            Expr::ByteNum(n) => Ok(Address::ZeroPage(*n)),
            Expr::WordNum(n) => Ok(Address::Full(*n)),
            Expr::Identifier(name) => match labels.get(name.as_str()) {
                Some(entry) => Ok(entry.address),
                None => Err(AssemblyError::program("label not found")),
            },
            Expr::BinOp(left, op, right) => {
                let left = match (**left).calculate_address(labels) {
                    Ok(a) => a,
                    Err(e) => {
                        return Err(e);
                    },
                };
                let right = match (**right).calculate_address(labels) {
                    Ok(a) => a,
                    Err(e) => {
                        return Err(e);
                    },
                };
                left.calculate_with(&right, op)
            },
            Expr::Parenthesized(expr) => (**expr).calculate_address(labels),
            _ => Err(AssemblyError::program("operand has no address")),
        }
    }

    /// The number that the operand denotes, where `*` stands for `current_address`.
    pub fn evaluate(&self, labels: &LabelTable, current_address: &u16) -> (r: Result<
        u16,
        AssemblyError,
    >)
        ensures
            r is Ok <==> value_of(*self, labels@, *current_address) is Some,
            r matches Ok(v) ==> v == value_of(*self, labels@, *current_address)->Some_0,
            r matches Err(e) ==> if value_fails_in_program(*self, labels@, *current_address) {
                e is Program
            } else {
                e is Syntax
            },
        decreases self,
    {
        match self {
            Expr::SystemOperator(name) => if same_text(name.as_str(), "*") {
                Ok(*current_address)
            } else {
                Err(AssemblyError::program("operand has no value"))
            },
            Expr::DecimalNum(n) => Ok(*n),
            Expr::ByteNum(n) => Ok(*n as u16),
            Expr::WordNum(n) => Ok(*n),
            Expr::Identifier(name) => match labels.get(name.as_str()) {
                Some(entry) => Ok(entry.address.value_of()),
                None => Err(AssemblyError::program("label not found")),
            },
            Expr::BinOp(left, op, right) => {
                let left = match (**left).evaluate(labels, current_address) {
                    Ok(v) => v,
                    Err(e) => {
                        return Err(e);
                    },
                };
                let right = match (**right).evaluate(labels, current_address) {
                    Ok(v) => v,
                    Err(e) => {
                        return Err(e);
                    },
                };
                match number_calc(left, right, *op) {
                    Some(v) => Ok(v),
                    None => Err(AssemblyError::program("invalid operator")),
                }
            },
            Expr::Parenthesized(expr) => {
                let address = match (**expr).calculate_address(labels) {
                    Ok(a) => a,
                    Err(e) => {
                        return Err(e);
                    },
                };
                Ok(address.value_of())
            },
            _ => Err(AssemblyError::program("operand has no value")),
        }
    }
}

} // verus!
