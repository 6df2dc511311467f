//! The macro expander: rewrites if-statements, do-loops and register shorthand into plain
//! statements, labels and branches before assembly.
use crate::error::AssemblyError;
use crate::expression::{expr_view, Expr, Operator, SpecExpr};
use crate::statement::{
    command_text, line_view, lines_view, statement_view, statements_view, Line, SpecLine,
    SpecStatement, Statement,
};
use crate::text::{decimal_digits, join, number_text, same_text, text_of};
use vstd::prelude::*;

verus! {

/// The label the expander makes for its `k`-th construct.
pub open spec fn macro_label(k: nat) -> Seq<char> {
    "#macro_"@ + decimal_digits(k)
}

/// The label that follows a construct labelled `l`.
pub open spec fn trailer_label(l: Seq<char>) -> Seq<char> {
    l + ".1"@
}

/// `s` is one or more copies of `sign`.
pub open spec fn sign_run(s: Seq<char>, sign: char) -> bool {
    s.len() > 0 && forall|i: int| 0 <= i < s.len() ==> s[i] == sign
}

/// `A=A+n` becomes `C=0 A=AC+n`; `X=+++` becomes three `X=+` (likewise `-` and `Y`); any
/// other statement stays as it is.
pub open spec fn expand_statement(st: SpecStatement) -> Seq<SpecStatement> {
    match st {
        (SpecExpr::Identifier(c), SpecExpr::BinOp(l, Operator::Add, r)) => if c == "A"@ && *l
            == SpecExpr::Identifier("A"@) {
            seq![
                (SpecExpr::Identifier("C"@), SpecExpr::DecimalNum(0)),
                (
                    SpecExpr::Identifier("A"@),
                    SpecExpr::BinOp(Box::new(SpecExpr::Identifier("AC"@)), Operator::Add, r),
                ),
            ]
        } else {
            seq![st]
        },
        (SpecExpr::Identifier(c), SpecExpr::SystemOperator(s)) => if (c == "X"@ || c == "Y"@) && (
        sign_run(s, '+') || sign_run(s, '-')) {
            Seq::new(
                s.len(),
                |i: int| (SpecExpr::Identifier(c), SpecExpr::SystemOperator(seq![s[0]])),
            )
        } else {
            seq![st]
        },
        _ => seq![st],
    }
}

/// Every statement expanded, in order.
pub open spec fn expand_statements(sts: Seq<SpecStatement>) -> Seq<SpecStatement>
    decreases sts.len(),
{
    if sts.len() == 0 {
        seq![]
    } else {
        expand_statements(sts.drop_last()) + expand_statement(sts.last())
    }
}

/// A line at the place of `line` that holds only `label`.
pub open spec fn label_line(line: SpecLine, label: Seq<char>) -> SpecLine {
    SpecLine {
        line_number: line.line_number,
        address: line.address,
        label: Some(label),
        statements: seq![],
        object_codes: seq![],
    }
}

/// An unlabelled line at the place of `line` that holds `sts`.
pub open spec fn body_line(line: SpecLine, sts: Seq<SpecStatement>) -> SpecLine {
    SpecLine {
        line_number: line.line_number,
        address: line.address,
        label: None,
        statements: sts,
        object_codes: seq![],
    }
}

/// The branch condition that skips a block guarded by `op`: the inverse of the condition.
pub open spec fn skip_condition(op: Operator) -> Option<Seq<char>> {
    match op {
        Operator::Equal => Some("/"@),
        Operator::NotEqual => Some("="@),
        Operator::Less => Some(">"@),
        Operator::Greater => Some("<"@),
        _ => None,
    }
}

/// `T=lhs-rhs` and a branch to `target` unless `lhs op rhs` holds.
pub open spec fn test_lines(
    line: SpecLine,
    lhs: SpecExpr,
    sym: Seq<char>,
    rhs: SpecExpr,
    target: Seq<char>,
) -> Seq<SpecLine> {
    seq![
        body_line(
            line,
            seq![
                (
                    SpecExpr::Identifier("T"@),
                    SpecExpr::BinOp(Box::new(lhs), Operator::Sub, Box::new(rhs)),
                ),
            ],
        ),
        body_line(
            line,
            seq![
                (
                    SpecExpr::SystemOperator(";"@),
                    SpecExpr::BinOp(
                        Box::new(SpecExpr::SystemOperator(sym)),
                        Operator::Comma,
                        Box::new(SpecExpr::Identifier(target)),
                    ),
                ),
            ],
        ),
    ]
}

/// The inside of an if-statement: the test, then the then-statements on one line; a condition
/// that is not a comparison is an error.
pub open spec fn if_body(line: SpecLine, cond: SpecExpr, rest: Seq<SpecStatement>, target: Seq<char>) -> Option<
    Seq<SpecLine>,
> {
    match cond {
        SpecExpr::BinOp(lhs, op, rhs) => match skip_condition(op) {
            Some(sym) => Some(
                test_lines(line, *lhs, sym, *rhs, target).push(
                    body_line(line, expand_statements(rest)),
                ),
            ),
            None => None,
        },
        _ => None,
    }
}

/// The close of a do-loop labelled `l`: the test, a jump back, and the label after the loop;
/// a condition that is not a comparison is an error.
pub open spec fn loop_close(line: SpecLine, cond: SpecExpr, l: Seq<char>) -> Option<Seq<SpecLine>> {
    match cond {
        SpecExpr::BinOp(lhs, op, rhs) => match skip_condition(op) {
            Some(sym) => Some(
                test_lines(line, *lhs, sym, *rhs, trailer_label(l)) + seq![
                    body_line(line, seq![(SpecExpr::SystemOperator("#"@), SpecExpr::Identifier(l))]),
                    label_line(line, trailer_label(l)),
                ],
            ),
            None => None,
        },
        _ => None,
    }
}

/// How the command of a statement reads.
pub open spec fn command_text_view(e: SpecExpr) -> Option<Seq<char>> {
    match e {
        SpecExpr::Identifier(c) => Some(c),
        SpecExpr::SystemOperator(s) => Some(s),
        SpecExpr::Parenthesized(_) => Some("(#<Expr>)"@),
        SpecExpr::Bracketed(_) => Some("[#<Expr>]"@),
        SpecExpr::BinOp(_, Operator::Add, _) => Some("#<Expr>+#<Expr>"@),
        _ => None,
    }
}

/// The expansion of one line, given the open do-loops and the number of labels made so far:
/// the lines it becomes, the open loops and the count afterwards.
pub open spec fn line_expansion(line: SpecLine, stack: Seq<Seq<char>>, k: nat) -> Option<
    (Seq<SpecLine>, Seq<Seq<char>>, nat),
> {
    if line.statements.len() == 0 {
        Some((seq![line], stack, k))
    } else {
        let first = line.statements[0];
        let rest = line.statements.subrange(1, line.statements.len() as int);
        match command_text_view(first.0) {
            None => None,
            Some(c) => if c == ";"@ {
                if first.1 matches SpecExpr::BinOp(_, Operator::Comma, _) {
                    Some((seq![line], stack, k))
                } else {
                    let l = macro_label(k);
                    match if_body(line, first.1, rest, trailer_label(l)) {
                        Some(body) => Some(
                            (
                                seq![label_line(line, l)] + body + seq![
                                    label_line(line, trailer_label(l)),
                                ],
                                stack,
                                k + 1,
                            ),
                        ),
                        None => None,
                    }
                }
            } else if c == "@"@ {
                if first.1 is Empty {
                    let l = macro_label(k);
                    Some(
                        (
                            seq![label_line(line, l), body_line(line, expand_statements(rest))],
                            stack.push(l),
                            k + 1,
                        ),
                    )
                } else if stack.len() == 0 {
                    None
                } else {
                    match loop_close(line, first.1, stack.last()) {
                        Some(t) => Some(
                            (
                                t.push(body_line(line, expand_statements(rest))),
                                stack.drop_last(),
                                k,
                            ),
                        ),
                        None => None,
                    }
                }
            } else {
                Some(
                    (
                        seq![SpecLine { statements: expand_statements(line.statements), ..line }],
                        stack,
                        k,
                    ),
                )
            },
        }
    }
}

/// The expansion of a program: each line expanded in turn, with the open loops and the label
/// count carried from line to line.
pub open spec fn expand_spec(lines: Seq<SpecLine>) -> Option<(Seq<SpecLine>, Seq<Seq<char>>, nat)>
    decreases lines.len(),
{
    if lines.len() == 0 {
        Some((seq![], seq![], 0))
    } else {
        match expand_spec(lines.drop_last()) {
            Some((out, stack, k)) => match line_expansion(lines.last(), stack, k) {
                Some((o, s2, k2)) => Some((out + o, s2, k2)),
                None => None,
            },
            None => None,
        }
    }
}

/// An if-statement `;=lhs op rhs then...` with a comparison `op` becomes five lines: a fresh
/// label, `T=lhs-rhs`, a branch on the inverted condition to the trailer label, the expanded
/// then-statements on one line, and the trailer label.
pub proof fn lemma_if_expansion(line: SpecLine, stack: Seq<Seq<char>>, k: nat)
    requires
        line.statements.len() > 0,
        line.statements[0].0 == SpecExpr::SystemOperator(";"@),
        line.statements[0].1 matches SpecExpr::BinOp(_, op, _) && skip_condition(op) is Some,
    ensures
        ({
            let l = macro_label(k);
            let rest = line.statements.subrange(1, line.statements.len() as int);
            match line.statements[0].1 {
                SpecExpr::BinOp(lhs, op, rhs) => line_expansion(line, stack, k) == Some(
                    (
                        seq![label_line(line, l)] + test_lines(
                            line,
                            *lhs,
                            skip_condition(op)->Some_0,
                            *rhs,
                            trailer_label(l),
                        ) + seq![
                            body_line(line, expand_statements(rest)),
                            label_line(line, trailer_label(l)),
                        ],
                        stack,
                        k + 1,
                    ),
                ),
                _ => false,
            }
        }),
{
    let l = macro_label(k);
    let rest = line.statements.subrange(1, line.statements.len() as int);
    if let SpecExpr::BinOp(lhs, op, rhs) = line.statements[0].1 {
        let t = test_lines(line, *lhs, skip_condition(op)->Some_0, *rhs, trailer_label(l));
        assert(seq![label_line(line, l)] + t.push(body_line(line, expand_statements(rest)))
            + seq![label_line(line, trailer_label(l))] =~= seq![label_line(line, l)] + t + seq![
            body_line(line, expand_statements(rest)),
            label_line(line, trailer_label(l)),
        ]);
    }
}

proof fn lemma_command_text(e: Expr)
    ensures
        command_text(e) == command_text_view(expr_view(e)),
{
}

proof fn lemma_views_push(s: Seq<Statement>, x: Statement)
    ensures
        statements_view(s.push(x)) == statements_view(s).push(statement_view(x)),
{
    assert(statements_view(s.push(x)) =~= statements_view(s).push(statement_view(x)));
}

proof fn lemma_views_append(a: Seq<Statement>, b: Seq<Statement>)
    ensures
        statements_view(a + b) == statements_view(a) + statements_view(b),
{
    assert(statements_view(a + b) =~= statements_view(a) + statements_view(b));
}

proof fn lemma_lines_view_append(a: Seq<Line>, b: Seq<Line>)
    ensures
        lines_view(a + b) == lines_view(a) + lines_view(b),
{
    assert(lines_view(a + b) =~= lines_view(a) + lines_view(b));
}

fn ident(name: &str) -> (r: Expr)
    ensures
        r@ == SpecExpr::Identifier(name@),
{
    Expr::Identifier(text_of(name))
}

fn symbol(name: &str) -> (r: Expr)
    ensures
        r@ == SpecExpr::SystemOperator(name@),
{
    Expr::SystemOperator(text_of(name))
}

/// A fresh label for the next construct.
fn generate_macro_identifier(counter: &mut usize) -> (r: String)
    requires
        *old(counter) < usize::MAX,
    ensures
        r@ == macro_label(*old(counter) as nat),
        *final(counter) == *old(counter) + 1,
{
    let count = *counter;
    *counter = count + 1;
    join("#macro_", number_text(count).as_str())
}

/// `A+n`: the `n`.
fn a_plus_n(expr: &Expr) -> (r: Result<Expr, AssemblyError>)
    ensures
        match *expr {
            Expr::BinOp(l, Operator::Add, rt) => if (*l)@ == SpecExpr::Identifier("A"@) {
                r == Ok::<Expr, AssemblyError>(*rt)
            } else {
                r is Err
            },
            _ => r is Err,
        },
{
    if let Expr::BinOp(lhs, Operator::Add, rhs) = expr {
        if let Expr::Identifier(id) = &**lhs {
            if same_text(id.as_str(), "A") {
                return Ok((**rhs).duplicate());
            }
        }
    }
    Err(AssemblyError::macro_error("not an addition to A"))
}

/// Whether `s` is one or more copies of `sign`.
fn is_sign_run(s: &str, sign: char) -> (r: bool)
    ensures
        r == sign_run(s@, sign),
{
    let n = s.unicode_len();
    if n == 0 {
        return false;
    }
    let mut i: usize = 0;
    while i < n
        invariant
            n == s@.len(),
            i <= n,
            forall|j: int| 0 <= j < i ==> s@[j] == sign,
        decreases n - i,
    {
        if s.get_char(i) != sign {
            return false;
        }
        i += 1;
    }
    true
}

/// `cmd=+++` (or a run of `-`): the length of the run of `sign`.
fn process_xx(statement: &Statement, cmd: &str, sign: char) -> (r: Result<usize, AssemblyError>)
    ensures
        match (statement.command@, statement.expression@) {
            (SpecExpr::Identifier(c), SpecExpr::SystemOperator(s)) => if c == cmd@ && sign_run(
                s,
                sign,
            ) {
                (r matches Ok(n) && n as nat == s.len())
            } else {
                r is Err
            },
            _ => r is Err,
        },
{
    if let Expr::Identifier(command) = &statement.command {
        if same_text(command.as_str(), cmd) {
            if let Expr::SystemOperator(op) = &statement.expression {
                if is_sign_run(op.as_str(), sign) {
                    return Ok(op.as_str().unicode_len());
                }
            }
        }
    }
    Err(AssemblyError::macro_error("not a run of steps"))
}

/// `X=++...`: the number of increments of X.
fn inxx(statement: &Statement) -> (r: Result<usize, AssemblyError>)
    ensures
        match (statement.command@, statement.expression@) {
            (SpecExpr::Identifier(c), SpecExpr::SystemOperator(s)) => if c == "X"@ && sign_run(s, '+') {
                (r matches Ok(n) && n as nat == s.len())
            } else {
                r is Err
            },
            _ => r is Err,
        },
{
    process_xx(statement, "X", '+')
}

/// `X=--...`: the number of decrements of X.
fn dexx(statement: &Statement) -> (r: Result<usize, AssemblyError>)
    ensures
        match (statement.command@, statement.expression@) {
            (SpecExpr::Identifier(c), SpecExpr::SystemOperator(s)) => if c == "X"@ && sign_run(s, '-') {
                (r matches Ok(n) && n as nat == s.len())
            } else {
                r is Err
            },
            _ => r is Err,
        },
{
    process_xx(statement, "X", '-')
}

/// `Y=++...`: the number of increments of Y.
fn inyy(statement: &Statement) -> (r: Result<usize, AssemblyError>)
    ensures
        match (statement.command@, statement.expression@) {
            (SpecExpr::Identifier(c), SpecExpr::SystemOperator(s)) => if c == "Y"@ && sign_run(s, '+') {
                (r matches Ok(n) && n as nat == s.len())
            } else {
                r is Err
            },
            _ => r is Err,
        },
{
    process_xx(statement, "Y", '+')
}

/// `Y=--...`: the number of decrements of Y.
fn deyy(statement: &Statement) -> (r: Result<usize, AssemblyError>)
    ensures
        match (statement.command@, statement.expression@) {
            (SpecExpr::Identifier(c), SpecExpr::SystemOperator(s)) => if c == "Y"@ && sign_run(s, '-') {
                (r matches Ok(n) && n as nat == s.len())
            } else {
                r is Err
            },
            _ => r is Err,
        },
{
    process_xx(statement, "Y", '-')
}

/// `A=A+n` becomes `C=0 A=AC+n`: clear the carry, then add with carry.
fn transform_adc_statement(expr: &Expr) -> (r: Vec<Statement>)
    ensures
        statements_view(r@) == seq![
            (SpecExpr::Identifier("C"@), SpecExpr::DecimalNum(0)),
            (
                SpecExpr::Identifier("A"@),
                SpecExpr::BinOp(Box::new(SpecExpr::Identifier("AC"@)), Operator::Add, Box::new(expr@)),
            ),
        ],
{
    let mut result = Vec::new();
    let stmt1 = Statement { command: ident("C"), expression: Expr::DecimalNum(0) };
    let ac_plus_n = Expr::BinOp(Box::new(ident("AC")), Operator::Add, Box::new(expr.duplicate()));
    let stmt2 = Statement { command: ident("A"), expression: ac_plus_n };
    result.push(stmt1);
    result.push(stmt2);
    assert(statements_view(result@) =~= seq![
        (SpecExpr::Identifier("C"@), SpecExpr::DecimalNum(0)),
        (
            SpecExpr::Identifier("A"@),
            SpecExpr::BinOp(Box::new(SpecExpr::Identifier("AC"@)), Operator::Add, Box::new(expr@)),
        ),
    ]);
    result
}

/// `n` copies of `cmd=op`.
fn transform_xx_statement(n: usize, cmd: &str, op: &str) -> (r: Vec<Statement>)
    ensures
        statements_view(r@) == Seq::new(
            n as nat,
            |i: int| (SpecExpr::Identifier(cmd@), SpecExpr::SystemOperator(op@)),
        ),
{
    let mut result: Vec<Statement> = Vec::new();
    let mut i: usize = 0;
    while i < n
        invariant
            i <= n,
            statements_view(result@) == Seq::new(
                i as nat,
                |j: int| (SpecExpr::Identifier(cmd@), SpecExpr::SystemOperator(op@)),
            ),
        decreases n - i,
    {
        let stmt = Statement { command: ident(cmd), expression: symbol(op) };
        proof {
            lemma_views_push(result@, stmt);
        }
        result.push(stmt);
        i += 1;
        assert(statements_view(result@) =~= Seq::new(
            i as nat,
            |j: int| (SpecExpr::Identifier(cmd@), SpecExpr::SystemOperator(op@)),
        ));
    }
    result
}

/// The register shorthand of one statement, expanded.
pub fn transform_statement(statement: &Statement) -> (r: Result<Vec<Statement>, AssemblyError>)
    ensures
        r matches Ok(v) && statements_view(v@) == expand_statement(statement_view(*statement)),
{
    proof {
        reveal_strlit("+");
        reveal_strlit("-");
        reveal_strlit("X");
        reveal_strlit("Y");
    }
    let is_a = match &statement.command {
        Expr::Identifier(c) => same_text(c.as_str(), "A"),
        _ => false,
    };
    if is_a {
        if let Ok(n) = a_plus_n(&statement.expression) {
            return Ok(transform_adc_statement(&n));
        }
    }
    let ghost st = statement_view(*statement);
    let v = if let Ok(n) = inxx(statement) {
        let v = transform_xx_statement(n, "X", "+");
        proof {
            if let (SpecExpr::Identifier(c), SpecExpr::SystemOperator(s)) = st {
                assert(c == "X"@);
                assert(sign_run(s, '+'));
                assert(s[0] == '+');
                assert(seq![s[0]] =~= "+"@);
                assert(n == s.len());
                let e = Seq::new(
                    s.len(),
                    |i: int| (SpecExpr::Identifier(c), SpecExpr::SystemOperator(seq![s[0]])),
                );
                assert(expand_statement(st) == e);
                assert(statements_view(v@) =~= e);
            }
        }
        v
    } else if let Ok(n) = dexx(statement) {
        let v = transform_xx_statement(n, "X", "-");
        proof {
            if let (SpecExpr::Identifier(c), SpecExpr::SystemOperator(s)) = st {
                assert(c == "X"@);
                assert(sign_run(s, '-'));
                assert(s[0] == '-');
                assert(seq![s[0]] =~= "-"@);
                assert(n == s.len());
                let e = Seq::new(
                    s.len(),
                    |i: int| (SpecExpr::Identifier(c), SpecExpr::SystemOperator(seq![s[0]])),
                );
                assert(expand_statement(st) == e);
                assert(statements_view(v@) =~= e);
            }
        }
        v
    } else if let Ok(n) = inyy(statement) {
        let v = transform_xx_statement(n, "Y", "+");
        proof {
            if let (SpecExpr::Identifier(c), SpecExpr::SystemOperator(s)) = st {
                assert(c == "Y"@);
                assert(sign_run(s, '+'));
                assert(s[0] == '+');
                assert(seq![s[0]] =~= "+"@);
                assert(n == s.len());
                let e = Seq::new(
                    s.len(),
                    |i: int| (SpecExpr::Identifier(c), SpecExpr::SystemOperator(seq![s[0]])),
                );
                assert(expand_statement(st) == e);
                assert(statements_view(v@) =~= e);
            }
        }
        v
    } else if let Ok(n) = deyy(statement) {
        let v = transform_xx_statement(n, "Y", "-");
        proof {
            if let (SpecExpr::Identifier(c), SpecExpr::SystemOperator(s)) = st {
                assert(c == "Y"@);
                assert(sign_run(s, '-'));
                assert(s[0] == '-');
                assert(seq![s[0]] =~= "-"@);
                assert(n == s.len());
                let e = Seq::new(
                    s.len(),
                    |i: int| (SpecExpr::Identifier(c), SpecExpr::SystemOperator(seq![s[0]])),
                );
                assert(expand_statement(st) == e);
                assert(statements_view(v@) =~= e);
            }
        }
        v
    } else {
        let mut v = Vec::new();
        v.push(statement.duplicate());
        assert(statements_view(v@) =~= seq![statement_view(*statement)]);
        proof {
            if let (SpecExpr::Identifier(c), SpecExpr::SystemOperator(s)) = st {
                if c == "X"@ || c == "Y"@ {
                    assert(!(sign_run(s, '+') || sign_run(s, '-')));
                }
            }
        }
        v
    };
    Ok(v)
}

/// The statements `sts[from..]`, each expanded.
fn transform_list(sts: &Vec<Statement>, from: usize) -> (r: Vec<Statement>)
    requires
        from <= sts@.len(),
    ensures
        statements_view(r@) == expand_statements(
            statements_view(sts@.subrange(from as int, sts@.len() as int)),
        ),
{
    let mut result: Vec<Statement> = Vec::new();
    let mut i: usize = from;
    while i < sts.len()
        invariant
            from <= i <= sts@.len(),
            statements_view(result@) == expand_statements(
                statements_view(sts@.subrange(from as int, i as int)),
            ),
        decreases sts.len() - i,
    {
        let ghost before = result@;
        let mut expanded = match transform_statement(&sts[i]) {
            Ok(v) => v,
            Err(_) => Vec::new(),
        };
        let ghost ex = expanded@;
        result.append(&mut expanded);
        proof {
            lemma_views_append(before, ex);
            let p = statements_view(sts@.subrange(from as int, i + 1));
            assert(p.drop_last() =~= statements_view(sts@.subrange(from as int, i as int)));
            assert(p.last() == statement_view(sts@[i as int]));
        }
        i += 1;
    }
    result
}

/// A line whose statements are all expanded.
fn transform_statements(line: &Line) -> (r: Result<Vec<Line>, AssemblyError>)
    ensures
        r matches Ok(v) && lines_view(v@) == seq![
            SpecLine {
                statements: expand_statements(line_view(*line).statements),
                ..line_view(*line)
            },
        ],
{
    let statements = transform_list(&line.statements, 0);
    assert(line.statements@.subrange(0, line.statements@.len() as int) =~= line.statements@);
    let mut inst = line.duplicate();
    inst.statements = statements;
    let mut v = Vec::new();
    v.push(inst);
    assert(lines_view(v@) =~= seq![
        SpecLine { statements: expand_statements(line_view(*line).statements), ..line_view(*line) },
    ]);
    Ok(v)
}

/// An unlabelled line at the place of `line` that holds `statements`.
fn body(line: &Line, statements: Vec<Statement>) -> (r: Line)
    ensures
        line_view(r) == crate::assembly_macro::body_line(line_view(*line), statements_view(statements@)),
{
    Line::new(line.line_number, line.address, None, statements, Vec::new())
}

fn single(st: Statement) -> (r: Vec<Statement>)
    ensures
        statements_view(r@) == seq![statement_view(st)],
{
    let mut v = Vec::new();
    v.push(st);
    assert(statements_view(v@) =~= seq![statement_view(st)]);
    v
}

/// The branch that skips a block guarded by `op`.
fn skip_symbol(op: Operator) -> (r: Result<&'static str, AssemblyError>)
    ensures
        match skip_condition(op) {
            Some(s) => r matches Ok(t) && t@ == s,
            None => r matches Err(e) && e is Macro,
        },
{
    match op {
        Operator::Equal => Ok("/"),
        Operator::NotEqual => Ok("="),
        Operator::Less => Ok(">"),
        Operator::Greater => Ok("<"),
        _ => Err(AssemblyError::macro_error("invalid condition operator")),
    }
}

/// `T=lhs-rhs` and a branch to `target` unless the condition holds.
fn test(line: &Line, lhs: &Expr, sym: &str, rhs: &Expr, target: &str) -> (r: Vec<Line>)
    ensures
        lines_view(r@) == test_lines(line_view(*line), lhs@, sym@, rhs@, target@),
{
    let stmt1 = Statement {
        command: ident("T"),
        expression: Expr::BinOp(Box::new(lhs.duplicate()), Operator::Sub, Box::new(rhs.duplicate())),
    };
    let stmt2 = Statement {
        command: symbol(";"),
        expression: Expr::BinOp(Box::new(symbol(sym)), Operator::Comma, Box::new(ident(target))),
    };
    let mut v = Vec::new();
    v.push(body(line, single(stmt1)));
    v.push(body(line, single(stmt2)));
    assert(lines_view(v@) =~= test_lines(line_view(*line), lhs@, sym@, rhs@, target@));
    v
}

/// The inside of an if-statement whose skip branch goes to `macro_label`.
fn expand_if_statement(line: &Line, macro_label: &str) -> (r: Result<Vec<Line>, AssemblyError>)
    requires
        line.statements@.len() > 0,
    ensures
        ({
            let l = line_view(*line);
            let s = if_body(
                l,
                l.statements[0].1,
                l.statements.subrange(1, l.statements.len() as int),
                macro_label@,
            );
            &&& r is Ok <==> s is Some
            &&& r matches Ok(v) ==> s == Some(lines_view(v@))
        }),
        r matches Err(e) ==> e is Macro,
{
    let mut result = Vec::new();
    let if_stmt = &line.statements[0];
    proof {
        assert(statements_view(line.statements@.subrange(1, line.statements@.len() as int))
            =~= line_view(*line).statements.subrange(1, line.statements@.len() as int));
    }
    if let Expr::BinOp(lhs, op, rhs) = &if_stmt.expression {
        let sym = match skip_symbol(*op) {
        Ok(v) => v,
        Err(e) => {
            return Err(e);
        },
    };
        result = test(line, lhs, sym, rhs, macro_label);
        let then_statements = transform_list(&line.statements, 1);
        let then_line = body(line, then_statements);
        proof {
            lemma_lines_push(result@, then_line);
        }
        result.push(then_line);
    } else {
        return Err(AssemblyError::macro_error("condition must be a comparison"));
    }
    Ok(result)
}

proof fn lemma_lines_push(s: Seq<Line>, x: Line)
    ensures
        lines_view(s.push(x)) == lines_view(s).push(line_view(x)),
{
    assert(lines_view(s.push(x)) =~= lines_view(s).push(line_view(x)));
}

/// The texts of a list of strings.
pub open spec fn strings_view(s: Seq<String>) -> Seq<Seq<char>> {
    s.map_values(|x: String| x@)
}

fn one_line(line: Line) -> (r: Vec<Line>)
    ensures
        lines_view(r@) == seq![line_view(line)],
{
    let mut v = Vec::new();
    v.push(line);
    assert(lines_view(v@) =~= seq![line_view(line)]);
    v
}

fn copy_line(line: &Line) -> (r: Line)
    ensures
        line_view(r) == line_view(*line),
{
    let r = line.duplicate();
    assert(statements_view(r.statements@) =~= statements_view(line.statements@));
    r
}

fn label_only(line: &Line, label: &str) -> (r: Line)
    ensures
        line_view(r) == label_line(line_view(*line), label@),
{
    let r = line.new_label(label);
    assert(statements_view(r.statements@) =~= seq![]);
    assert(r.object_codes@ =~= seq![]);
    r
}

/// `;=X>10 A=A+1`: a label, the test, the then-statements and the label after them; a plain
/// branch `;=sym,target` stays as it is.
fn transform_if_statement(line: &Line, counter: &mut usize) -> (r: Result<Vec<Line>, AssemblyError>)
    requires
        line.statements@.len() > 0,
        *old(counter) < usize::MAX,
    ensures
        ({
            let l = line_view(*line);
            let first = l.statements[0];
            let rest = l.statements.subrange(1, l.statements.len() as int);
            if first.1 matches SpecExpr::BinOp(_, Operator::Comma, _) {
                r matches Ok(v) && lines_view(v@) == seq![l] && *final(counter) == *old(counter)
            } else {
                let lab = macro_label(*old(counter) as nat);
                let body = if_body(l, first.1, rest, trailer_label(lab));
                &&& r is Ok <==> body is Some
                &&& r matches Ok(v) ==> lines_view(v@) == seq![label_line(l, lab)] + body->Some_0
                    + seq![label_line(l, trailer_label(lab))]
                &&& *final(counter) == *old(counter) + 1
            }
        }),
        r matches Err(e) ==> e is Macro,
{
    if !line.statements[0].check_macro_if_statement() {
        return Ok(one_line(copy_line(line)));
    }
    let label = generate_macro_identifier(counter);
    let header = label_only(line, label.as_str());
    let trailer_label = join(label.as_str(), ".1");
    let trailer = label_only(line, trailer_label.as_str());
    let mut result = one_line(header);
    let mut lines = match expand_if_statement(line, trailer_label.as_str()) {
        Ok(v) => v,
        Err(e) => {
            return Err(e);
        },
    };
    let ghost before = result@;
    let ghost middle = lines@;
    result.append(&mut lines);
    proof {
        lemma_lines_view_append(before, middle);
        lemma_lines_push(result@, trailer);
    }
    result.push(trailer);
    Ok(result)
}

/// The close of a do-loop labelled `label`.
fn expand_do_statement(line: &Line, label: &str) -> (r: Result<Vec<Line>, AssemblyError>)
    requires
        line.statements@.len() > 0,
    ensures
        ({
            let s = loop_close(line_view(*line), line_view(*line).statements[0].1, label@);
            &&& r is Ok <==> s is Some
            &&& r matches Ok(v) ==> s == Some(lines_view(v@))
        }),
        r matches Err(e) ==> e is Macro,
{
    let mut result = Vec::new();
    let statement = &line.statements[0];
    if let Expr::BinOp(lhs, op, rhs) = &statement.expression {
        let sym = match skip_symbol(*op) {
        Ok(v) => v,
        Err(e) => {
            return Err(e);
        },
    };
        let next_label = join(label, ".1");
        result = test(line, lhs, sym, rhs, next_label.as_str());
        let stmt3 = Statement { command: symbol("#"), expression: ident(label) };
        let jump = body(line, single(stmt3));
        let after = label_only(line, next_label.as_str());
        proof {
            lemma_lines_push(result@, jump);
            lemma_lines_push(result@.push(jump), after);
        }
        result.push(jump);
        result.push(after);
        assert(lines_view(result@) =~= loop_close(
            line_view(*line),
            line_view(*line).statements[0].1,
            label@,
        )->Some_0);
    } else {
        return Err(AssemblyError::macro_error("condition must be a comparison"));
    }
    Ok(result)
}

/// `@` opens a do-loop with a fresh label; `@=X>10` closes the innermost one.
fn transform_do_statement(line: &Line, stack: &mut Vec<String>, counter: &mut usize) -> (r: Result<
    Vec<Line>,
    AssemblyError,
>)
    requires
        line.statements@.len() > 0,
        *old(counter) < usize::MAX,
    ensures
        ({
            let l = line_view(*line);
            let first = l.statements[0];
            let rest = l.statements.subrange(1, l.statements.len() as int);
            let st = strings_view(old(stack)@);
            if first.1 is Empty {
                let lab = macro_label(*old(counter) as nat);
                &&& r matches Ok(v) && lines_view(v@) == seq![
                    label_line(l, lab),
                    body_line(l, expand_statements(rest)),
                ]
                &&& strings_view(final(stack)@) == st.push(lab)
                &&& *final(counter) == *old(counter) + 1
            } else if st.len() == 0 {
                r matches Err(e) && e is Macro && *final(counter) == *old(counter)
            } else {
                let close = loop_close(l, first.1, st.last());
                &&& r is Ok <==> close is Some
                &&& r matches Ok(v) ==> lines_view(v@) == close->Some_0.push(
                    body_line(l, expand_statements(rest)),
                )
                &&& r is Ok ==> strings_view(final(stack)@) == st.drop_last()
                &&& *final(counter) == *old(counter)
            }
        }),
        r matches Err(e) ==> e is Macro,
{
    proof {
        assert(statements_view(line.statements@.subrange(1, line.statements@.len() as int))
            =~= line_view(*line).statements.subrange(1, line.statements@.len() as int));
    }
    let statement = &line.statements[0];
    if let Expr::Empty = &statement.expression {
        let label = generate_macro_identifier(counter);
        let label_copy = text_of(label.as_str());
        let ghost old_stack = stack@;
        stack.push(label_copy);
        assert(strings_view(stack@) =~= strings_view(old_stack).push(label@));
        let first = label_only(line, label.as_str());
        let rest = body(line, transform_list(&line.statements, 1));
        let mut result = one_line(first);
        proof {
            lemma_lines_push(result@, rest);
        }
        result.push(rest);
        assert(lines_view(result@) =~= seq![line_view(first), line_view(rest)]);
        Ok(result)
    } else {
        let ghost old_stack = stack@;
        let label = match stack.pop() {
            Some(l) => l,
            None => {
                return Err(AssemblyError::macro_error("unmatched do loop"));
            },
        };
        assert(strings_view(stack@) =~= strings_view(old_stack).drop_last());
        let mut lines = match expand_do_statement(line, label.as_str()) {
        Ok(v) => v,
        Err(e) => {
            return Err(e);
        },
    };
        let rest = body(line, transform_list(&line.statements, 1));
        proof {
            lemma_lines_push(lines@, rest);
        }
        lines.push(rest);
        Ok(lines)
    }
}

/// The expansion of one line; see [`line_expansion`].
fn transform_line(line: &Line, stack: &mut Vec<String>, counter: &mut usize) -> (r: Result<
    Vec<Line>,
    AssemblyError,
>)
    requires
        *old(counter) < usize::MAX,
    ensures
        ({
            let s = line_expansion(
                line_view(*line),
                strings_view(old(stack)@),
                *old(counter) as nat,
            );
            &&& r is Ok <==> s is Some
            &&& r matches Ok(v) ==> s == Some(
                (lines_view(v@), strings_view(final(stack)@), *final(counter) as nat),
            )
        }),
        *final(counter) <= *old(counter) + 1,
        r matches Err(e) ==> line.statements@.len() > 0 && if command_text_view(
            line_view(*line).statements[0].0,
        ) is None {
            e is Syntax
        } else {
            e is Macro
        },
{
    if line.statements.len() == 0 {
        return Ok(one_line(copy_line(line)));
    }
    let statement = &line.statements[0];
    proof {
        lemma_command_text(statement.command);
        assert(line_view(*line).statements[0] == statement_view(*statement));
    }
    let command = match statement.command() {
        Ok(v) => v,
        Err(e) => {
            return Err(e);
        },
    };
    if same_text(command.as_str(), ";") {
        transform_if_statement(line, counter)
    } else if same_text(command.as_str(), "@") {
        transform_do_statement(line, stack, counter)
    } else {
        transform_statements(line)
    }
}

/// Expands the if-statements, do-loops and register shorthand of a program.
pub fn expand(lines: &Vec<Line>) -> (r: Result<Vec<Line>, AssemblyError>)
    ensures
        r is Ok <==> expand_spec(lines_view(lines@)) is Some,
        r matches Ok(v) ==> lines_view(v@) == expand_spec(lines_view(lines@))->Some_0.0,
        r matches Err(e) ==> e is Macro || e is Syntax,
        (forall|k: int|
            0 <= k < lines@.len() && (#[trigger] lines@[k]).statements@.len() > 0
                ==> command_text_view(line_view(lines@[k]).statements[0].0) is Some) ==> (r matches Err(
            e,
        ) ==> e is Macro),
{
    let mut result: Vec<Line> = Vec::new();
    let mut stack: Vec<String> = Vec::new();
    let mut counter: usize = 0;
    let mut i: usize = 0;
    assert(lines_view(lines@.subrange(0, 0)) =~= seq![]);
    assert(lines_view(result@) =~= seq![]);
    assert(strings_view(stack@) =~= seq![]);
    while i < lines.len()
        invariant
            i <= lines@.len(),
            counter <= i,
            expand_spec(lines_view(lines@.subrange(0, i as int))) == Some(
                (lines_view(result@), strings_view(stack@), counter as nat),
            ),
        decreases lines.len() - i,
    {
        proof {
            let p = lines_view(lines@.subrange(0, i + 1));
            assert(p.drop_last() =~= lines_view(lines@.subrange(0, i as int)));
            assert(p.last() == line_view(lines@[i as int]));
        }
        match transform_line(&lines[i], &mut stack, &mut counter) {
            Ok(expanded) => {
                let ghost before = result@;
                let ghost ex = expanded@;
                let mut expanded = expanded;
                result.append(&mut expanded);
                proof {
                    lemma_lines_view_append(before, ex);
                }
            },
            Err(e) => {
                proof {
                    assert(lines_view(lines@).subrange(0, i + 1) =~= lines_view(
                        lines@.subrange(0, i + 1),
                    ));
                    lemma_expand_prefix(lines_view(lines@), i as int + 1);
                }
                return Err(e);
            },
        }
        i += 1;
    }
    assert(lines@.subrange(0, i as int) =~= lines@);
    Ok(result)
}

proof fn lemma_expand_prefix(lines: Seq<SpecLine>, k: int)
    requires
        0 <= k <= lines.len(),
        expand_spec(lines.subrange(0, k)) is None,
    ensures
        expand_spec(lines) is None,
    decreases lines.len() - k,
{
    if k < lines.len() {
        assert(lines.subrange(0, k + 1).drop_last() =~= lines.subrange(0, k));
        lemma_expand_prefix(lines, k + 1);
    } else {
        assert(lines.subrange(0, k) =~= lines);
    }
}

} // verus!
