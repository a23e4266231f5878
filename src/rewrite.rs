//! The rewrite pass: strip grouping, rewrite children first, then turn each
//! arithmetic operator into a call of the dispatch interface.
use vstd::prelude::*;
use crate::ast::{
    BinOp, Expr, Method, SExpr, SStmt, Stmt, UnOp, copy_expr, copy_stmt, lemma_view_exprs,
    lemma_view_stmts,
    view_expr, view_exprs, view_stmt, view_stmts,
};

verus! {

/// The error that stops a rewrite.
#[derive(Clone, Copy, Debug, PartialEq, Eq, Structural)]
pub enum RewriteError {
    /// A compound assignment with this operator has a target that cannot be
    /// assigned to.
    NotAssignable(BinOp),
}

/// The dispatch method that an operator is rewritten to, if any.
pub open spec fn method_of(op: BinOp) -> Option<Method> {
    match op {
        BinOp::Add | BinOp::AddAssign => Some(Method::FastAdd),
        BinOp::Sub | BinOp::SubAssign => Some(Method::FastSub),
        BinOp::Mul | BinOp::MulAssign => Some(Method::FastMul),
        BinOp::Div | BinOp::DivAssign => Some(Method::FastDiv),
        BinOp::Rem | BinOp::RemAssign => Some(Method::FastRem),
        BinOp::Shl | BinOp::ShlAssign => Some(Method::FastShl),
        BinOp::Shr | BinOp::ShrAssign => Some(Method::FastShr),
        _ => None,
    }
}

/// Whether an operator is a compound assignment.
pub open spec fn compound(op: BinOp) -> bool {
    match op {
        BinOp::AddAssign | BinOp::SubAssign | BinOp::MulAssign | BinOp::DivAssign
        | BinOp::RemAssign | BinOp::ShlAssign | BinOp::ShrAssign | BinOp::BitXorAssign
        | BinOp::BitAndAssign | BinOp::BitOrAssign => true,
        _ => false,
    }
}

/// Whether an expression names a place that can be assigned to.
pub open spec fn assignable(e: SExpr) -> bool {
    match e {
        SExpr::Path(_) | SExpr::Field(_, _) | SExpr::Index(_, _) => true,
        SExpr::Unary(op, _) => op == UnOp::Deref,
        _ => false,
    }
}

/// `method(left, right)`, a call of the dispatch interface.
pub open spec fn dispatch_call(m: Method, left: SExpr, right: SExpr) -> SExpr {
    SExpr::Call(Box::new(SExpr::Dispatch(m)), seq![left, right])
}

/// What a binary node becomes once its operands have been rewritten.
pub open spec fn rewritten_binary(op: BinOp, left: SExpr, right: SExpr) -> Result<SExpr, RewriteError> {
    match method_of(op) {
        Some(m) => if compound(op) {
            if assignable(left) {
                Ok(SExpr::Assign(Box::new(left), Box::new(dispatch_call(m, left, right))))
            } else {
                Err(RewriteError::NotAssignable(op))
            }
        } else {
            Ok(dispatch_call(m, left, right))
        },
        None => Ok(SExpr::Binary(op, Box::new(left), Box::new(right))),
    }
}

/// The rewrite of an expression.
pub open spec fn rewritten(e: SExpr) -> Result<SExpr, RewriteError>
    decreases e,
{
    match e {
        SExpr::Lit(_) | SExpr::Path(_) | SExpr::Dispatch(_) => Ok(e),
        SExpr::Paren(x) => rewritten(*x),
        SExpr::Unary(op, x) => match rewritten(*x) {
            Ok(y) => Ok(SExpr::Unary(op, Box::new(y))),
            Err(err) => Err(err),
        },
        SExpr::Binary(op, l, r) => match rewritten(*l) {
            Ok(l2) => match rewritten(*r) {
                Ok(r2) => rewritten_binary(op, l2, r2),
                Err(err) => Err(err),
            },
            Err(err) => Err(err),
        },
        SExpr::Assign(l, r) => match rewritten(*l) {
            Ok(l2) => match rewritten(*r) {
                Ok(r2) => Ok(SExpr::Assign(Box::new(l2), Box::new(r2))),
                Err(err) => Err(err),
            },
            Err(err) => Err(err),
        },
        SExpr::Field(b, n) => match rewritten(*b) {
            Ok(b2) => Ok(SExpr::Field(Box::new(b2), n)),
            Err(err) => Err(err),
        },
        SExpr::Index(b, i) => match rewritten(*b) {
            Ok(b2) => match rewritten(*i) {
                Ok(i2) => Ok(SExpr::Index(Box::new(b2), Box::new(i2))),
                Err(err) => Err(err),
            },
            Err(err) => Err(err),
        },
        SExpr::Call(f, args) => match rewritten(*f) {
            Ok(f2) => match rewritten_exprs(args) {
                Ok(args2) => Ok(SExpr::Call(Box::new(f2), args2)),
                Err(err) => Err(err),
            },
            Err(err) => Err(err),
        },
        SExpr::Block(stmts) => match rewritten_stmts(stmts) {
            Ok(stmts2) => Ok(SExpr::Block(stmts2)),
            Err(err) => Err(err),
        },
        SExpr::Other(tag, kids) => match rewritten_exprs(kids) {
            Ok(kids2) => Ok(SExpr::Other(tag, kids2)),
            Err(err) => Err(err),
        },
    }
}

/// The rewrite of each expression of a sequence, left to right; the first
/// error stops it.
pub open spec fn rewritten_exprs(s: Seq<SExpr>) -> Result<Seq<SExpr>, RewriteError>
    decreases s,
{
    if s.len() == 0 {
        Ok(Seq::empty())
    } else {
        match rewritten_exprs(s.drop_last()) {
            Ok(p) => match rewritten(s.last()) {
                Ok(x) => Ok(p.push(x)),
                Err(err) => Err(err),
            },
            Err(err) => Err(err),
        }
    }
}

/// The rewrite of a statement.
pub open spec fn rewritten_stmt(s: SStmt) -> Result<SStmt, RewriteError>
    decreases s,
{
    match s {
        SStmt::Let(name, ty, init) => match init {
            Some(x) => match rewritten(x) {
                Ok(y) => Ok(SStmt::Let(name, ty, Some(y))),
                Err(err) => Err(err),
            },
            None => Ok(s),
        },
        SStmt::Expr(x) => match rewritten(x) {
            Ok(y) => Ok(SStmt::Expr(y)),
            Err(err) => Err(err),
        },
        SStmt::Semi(x) => match rewritten(x) {
            Ok(y) => Ok(SStmt::Semi(y)),
            Err(err) => Err(err),
        },
    }
}

/// The rewrite of each statement of a sequence, in order; the first error
/// stops it.
pub open spec fn rewritten_stmts(s: Seq<SStmt>) -> Result<Seq<SStmt>, RewriteError>
    decreases s,
{
    if s.len() == 0 {
        Ok(Seq::empty())
    } else {
        match rewritten_stmts(s.drop_last()) {
            Ok(p) => match rewritten_stmt(s.last()) {
                Ok(x) => Ok(p.push(x)),
                Err(err) => Err(err),
            },
            Err(err) => Err(err),
        }
    }
}

} // verus!

verus! {

/// The model of a rewrite's outcome on an expression.
pub open spec fn view_expr_result(r: Result<Expr, RewriteError>) -> Result<SExpr, RewriteError> {
    match r {
        Ok(x) => Ok(x@),
        Err(err) => Err(err),
    }
}

/// The model of a rewrite's outcome on a list of expressions.
pub open spec fn view_exprs_result(r: Result<Vec<Expr>, RewriteError>) -> Result<Seq<SExpr>, RewriteError> {
    match r {
        Ok(v) => Ok(view_exprs(v@)),
        Err(err) => Err(err),
    }
}

/// The model of a rewrite's outcome on a statement.
pub open spec fn view_stmt_result(r: Result<Stmt, RewriteError>) -> Result<SStmt, RewriteError> {
    match r {
        Ok(x) => Ok(x@),
        Err(err) => Err(err),
    }
}

/// The model of a rewrite's outcome on a list of statements.
pub open spec fn view_stmts_result(r: Result<Vec<Stmt>, RewriteError>) -> Result<Seq<SStmt>, RewriteError> {
    match r {
        Ok(v) => Ok(view_stmts(v@)),
        Err(err) => Err(err),
    }
}

/// Returns the dispatch method that an operator is rewritten to, if any.
pub fn binary_op_to_method_name(op: &BinOp) -> (r: Option<Method>)
    ensures
        r == method_of(*op),
{
    match op {
        BinOp::Add | BinOp::AddAssign => Some(Method::FastAdd),
        BinOp::Sub | BinOp::SubAssign => Some(Method::FastSub),
        BinOp::Mul | BinOp::MulAssign => Some(Method::FastMul),
        BinOp::Div | BinOp::DivAssign => Some(Method::FastDiv),
        BinOp::Rem | BinOp::RemAssign => Some(Method::FastRem),
        BinOp::Shl | BinOp::ShlAssign => Some(Method::FastShl),
        BinOp::Shr | BinOp::ShrAssign => Some(Method::FastShr),
        _ => None,
    }
}

/// Whether an operator is a compound assignment.
pub fn is_compound(op: &BinOp) -> (r: bool)
    ensures
        r == compound(*op),
{
    match op {
        BinOp::AddAssign | BinOp::SubAssign | BinOp::MulAssign | BinOp::DivAssign
        | BinOp::RemAssign | BinOp::ShlAssign | BinOp::ShrAssign | BinOp::BitXorAssign
        | BinOp::BitAndAssign | BinOp::BitOrAssign => true,
        _ => false,
    }
}

/// Whether an expression names a place that can be assigned to.
pub fn is_assignable(e: &Expr) -> (r: bool)
    ensures
        r == assignable(e@),
{
    match e {
        Expr::Path(_) | Expr::Field(_, _) | Expr::Index(_, _) => true,
        Expr::Unary(op, _) => match op {
            UnOp::Deref => true,
            _ => false,
        },
        _ => false,
    }
}

/// Builds `method(left, right)`.
fn make_dispatch_call(m: Method, left: Expr, right: Expr) -> (r: Expr)
    ensures
        r@ == dispatch_call(m, left@, right@),
{
    let args = vec![left, right];
    proof {
        reveal_with_fuel(view_exprs, 3);
        assert(args@.drop_last() =~= seq![left]);
        assert(args@.drop_last().drop_last() =~= Seq::<Expr>::empty());
        assert(view_exprs(args@) =~= seq![left@, right@]);
    }
    let r = Expr::Call(Box::new(Expr::Dispatch(m)), args);
    assert(view_expr(Expr::Dispatch(m)) == SExpr::Dispatch(m));
    assert(r@ == SExpr::Call(Box::new(SExpr::Dispatch(m)), view_exprs(args@)));
    r
}

/// Turns a binary node whose operands have been rewritten into its final
/// form: a dispatch call, a read-combine-write assignment, or the node as it
/// stands.
pub fn rewrite_binary(op: BinOp, left: Expr, right: Expr) -> (r: Result<Expr, RewriteError>)
    ensures
        view_expr_result(r) == rewritten_binary(op, left@, right@),
{
    match binary_op_to_method_name(&op) {
        Some(m) => {
            if is_compound(&op) {
                if is_assignable(&left) {
                    let target = copy_expr(&left);
                    Ok(Expr::Assign(Box::new(target), Box::new(make_dispatch_call(m, left, right))))
                } else {
                    Err(RewriteError::NotAssignable(op))
                }
            } else {
                Ok(make_dispatch_call(m, left, right))
            }
        },
        None => Ok(Expr::Binary(op, Box::new(left), Box::new(right))),
    }
}

} // verus!

verus! {

/// Once a prefix of a list of expressions fails to rewrite, the whole list
/// fails with the same error.
proof fn lemma_exprs_error_prefix(t: Seq<SExpr>, j: int, err: RewriteError)
    requires
        0 <= j <= t.len(),
        rewritten_exprs(t.subrange(0, j)) == Err::<Seq<SExpr>, RewriteError>(err),
    ensures
        rewritten_exprs(t) == Err::<Seq<SExpr>, RewriteError>(err),
    decreases t.len(),
{
    if t.len() == j {
        assert(t.subrange(0, j) =~= t);
    } else {
        assert(t.drop_last().subrange(0, j) =~= t.subrange(0, j));
        lemma_exprs_error_prefix(t.drop_last(), j, err);
    }
}

/// Once a prefix of a list of statements fails to rewrite, the whole list
/// fails with the same error.
proof fn lemma_stmts_error_prefix(t: Seq<SStmt>, j: int, err: RewriteError)
    requires
        0 <= j <= t.len(),
        rewritten_stmts(t.subrange(0, j)) == Err::<Seq<SStmt>, RewriteError>(err),
    ensures
        rewritten_stmts(t) == Err::<Seq<SStmt>, RewriteError>(err),
    decreases t.len(),
{
    if t.len() == j {
        assert(t.subrange(0, j) =~= t);
    } else {
        assert(t.drop_last().subrange(0, j) =~= t.subrange(0, j));
        lemma_stmts_error_prefix(t.drop_last(), j, err);
    }
}

/// Rewrites an expression: grouping is stripped, the children are rewritten
/// first, and then each arithmetic operator becomes a dispatch call.
#[verifier::rlimit(40)]
pub fn rewrite_expr(e: Expr) -> (r: Result<Expr, RewriteError>)
    ensures
        view_expr_result(r) == rewritten(e@),
    decreases e@,
{
    match e {
        Expr::Lit(t) => Ok(Expr::Lit(t)),
        Expr::Path(t) => Ok(Expr::Path(t)),
        Expr::Dispatch(m) => Ok(Expr::Dispatch(m)),
        Expr::Paren(x) => rewrite_expr(*x),
        Expr::Unary(op, x) => match rewrite_expr(*x) {
            Ok(y) => Ok(Expr::Unary(op, Box::new(y))),
            Err(err) => Err(err),
        },
        Expr::Binary(op, l, r) => {
            let l2 = match rewrite_expr(*l) {
                Ok(y) => y,
                Err(err) => return Err(err),
            };
            let r2 = match rewrite_expr(*r) {
                Ok(y) => y,
                Err(err) => return Err(err),
            };
            rewrite_binary(op, l2, r2)
        },
        Expr::Assign(l, r) => {
            let l2 = match rewrite_expr(*l) {
                Ok(y) => y,
                Err(err) => return Err(err),
            };
            let r2 = match rewrite_expr(*r) {
                Ok(y) => y,
                Err(err) => return Err(err),
            };
            Ok(Expr::Assign(Box::new(l2), Box::new(r2)))
        },
        Expr::Field(b, n) => match rewrite_expr(*b) {
            Ok(y) => Ok(Expr::Field(Box::new(y), n)),
            Err(err) => Err(err),
        },
        Expr::Index(b, i) => {
            let b2 = match rewrite_expr(*b) {
                Ok(y) => y,
                Err(err) => return Err(err),
            };
            let i2 = match rewrite_expr(*i) {
                Ok(y) => y,
                Err(err) => return Err(err),
            };
            Ok(Expr::Index(Box::new(b2), Box::new(i2)))
        },
        Expr::Call(f, args) => {
            let f2 = match rewrite_expr(*f) {
                Ok(y) => y,
                Err(err) => return Err(err),
            };
            let args2 = match rewrite_exprs(args) {
                Ok(y) => y,
                Err(err) => return Err(err),
            };
            Ok(Expr::Call(Box::new(f2), args2))
        },
        Expr::Block(stmts) => match rewrite_stmts(stmts) {
            Ok(y) => Ok(Expr::Block(y)),
            Err(err) => Err(err),
        },
        Expr::Other(tag, kids) => match rewrite_exprs(kids) {
            Ok(y) => Ok(Expr::Other(tag, y)),
            Err(err) => Err(err),
        },
    }
}

/// Rewrites each expression of a list, left to right; the first error stops
/// the rewrite.
pub fn rewrite_exprs(v: Vec<Expr>) -> (r: Result<Vec<Expr>, RewriteError>)
    ensures
        view_exprs_result(r) == rewritten_exprs(view_exprs(v@)),
    decreases view_exprs(v@),
{
    let ghost s = v@;
    let ghost vs = view_exprs(s);
    proof {
        lemma_view_exprs(s);
    }
    let mut rest = v;
    let mut out: Vec<Expr> = Vec::new();
    let ghost mut i: int = 0;
    while rest.len() > 0
        invariant
            0 <= i <= s.len(),
            s == v@,
            vs == view_exprs(s),
            vs.len() == s.len(),
            forall|k: int| 0 <= k < s.len() ==> #[trigger] vs[k] == view_expr(s[k]),
            rest@ == s.subrange(i, s.len() as int),
            rewritten_exprs(vs.subrange(0, i)) == Ok::<Seq<SExpr>, RewriteError>(view_exprs(out@)),
        decreases rest.len(),
    {
        let x = rest.remove(0);
        proof {
            assert(x == s[i]);
            assert(decreases_to!(vs => vs[i]));
            assert(vs.subrange(0, i + 1).drop_last() =~= vs.subrange(0, i));
            assert(vs.subrange(0, i + 1).last() == x@);
        }
        match rewrite_expr(x) {
            Ok(y) => {
                proof {
                    assert(out@.push(y).drop_last() =~= out@);
                }
                out.push(y);
                proof {
                    i = i + 1;
                    assert(rest@ =~= s.subrange(i, s.len() as int));
                }
            },
            Err(err) => {
                proof {
                    lemma_exprs_error_prefix(vs, i + 1, err);
                }
                return Err(err);
            },
        }
    }
    assert(vs.subrange(0, i) =~= vs);
    Ok(out)
}

/// Rewrites the expressions that a statement holds.
pub fn rewrite_stmt(s: Stmt) -> (r: Result<Stmt, RewriteError>)
    ensures
        view_stmt_result(r) == rewritten_stmt(s@),
    decreases s@,
{
    match s {
        Stmt::Let(name, ty, init) => match init {
            Some(x) => match rewrite_expr(x) {
                Ok(y) => Ok(Stmt::Let(name, ty, Some(y))),
                Err(err) => Err(err),
            },
            None => Ok(Stmt::Let(name, ty, None)),
        },
        Stmt::Expr(x) => match rewrite_expr(x) {
            Ok(y) => Ok(Stmt::Expr(y)),
            Err(err) => Err(err),
        },
        Stmt::Semi(x) => match rewrite_expr(x) {
            Ok(y) => Ok(Stmt::Semi(y)),
            Err(err) => Err(err),
        },
    }
}

/// Rewrites each statement of a list, in order; the first error stops the
/// rewrite.
pub fn rewrite_stmts(v: Vec<Stmt>) -> (r: Result<Vec<Stmt>, RewriteError>)
    ensures
        view_stmts_result(r) == rewritten_stmts(view_stmts(v@)),
    decreases view_stmts(v@),
{
    let ghost s = v@;
    let ghost vs = view_stmts(s);
    proof {
        lemma_view_stmts(s);
    }
    let mut rest = v;
    let mut out: Vec<Stmt> = Vec::new();
    let ghost mut i: int = 0;
    while rest.len() > 0
        invariant
            0 <= i <= s.len(),
            s == v@,
            vs == view_stmts(s),
            vs.len() == s.len(),
            forall|k: int| 0 <= k < s.len() ==> #[trigger] vs[k] == view_stmt(s[k]),
            rest@ == s.subrange(i, s.len() as int),
            rewritten_stmts(vs.subrange(0, i)) == Ok::<Seq<SStmt>, RewriteError>(view_stmts(out@)),
        decreases rest.len(),
    {
        let x = rest.remove(0);
        proof {
            assert(x == s[i]);
            assert(decreases_to!(vs => vs[i]));
            assert(vs.subrange(0, i + 1).drop_last() =~= vs.subrange(0, i));
            assert(vs.subrange(0, i + 1).last() == x@);
        }
        match rewrite_stmt(x) {
            Ok(y) => {
                proof {
                    assert(out@.push(y).drop_last() =~= out@);
                }
                out.push(y);
                proof {
                    i = i + 1;
                    assert(rest@ =~= s.subrange(i, s.len() as int));
                }
            },
            Err(err) => {
                proof {
                    lemma_stmts_error_prefix(vs, i + 1, err);
                }
                return Err(err);
            },
        }
    }
    assert(vs.subrange(0, i) =~= vs);
    Ok(out)
}

} // verus!

verus! {

/// Rewrites an expression in place. On an error the expression is left as
/// it was.
pub fn visit_expr_mut(e: &mut Expr) -> (r: Result<(), RewriteError>)
    ensures
        match rewritten(old(e)@) {
            Ok(t) => r is Ok && final(e)@ == t,
            Err(err) => r == Err::<(), RewriteError>(err) && final(e)@ == old(e)@,
        },
{
    let c = copy_expr(e);
    match rewrite_expr(c) {
        Ok(t) => {
            *e = t;
            Ok(())
        },
        Err(err) => Err(err),
    }
}

/// Rewrites a statement in place. On an error the statement is left as it
/// was.
pub fn visit_stmt_mut(s: &mut Stmt) -> (r: Result<(), RewriteError>)
    ensures
        match rewritten_stmt(old(s)@) {
            Ok(t) => r is Ok && final(s)@ == t,
            Err(err) => r == Err::<(), RewriteError>(err) && final(s)@ == old(s)@,
        },
{
    let c = copy_stmt(s);
    match rewrite_stmt(c) {
        Ok(t) => {
            *s = t;
            Ok(())
        },
        Err(err) => Err(err),
    }
}

/// Rewrites one statement: an expression, a `let`, a loop or a whole
/// function body held as a block.
pub fn unsafe_math(stmt: Stmt) -> (r: Result<Stmt, RewriteError>)
    ensures
        view_stmt_result(r) == rewritten_stmt(stmt@),
{
    rewrite_stmt(stmt)
}

/// Rewrites a list of statements and wraps them in a block.
pub fn unsafe_math_block(stmts: Vec<Stmt>) -> (r: Result<Expr, RewriteError>)
    ensures
        match rewritten_stmts(view_stmts(stmts@)) {
            Ok(t) => r is Ok && r->Ok_0@ == SExpr::Block(t),
            Err(err) => r == Err::<Expr, RewriteError>(err),
        },
{
    match rewrite_stmts(stmts) {
        Ok(t) => Ok(Expr::Block(t)),
        Err(err) => Err(err),
    }
}

} // verus!
