//! What a rewritten tree looks like, and why rewriting it again changes
//! nothing.
use vstd::prelude::*;
use crate::ast::{BinOp, Method, SExpr, SStmt};
use crate::rewrite::{
    RewriteError, dispatch_call, method_of, rewritten, rewritten_exprs, rewritten_stmt,
    rewritten_stmts,
};

verus! {

/// An expression in which no grouping node and no binary node with an
/// arithmetic operator is left anywhere.
pub open spec fn normal(e: SExpr) -> bool
    decreases e,
{
    match e {
        SExpr::Lit(_) | SExpr::Path(_) | SExpr::Dispatch(_) => true,
        SExpr::Paren(_) => false,
        SExpr::Unary(_, x) => normal(*x),
        SExpr::Binary(op, l, r) => method_of(op) is None && normal(*l) && normal(*r),
        SExpr::Assign(l, r) => normal(*l) && normal(*r),
        SExpr::Field(b, _) => normal(*b),
        SExpr::Index(b, i) => normal(*b) && normal(*i),
        SExpr::Call(f, args) => normal(*f) && normal_exprs(args),
        SExpr::Block(stmts) => normal_stmts(stmts),
        SExpr::Other(_, kids) => normal_exprs(kids),
    }
}

/// Every expression of the sequence is `normal`.
pub open spec fn normal_exprs(s: Seq<SExpr>) -> bool
    decreases s,
{
    s.len() > 0 ==> normal_exprs(s.drop_last()) && normal(s.last())
}

/// Every expression that the statement holds is `normal`.
pub open spec fn normal_stmt(s: SStmt) -> bool
    decreases s,
{
    match s {
        SStmt::Let(_, _, init) => match init {
            Some(x) => normal(x),
            None => true,
        },
        SStmt::Expr(x) => normal(x),
        SStmt::Semi(x) => normal(x),
    }
}

/// Every statement of the sequence is `normal_stmt`.
pub open spec fn normal_stmts(s: Seq<SStmt>) -> bool
    decreases s,
{
    s.len() > 0 ==> normal_stmts(s.drop_last()) && normal_stmt(s.last())
}

/// A dispatch call on two normal operands is normal.
proof fn lemma_dispatch_call_normal(m: Method, l: SExpr, r: SExpr)
    requires
        normal(l),
        normal(r),
    ensures
        normal(dispatch_call(m, l, r)),
{
    let s = seq![l, r];
    assert(s.drop_last() =~= seq![l]);
    assert(s.drop_last().drop_last() =~= Seq::<SExpr>::empty());
    assert(normal_exprs(Seq::<SExpr>::empty()));
    assert(normal_exprs(seq![l]));
    assert(normal_exprs(s));
    assert(normal(SExpr::Dispatch(m)));
    assert(dispatch_call(m, l, r) == SExpr::Call(Box::new(SExpr::Dispatch(m)), s));
    assert(normal(SExpr::Call(Box::new(SExpr::Dispatch(m)), s)));
}

/// Whatever the rewrite returns is normal: it holds no grouping node and no
/// binary node with an arithmetic operator, plain or compound.
pub proof fn lemma_rewritten_normal(e: SExpr)
    ensures
        rewritten(e) is Ok ==> normal(rewritten(e)->Ok_0),
    decreases e,
{
    match e {
        SExpr::Paren(x) => lemma_rewritten_normal(*x),
        SExpr::Unary(_, x) => lemma_rewritten_normal(*x),
        SExpr::Binary(op, l, r) => {
            lemma_rewritten_normal(*l);
            lemma_rewritten_normal(*r);
            if rewritten(*l) is Ok && rewritten(*r) is Ok {
                let l2 = rewritten(*l)->Ok_0;
                let r2 = rewritten(*r)->Ok_0;
                if let Some(m) = method_of(op) {
                    lemma_dispatch_call_normal(m, l2, r2);
                }
            }
        },
        SExpr::Assign(l, r) => {
            lemma_rewritten_normal(*l);
            lemma_rewritten_normal(*r);
        },
        SExpr::Field(b, _) => lemma_rewritten_normal(*b),
        SExpr::Index(b, i) => {
            lemma_rewritten_normal(*b);
            lemma_rewritten_normal(*i);
        },
        SExpr::Call(f, args) => {
            lemma_rewritten_normal(*f);
            lemma_rewritten_exprs_normal(args);
        },
        SExpr::Block(stmts) => lemma_rewritten_stmts_normal(stmts),
        SExpr::Other(_, kids) => lemma_rewritten_exprs_normal(kids),
        _ => {},
    }
}

/// The sequence counterpart of `lemma_rewritten_normal`.
pub proof fn lemma_rewritten_exprs_normal(s: Seq<SExpr>)
    ensures
        rewritten_exprs(s) is Ok ==> normal_exprs(rewritten_exprs(s)->Ok_0),
    decreases s,
{
    if s.len() > 0 {
        lemma_rewritten_exprs_normal(s.drop_last());
        lemma_rewritten_normal(s.last());
        if rewritten_exprs(s) is Ok {
            let p = rewritten_exprs(s.drop_last())->Ok_0;
            let x = rewritten(s.last())->Ok_0;
            assert(p.push(x).drop_last() =~= p);
        }
    }
}

/// The statement counterpart of `lemma_rewritten_normal`.
pub proof fn lemma_rewritten_stmt_normal(s: SStmt)
    ensures
        rewritten_stmt(s) is Ok ==> normal_stmt(rewritten_stmt(s)->Ok_0),
    decreases s,
{
    match s {
        SStmt::Let(_, _, init) => {
            if let Some(x) = init {
                lemma_rewritten_normal(x);
            }
        },
        SStmt::Expr(x) => lemma_rewritten_normal(x),
        SStmt::Semi(x) => lemma_rewritten_normal(x),
    }
}

/// The statement-sequence counterpart of `lemma_rewritten_normal`.
pub proof fn lemma_rewritten_stmts_normal(s: Seq<SStmt>)
    ensures
        rewritten_stmts(s) is Ok ==> normal_stmts(rewritten_stmts(s)->Ok_0),
    decreases s,
{
    if s.len() > 0 {
        lemma_rewritten_stmts_normal(s.drop_last());
        lemma_rewritten_stmt_normal(s.last());
        if rewritten_stmts(s) is Ok {
            let p = rewritten_stmts(s.drop_last())->Ok_0;
            let x = rewritten_stmt(s.last())->Ok_0;
            assert(p.push(x).drop_last() =~= p);
        }
    }
}

/// A normal expression rewrites to itself.
pub proof fn lemma_normal_fixed(e: SExpr)
    requires
        normal(e),
    ensures
        rewritten(e) == Ok::<SExpr, RewriteError>(e),
    decreases e,
{
    match e {
        SExpr::Unary(_, x) => lemma_normal_fixed(*x),
        SExpr::Binary(_, l, r) => {
            lemma_normal_fixed(*l);
            lemma_normal_fixed(*r);
        },
        SExpr::Assign(l, r) => {
            lemma_normal_fixed(*l);
            lemma_normal_fixed(*r);
        },
        SExpr::Field(b, _) => lemma_normal_fixed(*b),
        SExpr::Index(b, i) => {
            lemma_normal_fixed(*b);
            lemma_normal_fixed(*i);
        },
        SExpr::Call(f, args) => {
            lemma_normal_fixed(*f);
            lemma_normal_exprs_fixed(args);
        },
        SExpr::Block(stmts) => lemma_normal_stmts_fixed(stmts),
        SExpr::Other(_, kids) => lemma_normal_exprs_fixed(kids),
        _ => {},
    }
}

/// A sequence of normal expressions rewrites to itself.
pub proof fn lemma_normal_exprs_fixed(s: Seq<SExpr>)
    requires
        normal_exprs(s),
    ensures
        rewritten_exprs(s) == Ok::<Seq<SExpr>, RewriteError>(s),
    decreases s,
{
    if s.len() > 0 {
        lemma_normal_exprs_fixed(s.drop_last());
        lemma_normal_fixed(s.last());
        assert(s.drop_last().push(s.last()) =~= s);
    } else {
        assert(s =~= Seq::empty());
    }
}

/// A normal statement rewrites to itself.
pub proof fn lemma_normal_stmt_fixed(s: SStmt)
    requires
        normal_stmt(s),
    ensures
        rewritten_stmt(s) == Ok::<SStmt, RewriteError>(s),
    decreases s,
{
    match s {
        SStmt::Let(_, _, init) => {
            if let Some(x) = init {
                lemma_normal_fixed(x);
            }
        },
        SStmt::Expr(x) => lemma_normal_fixed(x),
        SStmt::Semi(x) => lemma_normal_fixed(x),
    }
}

/// A sequence of normal statements rewrites to itself.
pub proof fn lemma_normal_stmts_fixed(s: Seq<SStmt>)
    requires
        normal_stmts(s),
    ensures
        rewritten_stmts(s) == Ok::<Seq<SStmt>, RewriteError>(s),
    decreases s,
{
    if s.len() > 0 {
        lemma_normal_stmts_fixed(s.drop_last());
        lemma_normal_stmt_fixed(s.last());
        assert(s.drop_last().push(s.last()) =~= s);
    } else {
        assert(s =~= Seq::empty());
    }
}

/// Rewriting is idempotent: an expression that has been rewritten rewrites
/// to itself, so no dispatch call is ever wrapped twice.
pub proof fn lemma_rewrite_idempotent(e: SExpr)
    requires
        rewritten(e) is Ok,
    ensures
        rewritten(rewritten(e)->Ok_0) == rewritten(e),
{
    lemma_rewritten_normal(e);
    lemma_normal_fixed(rewritten(e)->Ok_0);
}

/// Rewriting is idempotent on statements too, so a statement rewritten on
/// its own can stand inside a region that is rewritten again.
pub proof fn lemma_rewrite_stmt_idempotent(s: SStmt)
    requires
        rewritten_stmt(s) is Ok,
    ensures
        rewritten_stmt(rewritten_stmt(s)->Ok_0) == rewritten_stmt(s),
{
    lemma_rewritten_stmt_normal(s);
    lemma_normal_stmt_fixed(rewritten_stmt(s)->Ok_0);
}

/// Grouping is erased: `(a) + (b)` becomes a dispatch call on the rewritten
/// operands, and neither operand is left wrapped in a grouping node.
pub proof fn lemma_grouping_erased(a: SExpr, b: SExpr)
    requires
        rewritten(a) is Ok,
        rewritten(b) is Ok,
    ensures
        rewritten(SExpr::Binary(BinOp::Add, Box::new(SExpr::Paren(Box::new(a))), Box::new(SExpr::Paren(Box::new(b)))))
            == Ok::<SExpr, RewriteError>(dispatch_call(Method::FastAdd, rewritten(a)->Ok_0, rewritten(b)->Ok_0)),
        !(rewritten(a)->Ok_0 is Paren),
        !(rewritten(b)->Ok_0 is Paren),
{
    lemma_rewritten_normal(a);
    lemma_rewritten_normal(b);
    assert(rewritten(SExpr::Paren(Box::new(a))) == rewritten(a));
    assert(rewritten(SExpr::Paren(Box::new(b))) == rewritten(b));
}

} // verus!
