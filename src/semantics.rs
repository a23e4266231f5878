//! A reference meaning for expressions and statements over the values of a
//! numeric type, under which rewriting changes nothing: each operator keeps
//! its operands, in their order and with their grouping.
use vstd::prelude::*;
use crate::ast::{Method, SExpr, SStmt};
use crate::dispatch::UnsafeMath;
use crate::rewrite::{compound, method_of, rewritten, rewritten_exprs, rewritten_stmt, rewritten_stmts};

verus! {

/// The value of a dispatch method on two operands, where it is defined.
/// Shifts take an amount of another type, so they have no value here.
pub open spec fn apply<T: UnsafeMath>(m: Method, a: T, b: T) -> Option<T> {
    match m {
        Method::FastAdd => Some(a.fast_add_spec(b)),
        Method::FastSub => Some(a.fast_sub_spec(b)),
        Method::FastMul => Some(a.fast_mul_spec(b)),
        Method::FastDiv => if a.div_defined(b) {
            Some(a.fast_div_spec(b))
        } else {
            None
        },
        Method::FastRem => if a.div_defined(b) {
            Some(a.fast_rem_spec(b))
        } else {
            None
        },
        _ => None,
    }
}

/// The dispatch method that a callee names, through any grouping.
pub open spec fn callee_method(f: SExpr) -> Option<Method>
    decreases f,
{
    match f {
        SExpr::Dispatch(m) => Some(m),
        SExpr::Paren(x) => callee_method(*x),
        _ => None,
    }
}

/// The variable that an assignment target names, through any grouping.
pub open spec fn place_name(e: SExpr) -> Option<Seq<char>>
    decreases e,
{
    match e {
        SExpr::Path(n) => Some(n),
        SExpr::Paren(x) => place_name(*x),
        _ => None,
    }
}

/// The value of an expression when names and literals take their values
/// from `env`. An arithmetic operator `a op b` means the operation of the
/// type on `a` and `b`, as does a dispatch call of that operation; every
/// other node has no value.
pub open spec fn eval<T: UnsafeMath>(e: SExpr, env: Map<Seq<char>, T>) -> Option<T>
    decreases e,
{
    match e {
        SExpr::Lit(t) => if env.contains_key(t) {
            Some(env[t])
        } else {
            None
        },
        SExpr::Path(t) => if env.contains_key(t) {
            Some(env[t])
        } else {
            None
        },
        SExpr::Paren(x) => eval(*x, env),
        SExpr::Binary(op, l, r) => if method_of(op) is Some && !compound(op) {
            match (eval(*l, env), eval(*r, env)) {
                (Some(a), Some(b)) => apply(method_of(op)->0, a, b),
                _ => None,
            }
        } else {
            None
        },
        SExpr::Call(f, args) => if callee_method(*f) is Some && args.len() == 2 {
            match (eval(args[0], env), eval(args[1], env)) {
                (Some(a), Some(b)) => apply(callee_method(*f)->0, a, b),
                _ => None,
            }
        } else {
            None
        },
        _ => None,
    }
}

/// The variables after an expression statement runs: an assignment or a
/// compound assignment to a variable updates it; any other expression
/// leaves them as they are if it has a value.
pub open spec fn exec_expr<T: UnsafeMath>(e: SExpr, env: Map<Seq<char>, T>) -> Option<Map<Seq<char>, T>>
    decreases e,
{
    match e {
        SExpr::Paren(x) => exec_expr(*x, env),
        SExpr::Assign(l, r) => match (place_name(*l), eval(*r, env)) {
            (Some(n), Some(v)) => Some(env.insert(n, v)),
            _ => None,
        },
        SExpr::Binary(op, l, r) => if method_of(op) is Some && compound(op) {
            match (place_name(*l), eval(*l, env), eval(*r, env)) {
                (Some(n), Some(a), Some(b)) => match apply(method_of(op)->0, a, b) {
                    Some(v) => Some(env.insert(n, v)),
                    None => None,
                },
                _ => None,
            }
        } else {
            match eval(e, env) {
                Some(_) => Some(env),
                None => None,
            }
        },
        _ => match eval(e, env) {
            Some(_) => Some(env),
            None => None,
        },
    }
}

/// The variables after a statement runs.
pub open spec fn exec_stmt<T: UnsafeMath>(s: SStmt, env: Map<Seq<char>, T>) -> Option<Map<Seq<char>, T>> {
    match s {
        SStmt::Let(name, _, init) => match init {
            Some(x) => match eval(x, env) {
                Some(v) => Some(env.insert(name, v)),
                None => None,
            },
            None => Some(env),
        },
        SStmt::Expr(x) => exec_expr(x, env),
        SStmt::Semi(x) => exec_expr(x, env),
    }
}

/// The variables after a list of statements runs in order.
pub open spec fn exec_stmts<T: UnsafeMath>(s: Seq<SStmt>, env: Map<Seq<char>, T>) -> Option<Map<Seq<char>, T>>
    decreases s.len(),
{
    if s.len() == 0 {
        Some(env)
    } else {
        match exec_stmts(s.drop_last(), env) {
            Some(e2) => exec_stmt(s.last(), e2),
            None => None,
        }
    }
}

/// The variables after a loop body runs `n` times.
pub open spec fn run_times<T: UnsafeMath>(body: Seq<SStmt>, env: Map<Seq<char>, T>, n: nat) -> Option<Map<Seq<char>, T>>
    decreases n,
{
    if n == 0 {
        Some(env)
    } else {
        match run_times(body, env, (n - 1) as nat) {
            Some(e2) => exec_stmts(body, e2),
            None => None,
        }
    }
}

/// Rewriting keeps the dispatch method that a callee names.
proof fn lemma_callee_kept(f: SExpr)
    requires
        rewritten(f) is Ok,
    ensures
        callee_method(rewritten(f)->Ok_0) == callee_method(f),
    decreases f,
{
    if let SExpr::Paren(x) = f {
        lemma_callee_kept(*x);
    }
}

/// Rewriting keeps the variable that an assignment target names.
proof fn lemma_place_kept(e: SExpr)
    requires
        rewritten(e) is Ok,
    ensures
        place_name(rewritten(e)->Ok_0) == place_name(e),
    decreases e,
{
    if let SExpr::Paren(x) = e {
        lemma_place_kept(*x);
    }
}

/// A list that rewrites without error keeps its length, and each element
/// is the rewrite of the element in the same place.
proof fn lemma_rewritten_exprs_each(s: Seq<SExpr>)
    requires
        rewritten_exprs(s) is Ok,
    ensures
        rewritten_exprs(s)->Ok_0.len() == s.len(),
        forall|i: int| 0 <= i < s.len() ==> rewritten(#[trigger] s[i]) == Ok::<SExpr, crate::rewrite::RewriteError>(rewritten_exprs(s)->Ok_0[i]),
    decreases s.len(),
{
    if s.len() > 0 {
        lemma_rewritten_exprs_each(s.drop_last());
        assert forall|i: int| 0 <= i < s.len() implies rewritten(#[trigger] s[i]) == Ok::<SExpr, crate::rewrite::RewriteError>(rewritten_exprs(s)->Ok_0[i]) by {
            if i < s.len() - 1 {
                assert(s.drop_last()[i] == s[i]);
            }
        }
    }
}

/// Rewriting keeps the value of every expression: the rewritten tree
/// evaluates to what the operators as written, with their precedence and
/// grouping, evaluate to.
pub proof fn lemma_eval_preserved<T: UnsafeMath>(e: SExpr, env: Map<Seq<char>, T>)
    requires
        rewritten(e) is Ok,
    ensures
        eval(rewritten(e)->Ok_0, env) == eval(e, env),
    decreases e,
{
    match e {
        SExpr::Paren(x) => lemma_eval_preserved(*x, env),
        SExpr::Binary(op, l, r) => {
            lemma_eval_preserved(*l, env);
            lemma_eval_preserved(*r, env);
            let l2 = rewritten(*l)->Ok_0;
            let r2 = rewritten(*r)->Ok_0;
            if method_of(op) is Some && !compound(op) {
                let args = seq![l2, r2];
                assert(args[0] == l2 && args[1] == r2);
            }
        },
        SExpr::Call(f, args) => {
            lemma_callee_kept(*f);
            lemma_rewritten_exprs_each(args);
            if args.len() == 2 {
                lemma_eval_preserved(args[0], env);
                lemma_eval_preserved(args[1], env);
            }
        },
        _ => {},
    }
}

/// Rewriting keeps what an expression statement does to the variables; a
/// compound assignment and the read-combine-write it becomes leave the same
/// values.
pub proof fn lemma_exec_expr_preserved<T: UnsafeMath>(e: SExpr, env: Map<Seq<char>, T>)
    requires
        rewritten(e) is Ok,
    ensures
        exec_expr(rewritten(e)->Ok_0, env) == exec_expr(e, env),
    decreases e,
{
    lemma_eval_preserved(e, env);
    match e {
        SExpr::Paren(x) => lemma_exec_expr_preserved(*x, env),
        SExpr::Assign(l, r) => {
            lemma_place_kept(*l);
            lemma_eval_preserved(*r, env);
        },
        SExpr::Binary(op, l, r) => {
            lemma_place_kept(*l);
            lemma_eval_preserved(*l, env);
            lemma_eval_preserved(*r, env);
            let l2 = rewritten(*l)->Ok_0;
            let r2 = rewritten(*r)->Ok_0;
            let args = seq![l2, r2];
            assert(args[0] == l2 && args[1] == r2);
        },
        _ => {},
    }
}

/// Rewriting keeps what a statement does to the variables.
pub proof fn lemma_exec_stmt_preserved<T: UnsafeMath>(s: SStmt, env: Map<Seq<char>, T>)
    requires
        rewritten_stmt(s) is Ok,
    ensures
        exec_stmt(rewritten_stmt(s)->Ok_0, env) == exec_stmt(s, env),
{
    match s {
        SStmt::Let(_, _, init) => {
            if let Some(x) = init {
                lemma_eval_preserved(x, env);
            }
        },
        SStmt::Expr(x) => lemma_exec_expr_preserved(x, env),
        SStmt::Semi(x) => lemma_exec_expr_preserved(x, env),
    }
}

/// Rewriting keeps what a list of statements does to the variables.
pub proof fn lemma_exec_stmts_preserved<T: UnsafeMath>(s: Seq<SStmt>, env: Map<Seq<char>, T>)
    requires
        rewritten_stmts(s) is Ok,
    ensures
        exec_stmts(rewritten_stmts(s)->Ok_0, env) == exec_stmts(s, env),
    decreases s.len(),
{
    if s.len() > 0 {
        lemma_exec_stmts_preserved(s.drop_last(), env);
        let p = rewritten_stmts(s.drop_last())->Ok_0;
        let x = rewritten_stmt(s.last())->Ok_0;
        let t = rewritten_stmts(s)->Ok_0;
        assert(t == p.push(x));
        assert(t.drop_last() =~= p);
        if let Some(e2) = exec_stmts(s.drop_last(), env) {
            lemma_exec_stmt_preserved(s.last(), e2);
        }
    }
}

/// A loop body that has been rewritten leaves the same values as the
/// body as written, however many times it runs: an accumulation such as
/// `sum += i * i` ends with the same `sum`.
pub proof fn lemma_loop_preserved<T: UnsafeMath>(body: Seq<SStmt>, env: Map<Seq<char>, T>, n: nat)
    requires
        rewritten_stmts(body) is Ok,
    ensures
        run_times(rewritten_stmts(body)->Ok_0, env, n) == run_times(body, env, n),
    decreases n,
{
    if n > 0 {
        lemma_loop_preserved(body, env, (n - 1) as nat);
        if let Some(e2) = run_times(body, env, (n - 1) as nat) {
            lemma_exec_stmts_preserved(body, e2);
        }
    }
}

} // verus!
