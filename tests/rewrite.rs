use unsafe_math::{
    binary_op_to_method_name, rewrite_expr, unsafe_math, unsafe_math_block, visit_expr_mut,
    visit_stmt_mut, BinOp, Expr, Method, RewriteError, Stmt, UnOp, UnsafeMath,
};

fn path(name: &str) -> Expr {
    Expr::Path(name.to_string())
}

fn lit(text: &str) -> Expr {
    Expr::Lit(text.to_string())
}

fn paren(e: Expr) -> Expr {
    Expr::Paren(Box::new(e))
}

fn bin(op: BinOp, l: Expr, r: Expr) -> Expr {
    Expr::Binary(op, Box::new(l), Box::new(r))
}

fn call(m: Method, l: Expr, r: Expr) -> Expr {
    Expr::Call(Box::new(Expr::Dispatch(m)), vec![l, r])
}

fn rewrite(e: Expr) -> Expr {
    rewrite_expr(e).expect("rewrite")
}

fn show<T: std::fmt::Debug>(x: &T) -> String {
    format!("{:?}", x)
}

fn lookup<T: Copy>(env: &[(String, T)], name: &str) -> T {
    for (n, v) in env {
        if n == name {
            return *v;
        }
    }
    panic!("unbound name {}", name)
}

/// Evaluates a rewritten expression: literals, names, zero-argument calls
/// (looked up like names), dispatch calls and blocks.
fn eval<T: UnsafeMath + Copy + std::str::FromStr>(e: &Expr, env: &[(String, T)]) -> T {
    match e {
        Expr::Lit(t) => match t.parse::<T>() {
            Ok(v) => v,
            Err(_) => panic!("bad literal {}", t),
        },
        Expr::Path(n) => lookup(env, n),
        Expr::Call(f, args) => match &**f {
            Expr::Dispatch(m) => {
                assert_eq!(args.len(), 2);
                let a = eval(&args[0], env);
                let b = eval(&args[1], env);
                match m {
                    Method::FastAdd => a.fast_add(b),
                    Method::FastSub => a.fast_sub(b),
                    Method::FastMul => a.fast_mul(b),
                    Method::FastDiv => a.fast_div(b),
                    Method::FastRem => a.fast_rem(b),
                    _ => panic!("shift in an arithmetic test"),
                }
            }
            Expr::Path(n) if args.is_empty() => lookup(env, n),
            other => panic!("unexpected callee {:?}", other),
        },
        Expr::Block(stmts) => match stmts.last() {
            Some(Stmt::Expr(x)) => eval(x, env),
            _ => panic!("block without a value"),
        },
        other => panic!("node left after rewriting: {:?}", other),
    }
}

/// Runs a rewritten statement of the form `name = value;`.
fn exec<T: UnsafeMath + Copy + std::str::FromStr>(s: &Stmt, env: &mut Vec<(String, T)>) {
    match s {
        Stmt::Semi(Expr::Assign(target, value)) => {
            let v = eval(value, env);
            match &**target {
                Expr::Path(n) => {
                    for entry in env.iter_mut() {
                        if &entry.0 == n {
                            entry.1 = v;
                        }
                    }
                }
                other => panic!("unexpected target {:?}", other),
            }
        }
        other => panic!("unexpected statement {:?}", other),
    }
}

fn env<T: Copy>(pairs: &[(&str, T)]) -> Vec<(String, T)> {
    pairs.iter().map(|(n, v)| (n.to_string(), *v)).collect()
}

fn calc_int_tree() -> Expr {
    // a * b + a - b
    bin(
        BinOp::Sub,
        bin(BinOp::Add, bin(BinOp::Mul, path("a"), path("b")), path("a")),
        path("b"),
    )
}

fn calc_int(a: u32, b: u32) -> u32 {
    eval(&rewrite(calc_int_tree()), &env(&[("a", a), ("b", b)]))
}

#[test]
fn test_calc_int_agrees() {
    for i in 0..50_u32 {
        for j in 0..50_u32 {
            assert_eq!(calc_int(i, j), i.wrapping_mul(j).wrapping_add(i).wrapping_sub(j));
        }
    }
}

#[test]
fn calc_int_rewrites_to_nested_dispatch_calls() {
    let expected = call(
        Method::FastSub,
        call(Method::FastAdd, call(Method::FastMul, path("a"), path("b")), path("a")),
        path("b"),
    );
    assert_eq!(show(&rewrite(calc_int_tree())), show(&expected));
}

fn sum_of_squares_ub_wraps(n: u16) -> u16 {
    // sum += i * i;
    let stmt = Stmt::Semi(bin(BinOp::AddAssign, path("sum"), bin(BinOp::Mul, path("i"), path("i"))));
    let rewritten = unsafe_math(stmt).expect("rewrite");
    let mut vars = env(&[("sum", 0u16), ("i", 0u16)]);
    for i in 0..=n {
        vars[1].1 = i;
        exec(&rewritten, &mut vars);
    }
    vars[0].1
}

#[test]
fn test_sum_of_squares() {
    assert_eq!(sum_of_squares_ub_wraps(0), 0);
    assert_eq!(sum_of_squares_ub_wraps(1), 1);
    assert_eq!(
        sum_of_squares_ub_wraps(420),
        (0..=420).map(|i| (i as u16).wrapping_mul(i as u16)).fold(0, |a: u16, b: u16| a.wrapping_add(b))
    );
}

#[test]
fn compound_assignment_becomes_read_combine_write() {
    let stmt = Stmt::Semi(bin(BinOp::AddAssign, path("sum"), bin(BinOp::Mul, path("i"), path("i"))));
    let expected = Stmt::Semi(Expr::Assign(
        Box::new(path("sum")),
        Box::new(call(Method::FastAdd, path("sum"), call(Method::FastMul, path("i"), path("i")))),
    ));
    assert_eq!(show(&unsafe_math(stmt).unwrap()), show(&expected));
}

fn deeply_nested_add(a: u32, b: u32, c: u32) -> u32 {
    // ((a + b) + c)
    let tree = paren(bin(BinOp::Add, paren(bin(BinOp::Add, path("a"), path("b"))), path("c")));
    eval(&rewrite(tree), &env(&[("a", a), ("b", b), ("c", c)]))
}

#[test]
fn test_deeply_nested_add() {
    let a = 10_u32;
    let b = 20_u32;
    let c = 30_u32;
    let expected = a + b + c;
    assert_eq!(deeply_nested_add(a, b, c), expected);
}

fn mul_add_tree() -> Expr {
    // a + (b * c)
    bin(BinOp::Add, path("a"), paren(bin(BinOp::Mul, path("b"), path("c"))))
}

fn add_mul_tree() -> Expr {
    // (a + b) * c
    bin(BinOp::Mul, paren(bin(BinOp::Add, path("a"), path("b"))), path("c"))
}

fn precedence_int_mul_add(a: u32, b: u32, c: u32) -> u32 {
    eval(&rewrite(mul_add_tree()), &env(&[("a", a), ("b", b), ("c", c)]))
}

fn precedence_int_add_mul(a: u32, b: u32, c: u32) -> u32 {
    eval(&rewrite(add_mul_tree()), &env(&[("a", a), ("b", b), ("c", c)]))
}

#[test]
fn test_precedence_int() {
    let a = 5_u32;
    let b = 10_u32;
    let c = 2_u32;

    let expected_mul_add = a + (b * c);
    assert_eq!(precedence_int_mul_add(a, b, c), expected_mul_add);

    let expected_add_mul = (a + b) * c;
    assert_eq!(precedence_int_add_mul(a, b, c), expected_add_mul);
}

#[test]
fn precedence_gives_twenty_five_and_thirty() {
    assert_eq!(precedence_int_mul_add(5, 10, 2), 25);
    assert_eq!(precedence_int_add_mul(5, 10, 2), 30);
}

fn chained_ops_int(a: i32, b: i32, c: i32, d: i32) -> i32 {
    // ((a + b) * c) / d
    let tree = bin(
        BinOp::Div,
        paren(bin(BinOp::Mul, paren(bin(BinOp::Add, path("a"), path("b"))), path("c"))),
        path("d"),
    );
    eval(&rewrite(tree), &env(&[("a", a), ("b", b), ("c", c), ("d", d)]))
}

#[test]
fn test_chained_ops_int() {
    let a = 10_i32;
    let b = 5_i32;
    let c = 2_i32;
    let d = 3_i32;
    let expected = ((a + b) * c) / d;
    assert_eq!(chained_ops_int(a, b, c, d), expected);

    let a_ov = i32::MAX - 10;
    let b_ov = 20;
    let c_ov = 2;
    let d_ov = 3;
    let expected_ov = a_ov.wrapping_add(b_ov).wrapping_mul(c_ov).wrapping_div(d_ov);
    assert_eq!(chained_ops_int(a_ov, b_ov, c_ov, d_ov), expected_ov);
}

fn single_operand_parentheses(a: u32, b: u32) -> u32 {
    // (a) + (b)
    let tree = bin(BinOp::Add, paren(path("a")), paren(path("b")));
    eval(&rewrite(tree), &env(&[("a", a), ("b", b)]))
}

#[test]
fn test_single_operand_parentheses() {
    let a = 100_u32;
    let b = 200_u32;
    let expected = a + b;
    assert_eq!(single_operand_parentheses(a, b), expected);
}

#[test]
fn grouping_is_erased_around_operands() {
    let tree = bin(BinOp::Add, paren(paren(path("a"))), paren(path("b")));
    assert_eq!(show(&rewrite(tree)), show(&call(Method::FastAdd, path("a"), path("b"))));
}

fn mock_function() -> u32 {
    42
}

fn parentheses_around_function_call(x: u32) -> u32 {
    // (mock_function() * x) + 5
    let tree = bin(
        BinOp::Add,
        paren(bin(BinOp::Mul, Expr::Call(Box::new(path("mock_function")), vec![]), path("x"))),
        lit("5"),
    );
    eval(&rewrite(tree), &env(&[("x", x), ("mock_function", mock_function())]))
}

#[test]
fn test_parentheses_around_function_call() {
    let x = 2;
    let expected = (mock_function() * x) + 5;
    assert_eq!(parentheses_around_function_call(x), expected);
}

fn mixed_nested_and_precedence(a: i32, b: i32, c: i32, d: i32) -> i32 {
    // unsafe_math_block! {((a + (b * c)) - d)}
    let tree = paren(bin(
        BinOp::Sub,
        paren(bin(BinOp::Add, path("a"), paren(bin(BinOp::Mul, path("b"), path("c"))))),
        path("d"),
    ));
    let block = unsafe_math_block(vec![Stmt::Expr(tree)]).expect("rewrite");
    eval(&block, &env(&[("a", a), ("b", b), ("c", c), ("d", d)]))
}

#[test]
fn test_mixed_nested_and_precedence() {
    let a = 10_i32;
    let b = 3_i32;
    let c = 5_i32;
    let d = 2_i32;
    let expected = (a + (b * c)) - d;
    assert_eq!(mixed_nested_and_precedence(a, b, c, d), expected);

    let a_neg = -10_i32;
    let b_neg = -3_i32;
    let c_neg = 5_i32;
    let d_neg = -2_i32;
    let expected_neg = a_neg.wrapping_add(b_neg.wrapping_mul(c_neg)).wrapping_sub(d_neg);
    assert_eq!(mixed_nested_and_precedence(a_neg, b_neg, c_neg, d_neg), expected_neg);
}

#[test]
fn rewriting_twice_changes_nothing() {
    let tree = Expr::Block(vec![
        Stmt::Let("x".to_string(), Some("u32".to_string()), Some(add_mul_tree())),
        Stmt::Semi(bin(BinOp::ShlAssign, path("x"), lit("1"))),
        Stmt::Expr(Expr::Other(
            "if".to_string(),
            vec![bin(BinOp::Lt, path("x"), lit("3")), paren(bin(BinOp::Rem, path("x"), lit("3")))],
        )),
    ]);
    let once = rewrite(tree);
    let twice = rewrite(once);
    let once_again = rewrite(Expr::Block(vec![
        Stmt::Let("x".to_string(), Some("u32".to_string()), Some(add_mul_tree())),
        Stmt::Semi(bin(BinOp::ShlAssign, path("x"), lit("1"))),
        Stmt::Expr(Expr::Other(
            "if".to_string(),
            vec![bin(BinOp::Lt, path("x"), lit("3")), paren(bin(BinOp::Rem, path("x"), lit("3")))],
        )),
    ]));
    assert_eq!(show(&twice), show(&once_again));
}

#[test]
fn inner_region_rewritten_first_is_kept_by_outer_rewrite() {
    let inner = rewrite(bin(BinOp::Mul, path("b"), path("c")));
    let outer = rewrite(bin(BinOp::Add, path("a"), paren(inner)));
    let direct = rewrite(mul_add_tree());
    assert_eq!(show(&outer), show(&direct));
}

#[test]
fn other_operators_are_left_alone() {
    for op in [BinOp::And, BinOp::Or, BinOp::BitXor, BinOp::BitAnd, BinOp::BitOr, BinOp::Eq, BinOp::Lt, BinOp::Ge] {
        let tree = bin(op, paren(path("a")), bin(BinOp::Add, path("b"), lit("1")));
        let expected = bin(op, path("a"), call(Method::FastAdd, path("b"), lit("1")));
        assert_eq!(show(&rewrite(tree)), show(&expected));
    }
    let tree = bin(BinOp::BitAndAssign, path("m"), lit("1"));
    assert_eq!(show(&rewrite(tree)), show(&bin(BinOp::BitAndAssign, path("m"), lit("1"))));
}

#[test]
fn method_names_follow_the_operators() {
    let pairs = [
        (BinOp::Add, "fast_add"),
        (BinOp::SubAssign, "fast_sub"),
        (BinOp::Mul, "fast_mul"),
        (BinOp::DivAssign, "fast_div"),
        (BinOp::Rem, "fast_rem"),
        (BinOp::Shl, "fast_shl"),
        (BinOp::ShrAssign, "fast_shr"),
    ];
    for (op, name) in pairs {
        assert_eq!(binary_op_to_method_name(&op).unwrap().name(), name);
    }
    assert!(binary_op_to_method_name(&BinOp::Eq).is_none());
    assert!(binary_op_to_method_name(&BinOp::BitOrAssign).is_none());
}

#[test]
fn compound_target_must_be_assignable() {
    // (a + b) += 1
    let tree = bin(BinOp::AddAssign, paren(bin(BinOp::Add, path("a"), path("b"))), lit("1"));
    assert_eq!(rewrite_expr(tree).unwrap_err(), RewriteError::NotAssignable(BinOp::AddAssign));
    let call_target = bin(BinOp::MulAssign, Expr::Call(Box::new(path("f")), vec![]), lit("2"));
    assert_eq!(rewrite_expr(call_target).unwrap_err(), RewriteError::NotAssignable(BinOp::MulAssign));
}

#[test]
fn assignable_targets_are_duplicated_into_the_call() {
    // *p.q[i + 1] -= 2
    let target = Expr::Unary(
        UnOp::Deref,
        Box::new(Expr::Index(
            Box::new(Expr::Field(Box::new(path("p")), "q".to_string())),
            Box::new(bin(BinOp::Add, path("i"), lit("1"))),
        )),
    );
    let rewritten_target = Expr::Unary(
        UnOp::Deref,
        Box::new(Expr::Index(
            Box::new(Expr::Field(Box::new(path("p")), "q".to_string())),
            Box::new(call(Method::FastAdd, path("i"), lit("1"))),
        )),
    );
    let tree = bin(BinOp::SubAssign, paren(target), lit("2"));
    let second_copy = Expr::Unary(
        UnOp::Deref,
        Box::new(Expr::Index(
            Box::new(Expr::Field(Box::new(path("p")), "q".to_string())),
            Box::new(call(Method::FastAdd, path("i"), lit("1"))),
        )),
    );
    let expected = Expr::Assign(Box::new(rewritten_target), Box::new(call(Method::FastSub, second_copy, lit("2"))));
    assert_eq!(show(&rewrite(tree)), show(&expected));
}

#[test]
fn first_error_stops_a_block() {
    let stmts = vec![
        Stmt::Semi(bin(BinOp::ShrAssign, lit("1"), lit("2"))),
        Stmt::Semi(bin(BinOp::RemAssign, lit("3"), lit("4"))),
    ];
    assert_eq!(unsafe_math_block(stmts).unwrap_err(), RewriteError::NotAssignable(BinOp::ShrAssign));
}

#[test]
fn in_place_rewrite_keeps_the_tree_on_error() {
    let mut good = bin(BinOp::Add, paren(path("a")), path("b"));
    assert!(visit_expr_mut(&mut good).is_ok());
    assert_eq!(show(&good), show(&call(Method::FastAdd, path("a"), path("b"))));

    let mut bad = Expr::Call(
        Box::new(path("f")),
        vec![bin(BinOp::Sub, path("x"), lit("1")), bin(BinOp::DivAssign, lit("7"), path("y"))],
    );
    let before = show(&bad);
    assert_eq!(visit_expr_mut(&mut bad), Err(RewriteError::NotAssignable(BinOp::DivAssign)));
    assert_eq!(show(&bad), before);

    let mut stmt = Stmt::Let("y".to_string(), None, Some(bin(BinOp::Shl, path("x"), lit("2"))));
    assert!(visit_stmt_mut(&mut stmt).is_ok());
    let expected = Stmt::Let("y".to_string(), None, Some(call(Method::FastShl, path("x"), lit("2"))));
    assert_eq!(show(&stmt), show(&expected));
}

#[test]
fn leaves_and_empty_blocks_pass_through() {
    assert_eq!(show(&rewrite(lit("3"))), show(&lit("3")));
    assert_eq!(show(&rewrite(paren(paren(paren(path("z")))))), show(&path("z")));
    assert_eq!(show(&unsafe_math_block(vec![]).unwrap()), show(&Expr::Block(vec![])));
    let let_without_init = Stmt::Let("u".to_string(), None, None);
    assert_eq!(show(&unsafe_math(let_without_init).unwrap()), show(&Stmt::Let("u".to_string(), None, None)));
}
