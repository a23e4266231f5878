//! The expression and statement trees that the rewrite pass works on, and
//! their mathematical model.
use vstd::prelude::*;

verus! {

/// A binary operator, in plain and in compound-assignment form.
#[derive(Clone, Copy, Debug, PartialEq, Eq, Structural)]
pub enum BinOp {
    Add,
    Sub,
    Mul,
    Div,
    Rem,
    Shl,
    Shr,
    And,
    Or,
    BitXor,
    BitAnd,
    BitOr,
    Eq,
    Lt,
    Le,
    Ne,
    Ge,
    Gt,
    AddAssign,
    SubAssign,
    MulAssign,
    DivAssign,
    RemAssign,
    ShlAssign,
    ShrAssign,
    BitXorAssign,
    BitAndAssign,
    BitOrAssign,
}

/// A unary operator.
#[derive(Clone, Copy, Debug, PartialEq, Eq, Structural)]
pub enum UnOp {
    Deref,
    Not,
    Neg,
}

/// One of the seven methods of the dispatch interface.
#[derive(Clone, Copy, Debug, PartialEq, Eq, Structural)]
pub enum Method {
    FastAdd,
    FastSub,
    FastMul,
    FastDiv,
    FastRem,
    FastShl,
    FastShr,
}

impl Method {
    /// The name of the method in the dispatch interface.
    pub open spec fn spec_name(self) -> Seq<char> {
        match self {
            Method::FastAdd => "fast_add"@,
            Method::FastSub => "fast_sub"@,
            Method::FastMul => "fast_mul"@,
            Method::FastDiv => "fast_div"@,
            Method::FastRem => "fast_rem"@,
            Method::FastShl => "fast_shl"@,
            Method::FastShr => "fast_shr"@,
        }
    }

    /// The name of the method in the dispatch interface.
    pub fn name(&self) -> (r: &'static str)
        ensures
            r@ == self.spec_name(),
    {
        match self {
            Method::FastAdd => "fast_add",
            Method::FastSub => "fast_sub",
            Method::FastMul => "fast_mul",
            Method::FastDiv => "fast_div",
            Method::FastRem => "fast_rem",
            Method::FastShl => "fast_shl",
            Method::FastShr => "fast_shr",
        }
    }
}

/// An expression node. Each node owns its children.
#[derive(Debug)]
pub enum Expr {
    /// A literal, as its source text.
    Lit(String),
    /// A variable or a path, as its source text.
    Path(String),
    /// The path of a method of the dispatch interface.
    Dispatch(Method),
    /// A parenthesised expression.
    Paren(Box<Expr>),
    Unary(UnOp, Box<Expr>),
    Binary(BinOp, Box<Expr>, Box<Expr>),
    /// `target = value`.
    Assign(Box<Expr>, Box<Expr>),
    /// `base.name`.
    Field(Box<Expr>, String),
    /// `base[index]`.
    Index(Box<Expr>, Box<Expr>),
    /// `callee(args...)`.
    Call(Box<Expr>, Vec<Expr>),
    /// `{ stmts... }`.
    Block(Vec<Stmt>),
    /// Any other kind of node, named by a tag, with its sub-expressions in
    /// order. The pass rewrites the sub-expressions and keeps the node.
    Other(String, Vec<Expr>),
}

/// A statement.
#[derive(Debug)]
pub enum Stmt {
    /// `let name: ty = init;`
    Let(String, Option<String>, Option<Expr>),
    /// An expression without a trailing semicolon.
    Expr(Expr),
    /// An expression followed by a semicolon.
    Semi(Expr),
}

/// The mathematical model of an expression.
pub enum SExpr {
    Lit(Seq<char>),
    Path(Seq<char>),
    Dispatch(Method),
    Paren(Box<SExpr>),
    Unary(UnOp, Box<SExpr>),
    Binary(BinOp, Box<SExpr>, Box<SExpr>),
    Assign(Box<SExpr>, Box<SExpr>),
    Field(Box<SExpr>, Seq<char>),
    Index(Box<SExpr>, Box<SExpr>),
    Call(Box<SExpr>, Seq<SExpr>),
    Block(Seq<SStmt>),
    Other(Seq<char>, Seq<SExpr>),
}

/// The mathematical model of a statement.
pub enum SStmt {
    Let(Seq<char>, Option<Seq<char>>, Option<SExpr>),
    Expr(SExpr),
    Semi(SExpr),
}

/// The models of a sequence of expressions, element by element.
pub open spec fn view_exprs(s: Seq<Expr>) -> Seq<SExpr>
    decreases s,
{
    if s.len() == 0 {
        Seq::empty()
    } else {
        view_exprs(s.drop_last()).push(view_expr(s.last()))
    }
}

/// The models of a sequence of statements, element by element.
pub open spec fn view_stmts(s: Seq<Stmt>) -> Seq<SStmt>
    decreases s,
{
    if s.len() == 0 {
        Seq::empty()
    } else {
        view_stmts(s.drop_last()).push(view_stmt(s.last()))
    }
}

/// The model of an expression.
pub open spec fn view_expr(e: Expr) -> SExpr
    decreases e,
{
    match e {
        Expr::Lit(t) => SExpr::Lit(t@),
        Expr::Path(t) => SExpr::Path(t@),
        Expr::Dispatch(m) => SExpr::Dispatch(m),
        Expr::Paren(x) => SExpr::Paren(Box::new(view_expr(*x))),
        Expr::Unary(op, x) => SExpr::Unary(op, Box::new(view_expr(*x))),
        Expr::Binary(op, l, r) => SExpr::Binary(op, Box::new(view_expr(*l)), Box::new(view_expr(*r))),
        Expr::Assign(l, r) => SExpr::Assign(Box::new(view_expr(*l)), Box::new(view_expr(*r))),
        Expr::Field(b, n) => SExpr::Field(Box::new(view_expr(*b)), n@),
        Expr::Index(b, i) => SExpr::Index(Box::new(view_expr(*b)), Box::new(view_expr(*i))),
        Expr::Call(f, args) => SExpr::Call(Box::new(view_expr(*f)), view_exprs(args@)),
        Expr::Block(stmts) => SExpr::Block(view_stmts(stmts@)),
        Expr::Other(tag, kids) => SExpr::Other(tag@, view_exprs(kids@)),
    }
}

/// The model of a statement.
pub open spec fn view_stmt(s: Stmt) -> SStmt
    decreases s,
{
    match s {
        Stmt::Let(name, ty, init) => SStmt::Let(
            name@,
            match ty {
                Some(t) => Some(t@),
                None => None,
            },
            match init {
                Some(x) => Some(view_expr(x)),
                None => None,
            },
        ),
        Stmt::Expr(x) => SStmt::Expr(view_expr(x)),
        Stmt::Semi(x) => SStmt::Semi(view_expr(x)),
    }
}

impl View for Expr {
    type V = SExpr;

    open spec fn view(&self) -> SExpr {
        view_expr(*self)
    }
}

impl View for Stmt {
    type V = SStmt;

    open spec fn view(&self) -> SStmt {
        view_stmt(*self)
    }
}

} // verus!

verus! {

/// The models of a sequence of expressions have its length, and each is the
/// model of the expression in the same place.
pub proof fn lemma_view_exprs(s: Seq<Expr>)
    ensures
        view_exprs(s).len() == s.len(),
        forall|i: int| 0 <= i < s.len() ==> #[trigger] view_exprs(s)[i] == view_expr(s[i]),
    decreases s.len(),
{
    if s.len() > 0 {
        lemma_view_exprs(s.drop_last());
        assert forall|i: int| 0 <= i < s.len() implies #[trigger] view_exprs(s)[i] == view_expr(s[i]) by {
            if i < s.len() - 1 {
                assert(s.drop_last()[i] == s[i]);
            }
        }
    }
}

/// The statement counterpart of `lemma_view_exprs`.
pub proof fn lemma_view_stmts(s: Seq<Stmt>)
    ensures
        view_stmts(s).len() == s.len(),
        forall|i: int| 0 <= i < s.len() ==> #[trigger] view_stmts(s)[i] == view_stmt(s[i]),
    decreases s.len(),
{
    if s.len() > 0 {
        lemma_view_stmts(s.drop_last());
        assert forall|i: int| 0 <= i < s.len() implies #[trigger] view_stmts(s)[i] == view_stmt(s[i]) by {
            if i < s.len() - 1 {
                assert(s.drop_last()[i] == s[i]);
            }
        }
    }
}

/// A copy of an expression, with the same model.
pub fn copy_expr(e: &Expr) -> (r: Expr)
    ensures
        r@ == e@,
    decreases e,
{
    match e {
        Expr::Lit(t) => Expr::Lit(t.clone()),
        Expr::Path(t) => Expr::Path(t.clone()),
        Expr::Dispatch(m) => Expr::Dispatch(*m),
        Expr::Paren(x) => Expr::Paren(Box::new(copy_expr(x))),
        Expr::Unary(op, x) => Expr::Unary(*op, Box::new(copy_expr(x))),
        Expr::Binary(op, l, r) => Expr::Binary(*op, Box::new(copy_expr(l)), Box::new(copy_expr(r))),
        Expr::Assign(l, r) => Expr::Assign(Box::new(copy_expr(l)), Box::new(copy_expr(r))),
        Expr::Field(b, n) => Expr::Field(Box::new(copy_expr(b)), n.clone()),
        Expr::Index(b, i) => Expr::Index(Box::new(copy_expr(b)), Box::new(copy_expr(i))),
        Expr::Call(f, args) => Expr::Call(Box::new(copy_expr(f)), copy_exprs(args)),
        Expr::Block(stmts) => Expr::Block(copy_stmts(stmts)),
        Expr::Other(tag, kids) => Expr::Other(tag.clone(), copy_exprs(kids)),
    }
}

/// A copy of a list of expressions, with the same models.
pub fn copy_exprs(v: &Vec<Expr>) -> (r: Vec<Expr>)
    ensures
        view_exprs(r@) == view_exprs(v@),
    decreases v,
{
    let mut out: Vec<Expr> = Vec::new();
    let mut i: usize = 0;
    while i < v.len()
        invariant
            i <= v.len(),
            view_exprs(out@) == view_exprs(v@.subrange(0, i as int)),
        decreases v.len() - i,
    {
        assert(decreases_to!(v => v@[i as int]));
        let c = copy_expr(&v[i]);
        proof {
            assert(v@.subrange(0, i + 1).drop_last() =~= v@.subrange(0, i as int));
            assert(out@.push(c).drop_last() =~= out@);
        }
        out.push(c);
        i = i + 1;
    }
    assert(v@.subrange(0, v.len() as int) =~= v@);
    out
}

/// A copy of a statement, with the same model.
pub fn copy_stmt(s: &Stmt) -> (r: Stmt)
    ensures
        r@ == s@,
    decreases s,
{
    match s {
        Stmt::Let(name, ty, init) => {
            let ty2 = match ty {
                Some(t) => Some(t.clone()),
                None => None,
            };
            let init2 = match init {
                Some(x) => Some(copy_expr(x)),
                None => None,
            };
            Stmt::Let(name.clone(), ty2, init2)
        },
        Stmt::Expr(x) => Stmt::Expr(copy_expr(x)),
        Stmt::Semi(x) => Stmt::Semi(copy_expr(x)),
    }
}

/// A copy of a list of statements, with the same models.
pub fn copy_stmts(v: &Vec<Stmt>) -> (r: Vec<Stmt>)
    ensures
        view_stmts(r@) == view_stmts(v@),
    decreases v,
{
    let mut out: Vec<Stmt> = Vec::new();
    let mut i: usize = 0;
    while i < v.len()
        invariant
            i <= v.len(),
            view_stmts(out@) == view_stmts(v@.subrange(0, i as int)),
        decreases v.len() - i,
    {
        assert(decreases_to!(v => v@[i as int]));
        let c = copy_stmt(&v[i]);
        proof {
            assert(v@.subrange(0, i + 1).drop_last() =~= v@.subrange(0, i as int));
            assert(out@.push(c).drop_last() =~= out@);
        }
        out.push(c);
        i = i + 1;
    }
    assert(v@.subrange(0, v.len() as int) =~= v@);
    out
}

} // verus!
