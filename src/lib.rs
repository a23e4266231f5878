//! A rewrite pass that turns the arithmetic operators of an expression tree
//! into calls of the `UnsafeMath` dispatch interface, together with that
//! interface and its implementations for the integer types and for small
//! field-wise composite types.
pub mod ast;
pub mod composite;
pub mod dispatch;
pub mod normal_form;
pub mod rewrite;
pub mod semantics;

pub use ast::{BinOp, Expr, Method, Stmt, UnOp};
pub use composite::{Extent2, Extent3, Rgb, Rgba, Vector2, Vector3, Vector4};
pub use dispatch::UnsafeMath;
pub use rewrite::{
    RewriteError, binary_op_to_method_name, rewrite_expr, unsafe_math, unsafe_math_block,
    visit_expr_mut, visit_stmt_mut,
};
