//! Left-hand-side checking of shader expressions: only mutable locals,
//! possibly behind field and index projections, may be assigned to.

use vstd::prelude::*;

use vstd::string::StringExecFns;

verus! {

/// A place in a live document.
#[derive(Clone, Copy, Debug, PartialEq, Eq, Structural)]
pub struct Span {
    pub start: usize,
    pub end: usize,
}

/// An error raised against a span of the live document.
#[derive(Clone, Debug)]
pub struct LiveError {
    pub span: Span,
    pub message: String,
}

/// How a variable reference was resolved.
#[derive(Clone, Copy, Debug, PartialEq, Eq, Structural)]
pub enum VarKind {
    Local,
    MutLocal,
    Live,
}

/// A binary operator of the shading language.
#[derive(Clone, Copy, Debug, PartialEq, Eq, Structural)]
pub enum BinOp {
    Or,
    And,
    Eq,
    Ne,
    Lt,
    Le,
    Gt,
    Ge,
    Add,
    Sub,
    Mul,
    Div,
}

/// A unary operator of the shading language.
#[derive(Clone, Copy, Debug, PartialEq, Eq, Structural)]
pub enum UnOp {
    Not,
    Neg,
}

/// A literal of the shading language.
#[derive(Clone, Copy, Debug, PartialEq, Eq, Structural)]
pub enum Lit {
    Bool(bool),
    Int(i64),
    Color(u32),
}

/// One expression of the shading language.
#[derive(Debug)]
pub struct Expr {
    pub kind: ExprKind,
}

/// The shape of an expression.
#[derive(Debug)]
pub enum ExprKind {
    Cond { span: Span, expr: Box<Expr>, expr_if_true: Box<Expr>, expr_if_false: Box<Expr> },
    Bin { span: Span, op: BinOp, left_expr: Box<Expr>, right_expr: Box<Expr> },
    Un { span: Span, op: UnOp, expr: Box<Expr> },
    Field { span: Span, expr: Box<Expr>, field_ident: u64 },
    Index { span: Span, expr: Box<Expr>, index_expr: Box<Expr> },
    MethodCall { span: Span, ident: u64 },
    PlainCall { span: Span, ident: u64 },
    BuiltinCall { span: Span, ident: u64 },
    ConsCall { span: Span },
    Var { span: Span, kind: Option<VarKind>, ident: u64 },
    Lit { span: Span, lit: Lit },
}

/// Every variable along the projection spine the checker walks has had its
/// kind resolved.
pub open spec fn spine_resolved(e: Expr) -> bool
    decreases e,
{
    match e.kind {
        ExprKind::Var { kind, .. } => kind is Some,
        ExprKind::Field { expr, .. } => spine_resolved(*expr),
        ExprKind::Index { expr, .. } => spine_resolved(*expr),
        _ => true,
    }
}

/// A valid assignment target: a mutable local or a literal, possibly
/// behind field and index projections.
pub open spec fn is_lhs(e: Expr) -> bool
    decreases e,
{
    match e.kind {
        ExprKind::Var { kind, .. } => kind == Some(VarKind::MutLocal),
        ExprKind::Lit { .. } => true,
        ExprKind::Field { expr, .. } => is_lhs(*expr),
        ExprKind::Index { expr, .. } => is_lhs(*expr),
        _ => false,
    }
}

/// The span reported when `e` is rejected: the innermost expression at the
/// end of the projection spine.
pub open spec fn lhs_err_span(e: Expr) -> Span
    decreases e,
{
    match e.kind {
        ExprKind::Cond { span, .. } => span,
        ExprKind::Bin { span, .. } => span,
        ExprKind::Un { span, .. } => span,
        ExprKind::Field { expr, .. } => lhs_err_span(*expr),
        ExprKind::Index { expr, .. } => lhs_err_span(*expr),
        ExprKind::MethodCall { span, .. } => span,
        ExprKind::PlainCall { span, .. } => span,
        ExprKind::BuiltinCall { span, .. } => span,
        ExprKind::ConsCall { span } => span,
        ExprKind::Var { span, .. } => span,
        ExprKind::Lit { span, .. } => span,
    }
}

/// The message every rejection carries.
pub open spec fn lhs_err_message() -> Seq<char> {
    "expression is not a valid left hand side"@
}

/// Checks that expressions are valid assignment targets.
pub struct LhsChecker {}

impl LhsChecker {
    /// Accept exactly the valid assignment targets, reporting the
    /// offending span otherwise.
    pub fn lhs_check_expr(&mut self, expr: &Expr) -> (r: Result<(), LiveError>)
        requires
            spine_resolved(*expr),
        ensures
            r is Ok <==> is_lhs(*expr),
            r matches Err(e) ==> e.span == lhs_err_span(*expr) && e.message@ == lhs_err_message(),
        decreases *expr, 0nat,
    {
        match &expr.kind {
            ExprKind::Cond { span, .. } => self.lhs_check_cond_expr(*span),
            ExprKind::Bin { span, .. } => self.lhs_check_bin_expr(*span),
            ExprKind::Un { span, .. } => self.lhs_check_un_expr(*span),
            ExprKind::Field { expr, .. } => self.lhs_check_field_expr(expr),
            ExprKind::Index { expr, .. } => self.lhs_check_index_expr(expr),
            ExprKind::MethodCall { span, .. } => self.lhs_check_all_call_expr(*span),
            ExprKind::PlainCall { span, .. } => self.lhs_check_all_call_expr(*span),
            ExprKind::BuiltinCall { span, .. } => self.lhs_check_all_call_expr(*span),
            ExprKind::ConsCall { span } => self.lhs_check_all_call_expr(*span),
            ExprKind::Var { span, kind, .. } => self.lhs_check_var_expr(*span, kind),
            ExprKind::Lit { span, lit } => self.lhs_check_lit_expr(*span, *lit),
        }
    }

    fn lhs_check_cond_expr(&mut self, span: Span) -> (r: Result<(), LiveError>)
        ensures
            r matches Err(e) && e.span == span && e.message@ == lhs_err_message(),
    {
        Err(LiveError { span, message: String::from_str("expression is not a valid left hand side") })
    }

    fn lhs_check_bin_expr(&mut self, span: Span) -> (r: Result<(), LiveError>)
        ensures
            r matches Err(e) && e.span == span && e.message@ == lhs_err_message(),
    {
        Err(LiveError { span, message: String::from_str("expression is not a valid left hand side") })
    }

    fn lhs_check_un_expr(&mut self, span: Span) -> (r: Result<(), LiveError>)
        ensures
            r matches Err(e) && e.span == span && e.message@ == lhs_err_message(),
    {
        Err(LiveError { span, message: String::from_str("expression is not a valid left hand side") })
    }

    fn lhs_check_all_call_expr(&mut self, span: Span) -> (r: Result<(), LiveError>)
        ensures
            r matches Err(e) && e.span == span && e.message@ == lhs_err_message(),
    {
        Err(LiveError { span, message: String::from_str("expression is not a valid left hand side") })
    }

    fn lhs_check_field_expr(&mut self, expr: &Expr) -> (r: Result<(), LiveError>)
        requires
            spine_resolved(*expr),
        ensures
            r is Ok <==> is_lhs(*expr),
            r matches Err(e) ==> e.span == lhs_err_span(*expr) && e.message@ == lhs_err_message(),
        decreases *expr, 1nat,
    {
        self.lhs_check_expr(expr)
    }

    fn lhs_check_index_expr(&mut self, expr: &Expr) -> (r: Result<(), LiveError>)
        requires
            spine_resolved(*expr),
        ensures
            r is Ok <==> is_lhs(*expr),
            r matches Err(e) ==> e.span == lhs_err_span(*expr) && e.message@ == lhs_err_message(),
        decreases *expr, 1nat,
    {
        self.lhs_check_expr(expr)
    }

    fn lhs_check_var_expr(&mut self, span: Span, kind: &Option<VarKind>) -> (r: Result<
        (),
        LiveError,
    >)
        requires
            kind is Some,
        ensures
            r is Ok <==> *kind == Some(VarKind::MutLocal),
            r matches Err(e) ==> e.span == span && e.message@ == lhs_err_message(),
    {
        match kind {
            Some(VarKind::MutLocal) => Ok(()),
            _ => Err(
                LiveError {
                    span,
                    message: String::from_str("expression is not a valid left hand side"),
                },
            ),
        }
    }

    fn lhs_check_lit_expr(&mut self, _span: Span, _lit: Lit) -> (r: Result<(), LiveError>)
        ensures
            r is Ok,
    {
        Ok(())
    }
}

} // verus!
