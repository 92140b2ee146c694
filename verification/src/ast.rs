//! The syntax tree the rewriter works on.
//!
//! Each node exclusively owns its children; a rewrite replaces a subtree it
//! owns.  Forms the rewriter has no rule for are carried as `Opaque` nodes
//! holding a host-side handle and are always left unchanged.  A numeric
//! literal carries its rendered decimal text, which is what the path string
//! appends for a literal index.
use vstd::prelude::*;

verus! {

/// An expression of the conservative ECMAScript subset the rewriter handles.
#[derive(Debug, PartialEq, Eq)]
pub enum Expr {
    /// A bare identifier used as a value.
    Ident { name: String },
    /// The receiver keyword (`this`).
    This,
    /// A member access `obj.prop` or `obj[index]`.
    Member { obj: Box<Expr>, prop: MemberProp },
    /// An array literal.
    Array { elems: Vec<Arg> },
    /// An object literal.
    Object { props: Vec<Prop> },
    /// A call `callee(args)`.
    Call { callee: Box<Expr>, args: Vec<Arg> },
    /// A conditional `test ? cons : alt`.
    Cond { test: Box<Expr>, cons: Box<Expr>, alt: Box<Expr> },
    /// A binary operation; the operator itself plays no role here.
    Bin { left: Box<Expr>, right: Box<Expr> },
    /// A unary operation.
    Unary { arg: Box<Expr> },
    /// A parenthesized expression.
    Paren { inner: Box<Expr> },
    /// A function expression: parameter names and body statements.
    Func { params: Vec<String>, body: Vec<Stmt> },
    /// A literal.
    Lit { lit: LitKind },
    /// A syntactic form outside the handled subset; never rewritten.
    Opaque { id: u64 },
}

/// The property part of a member access.
#[derive(Debug, PartialEq, Eq)]
pub enum MemberProp {
    /// A static name: `obj.name`.
    Ident { name: String },
    /// A computed index: `obj[index]`.
    Computed { index: Box<Expr> },
}

/// A call argument or array element, with its spread flag.
#[derive(Debug, PartialEq, Eq)]
pub struct Arg {
    pub spread: bool,
    pub expr: Expr,
}

/// A property of an object literal.
#[derive(Debug, PartialEq, Eq)]
pub enum Prop {
    /// `key: value`.
    KeyValue { key: String, value: Expr },
    /// Shorthand `{ name }`.
    Shorthand { name: String },
    /// A property form outside the handled subset; never rewritten.
    Opaque { id: u64 },
}

/// A literal.
#[derive(Debug, PartialEq, Eq)]
pub enum LitKind {
    /// A numeric literal, carried as its rendered decimal text.
    Num { text: String },
    /// A string literal.
    Str { value: String },
    /// A boolean literal.
    Bool { val: bool },
    /// Another literal kind (null, regex, ...); it folds nothing into a path.
    Opaque { id: u64 },
}

/// A statement of a script or function body.
#[derive(Debug, PartialEq, Eq)]
pub enum Stmt {
    /// An expression statement.
    Expr { expr: Expr },
    /// A `return`, possibly with an argument.
    Return { arg: Option<Expr> },
    /// A variable declaration: the initializer of each declarator, in
    /// order.  The declared patterns are the host's business; they bind no
    /// receiver shadow (only function parameters do).
    VarDecl { inits: Vec<Option<Expr>> },
    /// A block of statements.
    Block { stmts: Vec<Stmt> },
    /// An `if`, with an optional `else` branch.
    If { test: Expr, cons: Box<Stmt>, alt: Option<Box<Stmt>> },
    /// A `while` loop.
    While { test: Expr, body: Box<Stmt> },
    /// A `for` loop; the initializer is a variable-declaration or
    /// expression statement.
    For {
        init: Option<Box<Stmt>>,
        test: Option<Expr>,
        update: Option<Expr>,
        body: Box<Stmt>,
    },
    /// A function declaration: its function expression.  The declared name
    /// is the host's business.
    FnDecl { func: Expr },
    /// A statement form outside the handled subset; never rewritten.
    Opaque { id: u64 },
}

/// Mathematical mirror of `Expr`, over sequences of characters.
pub enum ExprV {
    Ident { name: Seq<char> },
    This,
    Member { obj: Box<ExprV>, prop: MemberPropV },
    Array { elems: Seq<ArgV> },
    Object { props: Seq<PropV> },
    Call { callee: Box<ExprV>, args: Seq<ArgV> },
    Cond { test: Box<ExprV>, cons: Box<ExprV>, alt: Box<ExprV> },
    Bin { left: Box<ExprV>, right: Box<ExprV> },
    Unary { arg: Box<ExprV> },
    Paren { inner: Box<ExprV> },
    Func { params: Seq<Seq<char>>, body: Seq<StmtV> },
    Lit { lit: LitV },
    Opaque { id: u64 },
}

pub enum MemberPropV {
    Ident { name: Seq<char> },
    Computed { index: Box<ExprV> },
}

pub struct ArgV {
    pub spread: bool,
    pub expr: ExprV,
}

pub enum PropV {
    KeyValue { key: Seq<char>, value: ExprV },
    Shorthand { name: Seq<char> },
    Opaque { id: u64 },
}

pub enum LitV {
    Num { text: Seq<char> },
    Str { value: Seq<char> },
    Bool { val: bool },
    Opaque { id: u64 },
}

pub enum StmtV {
    Expr { expr: ExprV },
    Return { arg: Option<ExprV> },
    VarDecl { inits: Seq<Option<ExprV>> },
    Block { stmts: Seq<StmtV> },
    If { test: ExprV, cons: Box<StmtV>, alt: Option<Box<StmtV>> },
    While { test: ExprV, body: Box<StmtV> },
    For {
        init: Option<Box<StmtV>>,
        test: Option<ExprV>,
        update: Option<ExprV>,
        body: Box<StmtV>,
    },
    FnDecl { func: ExprV },
    Opaque { id: u64 },
}

pub open spec fn expr_view(e: Expr) -> ExprV
    decreases e,
{
    match e {
        Expr::Ident { name } => ExprV::Ident { name: name@ },
        Expr::This => ExprV::This,
        Expr::Member { obj, prop } => ExprV::Member {
            obj: Box::new(expr_view(*obj)),
            prop: member_prop_view(prop),
        },
        Expr::Array { elems } => ExprV::Array { elems: args_view(elems@) },
        Expr::Object { props } => ExprV::Object { props: props_view(props@) },
        Expr::Call { callee, args } => ExprV::Call {
            callee: Box::new(expr_view(*callee)),
            args: args_view(args@),
        },
        Expr::Cond { test, cons, alt } => ExprV::Cond {
            test: Box::new(expr_view(*test)),
            cons: Box::new(expr_view(*cons)),
            alt: Box::new(expr_view(*alt)),
        },
        Expr::Bin { left, right } => ExprV::Bin {
            left: Box::new(expr_view(*left)),
            right: Box::new(expr_view(*right)),
        },
        Expr::Unary { arg } => ExprV::Unary { arg: Box::new(expr_view(*arg)) },
        Expr::Paren { inner } => ExprV::Paren { inner: Box::new(expr_view(*inner)) },
        Expr::Func { params, body } => ExprV::Func {
            params: names_view(params@),
            body: stmts_view(body@),
        },
        Expr::Lit { lit } => ExprV::Lit { lit: lit_view(lit) },
        Expr::Opaque { id } => ExprV::Opaque { id },
    }
}

pub open spec fn member_prop_view(p: MemberProp) -> MemberPropV
    decreases p,
{
    match p {
        MemberProp::Ident { name } => MemberPropV::Ident { name: name@ },
        MemberProp::Computed { index } => MemberPropV::Computed {
            index: Box::new(expr_view(*index)),
        },
    }
}

pub open spec fn arg_view(a: Arg) -> ArgV
    decreases a,
{
    ArgV { spread: a.spread, expr: expr_view(a.expr) }
}

pub open spec fn args_view(s: Seq<Arg>) -> Seq<ArgV>
    decreases s,
{
    if s.len() == 0 {
        Seq::empty()
    } else {
        args_view(s.drop_last()).push(arg_view(s.last()))
    }
}

pub open spec fn prop_view(p: Prop) -> PropV
    decreases p,
{
    match p {
        Prop::KeyValue { key, value } => PropV::KeyValue { key: key@, value: expr_view(value) },
        Prop::Shorthand { name } => PropV::Shorthand { name: name@ },
        Prop::Opaque { id } => PropV::Opaque { id },
    }
}

pub open spec fn props_view(s: Seq<Prop>) -> Seq<PropV>
    decreases s,
{
    if s.len() == 0 {
        Seq::empty()
    } else {
        props_view(s.drop_last()).push(prop_view(s.last()))
    }
}

pub open spec fn stmt_view(s: Stmt) -> StmtV
    decreases s,
{
    match s {
        Stmt::Expr { expr } => StmtV::Expr { expr: expr_view(expr) },
        Stmt::Return { arg } => StmtV::Return { arg: opt_expr_view_of(arg) },
        Stmt::VarDecl { inits } => StmtV::VarDecl { inits: inits_view(inits@) },
        Stmt::Block { stmts } => StmtV::Block { stmts: stmts_view(stmts@) },
        Stmt::If { test, cons, alt } => StmtV::If {
            test: expr_view(test),
            cons: Box::new(stmt_view(*cons)),
            alt: match alt {
                Some(a) => Some(Box::new(stmt_view(*a))),
                None => None,
            },
        },
        Stmt::While { test, body } => StmtV::While {
            test: expr_view(test),
            body: Box::new(stmt_view(*body)),
        },
        Stmt::For { init, test, update, body } => StmtV::For {
            init: match init {
                Some(i) => Some(Box::new(stmt_view(*i))),
                None => None,
            },
            test: opt_expr_view_of(test),
            update: opt_expr_view_of(update),
            body: Box::new(stmt_view(*body)),
        },
        Stmt::FnDecl { func } => StmtV::FnDecl { func: expr_view(func) },
        Stmt::Opaque { id } => StmtV::Opaque { id },
    }
}

pub open spec fn opt_expr_view_of(o: Option<Expr>) -> Option<ExprV>
    decreases o,
{
    match o {
        Some(e) => Some(expr_view(e)),
        None => None,
    }
}

pub open spec fn inits_view(s: Seq<Option<Expr>>) -> Seq<Option<ExprV>>
    decreases s,
{
    if s.len() == 0 {
        Seq::empty()
    } else {
        inits_view(s.drop_last()).push(opt_expr_view_of(s.last()))
    }
}

pub open spec fn stmts_view(s: Seq<Stmt>) -> Seq<StmtV>
    decreases s,
{
    if s.len() == 0 {
        Seq::empty()
    } else {
        stmts_view(s.drop_last()).push(stmt_view(s.last()))
    }
}

/// View of a list of names as a sequence of character sequences.
pub open spec fn names_view(s: Seq<String>) -> Seq<Seq<char>> {
    s.map_values(|n: String| n@)
}

impl View for Expr {
    type V = ExprV;

    open spec fn view(&self) -> ExprV {
        expr_view(*self)
    }
}

impl View for MemberProp {
    type V = MemberPropV;

    open spec fn view(&self) -> MemberPropV {
        member_prop_view(*self)
    }
}

impl View for Arg {
    type V = ArgV;

    open spec fn view(&self) -> ArgV {
        arg_view(*self)
    }
}

impl View for Prop {
    type V = PropV;

    open spec fn view(&self) -> PropV {
        prop_view(*self)
    }
}

impl View for LitKind {
    type V = LitV;

    open spec fn view(&self) -> LitV {
        lit_view(*self)
    }
}

impl View for Stmt {
    type V = StmtV;

    open spec fn view(&self) -> StmtV {
        stmt_view(*self)
    }
}

/// The view of a list is the list of the views.
pub proof fn lemma_args_view_index(s: Seq<Arg>)
    ensures
        args_view(s).len() == s.len(),
        forall|i: int| 0 <= i < s.len() ==> args_view(s)[i] == arg_view(s[i]),
    decreases s,
{
    if s.len() > 0 {
        lemma_args_view_index(s.drop_last());
    }
}

/// The view of a list is the list of the views.
pub proof fn lemma_props_view_index(s: Seq<Prop>)
    ensures
        props_view(s).len() == s.len(),
        forall|i: int| 0 <= i < s.len() ==> props_view(s)[i] == prop_view(s[i]),
    decreases s,
{
    if s.len() > 0 {
        lemma_props_view_index(s.drop_last());
    }
}

/// The view of a list is the list of the views.
pub proof fn lemma_inits_view_index(s: Seq<Option<Expr>>)
    ensures
        inits_view(s).len() == s.len(),
        forall|i: int| 0 <= i < s.len() ==> inits_view(s)[i] == opt_expr_view_of(s[i]),
    decreases s,
{
    if s.len() > 0 {
        lemma_inits_view_index(s.drop_last());
    }
}

/// The view of a list is the list of the views.
pub proof fn lemma_stmts_view_index(s: Seq<Stmt>)
    ensures
        stmts_view(s).len() == s.len(),
        forall|i: int| 0 <= i < s.len() ==> stmts_view(s)[i] == stmt_view(s[i]),
    decreases s,
{
    if s.len() > 0 {
        lemma_stmts_view_index(s.drop_last());
    }
}

pub open spec fn lit_view(l: LitKind) -> LitV
    decreases l,
{
    match l {
        LitKind::Num { text } => LitV::Num { text: text@ },
        LitKind::Str { value } => LitV::Str { value: value@ },
        LitKind::Bool { val } => LitV::Bool { val },
        LitKind::Opaque { id } => LitV::Opaque { id },
    }
}

} // verus!
