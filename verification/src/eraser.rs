//! The marker eraser.
//!
//! A single bottom-up fold over the rewritten tree: every call `this._p(e)`
//! — the probe marker, a one-argument call on the receiver under the
//! reserved probe name — is replaced by its sole argument.  A call of that
//! name with any other argument count is not a marker and is left alone.
//! The fold runs after the visitor pass, since the marker's presence is what
//! activates property collection during that pass.
use vstd::prelude::*;
use crate::ast::{Arg, ArgV, Expr, ExprV, MemberProp, MemberPropV, Prop, PropV, Stmt, StmtV,
    arg_view, args_view, expr_view, inits_view, lemma_args_view_index, lemma_inits_view_index,
    lemma_props_view_index, lemma_stmts_view_index, opt_expr_view_of, prop_view, props_view,
    stmt_view, stmts_view};
use crate::config::str_lit_eq;
use crate::rewrite::{lemma_expr_view_variant, probe_name};

verus! {

/// Whether a call on this callee is the probe marker's target: a member
/// access on the receiver itself under the reserved probe name.
pub open spec fn is_probe_target(c: ExprV) -> bool {
    match c {
        ExprV::Member { obj, prop } => match prop {
            MemberPropV::Ident { name } => (*obj) is This && name == probe_name(),
            _ => false,
        },
        _ => false,
    }
}

/// The bottom-up erasure fold.
pub open spec fn erase_expr_spec(e: ExprV) -> ExprV
    decreases e,
{
    match e {
        ExprV::Member { obj, prop } => ExprV::Member {
            obj: Box::new(erase_expr_spec(*obj)),
            prop: erase_member_prop_spec(prop),
        },
        ExprV::Array { elems } => ExprV::Array { elems: erase_args_spec(elems) },
        ExprV::Object { props } => ExprV::Object { props: erase_props_spec(props) },
        ExprV::Call { callee, args } => {
            let c = erase_expr_spec(*callee);
            let a = erase_args_spec(args);
            if is_probe_target(c) && a.len() == 1 {
                a[0].expr
            } else {
                ExprV::Call { callee: Box::new(c), args: a }
            }
        },
        ExprV::Cond { test, cons, alt } => ExprV::Cond {
            test: Box::new(erase_expr_spec(*test)),
            cons: Box::new(erase_expr_spec(*cons)),
            alt: Box::new(erase_expr_spec(*alt)),
        },
        ExprV::Bin { left, right } => ExprV::Bin {
            left: Box::new(erase_expr_spec(*left)),
            right: Box::new(erase_expr_spec(*right)),
        },
        ExprV::Unary { arg } => ExprV::Unary { arg: Box::new(erase_expr_spec(*arg)) },
        ExprV::Paren { inner } => ExprV::Paren { inner: Box::new(erase_expr_spec(*inner)) },
        ExprV::Func { params, body } => ExprV::Func { params, body: erase_stmts_spec(body) },
        _ => e,
    }
}

pub open spec fn erase_member_prop_spec(p: MemberPropV) -> MemberPropV
    decreases p,
{
    match p {
        MemberPropV::Computed { index } => MemberPropV::Computed {
            index: Box::new(erase_expr_spec(*index)),
        },
        _ => p,
    }
}

pub open spec fn erase_arg_spec(a: ArgV) -> ArgV
    decreases a,
{
    ArgV { spread: a.spread, expr: erase_expr_spec(a.expr) }
}

pub open spec fn erase_args_spec(s: Seq<ArgV>) -> Seq<ArgV>
    decreases s,
{
    if s.len() == 0 {
        Seq::empty()
    } else {
        seq![erase_arg_spec(s.first())] + erase_args_spec(s.drop_first())
    }
}

pub open spec fn erase_prop_spec(p: PropV) -> PropV
    decreases p,
{
    match p {
        PropV::KeyValue { key, value } => PropV::KeyValue { key, value: erase_expr_spec(value) },
        _ => p,
    }
}

pub open spec fn erase_props_spec(s: Seq<PropV>) -> Seq<PropV>
    decreases s,
{
    if s.len() == 0 {
        Seq::empty()
    } else {
        seq![erase_prop_spec(s.first())] + erase_props_spec(s.drop_first())
    }
}

pub open spec fn erase_stmt_spec(s: StmtV) -> StmtV
    decreases s,
{
    match s {
        StmtV::Expr { expr } => StmtV::Expr { expr: erase_expr_spec(expr) },
        StmtV::Return { arg } => StmtV::Return { arg: erase_opt_expr_spec(arg) },
        StmtV::VarDecl { inits } => StmtV::VarDecl { inits: erase_inits_spec(inits) },
        StmtV::Block { stmts } => StmtV::Block { stmts: erase_stmts_spec(stmts) },
        StmtV::If { test, cons, alt } => StmtV::If {
            test: erase_expr_spec(test),
            cons: Box::new(erase_stmt_spec(*cons)),
            alt: erase_opt_stmt_spec(alt),
        },
        StmtV::While { test, body } => StmtV::While {
            test: erase_expr_spec(test),
            body: Box::new(erase_stmt_spec(*body)),
        },
        StmtV::For { init, test, update, body } => StmtV::For {
            init: erase_opt_stmt_spec(init),
            test: erase_opt_expr_spec(test),
            update: erase_opt_expr_spec(update),
            body: Box::new(erase_stmt_spec(*body)),
        },
        StmtV::FnDecl { func } => StmtV::FnDecl { func: erase_expr_spec(func) },
        _ => s,
    }
}

pub open spec fn erase_opt_expr_spec(o: Option<ExprV>) -> Option<ExprV>
    decreases o,
{
    match o {
        Some(e) => Some(erase_expr_spec(e)),
        None => None,
    }
}

pub open spec fn erase_opt_stmt_spec(o: Option<Box<StmtV>>) -> Option<Box<StmtV>>
    decreases o,
{
    match o {
        Some(st) => Some(Box::new(erase_stmt_spec(*st))),
        None => None,
    }
}

pub open spec fn erase_inits_spec(s: Seq<Option<ExprV>>) -> Seq<Option<ExprV>>
    decreases s,
{
    if s.len() == 0 {
        Seq::empty()
    } else {
        seq![erase_opt_expr_spec(s.first())] + erase_inits_spec(s.drop_first())
    }
}

pub open spec fn erase_stmts_spec(s: Seq<StmtV>) -> Seq<StmtV>
    decreases s,
{
    if s.len() == 0 {
        Seq::empty()
    } else {
        seq![erase_stmt_spec(s.first())] + erase_stmts_spec(s.drop_first())
    }
}

/// Whether a one-argument probe call remains anywhere in the expression.
pub open spec fn has_probe_call(e: ExprV) -> bool
    decreases e,
{
    match e {
        ExprV::Member { obj, prop } => has_probe_call(*obj) || has_probe_call_prop(prop),
        ExprV::Array { elems } => has_probe_call_args(elems),
        ExprV::Object { props } => has_probe_call_props(props),
        ExprV::Call { callee, args } => (is_probe_target(*callee) && args.len() == 1)
            || has_probe_call(*callee) || has_probe_call_args(args),
        ExprV::Cond { test, cons, alt } => has_probe_call(*test) || has_probe_call(*cons)
            || has_probe_call(*alt),
        ExprV::Bin { left, right } => has_probe_call(*left) || has_probe_call(*right),
        ExprV::Unary { arg } => has_probe_call(*arg),
        ExprV::Paren { inner } => has_probe_call(*inner),
        ExprV::Func { params: _, body } => has_probe_call_stmts(body),
        _ => false,
    }
}

pub open spec fn has_probe_call_prop(p: MemberPropV) -> bool
    decreases p,
{
    match p {
        MemberPropV::Computed { index } => has_probe_call(*index),
        _ => false,
    }
}

pub open spec fn has_probe_call_args(s: Seq<ArgV>) -> bool
    decreases s,
{
    if s.len() == 0 {
        false
    } else {
        has_probe_call(s.first().expr) || has_probe_call_args(s.drop_first())
    }
}

pub open spec fn has_probe_call_objprop(p: PropV) -> bool
    decreases p,
{
    match p {
        PropV::KeyValue { key: _, value } => has_probe_call(value),
        _ => false,
    }
}

pub open spec fn has_probe_call_props(s: Seq<PropV>) -> bool
    decreases s,
{
    if s.len() == 0 {
        false
    } else {
        has_probe_call_objprop(s.first()) || has_probe_call_props(s.drop_first())
    }
}

pub open spec fn has_probe_call_stmt(s: StmtV) -> bool
    decreases s,
{
    match s {
        StmtV::Expr { expr } => has_probe_call(expr),
        StmtV::Return { arg } => has_probe_call_opt(arg),
        StmtV::VarDecl { inits } => has_probe_call_inits(inits),
        StmtV::Block { stmts } => has_probe_call_stmts(stmts),
        StmtV::If { test, cons, alt } => has_probe_call(test) || has_probe_call_stmt(*cons)
            || has_probe_call_opt_stmt(alt),
        StmtV::While { test, body } => has_probe_call(test) || has_probe_call_stmt(*body),
        StmtV::For { init, test, update, body } => has_probe_call_opt_stmt(init)
            || has_probe_call_opt(test) || has_probe_call_opt(update) || has_probe_call_stmt(
            *body,
        ),
        StmtV::FnDecl { func } => has_probe_call(func),
        _ => false,
    }
}

pub open spec fn has_probe_call_opt(o: Option<ExprV>) -> bool
    decreases o,
{
    match o {
        Some(e) => has_probe_call(e),
        None => false,
    }
}

pub open spec fn has_probe_call_opt_stmt(o: Option<Box<StmtV>>) -> bool
    decreases o,
{
    match o {
        Some(st) => has_probe_call_stmt(*st),
        None => false,
    }
}

pub open spec fn has_probe_call_inits(s: Seq<Option<ExprV>>) -> bool
    decreases s,
{
    if s.len() == 0 {
        false
    } else {
        has_probe_call_opt(s.first()) || has_probe_call_inits(s.drop_first())
    }
}

pub open spec fn has_probe_call_stmts(s: Seq<StmtV>) -> bool
    decreases s,
{
    if s.len() == 0 {
        false
    } else {
        has_probe_call_stmt(s.first()) || has_probe_call_stmts(s.drop_first())
    }
}

/// Probe erasure: after the erasure fold, no one-argument probe call
/// remains anywhere in the expression — every such call was replaced by its
/// argument's form, and erasing an argument cannot bring one back.
pub proof fn lemma_erase_removes_probe_calls(e: ExprV)
    ensures
        !has_probe_call(erase_expr_spec(e)),
    decreases e,
{
    reveal_with_fuel(erase_expr_spec, 2);
    reveal_with_fuel(has_probe_call, 2);
    match e {
        ExprV::Member { obj, prop } => {
            lemma_erase_removes_probe_calls(*obj);
            match prop {
                MemberPropV::Computed { index } => {
                    lemma_erase_removes_probe_calls(*index);
                },
                _ => {},
            }
        },
        ExprV::Array { elems } => {
            lemma_erase_args_removes_probe_calls(elems);
        },
        ExprV::Object { props } => {
            lemma_erase_props_removes_probe_calls(props);
        },
        ExprV::Call { callee, args } => {
            lemma_erase_removes_probe_calls(*callee);
            lemma_erase_args_removes_probe_calls(args);
            let a = erase_args_spec(args);
            if is_probe_target(erase_expr_spec(*callee)) && a.len() == 1 {
                assert(!has_probe_call(a.first().expr));
            }
        },
        ExprV::Cond { test, cons, alt } => {
            lemma_erase_removes_probe_calls(*test);
            lemma_erase_removes_probe_calls(*cons);
            lemma_erase_removes_probe_calls(*alt);
        },
        ExprV::Bin { left, right } => {
            lemma_erase_removes_probe_calls(*left);
            lemma_erase_removes_probe_calls(*right);
        },
        ExprV::Unary { arg } => {
            lemma_erase_removes_probe_calls(*arg);
        },
        ExprV::Paren { inner } => {
            lemma_erase_removes_probe_calls(*inner);
        },
        ExprV::Func { params: _, body } => {
            lemma_erase_stmts_removes_probe_calls(body);
        },
        _ => {},
    }
}

pub proof fn lemma_erase_args_removes_probe_calls(s: Seq<ArgV>)
    ensures
        !has_probe_call_args(erase_args_spec(s)),
    decreases s,
{
    if s.len() > 0 {
        lemma_erase_removes_probe_calls(s.first().expr);
        lemma_erase_args_removes_probe_calls(s.drop_first());
        let r = erase_args_spec(s);
        assert(r.first() == erase_arg_spec(s.first()));
        assert(r.drop_first() =~= erase_args_spec(s.drop_first()));
    }
}

pub proof fn lemma_erase_props_removes_probe_calls(s: Seq<PropV>)
    ensures
        !has_probe_call_props(erase_props_spec(s)),
    decreases s,
{
    reveal_with_fuel(erase_props_spec, 2);
    reveal_with_fuel(has_probe_call_props, 2);
    if s.len() > 0 {
        match s.first() {
            PropV::KeyValue { key: _, value } => {
                lemma_erase_removes_probe_calls(value);
            },
            _ => {},
        }
        lemma_erase_props_removes_probe_calls(s.drop_first());
        let r = erase_props_spec(s);
        assert(r.first() == erase_prop_spec(s.first()));
        assert(r.drop_first() =~= erase_props_spec(s.drop_first()));
    }
}

/// Probe erasure over a whole script.
pub proof fn lemma_erase_stmts_removes_probe_calls(s: Seq<StmtV>)
    ensures
        !has_probe_call_stmts(erase_stmts_spec(s)),
    decreases s,
{
    reveal_with_fuel(erase_stmts_spec, 2);
    reveal_with_fuel(has_probe_call_stmts, 2);
    if s.len() > 0 {
        lemma_erase_stmt_removes_probe_calls(s.first());
        lemma_erase_stmts_removes_probe_calls(s.drop_first());
        let r = erase_stmts_spec(s);
        assert(r.first() == erase_stmt_spec(s.first()));
        assert(r.drop_first() =~= erase_stmts_spec(s.drop_first()));
    }
}

/// Probe erasure over one statement.
pub proof fn lemma_erase_stmt_removes_probe_calls(s: StmtV)
    ensures
        !has_probe_call_stmt(erase_stmt_spec(s)),
    decreases s, 1int,
{
    reveal_with_fuel(erase_stmt_spec, 2);
    reveal_with_fuel(has_probe_call_stmt, 2);
    match s {
        StmtV::Expr { expr } => {
            lemma_erase_removes_probe_calls(expr);
        },
        StmtV::Return { arg } => {
            lemma_erase_opt_removes_probe_calls(arg);
        },
        StmtV::VarDecl { inits } => {
            lemma_erase_inits_removes_probe_calls(inits);
        },
        StmtV::Block { stmts } => {
            lemma_erase_stmts_removes_probe_calls(stmts);
        },
        StmtV::If { test, cons, alt } => {
            lemma_erase_removes_probe_calls(test);
            lemma_erase_stmt_removes_probe_calls(*cons);
            lemma_erase_opt_stmt_removes_probe_calls(alt);
        },
        StmtV::While { test, body } => {
            lemma_erase_removes_probe_calls(test);
            lemma_erase_stmt_removes_probe_calls(*body);
        },
        StmtV::For { init, test, update, body } => {
            lemma_erase_opt_stmt_removes_probe_calls(init);
            lemma_erase_opt_removes_probe_calls(test);
            lemma_erase_opt_removes_probe_calls(update);
            lemma_erase_stmt_removes_probe_calls(*body);
        },
        StmtV::FnDecl { func } => {
            lemma_erase_removes_probe_calls(func);
        },
        _ => {},
    }
}

proof fn lemma_erase_opt_removes_probe_calls(o: Option<ExprV>)
    ensures
        !has_probe_call_opt(erase_opt_expr_spec(o)),
    decreases o,
{
    match o {
        Some(e) => {
            lemma_erase_removes_probe_calls(e);
        },
        None => {},
    }
}

proof fn lemma_erase_opt_stmt_removes_probe_calls(o: Option<Box<StmtV>>)
    ensures
        !has_probe_call_opt_stmt(erase_opt_stmt_spec(o)),
    decreases o, 0int,
{
    match o {
        Some(st) => {
            lemma_erase_stmt_removes_probe_calls(*st);
        },
        None => {},
    }
}

proof fn lemma_erase_inits_removes_probe_calls(s: Seq<Option<ExprV>>)
    ensures
        !has_probe_call_inits(erase_inits_spec(s)),
    decreases s,
{
    reveal_with_fuel(erase_inits_spec, 2);
    reveal_with_fuel(has_probe_call_inits, 2);
    if s.len() > 0 {
        lemma_erase_opt_removes_probe_calls(s.first());
        lemma_erase_inits_removes_probe_calls(s.drop_first());
        let r = erase_inits_spec(s);
        assert(r.first() == erase_opt_expr_spec(s.first()));
        assert(r.drop_first() =~= erase_inits_spec(s.drop_first()));
    }
}

/// Whether the probe target shape stands at this callee position.
fn erasable_callee(c: &Expr) -> (r: bool)
    ensures
        r == is_probe_target(c@),
{
    proof {
        reveal_with_fuel(expr_view, 2);
    }
    match c {
        Expr::Member { obj, prop: MemberProp::Ident { name } } => {
            proof {
                lemma_expr_view_variant(**obj);
            }
            let is_this = matches!(&**obj, Expr::This);
            is_this && str_lit_eq(name, "_p")
        },
        Expr::Member { prop: MemberProp::Computed { .. }, .. } => false,
        _ => false,
    }
}

/// Erases probe calls below a member access.
fn erase_member_expr(e: Expr) -> (r: Expr)
    requires
        e is Member,
    ensures
        r@ == erase_expr_spec(e@),
    decreases e, 0int,
{
    proof {
        reveal_with_fuel(expr_view, 2);
        reveal_with_fuel(erase_expr_spec, 2);
    }
    match e {
        Expr::Member { obj, prop } => {
            let o = erase_expr(*obj);
            match prop {
                MemberProp::Computed { index } => {
                    let i = erase_expr(*index);
                    Expr::Member {
                        obj: Box::new(o),
                        prop: MemberProp::Computed { index: Box::new(i) },
                    }
                },
                MemberProp::Ident { name } => Expr::Member {
                    obj: Box::new(o),
                    prop: MemberProp::Ident { name },
                },
            }
        },
        other => {
            proof {
                assert(false);
            }
            other
        },
    }
}

/// Erases probe calls below a call, then the call itself when it is the
/// one-argument probe marker.
fn erase_call_expr(e: Expr) -> (r: Expr)
    requires
        e is Call,
    ensures
        r@ == erase_expr_spec(e@),
    decreases e, 0int,
{
    proof {
        reveal_with_fuel(expr_view, 2);
        reveal_with_fuel(erase_expr_spec, 2);
    }
    match e {
        Expr::Call { callee, args } => {
            let c = erase_expr(*callee);
            let a = erase_args(args);
            proof {
                lemma_args_view_index(a@);
            }
            let erasable = erasable_callee(&c) && a.len() == 1;
            if erasable {
                let ghost av = a@;
                let mut a = a;
                let arg0 = a.remove(0);
                proof {
                    lemma_args_view_index(av);
                    assert(args_view(av)[0] == arg_view(arg0));
                }
                arg0.expr
            } else {
                Expr::Call { callee: Box::new(c), args: a }
            }
        },
        other => {
            proof {
                assert(false);
            }
            other
        },
    }
}

/// Erases every one-argument probe call in the expression, bottom-up; see
/// `erase_expr_spec`.
pub fn erase_expr(e: Expr) -> (r: Expr)
    ensures
        r@ == erase_expr_spec(e@),
    decreases e, 1int,
{
    let ghost ev = e@;
    match e {
        Expr::Member { obj, prop } => erase_member_expr(Expr::Member { obj, prop }),
        Expr::Array { elems } => Expr::Array { elems: erase_args(elems) },
        Expr::Object { props } => Expr::Object { props: erase_props(props) },
        Expr::Call { callee, args } => erase_call_expr(Expr::Call { callee, args }),
        Expr::Cond { test, cons, alt } => {
            let t = erase_expr(*test);
            let cns = erase_expr(*cons);
            let al = erase_expr(*alt);
            Expr::Cond { test: Box::new(t), cons: Box::new(cns), alt: Box::new(al) }
        },
        Expr::Bin { left, right } => {
            let l = erase_expr(*left);
            let rr = erase_expr(*right);
            Expr::Bin { left: Box::new(l), right: Box::new(rr) }
        },
        Expr::Unary { arg } => Expr::Unary { arg: Box::new(erase_expr(*arg)) },
        Expr::Paren { inner } => Expr::Paren { inner: Box::new(erase_expr(*inner)) },
        Expr::Func { params, body } => Expr::Func { params, body: erase_stmts(body) },
        other => other,
    }
}

fn erase_args(args: Vec<Arg>) -> (r: Vec<Arg>)
    ensures
        args_view(r@) == erase_args_spec(args_view(args@)),
    decreases args@,
{
    let ghost s0 = args@;
    proof {
        lemma_args_view_index(s0);
    }
    if args.len() == 0 {
        proof {
            assert(args_view(s0) =~= Seq::<ArgV>::empty());
            assert(args_view(args@) =~= Seq::<ArgV>::empty());
        }
        args
    } else {
        let mut args = args;
        let head = args.remove(0);
        proof {
            assert(args@ =~= s0.drop_first());
            lemma_args_view_index(s0.drop_first());
            assert(args_view(s0).drop_first() =~= args_view(s0.drop_first()));
            assert(args_view(s0).first() == arg_view(head));
        }
        let Arg { spread, expr } = head;
        let e2 = erase_expr(expr);
        let h2 = Arg { spread, expr: e2 };
        proof {
            assert(arg_view(h2) == erase_arg_spec(arg_view(head)));
        }
        let tail2 = erase_args(args);
        let ghost tailv = tail2@;
        let mut out = tail2;
        out.insert(0, h2);
        proof {
            assert(out@ =~= seq![h2] + tailv);
            lemma_args_view_index(out@);
            lemma_args_view_index(tailv);
            assert(args_view(out@) =~= seq![arg_view(h2)] + args_view(tailv));
            assert(args_view(out@) == erase_args_spec(args_view(s0)));
        }
        out
    }
}

fn erase_props(props: Vec<Prop>) -> (r: Vec<Prop>)
    ensures
        props_view(r@) == erase_props_spec(props_view(props@)),
    decreases props@,
{
    let ghost s0 = props@;
    proof {
        lemma_props_view_index(s0);
    }
    if props.len() == 0 {
        proof {
            assert(props_view(s0) =~= Seq::<PropV>::empty());
            assert(props_view(props@) =~= Seq::<PropV>::empty());
        }
        props
    } else {
        let mut props = props;
        let head = props.remove(0);
        proof {
            assert(props@ =~= s0.drop_first());
            lemma_props_view_index(s0.drop_first());
            assert(props_view(s0).drop_first() =~= props_view(s0.drop_first()));
            assert(props_view(s0).first() == prop_view(head));
        }
        let h2 = match head {
            Prop::KeyValue { key, value } => {
                let ghost hv = prop_view(head);
                let v2 = erase_expr(value);
                let built = Prop::KeyValue { key, value: v2 };
                proof {
                    assert(prop_view(built) == erase_prop_spec(hv));
                }
                built
            },
            other => other,
        };
        proof {
            assert(prop_view(h2) == erase_prop_spec(prop_view(head)));
        }
        let tail2 = erase_props(props);
        let ghost tailv = tail2@;
        let mut out = tail2;
        out.insert(0, h2);
        proof {
            assert(out@ =~= seq![h2] + tailv);
            lemma_props_view_index(out@);
            lemma_props_view_index(tailv);
            assert(props_view(out@) =~= seq![prop_view(h2)] + props_view(tailv));
            assert(props_view(out@) == erase_props_spec(props_view(s0)));
        }
        out
    }
}

fn erase_stmt(s: Stmt) -> (r: Stmt)
    ensures
        r@ == erase_stmt_spec(s@),
    decreases s, 1int,
{
    match s {
        Stmt::Expr { expr } => Stmt::Expr { expr: erase_expr(expr) },
        Stmt::Return { arg } => Stmt::Return { arg: erase_opt_expr(arg) },
        Stmt::VarDecl { inits } => Stmt::VarDecl { inits: erase_inits(inits) },
        Stmt::Block { stmts } => Stmt::Block { stmts: erase_stmts(stmts) },
        Stmt::If { test, cons, alt } => Stmt::If {
            test: erase_expr(test),
            cons: Box::new(erase_stmt(*cons)),
            alt: erase_opt_stmt(alt),
        },
        Stmt::While { test, body } => Stmt::While {
            test: erase_expr(test),
            body: Box::new(erase_stmt(*body)),
        },
        Stmt::For { init, test, update, body } => Stmt::For {
            init: erase_opt_stmt(init),
            test: erase_opt_expr(test),
            update: erase_opt_expr(update),
            body: Box::new(erase_stmt(*body)),
        },
        Stmt::FnDecl { func } => Stmt::FnDecl { func: erase_expr(func) },
        other => other,
    }
}

fn erase_opt_expr(o: Option<Expr>) -> (r: Option<Expr>)
    ensures
        opt_expr_view_of(r) == erase_opt_expr_spec(opt_expr_view_of(o)),
    decreases o,
{
    match o {
        Some(e) => Some(erase_expr(e)),
        None => None,
    }
}

fn erase_opt_stmt(o: Option<Box<Stmt>>) -> (r: Option<Box<Stmt>>)
    ensures
        crate::visitor::opt_stmt_view(r) == erase_opt_stmt_spec(crate::visitor::opt_stmt_view(o)),
    decreases o, 0int,
{
    match o {
        Some(b) => Some(Box::new(erase_stmt(*b))),
        None => None,
    }
}

fn erase_inits(inits: Vec<Option<Expr>>) -> (r: Vec<Option<Expr>>)
    ensures
        inits_view(r@) == erase_inits_spec(inits_view(inits@)),
    decreases inits@,
{
    let ghost s0 = inits@;
    proof {
        lemma_inits_view_index(s0);
    }
    if inits.len() == 0 {
        proof {
            assert(inits_view(s0) =~= Seq::<Option<ExprV>>::empty());
            assert(inits_view(inits@) =~= Seq::<Option<ExprV>>::empty());
        }
        inits
    } else {
        let mut inits = inits;
        let head = inits.remove(0);
        proof {
            assert(inits@ =~= s0.drop_first());
            lemma_inits_view_index(s0.drop_first());
            assert(inits_view(s0).drop_first() =~= inits_view(s0.drop_first()));
            assert(inits_view(s0).first() == opt_expr_view_of(head));
        }
        let h2 = erase_opt_expr(head);
        let tail2 = erase_inits(inits);
        let ghost tailv = tail2@;
        let mut out = tail2;
        out.insert(0, h2);
        proof {
            assert(out@ =~= seq![h2] + tailv);
            lemma_inits_view_index(out@);
            lemma_inits_view_index(tailv);
            assert(inits_view(out@) =~= seq![opt_expr_view_of(h2)] + inits_view(tailv));
            assert(inits_view(out@) == erase_inits_spec(inits_view(s0)));
        }
        out
    }
}

/// Erases every one-argument probe call in a script, bottom-up.
pub fn erase_stmts(stmts: Vec<Stmt>) -> (r: Vec<Stmt>)
    ensures
        stmts_view(r@) == erase_stmts_spec(stmts_view(stmts@)),
    decreases stmts@,
{
    let ghost s0 = stmts@;
    proof {
        lemma_stmts_view_index(s0);
    }
    if stmts.len() == 0 {
        proof {
            assert(stmts_view(s0) =~= Seq::<StmtV>::empty());
            assert(stmts_view(stmts@) =~= Seq::<StmtV>::empty());
        }
        stmts
    } else {
        let mut stmts = stmts;
        let head = stmts.remove(0);
        proof {
            assert(stmts@ =~= s0.drop_first());
            lemma_stmts_view_index(s0.drop_first());
            assert(stmts_view(s0).drop_first() =~= stmts_view(s0.drop_first()));
            assert(stmts_view(s0).first() == stmt_view(head));
        }
        let h2 = erase_stmt(head);
        let tail2 = erase_stmts(stmts);
        let ghost tailv = tail2@;
        let mut out = tail2;
        out.insert(0, h2);
        proof {
            assert(out@ =~= seq![h2] + tailv);
            lemma_stmts_view_index(out@);
            lemma_stmts_view_index(tailv);
            assert(stmts_view(out@) =~= seq![stmt_view(h2)] + stmts_view(tailv));
            assert(stmts_view(out@) == erase_stmts_spec(stmts_view(s0)));
        }
        out
    }
}

} // verus!
