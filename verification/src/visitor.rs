//! The expression/statement visitor.
//!
//! Walks every node, shadowing parameter names while inside a function body
//! and the probe pseudo-scope while inside a probe-marked call, and invokes
//! the path rewriter at every syntactic position where a receiver-rooted
//! read can occur: conditional branches, parenthesized inner expressions,
//! call and array arguments, binary and unary operands, object-literal
//! values and shorthands, and call callees.
use vstd::prelude::*;
use crate::ast::{Arg, ArgV, Expr, ExprV, MemberProp, MemberPropV, Prop, PropV, Stmt, StmtV,
    arg_view, args_view, expr_view, inits_view, lemma_args_view_index, lemma_inits_view_index,
    lemma_props_view_index, lemma_stmts_view_index, names_view, opt_expr_view_of, prop_view,
    props_view, stmt_view, stmts_view};
use crate::config::str_lit_eq;
use crate::rewrite::{is_probe_callee, probe_name, replace_prop_spec, replace_spec};
use crate::scope::{BindThisVisit, lemma_scope_add_remove, lemma_scope_view_wf, scope_add};

verus! {

/// Shadowing a list of parameter names, first to last.
pub open spec fn scope_add_all(m: Map<Seq<char>, nat>, names: Seq<Seq<char>>) -> Map<
    Seq<char>,
    nat,
>
    decreases names,
{
    if names.len() == 0 {
        m
    } else {
        scope_add_all(scope_add(m, names.first()), names.drop_first())
    }
}

/// What the visitor makes of one expression under a given scope: the
/// rewritten expression, and the property names collected along the way.
pub open spec fn visit_expr_spec(
    ig: Seq<Seq<char>>,
    sc: Map<Seq<char>, nat>,
    e: ExprV,
) -> (ExprV, Seq<Seq<char>>)
    decreases e,
{
    match e {
        ExprV::Cond { test, cons, alt } => {
            let t1 = visit_expr_spec(ig, sc, *test);
            let c1 = visit_expr_spec(ig, sc, *cons);
            let a1 = visit_expr_spec(ig, sc, *alt);
            let rt = replace_spec(ig, sc, t1.0);
            let rc = replace_spec(ig, sc, c1.0);
            let ra = replace_spec(ig, sc, a1.0);
            (
                ExprV::Cond {
                    test: Box::new(rt.expr),
                    cons: Box::new(rc.expr),
                    alt: Box::new(ra.expr),
                },
                t1.1 + c1.1 + a1.1 + rt.props + rc.props + ra.props,
            )
        },
        ExprV::Paren { inner } => {
            let i1 = visit_expr_spec(ig, sc, *inner);
            let ri = replace_spec(ig, sc, i1.0);
            (ExprV::Paren { inner: Box::new(ri.expr) }, i1.1 + ri.props)
        },
        ExprV::Bin { left, right } => {
            let l1 = visit_expr_spec(ig, sc, *left);
            let r1 = visit_expr_spec(ig, sc, *right);
            let rl = replace_spec(ig, sc, l1.0);
            let rr = replace_spec(ig, sc, r1.0);
            (
                ExprV::Bin { left: Box::new(rl.expr), right: Box::new(rr.expr) },
                l1.1 + r1.1 + rl.props + rr.props,
            )
        },
        ExprV::Unary { arg } => {
            let a1 = visit_expr_spec(ig, sc, *arg);
            let ra = replace_spec(ig, sc, a1.0);
            (ExprV::Unary { arg: Box::new(ra.expr) }, a1.1 + ra.props)
        },
        ExprV::Object { props } => {
            let v1 = visit_props_spec(ig, sc, props);
            let v2 = replace_props_spec(ig, sc, v1.0);
            (ExprV::Object { props: v2.0 }, v1.1 + v2.1)
        },
        ExprV::Array { elems } => {
            let v = visit_args_spec(ig, sc, elems);
            (ExprV::Array { elems: v.0 }, v.1)
        },
        ExprV::Call { callee, args } => {
            let probe = is_probe_callee(*callee);
            let sc2 = if probe {
                scope_add(sc, probe_name())
            } else {
                sc
            };
            let c1 = visit_expr_spec(ig, sc, *callee);
            let rc = replace_spec(ig, sc, c1.0);
            let a2 = visit_args_spec(ig, sc2, args);
            (ExprV::Call { callee: Box::new(rc.expr), args: a2.0 }, c1.1 + rc.props + a2.1)
        },
        ExprV::Func { params, body } => {
            let sc2 = scope_add_all(sc, params);
            let b2 = visit_stmts_spec(ig, sc2, body);
            (ExprV::Func { params, body: b2.0 }, b2.1)
        },
        ExprV::Member { obj, prop } => {
            let o1 = visit_expr_spec(ig, sc, *obj);
            match prop {
                MemberPropV::Computed { index } => {
                    let i1 = visit_expr_spec(ig, sc, *index);
                    (
                        ExprV::Member {
                            obj: Box::new(o1.0),
                            prop: MemberPropV::Computed { index: Box::new(i1.0) },
                        },
                        o1.1 + i1.1,
                    )
                },
                _ => (ExprV::Member { obj: Box::new(o1.0), prop }, o1.1),
            }
        },
        _ => (e, Seq::empty()),
    }
}

/// A call argument or array element: its children are visited, then the
/// rewriter is applied to it.
pub open spec fn visit_arg_spec(
    ig: Seq<Seq<char>>,
    sc: Map<Seq<char>, nat>,
    a: ArgV,
) -> (ArgV, Seq<Seq<char>>)
    decreases a,
{
    let e1 = visit_expr_spec(ig, sc, a.expr);
    let r = replace_spec(ig, sc, e1.0);
    (ArgV { spread: a.spread, expr: r.expr }, e1.1 + r.props)
}

pub open spec fn visit_args_spec(
    ig: Seq<Seq<char>>,
    sc: Map<Seq<char>, nat>,
    s: Seq<ArgV>,
) -> (Seq<ArgV>, Seq<Seq<char>>)
    decreases s,
{
    if s.len() == 0 {
        (Seq::empty(), Seq::empty())
    } else {
        let h = visit_arg_spec(ig, sc, s.first());
        let t = visit_args_spec(ig, sc, s.drop_first());
        (seq![h.0] + t.0, h.1 + t.1)
    }
}

/// The generic children pass over an object-literal property.
pub open spec fn visit_prop_spec(
    ig: Seq<Seq<char>>,
    sc: Map<Seq<char>, nat>,
    p: PropV,
) -> (PropV, Seq<Seq<char>>)
    decreases p,
{
    match p {
        PropV::KeyValue { key, value } => {
            let v1 = visit_expr_spec(ig, sc, value);
            (PropV::KeyValue { key, value: v1.0 }, v1.1)
        },
        _ => (p, Seq::empty()),
    }
}

pub open spec fn visit_props_spec(
    ig: Seq<Seq<char>>,
    sc: Map<Seq<char>, nat>,
    s: Seq<PropV>,
) -> (Seq<PropV>, Seq<Seq<char>>)
    decreases s,
{
    if s.len() == 0 {
        (Seq::empty(), Seq::empty())
    } else {
        let h = visit_prop_spec(ig, sc, s.first());
        let t = visit_props_spec(ig, sc, s.drop_first());
        (seq![h.0] + t.0, h.1 + t.1)
    }
}

/// The rewriting pass over an object literal's properties, first to last.
pub open spec fn replace_props_spec(
    ig: Seq<Seq<char>>,
    sc: Map<Seq<char>, nat>,
    s: Seq<PropV>,
) -> (Seq<PropV>, Seq<Seq<char>>)
    decreases s,
{
    if s.len() == 0 {
        (Seq::empty(), Seq::empty())
    } else {
        let h = replace_prop_spec(ig, sc, s.first());
        let t = replace_props_spec(ig, sc, s.drop_first());
        (seq![h.0] + t.0, h.1 + t.1)
    }
}

pub open spec fn visit_stmt_spec(
    ig: Seq<Seq<char>>,
    sc: Map<Seq<char>, nat>,
    s: StmtV,
) -> (StmtV, Seq<Seq<char>>)
    decreases s,
{
    match s {
        StmtV::Expr { expr } => {
            let e1 = visit_expr_spec(ig, sc, expr);
            (StmtV::Expr { expr: e1.0 }, e1.1)
        },
        StmtV::Return { arg } => {
            let a1 = visit_opt_expr_spec(ig, sc, arg);
            (StmtV::Return { arg: a1.0 }, a1.1)
        },
        StmtV::VarDecl { inits } => {
            let v = visit_inits_spec(ig, sc, inits);
            (StmtV::VarDecl { inits: v.0 }, v.1)
        },
        StmtV::Block { stmts } => {
            let v = visit_stmts_spec(ig, sc, stmts);
            (StmtV::Block { stmts: v.0 }, v.1)
        },
        StmtV::If { test, cons, alt } => {
            let t = visit_expr_spec(ig, sc, test);
            let c = visit_stmt_spec(ig, sc, *cons);
            let a = visit_opt_stmt_spec(ig, sc, alt);
            (StmtV::If { test: t.0, cons: Box::new(c.0), alt: a.0 }, t.1 + c.1 + a.1)
        },
        StmtV::While { test, body } => {
            let t = visit_expr_spec(ig, sc, test);
            let b = visit_stmt_spec(ig, sc, *body);
            (StmtV::While { test: t.0, body: Box::new(b.0) }, t.1 + b.1)
        },
        StmtV::For { init, test, update, body } => {
            let i = visit_opt_stmt_spec(ig, sc, init);
            let t = visit_opt_expr_spec(ig, sc, test);
            let u = visit_opt_expr_spec(ig, sc, update);
            let b = visit_stmt_spec(ig, sc, *body);
            (
                StmtV::For { init: i.0, test: t.0, update: u.0, body: Box::new(b.0) },
                i.1 + t.1 + u.1 + b.1,
            )
        },
        StmtV::FnDecl { func } => {
            let f = visit_expr_spec(ig, sc, func);
            (StmtV::FnDecl { func: f.0 }, f.1)
        },
        _ => (s, Seq::empty()),
    }
}

pub open spec fn visit_opt_expr_spec(
    ig: Seq<Seq<char>>,
    sc: Map<Seq<char>, nat>,
    o: Option<ExprV>,
) -> (Option<ExprV>, Seq<Seq<char>>)
    decreases o,
{
    match o {
        Some(e) => {
            let v = visit_expr_spec(ig, sc, e);
            (Some(v.0), v.1)
        },
        None => (None, Seq::empty()),
    }
}

/// View of an optional boxed statement.
pub open spec fn opt_stmt_view(o: Option<Box<Stmt>>) -> Option<Box<StmtV>> {
    match o {
        Some(b) => Some(Box::new(stmt_view(*b))),
        None => None,
    }
}

pub open spec fn visit_opt_stmt_spec(
    ig: Seq<Seq<char>>,
    sc: Map<Seq<char>, nat>,
    o: Option<Box<StmtV>>,
) -> (Option<Box<StmtV>>, Seq<Seq<char>>)
    decreases o,
{
    match o {
        Some(st) => {
            let v = visit_stmt_spec(ig, sc, *st);
            (Some(Box::new(v.0)), v.1)
        },
        None => (None, Seq::empty()),
    }
}

pub open spec fn visit_inits_spec(
    ig: Seq<Seq<char>>,
    sc: Map<Seq<char>, nat>,
    s: Seq<Option<ExprV>>,
) -> (Seq<Option<ExprV>>, Seq<Seq<char>>)
    decreases s,
{
    if s.len() == 0 {
        (Seq::empty(), Seq::empty())
    } else {
        let h = visit_opt_expr_spec(ig, sc, s.first());
        let t = visit_inits_spec(ig, sc, s.drop_first());
        (seq![h.0] + t.0, h.1 + t.1)
    }
}

pub open spec fn visit_stmts_spec(
    ig: Seq<Seq<char>>,
    sc: Map<Seq<char>, nat>,
    s: Seq<StmtV>,
) -> (Seq<StmtV>, Seq<Seq<char>>)
    decreases s,
{
    if s.len() == 0 {
        (Seq::empty(), Seq::empty())
    } else {
        let h = visit_stmt_spec(ig, sc, s.first());
        let t = visit_stmts_spec(ig, sc, s.drop_first());
        (seq![h.0] + t.0, h.1 + t.1)
    }
}

proof fn lemma_scope_add_all_snoc(m: Map<Seq<char>, nat>, pref: Seq<Seq<char>>, x: Seq<char>)
    ensures
        scope_add_all(m, pref.push(x)) == scope_add(scope_add_all(m, pref), x),
    decreases pref,
{
    reveal_with_fuel(scope_add_all, 3);
    if pref.len() == 0 {
        assert(pref.push(x).drop_first() =~= Seq::<Seq<char>>::empty());
        assert(pref.push(x).first() == x);
    } else {
        assert(pref.push(x).first() == pref.first());
        assert(pref.push(x).drop_first() =~= pref.drop_first().push(x));
        lemma_scope_add_all_snoc(scope_add(m, pref.first()), pref.drop_first(), x);
    }
}

proof fn lemma_scope_add_all_wf(m: Map<Seq<char>, nat>, names: Seq<Seq<char>>)
    requires
        crate::scope::scope_wf(m),
    ensures
        crate::scope::scope_wf(scope_add_all(m, names)),
    decreases names,
{
    if names.len() > 0 {
        lemma_scope_add_all_wf(scope_add(m, names.first()), names.drop_first());
    }
}

proof fn lemma_pcat_empty(s: Seq<Seq<char>>)
    ensures
        s + Seq::<Seq<char>>::empty() == s,
{
    assert(s + Seq::<Seq<char>>::empty() =~= s);
}

/// Whether anything in the expression can activate the probe pseudo-scope:
/// a call whose callee carries the reserved probe name, or a function that
/// shadows the probe token itself with a parameter of that name.
pub open spec fn activates_probe(e: ExprV) -> bool
    decreases e,
{
    match e {
        ExprV::Member { obj, prop } => activates_probe(*obj) || activates_probe_prop(prop),
        ExprV::Array { elems } => activates_probe_args(elems),
        ExprV::Object { props } => activates_probe_props(props),
        ExprV::Call { callee, args } => is_probe_callee(*callee) || activates_probe(*callee)
            || activates_probe_args(args),
        ExprV::Cond { test, cons, alt } => activates_probe(*test) || activates_probe(*cons)
            || activates_probe(*alt),
        ExprV::Bin { left, right } => activates_probe(*left) || activates_probe(*right),
        ExprV::Unary { arg } => activates_probe(*arg),
        ExprV::Paren { inner } => activates_probe(*inner),
        ExprV::Func { params, body } => params.contains(probe_name()) || activates_probe_stmts(
            body,
        ),
        _ => false,
    }
}

pub open spec fn activates_probe_prop(p: MemberPropV) -> bool
    decreases p,
{
    match p {
        MemberPropV::Computed { index } => activates_probe(*index),
        _ => false,
    }
}

pub open spec fn activates_probe_args(s: Seq<ArgV>) -> bool
    decreases s,
{
    if s.len() == 0 {
        false
    } else {
        activates_probe(s.first().expr) || activates_probe_args(s.drop_first())
    }
}

pub open spec fn activates_probe_objprop(p: PropV) -> bool
    decreases p,
{
    match p {
        PropV::KeyValue { key: _, value } => activates_probe(value),
        _ => false,
    }
}

pub open spec fn activates_probe_props(s: Seq<PropV>) -> bool
    decreases s,
{
    if s.len() == 0 {
        false
    } else {
        activates_probe_objprop(s.first()) || activates_probe_props(s.drop_first())
    }
}

pub open spec fn activates_probe_stmt(s: StmtV) -> bool
    decreases s,
{
    match s {
        StmtV::Expr { expr } => activates_probe(expr),
        StmtV::Return { arg } => activates_probe_opt(arg),
        StmtV::VarDecl { inits } => activates_probe_inits(inits),
        StmtV::Block { stmts } => activates_probe_stmts(stmts),
        StmtV::If { test, cons, alt } => activates_probe(test) || activates_probe_stmt(*cons)
            || activates_probe_opt_stmt(alt),
        StmtV::While { test, body } => activates_probe(test) || activates_probe_stmt(*body),
        StmtV::For { init, test, update, body } => activates_probe_opt_stmt(init)
            || activates_probe_opt(test) || activates_probe_opt(update) || activates_probe_stmt(
            *body,
        ),
        StmtV::FnDecl { func } => activates_probe(func),
        _ => false,
    }
}

pub open spec fn activates_probe_opt(o: Option<ExprV>) -> bool
    decreases o,
{
    match o {
        Some(e) => activates_probe(e),
        None => false,
    }
}

pub open spec fn activates_probe_opt_stmt(o: Option<Box<StmtV>>) -> bool
    decreases o,
{
    match o {
        Some(st) => activates_probe_stmt(*st),
        None => false,
    }
}

pub open spec fn activates_probe_inits(s: Seq<Option<ExprV>>) -> bool
    decreases s,
{
    if s.len() == 0 {
        false
    } else {
        activates_probe_opt(s.first()) || activates_probe_inits(s.drop_first())
    }
}

pub open spec fn activates_probe_stmts(s: Seq<StmtV>) -> bool
    decreases s,
{
    if s.len() == 0 {
        false
    } else {
        activates_probe_stmt(s.first()) || activates_probe_stmts(s.drop_first())
    }
}

proof fn lemma_scope_add_all_no_new_key(
    m: Map<Seq<char>, nat>,
    names: Seq<Seq<char>>,
    k: Seq<char>,
)
    requires
        !m.contains_key(k),
        !names.contains(k),
    ensures
        !scope_add_all(m, names).contains_key(k),
    decreases names,
{
    if names.len() > 0 {
        assert(names.contains(names.first())) by {
            assert(names[0] == names.first());
        }
        assert(!names.drop_first().contains(k)) by {
            if names.drop_first().contains(k) {
                let i = choose|i: int|
                    0 <= i < names.drop_first().len() && names.drop_first()[i] == k;
                assert(names[i + 1] == k);
            }
        }
        lemma_scope_add_all_no_new_key(scope_add(m, names.first()), names.drop_first(), k);
    }
}

proof fn lemma_replace_prop_no_probe_no_collect(
    ig: Seq<Seq<char>>,
    sc: Map<Seq<char>, nat>,
    p: PropV,
)
    requires
        !sc.contains_key(probe_name()),
    ensures
        replace_prop_spec(ig, sc, p).1 == Seq::<Seq<char>>::empty(),
{
    match p {
        PropV::KeyValue { key: _, value } => {
            crate::rewrite::lemma_replace_no_probe_no_collect(ig, sc, value);
        },
        _ => {},
    }
}

/// Collection scoping: while the probe pseudo-scope is not active and
/// nothing below can activate it, the visitor collects no property name.
#[verifier::rlimit(100)]
pub proof fn lemma_visit_collects_only_in_probe_scope(
    ig: Seq<Seq<char>>,
    sc: Map<Seq<char>, nat>,
    e: ExprV,
)
    requires
        !sc.contains_key(probe_name()),
        !activates_probe(e),
    ensures
        visit_expr_spec(ig, sc, e).1 == Seq::<Seq<char>>::empty(),
    decreases e,
{
    let empty = Seq::<Seq<char>>::empty();
    assert(empty + empty =~= empty);
    reveal_with_fuel(activates_probe, 2);
    match e {
        ExprV::Cond { test, cons, alt } => {
            lemma_visit_collects_only_in_probe_scope(ig, sc, *test);
            lemma_visit_collects_only_in_probe_scope(ig, sc, *cons);
            lemma_visit_collects_only_in_probe_scope(ig, sc, *alt);
            crate::rewrite::lemma_replace_no_probe_no_collect(
                ig,
                sc,
                visit_expr_spec(ig, sc, *test).0,
            );
            crate::rewrite::lemma_replace_no_probe_no_collect(
                ig,
                sc,
                visit_expr_spec(ig, sc, *cons).0,
            );
            crate::rewrite::lemma_replace_no_probe_no_collect(
                ig,
                sc,
                visit_expr_spec(ig, sc, *alt).0,
            );
        },
        ExprV::Paren { inner } => {
            lemma_visit_collects_only_in_probe_scope(ig, sc, *inner);
            crate::rewrite::lemma_replace_no_probe_no_collect(
                ig,
                sc,
                visit_expr_spec(ig, sc, *inner).0,
            );
        },
        ExprV::Bin { left, right } => {
            lemma_visit_collects_only_in_probe_scope(ig, sc, *left);
            lemma_visit_collects_only_in_probe_scope(ig, sc, *right);
            crate::rewrite::lemma_replace_no_probe_no_collect(
                ig,
                sc,
                visit_expr_spec(ig, sc, *left).0,
            );
            crate::rewrite::lemma_replace_no_probe_no_collect(
                ig,
                sc,
                visit_expr_spec(ig, sc, *right).0,
            );
        },
        ExprV::Unary { arg } => {
            lemma_visit_collects_only_in_probe_scope(ig, sc, *arg);
            crate::rewrite::lemma_replace_no_probe_no_collect(
                ig,
                sc,
                visit_expr_spec(ig, sc, *arg).0,
            );
        },
        ExprV::Object { props } => {
            lemma_visit_props_collects_only_in_probe_scope(ig, sc, props);
            lemma_replace_props_no_probe_no_collect(
                ig,
                sc,
                visit_props_spec(ig, sc, props).0,
            );
        },
        ExprV::Array { elems } => {
            lemma_visit_args_collects_only_in_probe_scope(ig, sc, elems);
        },
        ExprV::Call { callee, args } => {
            lemma_visit_collects_only_in_probe_scope(ig, sc, *callee);
            crate::rewrite::lemma_replace_no_probe_no_collect(
                ig,
                sc,
                visit_expr_spec(ig, sc, *callee).0,
            );
            lemma_visit_args_collects_only_in_probe_scope(ig, sc, args);
        },
        ExprV::Func { params, body } => {
            lemma_scope_add_all_no_new_key(sc, params, probe_name());
            lemma_visit_stmts_collects_only_in_probe_scope(ig, scope_add_all(sc, params), body);
        },
        ExprV::Member { obj, prop } => {
            lemma_visit_collects_only_in_probe_scope(ig, sc, *obj);
            match prop {
                MemberPropV::Computed { index } => {
                    lemma_visit_collects_only_in_probe_scope(ig, sc, *index);
                },
                _ => {},
            }
        },
        _ => {},
    }
}

proof fn lemma_visit_args_collects_only_in_probe_scope(
    ig: Seq<Seq<char>>,
    sc: Map<Seq<char>, nat>,
    s: Seq<ArgV>,
)
    requires
        !sc.contains_key(probe_name()),
        !activates_probe_args(s),
    ensures
        visit_args_spec(ig, sc, s).1 == Seq::<Seq<char>>::empty(),
    decreases s,
{
    let empty = Seq::<Seq<char>>::empty();
    assert(empty + empty =~= empty);
    reveal_with_fuel(visit_args_spec, 2);
    reveal_with_fuel(activates_probe_args, 2);
    if s.len() > 0 {
        lemma_visit_collects_only_in_probe_scope(ig, sc, s.first().expr);
        crate::rewrite::lemma_replace_no_probe_no_collect(
            ig,
            sc,
            visit_expr_spec(ig, sc, s.first().expr).0,
        );
        lemma_visit_args_collects_only_in_probe_scope(ig, sc, s.drop_first());
    }
}

proof fn lemma_visit_props_collects_only_in_probe_scope(
    ig: Seq<Seq<char>>,
    sc: Map<Seq<char>, nat>,
    s: Seq<PropV>,
)
    requires
        !sc.contains_key(probe_name()),
        !activates_probe_props(s),
    ensures
        visit_props_spec(ig, sc, s).1 == Seq::<Seq<char>>::empty(),
    decreases s,
{
    let empty = Seq::<Seq<char>>::empty();
    assert(empty + empty =~= empty);
    reveal_with_fuel(visit_props_spec, 2);
    reveal_with_fuel(activates_probe_props, 2);
    if s.len() > 0 {
        match s.first() {
            PropV::KeyValue { key: _, value } => {
                lemma_visit_collects_only_in_probe_scope(ig, sc, value);
            },
            _ => {},
        }
        lemma_visit_props_collects_only_in_probe_scope(ig, sc, s.drop_first());
    }
}

proof fn lemma_replace_props_no_probe_no_collect(
    ig: Seq<Seq<char>>,
    sc: Map<Seq<char>, nat>,
    s: Seq<PropV>,
)
    requires
        !sc.contains_key(probe_name()),
    ensures
        replace_props_spec(ig, sc, s).1 == Seq::<Seq<char>>::empty(),
    decreases s,
{
    let empty = Seq::<Seq<char>>::empty();
    assert(empty + empty =~= empty);
    reveal_with_fuel(replace_props_spec, 2);
    if s.len() > 0 {
        lemma_replace_prop_no_probe_no_collect(ig, sc, s.first());
        lemma_replace_props_no_probe_no_collect(ig, sc, s.drop_first());
    }
}

proof fn lemma_visit_stmt_collects_only_in_probe_scope(
    ig: Seq<Seq<char>>,
    sc: Map<Seq<char>, nat>,
    s: StmtV,
)
    requires
        !sc.contains_key(probe_name()),
        !activates_probe_stmt(s),
    ensures
        visit_stmt_spec(ig, sc, s).1 == Seq::<Seq<char>>::empty(),
    decreases s,
{
    let empty = Seq::<Seq<char>>::empty();
    assert(empty + empty =~= empty);
    match s {
        StmtV::Expr { expr } => {
            lemma_visit_collects_only_in_probe_scope(ig, sc, expr);
        },
        StmtV::Return { arg } => {
            lemma_visit_opt_collects_only_in_probe_scope(ig, sc, arg);
        },
        StmtV::VarDecl { inits } => {
            lemma_visit_inits_collects_only_in_probe_scope(ig, sc, inits);
        },
        StmtV::Block { stmts } => {
            lemma_visit_stmts_collects_only_in_probe_scope(ig, sc, stmts);
        },
        StmtV::If { test, cons, alt } => {
            lemma_visit_collects_only_in_probe_scope(ig, sc, test);
            lemma_visit_stmt_collects_only_in_probe_scope(ig, sc, *cons);
            lemma_visit_opt_stmt_collects_only_in_probe_scope(ig, sc, alt);
        },
        StmtV::While { test, body } => {
            lemma_visit_collects_only_in_probe_scope(ig, sc, test);
            lemma_visit_stmt_collects_only_in_probe_scope(ig, sc, *body);
        },
        StmtV::For { init, test, update, body } => {
            lemma_visit_opt_stmt_collects_only_in_probe_scope(ig, sc, init);
            lemma_visit_opt_collects_only_in_probe_scope(ig, sc, test);
            lemma_visit_opt_collects_only_in_probe_scope(ig, sc, update);
            lemma_visit_stmt_collects_only_in_probe_scope(ig, sc, *body);
        },
        StmtV::FnDecl { func } => {
            lemma_visit_collects_only_in_probe_scope(ig, sc, func);
        },
        _ => {},
    }
}

proof fn lemma_visit_opt_collects_only_in_probe_scope(
    ig: Seq<Seq<char>>,
    sc: Map<Seq<char>, nat>,
    o: Option<ExprV>,
)
    requires
        !sc.contains_key(probe_name()),
        !activates_probe_opt(o),
    ensures
        visit_opt_expr_spec(ig, sc, o).1 == Seq::<Seq<char>>::empty(),
    decreases o,
{
    match o {
        Some(e) => {
            lemma_visit_collects_only_in_probe_scope(ig, sc, e);
        },
        None => {},
    }
}

proof fn lemma_visit_opt_stmt_collects_only_in_probe_scope(
    ig: Seq<Seq<char>>,
    sc: Map<Seq<char>, nat>,
    o: Option<Box<StmtV>>,
)
    requires
        !sc.contains_key(probe_name()),
        !activates_probe_opt_stmt(o),
    ensures
        visit_opt_stmt_spec(ig, sc, o).1 == Seq::<Seq<char>>::empty(),
    decreases o,
{
    match o {
        Some(st) => {
            lemma_visit_stmt_collects_only_in_probe_scope(ig, sc, *st);
        },
        None => {},
    }
}

proof fn lemma_visit_inits_collects_only_in_probe_scope(
    ig: Seq<Seq<char>>,
    sc: Map<Seq<char>, nat>,
    s: Seq<Option<ExprV>>,
)
    requires
        !sc.contains_key(probe_name()),
        !activates_probe_inits(s),
    ensures
        visit_inits_spec(ig, sc, s).1 == Seq::<Seq<char>>::empty(),
    decreases s,
{
    let empty = Seq::<Seq<char>>::empty();
    assert(empty + empty =~= empty);
    reveal_with_fuel(visit_inits_spec, 2);
    reveal_with_fuel(activates_probe_inits, 2);
    if s.len() > 0 {
        lemma_visit_opt_collects_only_in_probe_scope(ig, sc, s.first());
        lemma_visit_inits_collects_only_in_probe_scope(ig, sc, s.drop_first());
    }
}

/// Collection scoping over a whole script: without a probe call, nothing is
/// collected.
pub proof fn lemma_visit_stmts_collects_only_in_probe_scope(
    ig: Seq<Seq<char>>,
    sc: Map<Seq<char>, nat>,
    s: Seq<StmtV>,
)
    requires
        !sc.contains_key(probe_name()),
        !activates_probe_stmts(s),
    ensures
        visit_stmts_spec(ig, sc, s).1 == Seq::<Seq<char>>::empty(),
    decreases s,
{
    let empty = Seq::<Seq<char>>::empty();
    assert(empty + empty =~= empty);
    reveal_with_fuel(visit_stmts_spec, 2);
    reveal_with_fuel(activates_probe_stmts, 2);
    if s.len() > 0 {
        lemma_visit_stmt_collects_only_in_probe_scope(ig, sc, s.first());
        lemma_visit_stmts_collects_only_in_probe_scope(ig, sc, s.drop_first());
    }
}

/// Whether a call with this callee activates the probe pseudo-scope.
fn callee_is_probe(callee: &Expr) -> (r: bool)
    ensures
        r == is_probe_callee(callee@),
{
    proof {
        reveal_with_fuel(expr_view, 2);
    }
    match callee {
        Expr::Member { prop: MemberProp::Ident { name }, .. } => str_lit_eq(name, "_p"),
        Expr::Member { prop: MemberProp::Computed { .. }, .. } => false,
        _ => false,
    }
}

impl BindThisVisit {
    /// Visits one expression: children first, then the rewriter at each
    /// position where a receiver-rooted read can occur; see
    /// `visit_expr_spec`.  The scope ends as it began.
    #[verifier::rlimit(80)]
    pub fn visit_expr(&mut self, e: Expr) -> (r: Expr)
        ensures
            final(self).config == old(self).config,
            final(self).scope_view() == old(self).scope_view(),
            ({
                let o = visit_expr_spec(old(self).ignored_view(), old(self).scope_view(), e@);
                &&& r@ == o.0
                &&& names_view(final(self).cached_props@) == names_view(old(self).cached_props@)
                    + o.1
            }),
        decreases e,
    {
        proof {
            reveal_with_fuel(expr_view, 3);
        }
        let ghost ig = self.ignored_view();
        let ghost sc = self.scope_view();
        let ghost props0 = names_view(self.cached_props@);
        let ghost ev = e@;
        match e {
            Expr::Cond { test, cons, alt } => {
                let t1 = self.visit_expr(*test);
                let c1 = self.visit_expr(*cons);
                let a1 = self.visit_expr(*alt);
                let t2 = self.replace_expr(t1);
                let c2 = self.replace_expr(c1);
                let a2 = self.replace_expr(a1);
                let out = Expr::Cond { test: Box::new(t2), cons: Box::new(c2), alt: Box::new(a2) };
                proof {
                    let o = visit_expr_spec(ig, sc, ev);
                    assert(out@ == o.0);
                    assert(names_view(self.cached_props@) =~= props0 + o.1);
                }
                out
            },
            Expr::Paren { inner } => {
                let i1 = self.visit_expr(*inner);
                let i2 = self.replace_expr(i1);
                let out = Expr::Paren { inner: Box::new(i2) };
                proof {
                    let o = visit_expr_spec(ig, sc, ev);
                    assert(out@ == o.0);
                    assert(names_view(self.cached_props@) =~= props0 + o.1);
                }
                out
            },
            Expr::Bin { left, right } => {
                let l1 = self.visit_expr(*left);
                let r1 = self.visit_expr(*right);
                let l2 = self.replace_expr(l1);
                let r2 = self.replace_expr(r1);
                let out = Expr::Bin { left: Box::new(l2), right: Box::new(r2) };
                proof {
                    let o = visit_expr_spec(ig, sc, ev);
                    assert(out@ == o.0);
                    assert(names_view(self.cached_props@) =~= props0 + o.1);
                }
                out
            },
            Expr::Unary { arg } => {
                let a1 = self.visit_expr(*arg);
                let a2 = self.replace_expr(a1);
                let out = Expr::Unary { arg: Box::new(a2) };
                proof {
                    let o = visit_expr_spec(ig, sc, ev);
                    assert(out@ == o.0);
                    assert(names_view(self.cached_props@) =~= props0 + o.1);
                }
                out
            },
            Expr::Object { props } => {
                let p1 = self.visit_props(props);
                let p2 = self.replace_props(p1);
                let out = Expr::Object { props: p2 };
                proof {
                    let o = visit_expr_spec(ig, sc, ev);
                    assert(out@ == o.0);
                    assert(names_view(self.cached_props@) =~= props0 + o.1);
                }
                out
            },
            Expr::Array { elems } => {
                let es = self.visit_args(elems);
                let out = Expr::Array { elems: es };
                proof {
                    let o = visit_expr_spec(ig, sc, ev);
                    assert(out@ == o.0);
                    assert(names_view(self.cached_props@) =~= props0 + o.1);
                }
                out
            },
            Expr::Call { callee, args } => self.visit_call(Expr::Call { callee, args }),
            Expr::Func { params, body } => self.visit_func(Expr::Func { params, body }),
            Expr::Member { obj, prop } => {
                let o1 = self.visit_expr(*obj);
                match prop {
                    MemberProp::Computed { index } => {
                        let i1 = self.visit_expr(*index);
                        let out = Expr::Member {
                            obj: Box::new(o1),
                            prop: MemberProp::Computed { index: Box::new(i1) },
                        };
                        proof {
                            let o = visit_expr_spec(ig, sc, ev);
                            assert(out@ == o.0);
                            assert(names_view(self.cached_props@) =~= props0 + o.1);
                        }
                        out
                    },
                    MemberProp::Ident { name } => {
                        let out = Expr::Member {
                            obj: Box::new(o1),
                            prop: MemberProp::Ident { name },
                        };
                        proof {
                            let o = visit_expr_spec(ig, sc, ev);
                            assert(out@ == o.0);
                            assert(names_view(self.cached_props@) =~= props0 + o.1);
                        }
                        out
                    },
                }
            },
            other => {
                proof {
                    lemma_pcat_empty(props0);
                }
                other
            },
        }
    }

    /// Visits a call expression: the probe pseudo-scope is shadowed for the
    /// lexical extent of the call's arguments when the callee carries the
    /// reserved probe name.
    fn visit_call(&mut self, e: Expr) -> (r: Expr)
        requires
            e is Call,
        ensures
            final(self).config == old(self).config,
            final(self).scope_view() == old(self).scope_view(),
            ({
                let o = visit_expr_spec(old(self).ignored_view(), old(self).scope_view(), e@);
                &&& r@ == o.0
                &&& names_view(final(self).cached_props@) == names_view(old(self).cached_props@)
                    + o.1
            }),
        decreases e, 0int,
    {
        proof {
            reveal_with_fuel(expr_view, 3);
        }
        let ghost ig = self.ignored_view();
        let ghost sc = self.scope_view();
        let ghost props0 = names_view(self.cached_props@);
        let ghost ev = e@;
        match e {
            Expr::Call { callee, args } => {
                let is_p = callee_is_probe(&callee);
                let c1 = self.visit_expr(*callee);
                let c2 = self.replace_expr(c1);
                let probe = String::from_str("_p");
                if is_p {
                    self.add_scope(&probe);
                }
                let args2 = self.visit_args(args);
                if is_p {
                    self.remove_scope(&probe);
                    proof {
                        lemma_scope_view_wf(*old(self));
                        lemma_scope_add_remove(sc, probe_name());
                    }
                }
                let out = Expr::Call { callee: Box::new(c2), args: args2 };
                proof {
                    let o = visit_expr_spec(ig, sc, ev);
                    assert(out@ == o.0);
                    assert(names_view(self.cached_props@) =~= props0 + o.1);
                }
                out
            },
            other => {
                proof {
                    assert(false);
                }
                other
            },
        }
    }

    /// Visits a function expression: its parameter names shadow the
    /// receiver's properties for the extent of the body.
    fn visit_func(&mut self, e: Expr) -> (r: Expr)
        requires
            e is Func,
        ensures
            final(self).config == old(self).config,
            final(self).scope_view() == old(self).scope_view(),
            ({
                let o = visit_expr_spec(old(self).ignored_view(), old(self).scope_view(), e@);
                &&& r@ == o.0
                &&& names_view(final(self).cached_props@) == names_view(old(self).cached_props@)
                    + o.1
            }),
        decreases e, 0int,
    {
        proof {
            reveal_with_fuel(expr_view, 3);
        }
        let ghost ig = self.ignored_view();
        let ghost sc = self.scope_view();
        let ghost props0 = names_view(self.cached_props@);
        let ghost ev = e@;
        match e {
            Expr::Func { params, body } => {
                let ghost names = names_view(params@);
                let mut i: usize = 0;
                while i < params.len()
                    invariant
                        i <= params.len(),
                        self.config == old(self).config,
                        self.cached_props == old(self).cached_props,
                        self.scope_view() == scope_add_all(sc, names.take(i as int)),
                        sc == old(self).scope_view(),
                        names == names_view(params@),
                    decreases params.len() - i,
                {
                    let ghost pref = names.take(i as int);
                    self.add_scope(&params[i]);
                    proof {
                        lemma_scope_add_all_snoc(sc, pref, names[i as int]);
                        assert(names.take(i + 1) =~= pref.push(names[i as int]));
                    }
                    i = i + 1;
                }
                proof {
                    assert(names.take(params@.len() as int) =~= names);
                }
                let ghost bodyv = stmts_view(body@);
                let body2 = self.visit_stmts(body);
                let mut j: usize = params.len();
                while j > 0
                    invariant
                        j <= params.len(),
                        self.config == old(self).config,
                        self.scope_view() == scope_add_all(sc, names.take(j as int)),
                        sc == old(self).scope_view(),
                        names == names_view(params@),
                        names_view(self.cached_props@) == props0 + visit_stmts_spec(
                            ig,
                            scope_add_all(sc, names),
                            bodyv,
                        ).1,
                    decreases j,
                {
                    j = j - 1;
                    let ghost pref = names.take(j as int);
                    proof {
                        assert(names.take(j + 1) =~= pref.push(names[j as int]));
                        lemma_scope_add_all_snoc(sc, pref, names[j as int]);
                        lemma_scope_view_wf(*old(self));
                        lemma_scope_add_all_wf(sc, pref);
                        lemma_scope_add_remove(scope_add_all(sc, pref), names[j as int]);
                    }
                    self.remove_scope(&params[j]);
                }
                proof {
                    assert(names.take(0) =~= Seq::<Seq<char>>::empty());
                }
                let out = Expr::Func { params, body: body2 };
                proof {
                    let o = visit_expr_spec(ig, sc, ev);
                    assert(out@ == o.0);
                    assert(names_view(self.cached_props@) =~= props0 + o.1);
                }
                out
            },
            other => {
                proof {
                    assert(false);
                }
                other
            },
        }
    }

    /// The generic children pass over one object-literal property.
    fn visit_prop(&mut self, p: Prop) -> (r: Prop)
        ensures
            final(self).config == old(self).config,
            final(self).scope_view() == old(self).scope_view(),
            ({
                let o = visit_prop_spec(old(self).ignored_view(), old(self).scope_view(), p@);
                &&& r@ == o.0
                &&& names_view(final(self).cached_props@) == names_view(old(self).cached_props@)
                    + o.1
            }),
        decreases p,
    {
        let ghost props0 = names_view(self.cached_props@);
        match p {
            Prop::KeyValue { key, value } => {
                let v1 = self.visit_expr(value);
                Prop::KeyValue { key, value: v1 }
            },
            other => {
                proof {
                    lemma_pcat_empty(props0);
                }
                other
            },
        }
    }

    /// Visits a call argument or array element, then applies the rewriter to
    /// it.
    fn visit_arg(&mut self, a: Arg) -> (r: Arg)
        ensures
            final(self).config == old(self).config,
            final(self).scope_view() == old(self).scope_view(),
            ({
                let o = visit_arg_spec(old(self).ignored_view(), old(self).scope_view(), a@);
                &&& r@ == o.0
                &&& names_view(final(self).cached_props@) == names_view(old(self).cached_props@)
                    + o.1
            }),
        decreases a,
    {
        let ghost props0 = names_view(self.cached_props@);
        let ghost av = a@;
        let Arg { spread, expr } = a;
        let e1 = self.visit_expr(expr);
        let e2 = self.replace_expr(e1);
        let out = Arg { spread, expr: e2 };
        proof {
            let o = visit_arg_spec(old(self).ignored_view(), old(self).scope_view(), av);
            assert(names_view(self.cached_props@) =~= props0 + o.1);
        }
        out
    }

    /// Visits a list of arguments or elements, first to last.
    fn visit_args(&mut self, args: Vec<Arg>) -> (r: Vec<Arg>)
        ensures
            final(self).config == old(self).config,
            final(self).scope_view() == old(self).scope_view(),
            ({
                let o = visit_args_spec(
                    old(self).ignored_view(),
                    old(self).scope_view(),
                    args_view(args@),
                );
                &&& args_view(r@) == o.0
                &&& names_view(final(self).cached_props@) == names_view(old(self).cached_props@)
                    + o.1
            }),
        decreases args@,
    {
        let ghost props0 = names_view(self.cached_props@);
        let ghost s0 = args@;
        proof {
            lemma_args_view_index(s0);
        }
        if args.len() == 0 {
            proof {
                assert(args_view(s0) =~= Seq::<ArgV>::empty());
                lemma_pcat_empty(props0);
            }
            args
        } else {
            let mut args = args;
            let head = args.remove(0);
            proof {
                assert(args@ =~= s0.drop_first());
                lemma_args_view_index(s0.drop_first());
                assert(args_view(s0).drop_first() =~= args_view(s0.drop_first()));
                assert(args_view(s0).first() == arg_view(head));
            }
            let h2 = self.visit_arg(head);
            let tail2 = self.visit_args(args);
            let ghost tailv = tail2@;
            let mut out = tail2;
            out.insert(0, h2);
            proof {
                let o = visit_args_spec(old(self).ignored_view(), old(self).scope_view(), args_view(s0));
                assert(out@ =~= seq![h2] + tailv);
                lemma_args_view_index(out@);
                lemma_args_view_index(tailv);
                assert(args_view(out@) =~= seq![arg_view(h2)] + args_view(tailv));
                assert(args_view(out@) == o.0);
                assert(names_view(self.cached_props@) =~= props0 + o.1);
            }
            out
        }
    }

    /// The generic children pass over object-literal properties.
    #[verifier::rlimit(80)]
    fn visit_props(&mut self, props: Vec<Prop>) -> (r: Vec<Prop>)
        ensures
            final(self).config == old(self).config,
            final(self).scope_view() == old(self).scope_view(),
            ({
                let o = visit_props_spec(
                    old(self).ignored_view(),
                    old(self).scope_view(),
                    props_view(props@),
                );
                &&& props_view(r@) == o.0
                &&& names_view(final(self).cached_props@) == names_view(old(self).cached_props@)
                    + o.1
            }),
        decreases props@,
    {
        let ghost props0 = names_view(self.cached_props@);
        let ghost s0 = props@;
        proof {
            lemma_props_view_index(s0);
        }
        if props.len() == 0 {
            proof {
                assert(props_view(s0) =~= Seq::<PropV>::empty());
                lemma_pcat_empty(props0);
            }
            props
        } else {
            let mut props = props;
            let head = props.remove(0);
            proof {
                assert(props@ =~= s0.drop_first());
                lemma_props_view_index(s0.drop_first());
                assert(props_view(s0).drop_first() =~= props_view(s0.drop_first()));
                assert(props_view(s0).first() == prop_view(head));
            }
            let h2 = self.visit_prop(head);
            let tail2 = self.visit_props(props);
            let ghost tailv = tail2@;
            let mut out = tail2;
            out.insert(0, h2);
            proof {
                let o = visit_props_spec(old(self).ignored_view(), old(self).scope_view(), props_view(s0));
                assert(out@ =~= seq![h2] + tailv);
                lemma_props_view_index(out@);
                lemma_props_view_index(tailv);
                assert(props_view(out@) =~= seq![prop_view(h2)] + props_view(tailv));
                assert(props_view(out@) == o.0);
                assert(names_view(self.cached_props@) =~= props0 + o.1);
            }
            out
        }
    }

    /// The rewriting pass over object-literal properties, first to last.
    fn replace_props(&mut self, props: Vec<Prop>) -> (r: Vec<Prop>)
        ensures
            final(self).config == old(self).config,
            final(self).scope_view() == old(self).scope_view(),
            ({
                let o = replace_props_spec(
                    old(self).ignored_view(),
                    old(self).scope_view(),
                    props_view(props@),
                );
                &&& props_view(r@) == o.0
                &&& names_view(final(self).cached_props@) == names_view(old(self).cached_props@)
                    + o.1
            }),
        decreases props@,
    {
        let ghost props0 = names_view(self.cached_props@);
        let ghost s0 = props@;
        proof {
            lemma_props_view_index(s0);
        }
        if props.len() == 0 {
            proof {
                assert(props_view(s0) =~= Seq::<PropV>::empty());
                lemma_pcat_empty(props0);
            }
            props
        } else {
            let mut props = props;
            let head = props.remove(0);
            proof {
                assert(props@ =~= s0.drop_first());
                lemma_props_view_index(s0.drop_first());
                assert(props_view(s0).drop_first() =~= props_view(s0.drop_first()));
                assert(props_view(s0).first() == prop_view(head));
            }
            let h2 = self.replace_prop(head);
            let tail2 = self.replace_props(props);
            let ghost tailv = tail2@;
            let mut out = tail2;
            out.insert(0, h2);
            proof {
                let o = replace_props_spec(old(self).ignored_view(), old(self).scope_view(), props_view(s0));
                assert(out@ =~= seq![h2] + tailv);
                lemma_props_view_index(out@);
                lemma_props_view_index(tailv);
                assert(props_view(out@) =~= seq![prop_view(h2)] + props_view(tailv));
                assert(props_view(out@) == o.0);
                assert(names_view(self.cached_props@) =~= props0 + o.1);
            }
            out
        }
    }

    /// Visits one statement.
    fn visit_stmt(&mut self, s: Stmt) -> (r: Stmt)
        ensures
            final(self).config == old(self).config,
            final(self).scope_view() == old(self).scope_view(),
            ({
                let o = visit_stmt_spec(old(self).ignored_view(), old(self).scope_view(), s@);
                &&& r@ == o.0
                &&& names_view(final(self).cached_props@) == names_view(old(self).cached_props@)
                    + o.1
            }),
        decreases s, 1int,
    {
        let ghost props0 = names_view(self.cached_props@);
        let ghost ig = self.ignored_view();
        let ghost sc = self.scope_view();
        let ghost sv = s@;
        match s {
            Stmt::Expr { expr } => {
                let e1 = self.visit_expr(expr);
                Stmt::Expr { expr: e1 }
            },
            Stmt::Return { arg } => {
                let a1 = self.visit_opt_expr(arg);
                Stmt::Return { arg: a1 }
            },
            Stmt::VarDecl { inits } => {
                let i1 = self.visit_inits(inits);
                Stmt::VarDecl { inits: i1 }
            },
            Stmt::Block { stmts } => {
                let s1 = self.visit_stmts(stmts);
                Stmt::Block { stmts: s1 }
            },
            Stmt::If { test, cons, alt } => self.visit_if_stmt(Stmt::If { test, cons, alt }),
            Stmt::While { test, body } => self.visit_while_stmt(Stmt::While { test, body }),
            Stmt::For { init, test, update, body } => self.visit_for_stmt(
                Stmt::For { init, test, update, body },
            ),
            Stmt::FnDecl { func } => {
                let f1 = self.visit_expr(func);
                Stmt::FnDecl { func: f1 }
            },
            other => {
                proof {
                    lemma_pcat_empty(props0);
                }
                other
            },
        }
    }

    /// Visits an `if` statement's test and branches.
    fn visit_if_stmt(&mut self, s: Stmt) -> (r: Stmt)
        requires
            s is If,
        ensures
            final(self).config == old(self).config,
            final(self).scope_view() == old(self).scope_view(),
            ({
                let o = visit_stmt_spec(old(self).ignored_view(), old(self).scope_view(), s@);
                &&& r@ == o.0
                &&& names_view(final(self).cached_props@) == names_view(old(self).cached_props@)
                    + o.1
            }),
        decreases s, 0int,
    {
        let ghost props0 = names_view(self.cached_props@);
        let ghost ig = self.ignored_view();
        let ghost sc = self.scope_view();
        let ghost sv = s@;
        match s {
            Stmt::If { test, cons, alt } => {
                let t1 = self.visit_expr(test);
                let c1 = self.visit_stmt(*cons);
                let a1 = self.visit_opt_stmt(alt);
                let out = Stmt::If { test: t1, cons: Box::new(c1), alt: a1 };
                proof {
                    let o = visit_stmt_spec(ig, sc, sv);
                    assert(out@ == o.0);
                    assert(names_view(self.cached_props@) =~= props0 + o.1);
                }
                out
            },
            other => {
                proof {
                    assert(false);
                }
                other
            },
        }
    }

    /// Visits a `while` statement's test and body.
    fn visit_while_stmt(&mut self, s: Stmt) -> (r: Stmt)
        requires
            s is While,
        ensures
            final(self).config == old(self).config,
            final(self).scope_view() == old(self).scope_view(),
            ({
                let o = visit_stmt_spec(old(self).ignored_view(), old(self).scope_view(), s@);
                &&& r@ == o.0
                &&& names_view(final(self).cached_props@) == names_view(old(self).cached_props@)
                    + o.1
            }),
        decreases s, 0int,
    {
        let ghost props0 = names_view(self.cached_props@);
        let ghost ig = self.ignored_view();
        let ghost sc = self.scope_view();
        let ghost sv = s@;
        match s {
            Stmt::While { test, body } => {
                let t1 = self.visit_expr(test);
                let b1 = self.visit_stmt(*body);
                let out = Stmt::While { test: t1, body: Box::new(b1) };
                proof {
                    let o = visit_stmt_spec(ig, sc, sv);
                    assert(out@ == o.0);
                    assert(names_view(self.cached_props@) =~= props0 + o.1);
                }
                out
            },
            other => {
                proof {
                    assert(false);
                }
                other
            },
        }
    }

    /// Visits a `for` statement's initializer, test, update and body.
    fn visit_for_stmt(&mut self, s: Stmt) -> (r: Stmt)
        requires
            s is For,
        ensures
            final(self).config == old(self).config,
            final(self).scope_view() == old(self).scope_view(),
            ({
                let o = visit_stmt_spec(old(self).ignored_view(), old(self).scope_view(), s@);
                &&& r@ == o.0
                &&& names_view(final(self).cached_props@) == names_view(old(self).cached_props@)
                    + o.1
            }),
        decreases s, 0int,
    {
        let ghost props0 = names_view(self.cached_props@);
        let ghost ig = self.ignored_view();
        let ghost sc = self.scope_view();
        let ghost sv = s@;
        match s {
            Stmt::For { init, test, update, body } => {
                let i1 = self.visit_opt_stmt(init);
                let t1 = self.visit_opt_expr(test);
                let u1 = self.visit_opt_expr(update);
                let b1 = self.visit_stmt(*body);
                let out = Stmt::For { init: i1, test: t1, update: u1, body: Box::new(b1) };
                proof {
                    let o = visit_stmt_spec(ig, sc, sv);
                    assert(out@ == o.0);
                    assert(names_view(self.cached_props@) =~= props0 + o.1);
                }
                out
            },
            other => {
                proof {
                    assert(false);
                }
                other
            },
        }
    }

    /// Visits an optional statement in place.
    fn visit_opt_stmt(&mut self, o: Option<Box<Stmt>>) -> (r: Option<Box<Stmt>>)
        ensures
            final(self).config == old(self).config,
            final(self).scope_view() == old(self).scope_view(),
            ({
                let s = visit_opt_stmt_spec(
                    old(self).ignored_view(),
                    old(self).scope_view(),
                    opt_stmt_view(o),
                );
                &&& opt_stmt_view(r) == s.0
                &&& names_view(final(self).cached_props@) == names_view(old(self).cached_props@)
                    + s.1
            }),
        decreases o,
    {
        let ghost props0 = names_view(self.cached_props@);
        match o {
            Some(b) => {
                let s1 = self.visit_stmt(*b);
                Some(Box::new(s1))
            },
            None => {
                proof {
                    lemma_pcat_empty(props0);
                }
                None
            },
        }
    }

    /// Visits an optional expression in place.
    fn visit_opt_expr(&mut self, o: Option<Expr>) -> (r: Option<Expr>)
        ensures
            final(self).config == old(self).config,
            final(self).scope_view() == old(self).scope_view(),
            ({
                let s = visit_opt_expr_spec(
                    old(self).ignored_view(),
                    old(self).scope_view(),
                    opt_expr_view_of(o),
                );
                &&& opt_expr_view_of(r) == s.0
                &&& names_view(final(self).cached_props@) == names_view(old(self).cached_props@)
                    + s.1
            }),
        decreases o,
    {
        let ghost props0 = names_view(self.cached_props@);
        match o {
            Some(e) => {
                let e1 = self.visit_expr(e);
                Some(e1)
            },
            None => {
                proof {
                    lemma_pcat_empty(props0);
                }
                None
            },
        }
    }

    /// Visits a variable declaration's initializers, first to last.
    fn visit_inits(&mut self, inits: Vec<Option<Expr>>) -> (r: Vec<Option<Expr>>)
        ensures
            final(self).config == old(self).config,
            final(self).scope_view() == old(self).scope_view(),
            ({
                let o = visit_inits_spec(
                    old(self).ignored_view(),
                    old(self).scope_view(),
                    inits_view(inits@),
                );
                &&& inits_view(r@) == o.0
                &&& names_view(final(self).cached_props@) == names_view(old(self).cached_props@)
                    + o.1
            }),
        decreases inits@,
    {
        let ghost props0 = names_view(self.cached_props@);
        let ghost s0 = inits@;
        proof {
            lemma_inits_view_index(s0);
        }
        if inits.len() == 0 {
            proof {
                assert(inits_view(s0) =~= Seq::<Option<ExprV>>::empty());
                lemma_pcat_empty(props0);
            }
            inits
        } else {
            let mut inits = inits;
            let head = inits.remove(0);
            proof {
                assert(inits@ =~= s0.drop_first());
                lemma_inits_view_index(s0.drop_first());
                assert(inits_view(s0).drop_first() =~= inits_view(s0.drop_first()));
                assert(inits_view(s0).first() == opt_expr_view_of(head));
            }
            let h2 = self.visit_opt_expr(head);
            let tail2 = self.visit_inits(inits);
            let ghost tailv = tail2@;
            let mut out = tail2;
            out.insert(0, h2);
            proof {
                let o = visit_inits_spec(
                    old(self).ignored_view(),
                    old(self).scope_view(),
                    inits_view(s0),
                );
                assert(out@ =~= seq![h2] + tailv);
                lemma_inits_view_index(out@);
                lemma_inits_view_index(tailv);
                assert(inits_view(out@) =~= seq![opt_expr_view_of(h2)] + inits_view(tailv));
                assert(inits_view(out@) == o.0);
                assert(names_view(self.cached_props@) =~= props0 + o.1);
            }
            out
        }
    }

    /// Visits a list of statements, first to last.
    pub fn visit_stmts(&mut self, stmts: Vec<Stmt>) -> (r: Vec<Stmt>)
        ensures
            final(self).config == old(self).config,
            final(self).scope_view() == old(self).scope_view(),
            ({
                let o = visit_stmts_spec(
                    old(self).ignored_view(),
                    old(self).scope_view(),
                    stmts_view(stmts@),
                );
                &&& stmts_view(r@) == o.0
                &&& names_view(final(self).cached_props@) == names_view(old(self).cached_props@)
                    + o.1
            }),
        decreases stmts@,
    {
        let ghost props0 = names_view(self.cached_props@);
        let ghost s0 = stmts@;
        proof {
            lemma_stmts_view_index(s0);
        }
        if stmts.len() == 0 {
            proof {
                assert(stmts_view(s0) =~= Seq::<StmtV>::empty());
                lemma_pcat_empty(props0);
            }
            stmts
        } else {
            let mut stmts = stmts;
            let head = stmts.remove(0);
            proof {
                assert(stmts@ =~= s0.drop_first());
                lemma_stmts_view_index(s0.drop_first());
                assert(stmts_view(s0).drop_first() =~= stmts_view(s0.drop_first()));
                assert(stmts_view(s0).first() == stmt_view(head));
            }
            let h2 = self.visit_stmt(head);
            let tail2 = self.visit_stmts(stmts);
            let ghost tailv = tail2@;
            let mut out = tail2;
            out.insert(0, h2);
            proof {
                let o = visit_stmts_spec(old(self).ignored_view(), old(self).scope_view(), stmts_view(s0));
                assert(out@ =~= seq![h2] + tailv);
                lemma_stmts_view_index(out@);
                lemma_stmts_view_index(tailv);
                assert(stmts_view(out@) =~= seq![stmt_view(h2)] + stmts_view(tailv));
                assert(stmts_view(out@) == o.0);
                assert(names_view(self.cached_props@) =~= props0 + o.1);
            }
            out
        }
    }
}

} // verus!
