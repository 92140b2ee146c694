//! The path rewriter.
//!
//! Given a member-access chain (or a bare identifier) that denotes a
//! potential receiver-rooted read, the rewriter rebases the chain onto the
//! receiver, builds the dotted/bracketed path string describing it, and wraps
//! the read in a tracking call `this._c('path', read)` at the outermost point
//! where the path is still accurate.  A chain whose root is the receiver
//! itself, an array literal, or a shadowed or excluded identifier is marked
//! safe (`skip`) and never wrapped; a `length`/`size` access or a dynamic
//! index wraps the object sub-expression instead and marks the chain.
use vstd::prelude::*;
use crate::ast::{Arg, ArgV, Expr, ExprV, LitKind, LitV, MemberProp, MemberPropV, Prop, PropV,
    arg_view, args_view, expr_view, member_prop_view, names_view};
use crate::config::{excluded, str_lit_eq};
use crate::scope::BindThisVisit;

verus! {

/// The reserved name of the tracking accessor method on the receiver.
pub open spec fn track_name() -> Seq<char> {
    "_c"@
}

/// The reserved name of the probe marker method on the receiver.
pub open spec fn probe_name() -> Seq<char> {
    "_p"@
}

/// Whether a call with this callee activates the probe pseudo-scope: a
/// member access whose property is the reserved probe name, whatever its
/// object.
pub open spec fn is_probe_callee(c: ExprV) -> bool {
    match c {
        ExprV::Member { obj: _, prop } => match prop {
            MemberPropV::Ident { name } => name == probe_name(),
            _ => false,
        },
        _ => false,
    }
}

/// The receiver-rebased read `this.name`.
pub open spec fn this_member(name: Seq<char>) -> ExprV {
    ExprV::Member { obj: Box::new(ExprV::This), prop: MemberPropV::Ident { name } }
}

/// The tracking call `this._c('path', value)`.
pub open spec fn track_call(path: Seq<char>, value: ExprV) -> ExprV {
    ExprV::Call {
        callee: Box::new(
            ExprV::Member {
                obj: Box::new(ExprV::This),
                prop: MemberPropV::Ident { name: track_name() },
            },
        ),
        args: seq![
            ArgV { spread: false, expr: ExprV::Lit { lit: LitV::Str { value: path } } },
            ArgV { spread: false, expr: value },
        ],
    }
}

/// Outcome of rewriting a bare identifier read.
pub struct IdentOut {
    /// The tracking call, or `None` to leave the read unchanged.
    pub rewritten: Option<ExprV>,
    /// The names appended to the collected properties.
    pub props: Seq<Seq<char>>,
}

/// A bare identifier read: excluded or shadowed names are left alone; any
/// other name becomes `this._c('name', this.name)`, and is collected while
/// the probe pseudo-scope is active.
pub open spec fn ident_rewrite(
    ignored: Seq<Seq<char>>,
    scope: Map<Seq<char>, nat>,
    name: Seq<char>,
) -> IdentOut {
    if excluded(ignored, name) || scope.contains_key(name) {
        IdentOut { rewritten: None, props: Seq::empty() }
    } else {
        IdentOut {
            rewritten: Some(track_call(name, this_member(name))),
            props: if scope.contains_key(probe_name()) {
                seq![name]
            } else {
                Seq::empty()
            },
        }
    }
}

/// Outcome of one level of the member-chain descent.
pub struct DtOut {
    /// The chain, rebased so far.
    pub expr: ExprV,
    /// The path accumulator.
    pub path: Seq<char>,
    /// Whether the chain is already safe: no enclosing level may wrap it.
    pub skip: bool,
    /// The names appended to the collected properties.
    pub props: Seq<Seq<char>>,
}

/// Outcome of rewriting an expression in place.
pub struct RepOut {
    pub expr: ExprV,
    pub props: Seq<Seq<char>>,
}

/// The recursive member-chain descent: resolves the nested object first
/// (post-order), then the current property level.
pub open spec fn dt_spec(
    ignored: Seq<Seq<char>>,
    scope: Map<Seq<char>, nat>,
    e: ExprV,
    path: Seq<char>,
    skip: bool,
) -> DtOut
    decreases e, 1int,
{
    match e {
        ExprV::Member { obj, prop } => {
            let r1 = if (*obj) is Member {
                dt_spec(ignored, scope, *obj, path, skip)
            } else {
                DtOut { expr: *obj, path, skip, props: Seq::empty() }
            };
            let skip2 = r1.skip || r1.expr is This || r1.expr is Array;
            let r3 = match r1.expr {
                ExprV::Ident { name } => {
                    if skip2 {
                        DtOut { expr: r1.expr, path: r1.path, skip: skip2, props: r1.props }
                    } else if excluded(ignored, name) || scope.contains_key(name) {
                        DtOut { expr: r1.expr, path: r1.path, skip: true, props: r1.props }
                    } else {
                        DtOut {
                            expr: this_member(name),
                            path: r1.path + name,
                            skip: false,
                            props: r1.props + if scope.contains_key(probe_name()) {
                                seq![name]
                            } else {
                                Seq::empty()
                            },
                        }
                    }
                },
                _ => DtOut { expr: r1.expr, path: r1.path, skip: skip2, props: r1.props },
            };
            match prop {
                MemberPropV::Ident { name: pn } => {
                    if !r3.skip {
                        if pn == "length"@ || pn == "size"@ {
                            DtOut {
                                expr: ExprV::Member {
                                    obj: Box::new(track_call(r3.path, r3.expr)),
                                    prop,
                                },
                                path: r3.path,
                                skip: true,
                                props: r3.props,
                            }
                        } else {
                            DtOut {
                                expr: ExprV::Member { obj: Box::new(r3.expr), prop },
                                path: r3.path + "."@ + pn,
                                skip: r3.skip,
                                props: r3.props,
                            }
                        }
                    } else {
                        DtOut {
                            expr: ExprV::Member { obj: Box::new(r3.expr), prop },
                            path: r3.path,
                            skip: r3.skip,
                            props: r3.props,
                        }
                    }
                },
                MemberPropV::Computed { index } => {
                    match *index {
                        ExprV::Lit { lit } => {
                            let path5 = match lit {
                                LitV::Num { text } => r3.path + "["@ + text + "]"@,
                                LitV::Str { value } => r3.path + "."@ + value,
                                _ => r3.path,
                            };
                            DtOut {
                                expr: ExprV::Member { obj: Box::new(r3.expr), prop },
                                path: path5,
                                skip: r3.skip,
                                props: r3.props,
                            }
                        },
                        _ => {
                            let rr = replace_spec(ignored, scope, *index);
                            let obj5 = if !r3.skip {
                                track_call(r3.path, r3.expr)
                            } else {
                                r3.expr
                            };
                            DtOut {
                                expr: ExprV::Member {
                                    obj: Box::new(obj5),
                                    prop: MemberPropV::Computed { index: Box::new(rr.expr) },
                                },
                                path: r3.path,
                                skip: true,
                                props: r3.props + rr.props,
                            }
                        },
                    }
                },
            }
        },
        _ => DtOut { expr: e, path, skip, props: Seq::empty() },
    }
}

/// Rewriting an expression at a syntactic position where a receiver-rooted
/// read can occur: a bare identifier goes through the identifier rule; a
/// member chain goes through the descent and, when the chain was never
/// marked safe, is wrapped once, at the top; anything else is left alone.
pub open spec fn replace_spec(
    ignored: Seq<Seq<char>>,
    scope: Map<Seq<char>, nat>,
    e: ExprV,
) -> RepOut
    decreases e, 2int,
{
    match e {
        ExprV::Ident { name } => {
            let io = ident_rewrite(ignored, scope, name);
            match io.rewritten {
                Some(w) => RepOut { expr: w, props: io.props },
                None => RepOut { expr: e, props: io.props },
            }
        },
        ExprV::Member { .. } => {
            let r = dt_spec(ignored, scope, e, Seq::empty(), false);
            if !r.skip {
                RepOut { expr: track_call(r.path, r.expr), props: r.props }
            } else {
                RepOut { expr: r.expr, props: r.props }
            }
        },
        _ => RepOut { expr: e, props: Seq::empty() },
    }
}

/// Rewriting an object-literal property: a key-value's value is rewritten in
/// place; a shorthand whose name is rewritten becomes an explicit key-value
/// pair under the original key.
pub open spec fn replace_prop_spec(
    ignored: Seq<Seq<char>>,
    scope: Map<Seq<char>, nat>,
    p: PropV,
) -> (PropV, Seq<Seq<char>>) {
    match p {
        PropV::KeyValue { key, value } => {
            let rr = replace_spec(ignored, scope, value);
            (PropV::KeyValue { key, value: rr.expr }, rr.props)
        },
        PropV::Shorthand { name } => {
            let io = ident_rewrite(ignored, scope, name);
            match io.rewritten {
                Some(w) => (PropV::KeyValue { key: name, value: w }, io.props),
                None => (p, io.props),
            }
        },
        _ => (p, Seq::empty()),
    }
}

/// Idempotence of the safety marker: once a chain is marked safe, the
/// descent keeps the mark through this and every enclosing level, whatever
/// the shape of the chain.
pub proof fn lemma_skip_is_sticky(
    ignored: Seq<Seq<char>>,
    scope: Map<Seq<char>, nat>,
    e: ExprV,
    path: Seq<char>,
)
    ensures
        dt_spec(ignored, scope, e, path, true).skip,
    decreases e,
{
    match e {
        ExprV::Member { obj, prop } => {
            if (*obj) is Member {
                lemma_skip_is_sticky(ignored, scope, *obj, path);
            }
        },
        _ => {},
    }
}

/// What the descent does to a chain already marked safe: nothing, except
/// that a dynamic computed index — an independent read of its own — is
/// still rewritten in place.
pub open spec fn marked_chain_rewrite(
    ignored: Seq<Seq<char>>,
    scope: Map<Seq<char>, nat>,
    e: ExprV,
) -> ExprV
    decreases e, 0int,
{
    match e {
        ExprV::Member { obj, prop } => {
            let obj2 = if (*obj) is Member {
                marked_chain_rewrite(ignored, scope, *obj)
            } else {
                *obj
            };
            match prop {
                MemberPropV::Computed { index } => {
                    if (*index) is Lit {
                        ExprV::Member { obj: Box::new(obj2), prop }
                    } else {
                        ExprV::Member {
                            obj: Box::new(obj2),
                            prop: MemberPropV::Computed {
                                index: Box::new(replace_spec(ignored, scope, *index).expr),
                            },
                        }
                    }
                },
                _ => ExprV::Member { obj: Box::new(obj2), prop },
            }
        },
        _ => e,
    }
}

/// Idempotence of the safety marker, in full: entering with the mark set,
/// the descent keeps the mark, introduces no tracking wrapper at this or
/// any enclosing level, and hands the chain back unchanged but for its
/// dynamic computed indices.  With `lemma_skip_is_sticky` this is the "at
/// most one wrapper per independent read" rule: once any level wraps (the
/// `length`/`size` case, the dynamic-index case, or the top), every
/// enclosing level sees the mark and leaves the chain alone.
pub proof fn lemma_marked_chain_untouched(
    ignored: Seq<Seq<char>>,
    scope: Map<Seq<char>, nat>,
    e: ExprV,
    path: Seq<char>,
)
    ensures
        dt_spec(ignored, scope, e, path, true).skip,
        dt_spec(ignored, scope, e, path, true).expr == marked_chain_rewrite(ignored, scope, e),
    decreases e,
{
    match e {
        ExprV::Member { obj, prop } => {
            if (*obj) is Member {
                lemma_marked_chain_untouched(ignored, scope, *obj, path);
            }
        },
        _ => {},
    }
}

/// Idempotence of the safety marker, at the wrapping point: a member chain
/// whose descent marked it safe is handed back without a tracking wrapper —
/// at most one wrapper is introduced per independent read.
pub proof fn lemma_marked_chain_not_wrapped(
    ignored: Seq<Seq<char>>,
    scope: Map<Seq<char>, nat>,
    e: ExprV,
)
    requires
        e is Member,
        dt_spec(ignored, scope, e, Seq::empty(), false).skip,
    ensures
        replace_spec(ignored, scope, e).expr == dt_spec(
            ignored,
            scope,
            e,
            Seq::empty(),
            false,
        ).expr,
{
}

/// Shadowing correctness, bare reads: a read of a shadowed name is left
/// unchanged and collects nothing.
pub proof fn lemma_shadowed_ident_unchanged(
    ignored: Seq<Seq<char>>,
    scope: Map<Seq<char>, nat>,
    name: Seq<char>,
)
    requires
        scope.contains_key(name),
    ensures
        ident_rewrite(ignored, scope, name).rewritten is None,
        ident_rewrite(ignored, scope, name).props == Seq::<Seq<char>>::empty(),
        replace_spec(ignored, scope, ExprV::Ident { name }).expr == (ExprV::Ident { name }),
        replace_spec(ignored, scope, ExprV::Ident { name }).props == Seq::<Seq<char>>::empty(),
{
}

/// Exclusion correctness, bare reads: a read of a name in the built-in set
/// or the caller's exclusion map is never wrapped.
pub proof fn lemma_excluded_ident_unchanged(
    ignored: Seq<Seq<char>>,
    scope: Map<Seq<char>, nat>,
    name: Seq<char>,
)
    requires
        excluded(ignored, name),
    ensures
        ident_rewrite(ignored, scope, name).rewritten is None,
        ident_rewrite(ignored, scope, name).props == Seq::<Seq<char>>::empty(),
        replace_spec(ignored, scope, ExprV::Ident { name }).expr == (ExprV::Ident { name }),
        replace_spec(ignored, scope, ExprV::Ident { name }).props == Seq::<Seq<char>>::empty(),
{
}

/// Shadowing and exclusion correctness for member chains: a chain whose
/// root identifier is shadowed or excluded is marked safe, its root is not
/// rebased onto the receiver, and the chain is never wrapped.
pub proof fn lemma_protected_root_chain(
    ignored: Seq<Seq<char>>,
    scope: Map<Seq<char>, nat>,
    name: Seq<char>,
    prop: MemberPropV,
)
    requires
        scope.contains_key(name) || excluded(ignored, name),
    ensures
        ({
            let e = ExprV::Member { obj: Box::new(ExprV::Ident { name }), prop };
            let r = dt_spec(ignored, scope, e, Seq::empty(), false);
            &&& r.skip
            &&& replace_spec(ignored, scope, e).expr == r.expr
            &&& match r.expr {
                ExprV::Member { obj, prop: p2 } => *obj == (ExprV::Ident { name }),
                _ => false,
            }
        }),
{
    let e = ExprV::Member { obj: Box::new(ExprV::Ident { name }), prop };
    lemma_marked_chain_not_wrapped(ignored, scope, e);
}

/// An eligible bare read (neither shadowed nor excluded) becomes the
/// tracking call on the receiver, carrying its own name as the path.
pub proof fn lemma_eligible_ident_rewritten(
    ignored: Seq<Seq<char>>,
    scope: Map<Seq<char>, nat>,
    name: Seq<char>,
)
    requires
        !excluded(ignored, name),
        !scope.contains_key(name),
    ensures
        replace_spec(ignored, scope, ExprV::Ident { name }).expr == track_call(
            name,
            this_member(name),
        ),
{
}

/// Collection scoping, the collecting side: an eligible name read while the
/// probe pseudo-scope is active is appended to the collected properties.
pub proof fn lemma_probe_scope_collects(
    ignored: Seq<Seq<char>>,
    scope: Map<Seq<char>, nat>,
    name: Seq<char>,
)
    requires
        !excluded(ignored, name),
        !scope.contains_key(name),
        scope.contains_key(probe_name()),
    ensures
        ident_rewrite(ignored, scope, name).props == seq![name],
        ident_rewrite(ignored, scope, name).rewritten == Some(
            track_call(name, this_member(name)),
        ),
        replace_spec(ignored, scope, ExprV::Ident { name }).props == seq![name],
{
}

/// Collection scoping, the silent side: while the probe pseudo-scope is not
/// active, the descent and the identifier rule collect nothing, anywhere in
/// a chain.
pub proof fn lemma_dt_no_probe_no_collect(
    ignored: Seq<Seq<char>>,
    scope: Map<Seq<char>, nat>,
    e: ExprV,
    path: Seq<char>,
    skip: bool,
)
    requires
        !scope.contains_key(probe_name()),
    ensures
        dt_spec(ignored, scope, e, path, skip).props == Seq::<Seq<char>>::empty(),
    decreases e, 1int,
{
    match e {
        ExprV::Member { obj, prop } => {
            if (*obj) is Member {
                lemma_dt_no_probe_no_collect(ignored, scope, *obj, path, skip);
            }
            let empty = Seq::<Seq<char>>::empty();
            assert(empty + empty =~= empty);
            match prop {
                MemberPropV::Computed { index } => {
                    if !((*index) is Lit) {
                        lemma_replace_no_probe_no_collect(ignored, scope, *index);
                    }
                },
                _ => {},
            }
        },
        _ => {},
    }
}

/// Collection scoping, the silent side, at the identifier rule: without
/// the probe pseudo-scope a bare read collects nothing, whatever its
/// eligibility and whatever the collection flag says.
pub proof fn lemma_ident_no_probe_no_collect(
    ignored: Seq<Seq<char>>,
    scope: Map<Seq<char>, nat>,
    name: Seq<char>,
)
    requires
        !scope.contains_key(probe_name()),
    ensures
        ident_rewrite(ignored, scope, name).props == Seq::<Seq<char>>::empty(),
{
}

/// Collection scoping, the silent side, at a rewriting position: without
/// the probe pseudo-scope no name is collected.
pub proof fn lemma_replace_no_probe_no_collect(
    ignored: Seq<Seq<char>>,
    scope: Map<Seq<char>, nat>,
    e: ExprV,
)
    requires
        !scope.contains_key(probe_name()),
    ensures
        replace_spec(ignored, scope, e).props == Seq::<Seq<char>>::empty(),
    decreases e, 2int,
{
    match e {
        ExprV::Member { .. } => {
            lemma_dt_no_probe_no_collect(ignored, scope, e, Seq::empty(), false);
        },
        _ => {},
    }
}

/// View of an optional rewrite result.
pub open spec fn opt_expr_view(o: Option<Expr>) -> Option<ExprV> {
    match o {
        Some(e) => Some(e@),
        None => None,
    }
}

proof fn lemma_concat_empty(s: Seq<Seq<char>>)
    ensures
        s + Seq::<Seq<char>>::empty() == s,
{
    assert(s + Seq::<Seq<char>>::empty() =~= s);
}

proof fn lemma_concat_assoc(a: Seq<Seq<char>>, b: Seq<Seq<char>>, c: Seq<Seq<char>>)
    ensures
        (a + b) + c == a + (b + c),
{
    assert((a + b) + c =~= a + (b + c));
}

proof fn lemma_names_view_push(s: Seq<String>, v: String)
    ensures
        names_view(s.push(v)) == names_view(s).push(v@),
{
    assert(names_view(s.push(v)) =~= names_view(s).push(v@));
}

/// The view keeps each node's syntactic form.
pub(crate) proof fn lemma_expr_view_variant(x: Expr)
    ensures
        (expr_view(x) is Member) == (x is Member),
        (expr_view(x) is This) == (x is This),
        (expr_view(x) is Array) == (x is Array),
        (expr_view(x) is Ident) == (x is Ident),
        (expr_view(x) is Lit) == (x is Lit),
{
    match x {
        Expr::Ident { .. } => {},
        Expr::This => {},
        Expr::Member { .. } => {},
        Expr::Array { .. } => {},
        Expr::Object { .. } => {},
        Expr::Call { .. } => {},
        Expr::Cond { .. } => {},
        Expr::Bin { .. } => {},
        Expr::Unary { .. } => {},
        Expr::Paren { .. } => {},
        Expr::Func { .. } => {},
        Expr::Lit { .. } => {},
        Expr::Opaque { .. } => {},
    }
}

impl BindThisVisit {
    /// The caller's ignored names.
    pub open spec fn ignored_view(&self) -> Seq<Seq<char>> {
        names_view(self.config.ignoreMap@)
    }

    /// Builds the tracking call `this._c(args)`.
    fn gen_bind_c_call_expr(&self, args: Vec<Arg>) -> (e: Expr)
        ensures
            e@ == (ExprV::Call {
                callee: Box::new(
                    ExprV::Member {
                        obj: Box::new(ExprV::This),
                        prop: MemberPropV::Ident { name: track_name() },
                    },
                ),
                args: args_view(args@),
            }),
    {
        proof {
            reveal_with_fuel(expr_view, 4);
        }
        Expr::Call {
            callee: Box::new(
                Expr::Member {
                    obj: Box::new(Expr::This),
                    prop: MemberProp::Ident { name: String::from_str("_c") },
                },
            ),
            args,
        }
    }

    /// Builds `this._c('path', value)`.
    fn gen_track_wrap(&self, path: &String, value: Expr) -> (e: Expr)
        ensures
            e@ == track_call(path@, value@),
    {
        proof {
            reveal_with_fuel(args_view, 4);
            reveal_with_fuel(expr_view, 2);
        }
        let ghost value_v = value@;
        let mut args: Vec<Arg> = Vec::new();
        args.push(
            Arg { spread: false, expr: Expr::Lit { lit: LitKind::Str { value: path.clone() } } },
        );
        args.push(Arg { spread: false, expr: value });
        proof {
            let s = args@;
            let d = s.drop_last();
            assert(d.drop_last().len() == 0);
            assert(args_view(d.drop_last()) =~= Seq::<ArgV>::empty());
            assert(args_view(s) =~= seq![arg_view(d.last()), arg_view(s.last())]);
            assert(arg_view(s[0]) == (ArgV {
                spread: false,
                expr: ExprV::Lit { lit: LitV::Str { value: path@ } },
            }));
            assert(arg_view(s.last()) == (ArgV { spread: false, expr: value_v }));
        }
        self.gen_bind_c_call_expr(args)
    }

    /// The identifier rule: leaves an excluded or shadowed name alone, else
    /// yields its tracking call, collecting the name while the probe
    /// pseudo-scope is active.
    fn gen_bind_this_of_ident(&mut self, name: &String) -> (r: Option<Expr>)
        ensures
            final(self).scope == old(self).scope,
            final(self).config == old(self).config,
            ({
                let io = ident_rewrite(old(self).ignored_view(), old(self).scope_view(), name@);
                &&& opt_expr_view(r) == io.rewritten
                &&& names_view(final(self).cached_props@) == names_view(old(self).cached_props@)
                    + io.props
            }),
    {
        proof {
            reveal_with_fuel(expr_view, 4);
        }
        if self.config.check_ignore(name) || self.has_binding(name) {
            proof {
                lemma_concat_empty(names_view(self.cached_props@));
            }
            return None;
        }
        let probe = String::from_str("_p");
        if self.has_binding(&probe) {
            let ghost before = self.cached_props@;
            self.cached_props.push(name.clone());
            proof {
                lemma_names_view_push(before, self.cached_props@.last());
                assert(names_view(before).push(name@) =~= names_view(before) + seq![name@]);
            }
        } else {
            proof {
                lemma_concat_empty(names_view(self.cached_props@));
            }
        }
        let value = Expr::Member {
            obj: Box::new(Expr::This),
            prop: MemberProp::Ident { name: name.clone() },
        };
        Some(self.gen_track_wrap(name, value))
    }

    /// One level of the member-chain descent; see `dt_spec`.
    fn depth_traverse(&mut self, e: Expr, path: String, skip: bool) -> (r: (Expr, String, bool))
        ensures
            final(self).scope == old(self).scope,
            final(self).config == old(self).config,
            ({
                let o = dt_spec(old(self).ignored_view(), old(self).scope_view(), e@, path@, skip);
                &&& r.0@ == o.expr
                &&& r.1@ == o.path
                &&& r.2 == o.skip
                &&& names_view(final(self).cached_props@) == names_view(old(self).cached_props@)
                    + o.props
            }),
        decreases e, 1int,
    {
        proof {
            reveal_with_fuel(expr_view, 4);
            reveal_with_fuel(member_prop_view, 2);
        }
        let ghost ig = self.ignored_view();
        let ghost sc = self.scope_view();
        let ghost props0 = names_view(self.cached_props@);
        let ghost ev = e@;
        let ghost path0 = path@;
        let ghost skip0 = skip;
        match e {
            Expr::Member { obj, prop } => {
                let ghost prop_v = prop@;
                let ghost obj_inner = *obj;
                proof {
                    lemma_expr_view_variant(obj_inner);
                }
                let inner_member = matches!(&*obj, Expr::Member { .. });
                let (obj1, path1, skip1) = if inner_member {
                    self.depth_traverse(*obj, path, skip)
                } else {
                    proof {
                        lemma_concat_empty(props0);
                    }
                    (*obj, path, skip)
                };
                let ghost obj1v = obj1;
                proof {
                    lemma_expr_view_variant(obj1v);
                }
                let ghost r1s = (match ev {
                    ExprV::Member { obj: obj_v, prop: _ } => {
                        if (*obj_v) is Member {
                            dt_spec(ig, sc, *obj_v, path0, skip0)
                        } else {
                            DtOut { expr: *obj_v, path: path0, skip: skip0, props: Seq::empty() }
                        }
                    },
                    _ => arbitrary(),
                });
                proof {
                    assert(obj1@ == r1s.expr);
                    assert(path1@ == r1s.path);
                    assert(skip1 == r1s.skip);
                    assert(names_view(self.cached_props@) == props0 + r1s.props);
                }
                let skip2 = skip1 || matches!(obj1, Expr::This) || matches!(
                    obj1,
                    Expr::Array { .. },
                );
                let (obj3, path3, skip3) = match obj1 {
                    Expr::Ident { name } => {
                        if skip2 {
                            (Expr::Ident { name }, path1, skip2)
                        } else if self.config.check_ignore(&name) || self.has_binding(&name) {
                            (Expr::Ident { name }, path1, true)
                        } else {
                            let mut path3 = path1;
                            path3.append(name.as_str());
                            let probe = String::from_str("_p");
                            if self.has_binding(&probe) {
                                let ghost before = self.cached_props@;
                                self.cached_props.push(name.clone());
                                proof {
                                    lemma_names_view_push(before, self.cached_props@.last());
                                    assert(names_view(before).push(name@) =~= names_view(before)
                                        + seq![name@]);
                                    lemma_concat_assoc(props0, r1s.props, seq![name@]);
                                }
                            }
                            let rebased = Expr::Member {
                                obj: Box::new(Expr::This),
                                prop: MemberProp::Ident { name },
                            };
                            (rebased, path3, false)
                        }
                    },
                    other => (other, path1, skip2),
                };
                let ghost r3s = (match r1s.expr {
                    ExprV::Ident { name } => {
                        if skip2 {
                            DtOut { expr: r1s.expr, path: r1s.path, skip: skip2, props: r1s.props }
                        } else if excluded(ig, name) || sc.contains_key(name) {
                            DtOut { expr: r1s.expr, path: r1s.path, skip: true, props: r1s.props }
                        } else {
                            DtOut {
                                expr: this_member(name),
                                path: r1s.path + name,
                                skip: false,
                                props: r1s.props + if sc.contains_key(probe_name()) {
                                    seq![name]
                                } else {
                                    Seq::empty()
                                },
                            }
                        }
                    },
                    _ => DtOut { expr: r1s.expr, path: r1s.path, skip: skip2, props: r1s.props },
                });
                proof {
                    lemma_concat_empty(r1s.props);
                    assert(obj3@ == r3s.expr);
                    assert(path3@ == r3s.path);
                    assert(skip3 == r3s.skip);
                    assert(names_view(self.cached_props@) == props0 + r3s.props);
                }
                match prop {
                    MemberProp::Ident { name: pn } => {
                        if !skip3 && (str_lit_eq(&pn, "length") || str_lit_eq(&pn, "size")) {
                            let obj4 = self.gen_track_wrap(&path3, obj3);
                            let out = Expr::Member {
                                obj: Box::new(obj4),
                                prop: MemberProp::Ident { name: pn },
                            };
                            (out, path3, true)
                        } else if !skip3 {
                            let mut path4 = path3;
                            path4.append(".");
                            path4.append(pn.as_str());
                            proof {
                                assert(path4@ =~= r3s.path + "."@ + pn@);
                            }
                            let out = Expr::Member {
                                obj: Box::new(obj3),
                                prop: MemberProp::Ident { name: pn },
                            };
                            (out, path4, skip3)
                        } else {
                            let out = Expr::Member {
                                obj: Box::new(obj3),
                                prop: MemberProp::Ident { name: pn },
                            };
                            (out, path3, skip3)
                        }
                    },
                    MemberProp::Computed { index } => {
                        match *index {
                            Expr::Lit { lit } => {
                                let mut path5 = path3;
                                match &lit {
                                    LitKind::Num { text } => {
                                        path5.append("[");
                                        path5.append(text.as_str());
                                        path5.append("]");
                                        proof {
                                            assert(path5@ =~= r3s.path + "["@ + text@ + "]"@);
                                        }
                                    },
                                    LitKind::Str { value } => {
                                        path5.append(".");
                                        path5.append(value.as_str());
                                        proof {
                                            assert(path5@ =~= r3s.path + "."@ + value@);
                                        }
                                    },
                                    _ => {},
                                }
                                let out = Expr::Member {
                                    obj: Box::new(obj3),
                                    prop: MemberProp::Computed {
                                        index: Box::new(Expr::Lit { lit }),
                                    },
                                };
                                (out, path5, skip3)
                            },
                            other_ix => {
                                let ghost props3 = names_view(self.cached_props@);
                                let ix2 = self.replace_expr(other_ix);
                                proof {
                                    let rr = replace_spec(ig, sc, other_ix@);
                                    lemma_concat_assoc(props0, r3s.props, rr.props);
                                }
                                if !skip3 {
                                    let obj5 = self.gen_track_wrap(&path3, obj3);
                                    let out = Expr::Member {
                                        obj: Box::new(obj5),
                                        prop: MemberProp::Computed { index: Box::new(ix2) },
                                    };
                                    (out, path3, true)
                                } else {
                                    let out = Expr::Member {
                                        obj: Box::new(obj3),
                                        prop: MemberProp::Computed { index: Box::new(ix2) },
                                    };
                                    (out, path3, skip3)
                                }
                            },
                        }
                    },
                }
            },
            other => {
                proof {
                    lemma_concat_empty(props0);
                }
                (other, path, skip)
            },
        }
    }

    /// Rewrites a member chain in place, wrapping it once at the top when it
    /// was never marked safe.
    fn gen_bind_this_of_expr(&mut self, e: Expr) -> (r: Expr)
        ensures
            final(self).scope == old(self).scope,
            final(self).config == old(self).config,
            ({
                let o = dt_spec(
                    old(self).ignored_view(),
                    old(self).scope_view(),
                    e@,
                    Seq::empty(),
                    false,
                );
                &&& r@ == if !o.skip {
                    track_call(o.path, o.expr)
                } else {
                    o.expr
                }
                &&& names_view(final(self).cached_props@) == names_view(old(self).cached_props@)
                    + o.props
            }),
        decreases e, 2int,
    {
        let name = String::new();
        let (e2, pth, skp) = self.depth_traverse(e, name, false);
        if !skp {
            self.gen_track_wrap(&pth, e2)
        } else {
            e2
        }
    }

    /// Substitutes the rewritten form at an expression position; see
    /// `replace_spec`.
    pub(crate) fn replace_expr(&mut self, e: Expr) -> (r: Expr)
        ensures
            final(self).scope == old(self).scope,
            final(self).config == old(self).config,
            ({
                let o = replace_spec(old(self).ignored_view(), old(self).scope_view(), e@);
                &&& r@ == o.expr
                &&& names_view(final(self).cached_props@) == names_view(old(self).cached_props@)
                    + o.props
            }),
        decreases e, 3int,
    {
        match e {
            Expr::Ident { name } => {
                let rewritten = self.gen_bind_this_of_ident(&name);
                match rewritten {
                    Some(w) => w,
                    None => Expr::Ident { name },
                }
            },
            Expr::Member { obj, prop } => self.gen_bind_this_of_expr(
                Expr::Member { obj, prop },
            ),
            other => {
                proof {
                    lemma_concat_empty(names_view(self.cached_props@));
                }
                other
            },
        }
    }

    /// Rewrites an object-literal property; see `replace_prop_spec`.
    pub(crate) fn replace_prop(&mut self, p: Prop) -> (r: Prop)
        ensures
            final(self).scope == old(self).scope,
            final(self).config == old(self).config,
            ({
                let o = replace_prop_spec(old(self).ignored_view(), old(self).scope_view(), p@);
                &&& r@ == o.0
                &&& names_view(final(self).cached_props@) == names_view(old(self).cached_props@)
                    + o.1
            }),
    {
        match p {
            Prop::KeyValue { key, value } => {
                let v2 = self.replace_expr(value);
                Prop::KeyValue { key, value: v2 }
            },
            Prop::Shorthand { name } => {
                let rewritten = self.gen_bind_this_of_ident(&name);
                match rewritten {
                    Some(w) => Prop::KeyValue { key: name, value: w },
                    None => Prop::Shorthand { name },
                }
            },
            other => {
                proof {
                    lemma_concat_empty(names_view(self.cached_props@));
                }
                other
            },
        }
    }
}

} // verus!
