//! Engine-wide guarantees, stated and proved over the spec-level model: the
//! no-op property on target-free trees, the exact effect of each rule family,
//! negative-match correctness, span preservation, and idempotence of the pass.

use vstd::prelude::*;

use crate::ast::{BinOp, Span, SpecExpr, SpecIdent, SpecMemberProp, SpecProgram, spec_span_of};
use crate::pass::{
    lemma_spec_rewrite_exprs_push, spec_rewrite_expr, spec_rewrite_exprs, spec_rewrite_program,
};
use crate::rules::{
    is_global_object_name, replacement_left_name, replacement_name, spec_rewrite_bin_left,
    spec_rewrite_callee, target_name,
};

verus! {

/// Whether the tree holds any occurrence the rules look for: an identifier
/// named like the target call name (in any position, member properties
/// included), or a binary expression using the target operator.
pub open spec fn spec_mentions_target(e: SpecExpr) -> bool
    decreases e,
{
    match e {
        SpecExpr::Ident(i) => i.name == target_name(),
        SpecExpr::Member { obj, prop, .. } => spec_mentions_target(*obj) || match prop {
            SpecMemberProp::Ident(i) => i.name == target_name(),
            SpecMemberProp::Computed(c) => spec_mentions_target(*c),
        },
        SpecExpr::Call { callee, args, .. } => spec_mentions_target(*callee)
            || spec_seq_mentions_target(args),
        SpecExpr::Bin { op, left, right, .. } => op == BinOp::EqEqEq || spec_mentions_target(*left)
            || spec_mentions_target(*right),
        SpecExpr::Other { children, .. } => spec_seq_mentions_target(children),
    }
}

/// Whether any expression of the sequence mentions a rule target.
pub open spec fn spec_seq_mentions_target(s: Seq<SpecExpr>) -> bool
    decreases s,
{
    if s.len() == 0 {
        false
    } else {
        spec_seq_mentions_target(s.drop_last()) || spec_mentions_target(s.last())
    }
}

/// The callee rules leave a target-free callee untouched.
proof fn lemma_rewrite_callee_noop(c: SpecExpr)
    requires
        !spec_mentions_target(c),
    ensures
        spec_rewrite_callee(c) == c,
{
}

/// On a tree with no occurrence of the target call name and no strict
/// equality, one pass changes nothing.
pub proof fn lemma_noop_expr(e: SpecExpr)
    requires
        !spec_mentions_target(e),
    ensures
        spec_rewrite_expr(e) == e,
    decreases e,
{
    match e {
        SpecExpr::Ident(i) => {},
        SpecExpr::Member { span, obj, prop } => {
            lemma_noop_expr(*obj);
            match prop {
                SpecMemberProp::Ident(i) => {},
                SpecMemberProp::Computed(c) => lemma_noop_expr(*c),
            }
        },
        SpecExpr::Call { span, callee, args } => {
            lemma_noop_expr(*callee);
            lemma_noop_exprs(args);
            lemma_rewrite_callee_noop(*callee);
        },
        SpecExpr::Bin { span, op, left, right } => {
            lemma_noop_expr(*left);
            lemma_noop_expr(*right);
        },
        SpecExpr::Other { span, children } => {
            lemma_noop_exprs(children);
        },
    }
}

/// On a sequence of target-free trees, one pass changes nothing.
pub proof fn lemma_noop_exprs(s: Seq<SpecExpr>)
    requires
        !spec_seq_mentions_target(s),
    ensures
        spec_rewrite_exprs(s) == s,
    decreases s,
{
    if s.len() > 0 {
        lemma_noop_exprs(s.drop_last());
        lemma_noop_expr(s.last());
        assert(s.drop_last().push(s.last()) =~= s);
    }
}

/// No-op property: a program with no occurrence of the target call name and
/// no strict equality comes out of the pass identical.
pub proof fn law_pass_is_noop_without_targets(p: SpecProgram)
    requires
        !spec_seq_mentions_target(p.body),
    ensures
        spec_rewrite_program(p) == p,
{
    lemma_noop_exprs(p.body);
}

/// The pass never changes the span a node carries at its root.
pub proof fn law_spans_preserved(e: SpecExpr)
    ensures
        spec_span_of(spec_rewrite_expr(e)) == spec_span_of(e),
{
}

/// Member-call rule: a call through `G.fetch`, with `G` in the global
/// allow-set and target-free arguments, comes out as `G.my_fetch` with the
/// object, the arguments, and every span unchanged.
pub proof fn law_global_member_call(
    span: Span,
    mspan: Span,
    obj: SpecIdent,
    prop: SpecIdent,
    args: Seq<SpecExpr>,
)
    requires
        is_global_object_name(obj.name),
        prop.name == target_name(),
        !spec_seq_mentions_target(args),
    ensures
        spec_rewrite_expr(
            SpecExpr::Call {
                span,
                callee: Box::new(
                    SpecExpr::Member {
                        span: mspan,
                        obj: Box::new(SpecExpr::Ident(obj)),
                        prop: SpecMemberProp::Ident(prop),
                    },
                ),
                args,
            },
        ) == (SpecExpr::Call {
            span,
            callee: Box::new(
                SpecExpr::Member {
                    span: mspan,
                    obj: Box::new(SpecExpr::Ident(obj)),
                    prop: SpecMemberProp::Ident(
                        SpecIdent { span: prop.span, name: replacement_name() },
                    ),
                },
            ),
            args,
        }),
{
    lemma_noop_exprs(args);
    let member = SpecExpr::Member {
        span: mspan,
        obj: Box::new(SpecExpr::Ident(obj)),
        prop: SpecMemberProp::Ident(prop),
    };
    assert(spec_rewrite_expr(SpecExpr::Ident(obj)) == SpecExpr::Ident(obj));
    assert(spec_rewrite_expr(member) == member);
}

/// Bare-identifier-call rule: a call of the bare identifier `fetch` with
/// target-free arguments comes out as a call of `my_fetch`, arguments and
/// spans unchanged.
pub proof fn law_bare_call(span: Span, ident: SpecIdent, args: Seq<SpecExpr>)
    requires
        ident.name == target_name(),
        !spec_seq_mentions_target(args),
    ensures
        spec_rewrite_expr(
            SpecExpr::Call { span, callee: Box::new(SpecExpr::Ident(ident)), args },
        ) == (SpecExpr::Call {
            span,
            callee: Box::new(
                SpecExpr::Ident(SpecIdent { span: ident.span, name: replacement_name() }),
            ),
            args,
        }),
{
    lemma_noop_exprs(args);
    assert(spec_rewrite_expr(SpecExpr::Ident(ident)) == SpecExpr::Ident(ident));
}

/// Negative match, member shape: a member call that misses the pattern —
/// object not in the global allow-set, or property not exactly the target
/// name — is left entirely unchanged.
pub proof fn law_near_miss_member_call(
    span: Span,
    mspan: Span,
    obj: SpecIdent,
    prop: SpecIdent,
    args: Seq<SpecExpr>,
)
    requires
        !(is_global_object_name(obj.name) && prop.name == target_name()),
        !spec_seq_mentions_target(args),
    ensures
        spec_rewrite_expr(
            SpecExpr::Call {
                span,
                callee: Box::new(
                    SpecExpr::Member {
                        span: mspan,
                        obj: Box::new(SpecExpr::Ident(obj)),
                        prop: SpecMemberProp::Ident(prop),
                    },
                ),
                args,
            },
        ) == (SpecExpr::Call {
            span,
            callee: Box::new(
                SpecExpr::Member {
                    span: mspan,
                    obj: Box::new(SpecExpr::Ident(obj)),
                    prop: SpecMemberProp::Ident(prop),
                },
            ),
            args,
        }),
{
    lemma_noop_exprs(args);
    let member = SpecExpr::Member {
        span: mspan,
        obj: Box::new(SpecExpr::Ident(obj)),
        prop: SpecMemberProp::Ident(prop),
    };
    assert(spec_rewrite_expr(SpecExpr::Ident(obj)) == SpecExpr::Ident(obj));
    assert(spec_rewrite_expr(member) == member);
}

/// Negative match, bare shape: a call of a bare identifier other than the
/// target name is left entirely unchanged.
pub proof fn law_near_miss_bare_call(span: Span, ident: SpecIdent, args: Seq<SpecExpr>)
    requires
        ident.name != target_name(),
        !spec_seq_mentions_target(args),
    ensures
        spec_rewrite_expr(
            SpecExpr::Call { span, callee: Box::new(SpecExpr::Ident(ident)), args },
        ) == (SpecExpr::Call { span, callee: Box::new(SpecExpr::Ident(ident)), args }),
{
    lemma_noop_exprs(args);
    assert(spec_rewrite_expr(SpecExpr::Ident(ident)) == SpecExpr::Ident(ident));
}

/// Binary-operator rule: under strict equality the left operand is replaced
/// wholesale by the fixed identifier — whatever the operand's shape or value
/// — carrying the replaced operand's span; the operator and the right
/// operand's rewrite stand unchanged.
pub proof fn law_strict_equality_replaces_left(span: Span, left: SpecExpr, right: SpecExpr)
    ensures
        spec_rewrite_expr(
            SpecExpr::Bin {
                span,
                op: BinOp::EqEqEq,
                left: Box::new(left),
                right: Box::new(right),
            },
        ) == (SpecExpr::Bin {
            span,
            op: BinOp::EqEqEq,
            left: Box::new(
                SpecExpr::Ident(
                    SpecIdent { span: spec_span_of(left), name: replacement_left_name() },
                ),
            ),
            right: Box::new(spec_rewrite_expr(right)),
        }),
{
    law_spans_preserved(left);
}

/// Negative match, binary shape: under any operator other than strict
/// equality, a binary expression over target-free operands is left entirely
/// unchanged.
pub proof fn law_non_strict_equality_untouched(
    span: Span,
    op: BinOp,
    left: SpecExpr,
    right: SpecExpr,
)
    requires
        op != BinOp::EqEqEq,
        !spec_mentions_target(left),
        !spec_mentions_target(right),
    ensures
        spec_rewrite_expr(
            SpecExpr::Bin { span, op, left: Box::new(left), right: Box::new(right) },
        ) == (SpecExpr::Bin { span, op, left: Box::new(left), right: Box::new(right) }),
{
    lemma_noop_expr(left);
    lemma_noop_expr(right);
}

/// A callee already fully rewritten stays fixed: another traversal of it, or
/// another application of the callee rules, changes nothing.
proof fn lemma_rewrite_callee_stable(c: SpecExpr)
    requires
        spec_rewrite_expr(c) == c,
    ensures
        spec_rewrite_expr(spec_rewrite_callee(c)) == spec_rewrite_callee(c),
        spec_rewrite_callee(spec_rewrite_callee(c)) == spec_rewrite_callee(c),
{
    reveal_strlit("my_fetch");
    reveal_strlit("fetch");
    match c {
        SpecExpr::Member { span, obj, prop } => {
            match (*obj, prop) {
                (SpecExpr::Ident(o), SpecMemberProp::Ident(p)) => {
                    assert(spec_rewrite_expr(SpecExpr::Ident(o)) == SpecExpr::Ident(o));
                    assert("my_fetch"@.len() == 8);
                    assert("fetch"@.len() == 5);
                    assert(replacement_name() != target_name());
                },
                _ => {},
            }
        },
        _ => {},
    }
}

/// After one pass, a tree is a fixed point: rewriting it again changes
/// nothing.
pub proof fn lemma_idempotent_expr(e: SpecExpr)
    ensures
        spec_rewrite_expr(spec_rewrite_expr(e)) == spec_rewrite_expr(e),
    decreases e,
{
    match e {
        SpecExpr::Ident(i) => {},
        SpecExpr::Member { span, obj, prop } => {
            lemma_idempotent_expr(*obj);
            match prop {
                SpecMemberProp::Ident(i) => {},
                SpecMemberProp::Computed(c) => lemma_idempotent_expr(*c),
            }
        },
        SpecExpr::Call { span, callee, args } => {
            lemma_idempotent_expr(*callee);
            lemma_idempotent_exprs(args);
            lemma_rewrite_callee_stable(spec_rewrite_expr(*callee));
        },
        SpecExpr::Bin { span, op, left, right } => {
            lemma_idempotent_expr(*left);
            lemma_idempotent_expr(*right);
            if op == BinOp::EqEqEq {
                let l2 = spec_rewrite_bin_left(op, spec_rewrite_expr(*left));
                assert(spec_rewrite_expr(l2) == l2);
                assert(spec_rewrite_bin_left(op, l2) == l2);
            }
        },
        SpecExpr::Other { span, children } => {
            lemma_idempotent_exprs(children);
        },
    }
}

/// After one pass, a sequence of trees is a fixed point.
pub proof fn lemma_idempotent_exprs(s: Seq<SpecExpr>)
    ensures
        spec_rewrite_exprs(spec_rewrite_exprs(s)) == spec_rewrite_exprs(s),
    decreases s,
{
    if s.len() > 0 {
        lemma_idempotent_exprs(s.drop_last());
        lemma_idempotent_expr(s.last());
        lemma_spec_rewrite_exprs_push(
            spec_rewrite_exprs(s.drop_last()),
            spec_rewrite_expr(s.last()),
        );
    }
}

/// Idempotence: running the pass twice on a program yields the same result
/// as running it once. A rewrite never re-triggers its own matcher.
pub proof fn law_pass_idempotent(p: SpecProgram)
    ensures
        spec_rewrite_program(spec_rewrite_program(p)) == spec_rewrite_program(p),
{
    lemma_idempotent_exprs(p.body);
}

} // verus!

