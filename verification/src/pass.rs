//! The traversal driver and the transform entry point. One pass visits every
//! node of the program exactly once, children before the node's own rule, and
//! applies the rewrite actions where a matcher succeeds.

use vstd::prelude::*;

use crate::ast::{Expr, MemberProp, Program, Span, SpecExpr, SpecMemberProp, SpecProgram};
use crate::ast::{expr_view, exprs_view, lemma_exprs_view_push};
use crate::rules::{rewrite_bin_left, rewrite_callee, spec_rewrite_bin_left, spec_rewrite_callee};

verus! {

/// One pass over a single expression tree: children are rewritten first, and
/// the node's own rule (the callee rules at a call, the left-operand rule at
/// a binary expression) is applied to the result.
pub open spec fn spec_rewrite_expr(e: SpecExpr) -> SpecExpr
    decreases e,
{
    match e {
        SpecExpr::Ident(i) => SpecExpr::Ident(i),
        SpecExpr::Member { span, obj, prop } => SpecExpr::Member {
            span,
            obj: Box::new(spec_rewrite_expr(*obj)),
            prop: match prop {
                SpecMemberProp::Ident(i) => SpecMemberProp::Ident(i),
                SpecMemberProp::Computed(c) => SpecMemberProp::Computed(
                    Box::new(spec_rewrite_expr(*c)),
                ),
            },
        },
        SpecExpr::Call { span, callee, args } => SpecExpr::Call {
            span,
            callee: Box::new(spec_rewrite_callee(spec_rewrite_expr(*callee))),
            args: spec_rewrite_exprs(args),
        },
        SpecExpr::Bin { span, op, left, right } => SpecExpr::Bin {
            span,
            op,
            left: Box::new(spec_rewrite_bin_left(op, spec_rewrite_expr(*left))),
            right: Box::new(spec_rewrite_expr(*right)),
        },
        SpecExpr::Other { span, children } => SpecExpr::Other {
            span,
            children: spec_rewrite_exprs(children),
        },
    }
}

/// One pass over each expression of a sequence, in order.
pub open spec fn spec_rewrite_exprs(s: Seq<SpecExpr>) -> Seq<SpecExpr>
    decreases s,
{
    if s.len() == 0 {
        Seq::<SpecExpr>::empty()
    } else {
        spec_rewrite_exprs(s.drop_last()).push(spec_rewrite_expr(s.last()))
    }
}

/// One pass over a whole program.
pub open spec fn spec_rewrite_program(p: SpecProgram) -> SpecProgram {
    SpecProgram { body: spec_rewrite_exprs(p.body) }
}

/// The pass rewrites a sequence element by element, keeping its length.
pub proof fn lemma_rewrite_exprs_elements(s: Seq<SpecExpr>)
    ensures
        spec_rewrite_exprs(s).len() == s.len(),
        forall|i: int| 0 <= i < s.len() ==> spec_rewrite_exprs(s)[i] == spec_rewrite_expr(s[i]),
    decreases s,
{
    if s.len() > 0 {
        lemma_rewrite_exprs_elements(s.drop_last());
    }
}

/// Extending a sequence by one element extends its rewrite by that element's
/// rewrite.
pub proof fn lemma_spec_rewrite_exprs_push(s: Seq<SpecExpr>, x: SpecExpr)
    ensures
        spec_rewrite_exprs(s.push(x)) == spec_rewrite_exprs(s).push(spec_rewrite_expr(x)),
{
    assert(s.push(x).drop_last() =~= s);
    assert(s.push(x).last() == x);
}

/// Rewrite one expression tree, children before the node's own rule.
pub fn rewrite_expr(e: Expr) -> (r: Expr)
    ensures
        r@ == spec_rewrite_expr(e@),
    decreases e,
{
    match e {
        Expr::Ident(i) => Expr::Ident(i),
        Expr::Member { span, obj, prop } => {
            let new_obj = rewrite_expr(*obj);
            let new_prop = match prop {
                MemberProp::Ident(i) => MemberProp::Ident(i),
                MemberProp::Computed(c) => MemberProp::Computed(Box::new(rewrite_expr(*c))),
            };
            Expr::Member { span, obj: Box::new(new_obj), prop: new_prop }
        },
        Expr::Call { span, callee, args } => {
            let new_callee = rewrite_callee(rewrite_expr(*callee));
            let new_args = rewrite_exprs(args);
            Expr::Call { span, callee: Box::new(new_callee), args: new_args }
        },
        Expr::Bin { span, op, left, right } => {
            let new_left = rewrite_bin_left(op, rewrite_expr(*left));
            let new_right = rewrite_expr(*right);
            Expr::Bin { span, op, left: Box::new(new_left), right: Box::new(new_right) }
        },
        Expr::Other { span, children } => {
            let new_children = rewrite_exprs(children);
            Expr::Other { span, children: new_children }
        },
    }
}

/// Rewrite each expression of a sequence, in order.
pub fn rewrite_exprs(v: Vec<Expr>) -> (r: Vec<Expr>)
    ensures
        exprs_view(r@) == spec_rewrite_exprs(exprs_view(v@)),
    decreases v@,
{
    let mut v = v;
    if v.len() == 0 {
        v
    } else {
        let ghost vs = v@;
        let x = v.pop().unwrap();
        proof {
            assert(v@ =~= vs.drop_last());
            assert(x == vs.last());
        }
        let mut r = rewrite_exprs(v);
        let ghost rs = r@;
        let y = rewrite_expr(x);
        r.push(y);
        proof {
            lemma_exprs_view_push(rs, y);
            lemma_spec_rewrite_exprs_push(exprs_view(vs.drop_last()), expr_view(vs.last()));
            assert(exprs_view(vs) == exprs_view(vs.drop_last()).push(expr_view(vs.last())));
        }
        r
    }
}

/// Rewrite each top-level statement of a program, in order.
pub fn rewrite_program(p: Program) -> (r: Program)
    ensures
        r@ == spec_rewrite_program(p@),
{
    Program { body: rewrite_exprs(p.body) }
}

/// Opaque host-supplied context handed along with the program. The rewrite
/// logic ignores it; it exists so the entry point's shape matches what a
/// host passes across the call boundary.
pub struct HostMetadata {}

/// The rule set, offered through the visitor-shaped methods a host adapter
/// drives one slot at a time.
pub struct TransformVisitor {}

impl TransformVisitor {
    pub fn new() -> (v: TransformVisitor) {
        TransformVisitor {  }
    }

    /// Visit one expression slot: rewrite the whole tree below it in place.
    pub fn visit_mut_expr(&mut self, e: &mut Expr)
        ensures
            final(e)@ == spec_rewrite_expr(old(e)@),
    {
        let mut tmp = Expr::Other { span: Span { lo: 0, hi: 0 }, children: Vec::new() };
        core::mem::swap(e, &mut tmp);
        let mut out = rewrite_expr(tmp);
        core::mem::swap(e, &mut out);
    }

    /// Visit one callee slot: rewrite the expression standing in it, children
    /// first, then apply the member-call and bare-identifier-call rules to
    /// what the slot now holds.
    pub fn visit_mut_callee(&mut self, callee: &mut Expr)
        ensures
            final(callee)@ == spec_rewrite_callee(spec_rewrite_expr(old(callee)@)),
    {
        let mut tmp = Expr::Other { span: Span { lo: 0, hi: 0 }, children: Vec::new() };
        core::mem::swap(callee, &mut tmp);
        let mut out = rewrite_callee(rewrite_expr(tmp));
        core::mem::swap(callee, &mut out);
    }

    /// Visit a whole program: one pass over every statement.
    pub fn visit_mut_program(&mut self, p: &mut Program)
        ensures
            final(p)@ == spec_rewrite_program(old(p)@),
    {
        let mut tmp = Program { body: Vec::new() };
        core::mem::swap(p, &mut tmp);
        let mut out = rewrite_program(tmp);
        core::mem::swap(p, &mut out);
    }
}

/// The transform entry point: one traversal pass over the program, returning
/// the rewritten program. It cannot fail: every node shape is either
/// rewritten or passed through unchanged.
pub fn process_transform(program: Program, _metadata: HostMetadata) -> (r: Program)
    ensures
        r@ == spec_rewrite_program(program@),
{
    let mut visitor = TransformVisitor::new();
    let mut program = program;
    visitor.visit_mut_program(&mut program);
    program
}

} // verus!
