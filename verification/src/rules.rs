//! The two rule families: pattern matchers that test whether a node has a
//! target shape, and the rewrite actions applied where a matcher succeeds.
//! Matchers key only on shape, never on semantic value.

use vstd::prelude::*;
use vstd::string::StringExecFns;

use crate::ast::{BinOp, Expr, Ident, MemberProp, SpecExpr, SpecIdent, SpecMemberProp};
use crate::ast::{expr_view, ident_view, spec_span_of, span_of};

verus! {

/// The call name the rules look for.
pub open spec fn target_name() -> Seq<char> {
    "fetch"@
}

/// The name a matched call identifier is renamed to.
pub open spec fn replacement_name() -> Seq<char> {
    "my_fetch"@
}

/// The name of the identifier that replaces the left operand of a strict
/// equality.
pub open spec fn replacement_left_name() -> Seq<char> {
    "kdy1"@
}

/// The allow-set of global object names a member call may go through.
pub open spec fn is_global_object_name(name: Seq<char>) -> bool {
    name == "window"@ || name == "globalThis"@
}

/// Member-call matcher: the callee is a member access whose object is an
/// identifier from the global allow-set and whose property is the plain
/// identifier `fetch`.
pub open spec fn member_call_matches(callee: SpecExpr) -> bool {
    match callee {
        SpecExpr::Member { obj, prop, .. } => match (*obj, prop) {
            (SpecExpr::Ident(o), SpecMemberProp::Ident(p)) => is_global_object_name(o.name)
                && p.name == target_name(),
            _ => false,
        },
        _ => false,
    }
}

/// Bare-identifier-call matcher: the callee is directly the identifier
/// `fetch`, with no member access.
pub open spec fn bare_call_matches(callee: SpecExpr) -> bool {
    match callee {
        SpecExpr::Ident(i) => i.name == target_name(),
        _ => false,
    }
}

/// What the callee slot of a call becomes: the matched identifier is renamed
/// in place (its span kept), every other callee is left untouched.
pub open spec fn spec_rewrite_callee(callee: SpecExpr) -> SpecExpr {
    match callee {
        SpecExpr::Member { span, obj, prop } => match (*obj, prop) {
            (SpecExpr::Ident(o), SpecMemberProp::Ident(p)) => {
                if is_global_object_name(o.name) && p.name == target_name() {
                    SpecExpr::Member {
                        span,
                        obj: Box::new(SpecExpr::Ident(o)),
                        prop: SpecMemberProp::Ident(
                            SpecIdent { span: p.span, name: replacement_name() },
                        ),
                    }
                } else {
                    SpecExpr::Member {
                        span,
                        obj: Box::new(SpecExpr::Ident(o)),
                        prop: SpecMemberProp::Ident(p),
                    }
                }
            },
            (o, p) => SpecExpr::Member { span, obj: Box::new(o), prop: p },
        },
        SpecExpr::Ident(i) => {
            if i.name == target_name() {
                SpecExpr::Ident(SpecIdent { span: i.span, name: replacement_name() })
            } else {
                SpecExpr::Ident(i)
            }
        },
        other => other,
    }
}

/// What the left operand of a binary expression becomes: under strict
/// equality it is replaced wholesale by the fixed identifier, carrying the
/// replaced operand's span; under any other operator it is untouched.
pub open spec fn spec_rewrite_bin_left(op: BinOp, left: SpecExpr) -> SpecExpr {
    if op == BinOp::EqEqEq {
        SpecExpr::Ident(SpecIdent { span: spec_span_of(left), name: replacement_left_name() })
    } else {
        left
    }
}

/// An expression's view is identifier-shaped exactly when the expression is,
/// and then is the identifier's view.
proof fn lemma_expr_view_ident_shape(e: Expr)
    ensures
        (expr_view(e) is Ident) == (e is Ident),
        e is Ident ==> expr_view(e) == SpecExpr::Ident(ident_view(e->Ident_0)),
{
}

/// Whether this identifier's name equals the given literal, character for
/// character.
fn name_is(name: &String, lit: &str) -> (r: bool)
    ensures
        r == (name@ == lit@),
{
    let s = String::from_str(lit);
    *name == s
}

/// Apply the member-call and bare-identifier-call rules to one callee slot.
pub fn rewrite_callee(callee: Expr) -> (r: Expr)
    ensures
        r@ == spec_rewrite_callee(callee@),
{
    match callee {
        Expr::Member { span, obj, prop } => {
            proof {
                lemma_expr_view_ident_shape(*obj);
            }
            match (*obj, prop) {
                (Expr::Ident(o), MemberProp::Ident(p)) => {
                    if (name_is(&o.name, "window") || name_is(&o.name, "globalThis")) && name_is(
                        &p.name,
                        "fetch",
                    ) {
                        Expr::Member {
                            span,
                            obj: Box::new(Expr::Ident(o)),
                            prop: MemberProp::Ident(
                                Ident { span: p.span, name: String::from_str("my_fetch") },
                            ),
                        }
                    } else {
                        Expr::Member {
                            span,
                            obj: Box::new(Expr::Ident(o)),
                            prop: MemberProp::Ident(p),
                        }
                    }
                },
                (o, p) => Expr::Member { span, obj: Box::new(o), prop: p },
            }
        },
        Expr::Ident(i) => {
            if name_is(&i.name, "fetch") {
                Expr::Ident(Ident { span: i.span, name: String::from_str("my_fetch") })
            } else {
                Expr::Ident(i)
            }
        },
        other => other,
    }
}

/// Apply the binary-operator rule to one left-operand slot.
pub fn rewrite_bin_left(op: BinOp, left: Expr) -> (r: Expr)
    ensures
        r@ == spec_rewrite_bin_left(op, left@),
{
    if op == BinOp::EqEqEq {
        let span = span_of(&left);
        Expr::Ident(Ident { span, name: String::from_str("kdy1") })
    } else {
        left
    }
}

} // verus!
