//! A structural, rule-driven rewrite engine over a syntax tree.
//!
//! The engine walks a parsed program, and wherever a node matches one of two
//! declared shapes it replaces part of that node in place, leaving everything
//! else untouched:
//!
//! - a call whose callee is `window.fetch`, `globalThis.fetch`, or the bare
//!   identifier `fetch` has that identifier renamed to `my_fetch`;
//! - a binary expression using strict equality (`===`) has its left operand
//!   replaced wholesale by a fixed identifier, keeping the operand's span.
//!
//! Parsing and re-emission are outside collaborators: the engine receives an
//! already-parsed tree and returns the rewritten tree, performing no I/O.

mod ast;
mod pass;
mod rules;
mod laws;

pub use ast::{BinOp, Expr, Ident, MemberProp, Program, Span};
pub use ast::{SpecExpr, SpecIdent, SpecMemberProp, SpecProgram};
pub use ast::{expr_view, exprs_view, ident_view, spec_span_of, span_of};
pub use ast::lemma_exprs_view_push;
pub use rules::{
    bare_call_matches, is_global_object_name, member_call_matches, replacement_left_name,
    replacement_name, rewrite_bin_left, rewrite_callee, spec_rewrite_bin_left,
    spec_rewrite_callee, target_name,
};
pub use pass::{
    lemma_rewrite_exprs_elements, lemma_spec_rewrite_exprs_push, process_transform, rewrite_expr,
    rewrite_exprs, rewrite_program, spec_rewrite_expr, spec_rewrite_exprs, spec_rewrite_program,
    HostMetadata, TransformVisitor,
};
pub use laws::{
    law_bare_call, law_global_member_call, law_near_miss_bare_call, law_near_miss_member_call,
    law_non_strict_equality_untouched, law_pass_idempotent, law_pass_is_noop_without_targets,
    law_spans_preserved, law_strict_equality_replaces_left, lemma_idempotent_expr,
    lemma_idempotent_exprs, lemma_noop_expr, lemma_noop_exprs, spec_mentions_target,
    spec_seq_mentions_target,
};
