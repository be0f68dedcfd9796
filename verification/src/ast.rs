//! The tree model: a closed, tagged union of the node shapes the engine
//! rewrites, plus a catch-all container for every other syntactic form, and
//! the spec-level mirror of it that contracts are stated over.

use vstd::prelude::*;

verus! {

/// A source span: the byte offsets a node covers in the original text.
/// A replacement node copies the span of the node it replaces, so the
/// serializer's source maps stay consistent.
#[derive(Clone, Copy, PartialEq, Eq, Structural, Debug)]
pub struct Span {
    pub lo: u32,
    pub hi: u32,
}

/// The operator tag of a binary expression. Only `EqEqEq` (strict equality)
/// is matched by a rule; the rest are carried through untouched.
#[derive(Clone, Copy, PartialEq, Eq, Structural, Debug)]
pub enum BinOp {
    /// `==`
    EqEq,
    /// `!=`
    NotEq,
    /// `===`
    EqEqEq,
    /// `!==`
    NotEqEq,
    /// `<`
    Lt,
    /// `<=`
    LtEq,
    /// `>`
    Gt,
    /// `>=`
    GtEq,
    /// `+`
    Add,
    /// `-`
    Sub,
    /// `*`
    Mul,
    /// `/`
    Div,
}

/// An identifier: a name together with the span it was parsed from.
#[derive(PartialEq, Eq, Debug)]
pub struct Ident {
    pub span: Span,
    pub name: String,
}

/// The property slot of a member expression: either a plain identifier
/// (`obj.name`) or a computed sub-expression (`obj[expr]`).
#[derive(PartialEq, Eq, Debug)]
pub enum MemberProp {
    Ident(Ident),
    Computed(Box<Expr>),
}

/// One node of the tree. Every slot owns its child outright; replacing a
/// child is a move into the slot, never an aliasing of two parents.
#[derive(PartialEq, Eq, Debug)]
pub enum Expr {
    /// A bare identifier.
    Ident(Ident),
    /// A member access `obj.prop` or `obj[prop]`.
    Member { span: Span, obj: Box<Expr>, prop: MemberProp },
    /// A call `callee(args...)`.
    Call { span: Span, callee: Box<Expr>, args: Vec<Expr> },
    /// A binary expression `left op right`.
    Bin { span: Span, op: BinOp, left: Box<Expr>, right: Box<Expr> },
    /// Any other syntactic form: an n-ary container whose children are
    /// traversed but to which no rule applies.
    Other { span: Span, children: Vec<Expr> },
}

/// The root: an ordered sequence of top-level statements.
#[derive(PartialEq, Eq, Debug)]
pub struct Program {
    pub body: Vec<Expr>,
}

/// Spec-level identifier: the name as a sequence of characters.
pub struct SpecIdent {
    pub span: Span,
    pub name: Seq<char>,
}

/// Spec-level mirror of `MemberProp`.
pub enum SpecMemberProp {
    Ident(SpecIdent),
    Computed(Box<SpecExpr>),
}

/// Spec-level mirror of `Expr`: the mathematical value of a tree.
pub enum SpecExpr {
    Ident(SpecIdent),
    Member { span: Span, obj: Box<SpecExpr>, prop: SpecMemberProp },
    Call { span: Span, callee: Box<SpecExpr>, args: Seq<SpecExpr> },
    Bin { span: Span, op: BinOp, left: Box<SpecExpr>, right: Box<SpecExpr> },
    Other { span: Span, children: Seq<SpecExpr> },
}

/// Spec-level mirror of `Program`.
pub struct SpecProgram {
    pub body: Seq<SpecExpr>,
}

/// The mathematical value of an identifier.
pub open spec fn ident_view(i: Ident) -> SpecIdent {
    SpecIdent { span: i.span, name: i.name@ }
}

/// The mathematical value of an expression tree.
pub open spec fn expr_view(e: Expr) -> SpecExpr
    decreases e,
{
    match e {
        Expr::Ident(i) => SpecExpr::Ident(ident_view(i)),
        Expr::Member { span, obj, prop } => SpecExpr::Member {
            span,
            obj: Box::new(expr_view(*obj)),
            prop: match prop {
                MemberProp::Ident(i) => SpecMemberProp::Ident(ident_view(i)),
                MemberProp::Computed(c) => SpecMemberProp::Computed(Box::new(expr_view(*c))),
            },
        },
        Expr::Call { span, callee, args } => SpecExpr::Call {
            span,
            callee: Box::new(expr_view(*callee)),
            args: exprs_view(args@),
        },
        Expr::Bin { span, op, left, right } => SpecExpr::Bin {
            span,
            op,
            left: Box::new(expr_view(*left)),
            right: Box::new(expr_view(*right)),
        },
        Expr::Other { span, children } => SpecExpr::Other {
            span,
            children: exprs_view(children@),
        },
    }
}

/// The mathematical value of a sequence of expressions, element by element.
pub open spec fn exprs_view(s: Seq<Expr>) -> Seq<SpecExpr>
    decreases s,
{
    if s.len() == 0 {
        Seq::<SpecExpr>::empty()
    } else {
        exprs_view(s.drop_last()).push(expr_view(s.last()))
    }
}

impl View for Ident {
    type V = SpecIdent;

    open spec fn view(&self) -> SpecIdent {
        ident_view(*self)
    }
}

impl View for Expr {
    type V = SpecExpr;

    open spec fn view(&self) -> SpecExpr {
        expr_view(*self)
    }
}

impl View for Program {
    type V = SpecProgram;

    open spec fn view(&self) -> SpecProgram {
        SpecProgram { body: exprs_view(self.body@) }
    }
}

/// The span a spec-level node carries.
pub open spec fn spec_span_of(e: SpecExpr) -> Span {
    match e {
        SpecExpr::Ident(i) => i.span,
        SpecExpr::Member { span, .. } => span,
        SpecExpr::Call { span, .. } => span,
        SpecExpr::Bin { span, .. } => span,
        SpecExpr::Other { span, .. } => span,
    }
}

/// The span an exec-level node carries.
pub fn span_of(e: &Expr) -> (s: Span)
    ensures
        s == spec_span_of(e@),
{
    match e {
        Expr::Ident(i) => i.span,
        Expr::Member { span, .. } => *span,
        Expr::Call { span, .. } => *span,
        Expr::Bin { span, .. } => *span,
        Expr::Other { span, .. } => *span,
    }
}

/// Extending a sequence by one element extends its view by that element's view.
pub proof fn lemma_exprs_view_push(s: Seq<Expr>, x: Expr)
    ensures
        exprs_view(s.push(x)) == exprs_view(s).push(expr_view(x)),
{
    assert(s.push(x).drop_last() =~= s);
    assert(s.push(x).last() == x);
}

} // verus!
