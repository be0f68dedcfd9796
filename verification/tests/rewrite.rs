use fetch_rewrite::{
    process_transform, rewrite_bin_left, rewrite_callee, rewrite_expr, span_of, BinOp, Expr,
    HostMetadata, Ident, MemberProp, Program, Span, TransformVisitor,
};

fn sp(lo: u32, hi: u32) -> Span {
    Span { lo, hi }
}

fn id(name: &str, lo: u32, hi: u32) -> Ident {
    Ident { span: sp(lo, hi), name: name.to_string() }
}

fn ident(name: &str, lo: u32, hi: u32) -> Expr {
    Expr::Ident(id(name, lo, hi))
}

/// A leaf standing for a construct no rule touches (a literal, say).
fn leaf(lo: u32, hi: u32) -> Expr {
    Expr::Other { span: sp(lo, hi), children: Vec::new() }
}

fn call(callee: Expr, args: Vec<Expr>, lo: u32, hi: u32) -> Expr {
    Expr::Call { span: sp(lo, hi), callee: Box::new(callee), args }
}

fn member(obj: Expr, prop: MemberProp, lo: u32, hi: u32) -> Expr {
    Expr::Member { span: sp(lo, hi), obj: Box::new(obj), prop }
}

fn bin(op: BinOp, left: Expr, right: Expr, lo: u32, hi: u32) -> Expr {
    Expr::Bin { span: sp(lo, hi), op, left: Box::new(left), right: Box::new(right) }
}

/// One statement wrapping an expression, as `const res = await <e>;` would.
fn stmt(e: Expr, lo: u32, hi: u32) -> Expr {
    Expr::Other { span: sp(lo, hi), children: vec![e] }
}

fn program(body: Vec<Expr>) -> Program {
    Program { body }
}

fn run(p: Program) -> Program {
    process_transform(p, HostMetadata {})
}

// `const res = await fetch('http://localhost:9999');`
fn bare_fetch_program(callee_name: &str) -> Program {
    program(vec![stmt(
        call(ident(callee_name, 18, 23), vec![leaf(24, 47)], 18, 48),
        0,
        49,
    )])
}

// `const res = await G.fetch('http://localhost:9999');`
fn member_fetch_program(obj_name: &str, prop_name: &str) -> Program {
    program(vec![stmt(
        call(
            member(
                ident(obj_name, 18, 28),
                MemberProp::Ident(id(prop_name, 29, 34)),
                18,
                34,
            ),
            vec![leaf(35, 58)],
            18,
            59,
        ),
        0,
        60,
    )])
}

#[test]
fn replace_fetch() {
    let got = run(bare_fetch_program("fetch"));
    let want = program(vec![stmt(
        call(ident("my_fetch", 18, 23), vec![leaf(24, 47)], 18, 48),
        0,
        49,
    )]);
    assert_eq!(got, want);
}

#[test]
fn global_this_fetch() {
    let got = run(member_fetch_program("globalThis", "fetch"));
    let want = program(vec![stmt(
        call(
            member(
                ident("globalThis", 18, 28),
                MemberProp::Ident(id("my_fetch", 29, 34)),
                18,
                34,
            ),
            vec![leaf(35, 58)],
            18,
            59,
        ),
        0,
        60,
    )]);
    assert_eq!(got, want);
}

#[test]
fn widow_fetch() {
    let got = run(member_fetch_program("window", "fetch"));
    let want = program(vec![stmt(
        call(
            member(
                ident("window", 18, 28),
                MemberProp::Ident(id("my_fetch", 29, 34)),
                18,
                34,
            ),
            vec![leaf(35, 58)],
            18,
            59,
        ),
        0,
        60,
    )]);
    assert_eq!(got, want);
}

#[test]
fn not_replace_fetch() {
    let got = run(bare_fetch_program("custom_fetch"));
    assert_eq!(got, bare_fetch_program("custom_fetch"));
}

#[test]
fn substring_name_does_not_match() {
    let got = run(bare_fetch_program("prefetch"));
    assert_eq!(got, bare_fetch_program("prefetch"));

    let got = run(bare_fetch_program("fetching"));
    assert_eq!(got, bare_fetch_program("fetching"));
}

#[test]
fn member_call_through_other_object_untouched() {
    let got = run(member_fetch_program("other", "fetch"));
    assert_eq!(got, member_fetch_program("other", "fetch"));
}

#[test]
fn member_call_of_other_property_untouched() {
    let got = run(member_fetch_program("other", "fetch_thing"));
    assert_eq!(got, member_fetch_program("other", "fetch_thing"));

    let got = run(member_fetch_program("window", "fetch_thing"));
    assert_eq!(got, member_fetch_program("window", "fetch_thing"));
}

// `window[f]()`: a computed property is not a plain identifier, so the
// member rule must not fire, and the identifier inside the brackets is not
// in callee position, so the bare rule must not fire either.
fn computed_call_program() -> Program {
    program(vec![stmt(
        call(
            member(
                ident("window", 0, 6),
                MemberProp::Computed(Box::new(ident("fetch", 7, 12))),
                0,
                13,
            ),
            vec![],
            0,
            15,
        ),
        0,
        16,
    )])
}

#[test]
fn computed_property_call_untouched() {
    let got = run(computed_call_program());
    assert_eq!(got, computed_call_program());
}

// `window.fetch` standing alone, not called: no callee slot, no rewrite.
fn member_not_called_program() -> Program {
    program(vec![stmt(
        member(
            ident("window", 0, 6),
            MemberProp::Ident(id("fetch", 7, 12)),
            0,
            12,
        ),
        0,
        13,
    )])
}

#[test]
fn member_access_outside_call_untouched() {
    let got = run(member_not_called_program());
    assert_eq!(got, member_not_called_program());
}

// A bare `fetch` identifier used as an argument, not as a callee.
#[test]
fn bare_identifier_outside_callee_untouched() {
    let p = || program(vec![stmt(call(ident("log", 0, 3), vec![ident("fetch", 4, 9)], 0, 10), 0, 11)]);
    let got = run(p());
    assert_eq!(got, p());
}

// `fetch(fetch(x))`: the outer callee and the nested call inside the
// arguments are both rewritten.
#[test]
fn nested_calls_each_rewritten() {
    let p = program(vec![stmt(
        call(
            ident("fetch", 0, 5),
            vec![call(ident("fetch", 6, 11), vec![leaf(12, 13)], 6, 14)],
            0,
            15,
        ),
        0,
        16,
    )]);
    let want = program(vec![stmt(
        call(
            ident("my_fetch", 0, 5),
            vec![call(ident("my_fetch", 6, 11), vec![leaf(12, 13)], 6, 14)],
            0,
            15,
        ),
        0,
        16,
    )]);
    assert_eq!(run(p), want);
}

#[test]
fn strict_equality_left_replaced_with_span_copied() {
    // `log(x) === b`: the left operand is discarded wholesale, whatever it
    // was, and the replacement identifier carries the old operand's span.
    let p = program(vec![stmt(
        bin(
            BinOp::EqEqEq,
            call(ident("log", 4, 7), vec![ident("x", 8, 9)], 4, 10),
            ident("b", 15, 16),
            4,
            16,
        ),
        0,
        18,
    )]);
    let want = program(vec![stmt(
        bin(
            BinOp::EqEqEq,
            ident("kdy1", 4, 10),
            ident("b", 15, 16),
            4,
            16,
        ),
        0,
        18,
    )]);
    assert_eq!(run(p), want);
}

#[test]
fn non_strict_operators_untouched() {
    let p = |op: BinOp| {
        program(vec![stmt(
            bin(op, ident("a", 4, 5), ident("b", 10, 11), 4, 11),
            0,
            13,
        )])
    };
    assert_eq!(run(p(BinOp::EqEq)), p(BinOp::EqEq));
    assert_eq!(run(p(BinOp::NotEqEq)), p(BinOp::NotEqEq));
    assert_eq!(run(p(BinOp::Add)), p(BinOp::Add));
}

// `if (a === b) { log(a); }`: only the operand directly inside the matched
// binary expression is replaced; the `a` inside the block body stays.
fn if_strict_eq_program(left_name: &str) -> Program {
    program(vec![Expr::Other {
        span: sp(0, 25),
        children: vec![
            bin(BinOp::EqEqEq, ident(left_name, 4, 5), ident("b", 10, 11), 4, 11),
            Expr::Other {
                span: sp(13, 25),
                children: vec![call(ident("log", 15, 18), vec![ident("a", 19, 20)], 15, 21)],
            },
        ],
    }])
}

#[test]
fn only_matched_operand_replaced_inside_if() {
    let got = run(if_strict_eq_program("a"));
    assert_eq!(got, if_strict_eq_program("kdy1"));
}

fn mixed_program() -> Program {
    program(vec![
        stmt(call(ident("fetch", 0, 5), vec![leaf(6, 7)], 0, 8), 0, 9),
        stmt(
            call(
                member(
                    ident("window", 10, 16),
                    MemberProp::Ident(id("fetch", 17, 22)),
                    10,
                    22,
                ),
                vec![],
                10,
                24,
            ),
            10,
            25,
        ),
        stmt(bin(BinOp::EqEqEq, leaf(26, 30), ident("b", 35, 36), 26, 36), 26, 37),
    ])
}

#[test]
fn running_twice_equals_running_once() {
    let once = run(mixed_program());
    let twice = run(run(mixed_program()));
    assert_eq!(once, twice);
}

#[test]
fn noop_on_target_free_program() {
    let p = || {
        program(vec![
            stmt(call(ident("log", 0, 3), vec![ident("a", 4, 5)], 0, 6), 0, 7),
            stmt(bin(BinOp::EqEq, ident("a", 8, 9), ident("b", 10, 11), 8, 11), 8, 12),
        ])
    };
    assert_eq!(run(p()), p());
}

#[test]
fn visitor_rewrites_callee_slot_in_place() {
    let mut v = TransformVisitor::new();
    let mut callee = member(
        ident("globalThis", 0, 10),
        MemberProp::Ident(id("fetch", 11, 16)),
        0,
        16,
    );
    v.visit_mut_callee(&mut callee);
    let want = member(
        ident("globalThis", 0, 10),
        MemberProp::Ident(id("my_fetch", 11, 16)),
        0,
        16,
    );
    assert_eq!(callee, want);
}

#[test]
fn visitor_rewrites_expression_slot_in_place() {
    let mut v = TransformVisitor::new();
    let mut e = call(ident("fetch", 0, 5), vec![], 0, 7);
    v.visit_mut_expr(&mut e);
    assert_eq!(e, call(ident("my_fetch", 0, 5), vec![], 0, 7));
}

#[test]
fn rewrite_callee_renames_bare_target_keeping_span() {
    let got = rewrite_callee(ident("fetch", 3, 8));
    assert_eq!(got, ident("my_fetch", 3, 8));
}

#[test]
fn rewrite_callee_leaves_non_callee_shapes() {
    let got = rewrite_callee(leaf(0, 4));
    assert_eq!(got, leaf(0, 4));
}

#[test]
fn rewrite_bin_left_only_under_strict_equality() {
    let got = rewrite_bin_left(BinOp::EqEqEq, leaf(2, 9));
    assert_eq!(got, ident("kdy1", 2, 9));

    let got = rewrite_bin_left(BinOp::EqEq, leaf(2, 9));
    assert_eq!(got, leaf(2, 9));
}

#[test]
fn rewrite_expr_alone_matches_entry_point() {
    let e = call(ident("fetch", 0, 5), vec![leaf(6, 7)], 0, 8);
    let got = rewrite_expr(e);
    assert_eq!(got, call(ident("my_fetch", 0, 5), vec![leaf(6, 7)], 0, 8));
}

#[test]
fn span_of_reads_each_shape() {
    assert_eq!(span_of(&ident("a", 1, 2)), sp(1, 2));
    assert_eq!(span_of(&leaf(3, 4)), sp(3, 4));
    assert_eq!(span_of(&call(ident("f", 5, 6), vec![], 5, 8)), sp(5, 8));
}
