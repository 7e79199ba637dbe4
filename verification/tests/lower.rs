use asm_lowering::ast::{Expr, HostExpr, HostStmt, Ident, Lit, Span};
use asm_lowering::ast;
use asm_lowering::context::Context;
use asm_lowering::fold::Stmt;
use asm_lowering::serialize::{all_supported, lower, serialize};
use asm_lowering::size::Size;
use asm_lowering::target::Method;

const CALL_SITE: Span = Span { lo: 100, hi: 140 };

const OPS: HostExpr = HostExpr { id: 0, span: Span { lo: 100, hi: 103 } };

fn cx() -> Context {
    Context::new(CALL_SITE)
}

fn host(id: usize) -> Expr {
    Expr::Host(HostExpr { id, span: Span { lo: 110, hi: 115 } })
}

fn label(name: &str) -> Ident {
    Ident { name: name.to_string(), span: Span { lo: 120, hi: 121 } }
}

fn label_literal(name: &str) -> Expr {
    Expr::Lit(Span { lo: 120, hi: 121 }, Lit::Str(name.to_string()))
}

fn call(method: &str, args: Vec<Expr>) -> ast::Stmt {
    ast::Stmt::Semi(Expr::MethodCall(CALL_SITE, Box::new(Expr::Host(OPS)), method.to_string(), args))
}

fn bytes(data: &[u8]) -> Expr {
    Expr::Lit(CALL_SITE, Lit::ByteStr(data.to_vec()))
}

#[test]
fn unsigned_values_are_pushed_by_width() {
    for (size, method) in [
        (Size::BYTE, "push"),
        (Size::WORD, "push_u16"),
        (Size::DWORD, "push_u32"),
        (Size::QWORD, "push_u64"),
    ] {
        let out = lower(&cx(), OPS, Stmt::ExprUnsigned(host(1), size));
        assert_eq!(out, call(method, vec![host(1)]));
    }
}

#[test]
fn signed_values_are_pushed_by_width() {
    for (size, method) in [
        (Size::BYTE, "push_i8"),
        (Size::WORD, "push_i16"),
        (Size::DWORD, "push_i32"),
        (Size::QWORD, "push_i64"),
    ] {
        let out = lower(&cx(), OPS, Stmt::ExprSigned(host(1), size));
        assert_eq!(out, call(method, vec![host(1)]));
    }
}

#[test]
fn a_word_is_pushed_with_its_expression_unchanged() {
    let e = Expr::Binary(
        Span { lo: 1, hi: 9 },
        ast::BinOp::Add,
        Box::new(host(4)),
        Box::new(Expr::Lit(Span { lo: 8, hi: 9 }, Lit::Int(1, ast::IntSuffix::Unsuffixed))),
    );
    let expected = Expr::Binary(
        Span { lo: 1, hi: 9 },
        ast::BinOp::Add,
        Box::new(host(4)),
        Box::new(Expr::Lit(Span { lo: 8, hi: 9 }, Lit::Int(1, ast::IntSuffix::Unsuffixed))),
    );
    let out = serialize(&cx(), OPS, vec![Stmt::ExprUnsigned(e, Size::WORD)]);
    assert_eq!(out, vec![call("push_u16", vec![expected])]);
}

#[test]
fn raw_bytes_become_a_byte_string_at_the_call_site() {
    let out = lower(&cx(), OPS, Stmt::Extend(vec![0x90, 0xc3]));
    assert_eq!(out, call("extend", vec![bytes(&[0x90, 0xc3])]));
}

#[test]
fn computed_bytes_and_alignment_hand_their_expression_on() {
    assert_eq!(lower(&cx(), OPS, Stmt::ExprExtend(host(2))), call("extend", vec![host(2)]));
    assert_eq!(lower(&cx(), OPS, Stmt::Align(host(3))), call("align", vec![host(3)]));
}

#[test]
fn labels_are_declared_by_name() {
    assert_eq!(
        lower(&cx(), OPS, Stmt::GlobalLabel(label("start"))),
        call("global_label", vec![label_literal("start")])
    );
    assert_eq!(
        lower(&cx(), OPS, Stmt::LocalLabel(label("again"))),
        call("local_label", vec![label_literal("again")])
    );
    assert_eq!(
        lower(&cx(), OPS, Stmt::DynamicLabel(host(5))),
        call("dynamic_label", vec![host(5)])
    );
}

#[test]
fn jump_targets_carry_their_relocation() {
    assert_eq!(
        lower(&cx(), OPS, Stmt::GlobalJumpTarget(label("start"), host(6))),
        call("global_reloc", vec![label_literal("start"), host(6)])
    );
    assert_eq!(
        lower(&cx(), OPS, Stmt::ForwardJumpTarget(label("next"), host(7))),
        call("forward_reloc", vec![label_literal("next"), host(7)])
    );
    assert_eq!(
        lower(&cx(), OPS, Stmt::BackwardJumpTarget(label("prev"), host(8))),
        call("backward_reloc", vec![label_literal("prev"), host(8)])
    );
    assert_eq!(
        lower(&cx(), OPS, Stmt::DynamicJumpTarget(host(9), host(10))),
        call("dynamic_reloc", vec![host(9), host(10)])
    );
    assert_eq!(
        lower(&cx(), OPS, Stmt::BareJumpTarget(host(11), host(12))),
        call("bare_reloc", vec![host(11), host(12)])
    );
}

#[test]
fn a_host_statement_passes_through() {
    let inner = ast::Stmt::Host(HostStmt { id: 77 });
    assert_eq!(lower(&cx(), OPS, Stmt::Stmt(inner)), ast::Stmt::Host(HostStmt { id: 77 }));

    let built = ast::Stmt::Semi(host(1));
    assert_eq!(lower(&cx(), OPS, Stmt::Stmt(built)), ast::Stmt::Semi(host(1)));
}

#[test]
fn method_names_are_those_of_the_assembler() {
    let names: Vec<&str> = [
        Method::Push,
        Method::PushU16,
        Method::PushU32,
        Method::PushU64,
        Method::PushI8,
        Method::PushI16,
        Method::PushI32,
        Method::PushI64,
        Method::Extend,
        Method::Align,
        Method::GlobalLabel,
        Method::LocalLabel,
        Method::DynamicLabel,
        Method::GlobalReloc,
        Method::ForwardReloc,
        Method::BackwardReloc,
        Method::DynamicReloc,
        Method::BareReloc,
        Method::RuntimeError,
    ]
    .iter()
    .map(|m| m.as_str())
    .collect();
    assert_eq!(
        names,
        vec![
            "push",
            "push_u16",
            "push_u32",
            "push_u64",
            "push_i8",
            "push_i16",
            "push_i32",
            "push_i64",
            "extend",
            "align",
            "global_label",
            "local_label",
            "dynamic_label",
            "global_reloc",
            "forward_reloc",
            "backward_reloc",
            "dynamic_reloc",
            "bare_reloc",
            "runtime_error",
        ]
    );
}

#[test]
fn constants_around_a_label_stay_on_their_side() {
    let out = serialize(
        &cx(),
        OPS,
        vec![Stmt::Const(1, Size::BYTE), Stmt::GlobalLabel(label("L")), Stmt::Const(2, Size::BYTE)],
    );
    assert_eq!(
        out,
        vec![
            call("extend", vec![bytes(&[1])]),
            call("global_label", vec![label_literal("L")]),
            call("extend", vec![bytes(&[2])]),
        ]
    );
}

#[test]
fn a_word_constant_is_written_low_byte_first() {
    let out = serialize(&cx(), OPS, vec![Stmt::u16(0x1234)]);
    assert_eq!(out, vec![call("extend", vec![bytes(&[0x34, 0x12])])]);
    let out = serialize(&cx(), OPS, vec![Stmt::u32(0x1234_5678), Stmt::u64(1)]);
    assert_eq!(
        out,
        vec![call("extend", vec![bytes(&[0x78, 0x56, 0x34, 0x12, 1, 0, 0, 0, 0, 0, 0, 0])])]
    );
}

#[test]
fn a_run_becomes_fewer_calls_than_statements() {
    let stmts: Vec<Stmt> = (0..100u8).map(Stmt::u8).collect();
    let out = serialize(&cx(), OPS, stmts);
    let all: Vec<u8> = (0..100u8).collect();
    assert_eq!(
        out,
        vec![
            call("extend", vec![bytes(&all[..32])]),
            call("extend", vec![bytes(&all[32..64])]),
            call("extend", vec![bytes(&all[64..96])]),
            call("extend", vec![bytes(&all[96..])]),
        ]
    );
}

#[test]
fn a_whole_instruction_is_lowered_in_order() {
    let out = serialize(
        &cx(),
        OPS,
        vec![
            Stmt::LocalLabel(label("top")),
            Stmt::u8(0x48),
            Stmt::Extend(vec![0x8b, 0x05]),
            Stmt::ExprSigned(host(1), Size::DWORD),
            Stmt::Stmt(ast::Stmt::Host(HostStmt { id: 9 })),
            Stmt::u8(0xe9),
            Stmt::BackwardJumpTarget(label("top"), host(2)),
            Stmt::Align(host(3)),
        ],
    );
    assert_eq!(
        out,
        vec![
            call("local_label", vec![label_literal("top")]),
            call("extend", vec![bytes(&[0x48, 0x8b, 0x05])]),
            call("push_i32", vec![host(1)]),
            ast::Stmt::Host(HostStmt { id: 9 }),
            call("extend", vec![bytes(&[0xe9])]),
            call("backward_reloc", vec![label_literal("top"), host(2)]),
            call("align", vec![host(3)]),
        ]
    );
}

#[test]
fn nothing_is_lowered_to_nothing() {
    assert_eq!(serialize(&cx(), OPS, vec![]), vec![]);
}

#[test]
fn a_six_byte_constant_is_not_accepted() {
    assert!(!all_supported(&vec![Stmt::Const(5, Size::FWORD)]));
    assert!(!all_supported(&vec![Stmt::u8(1), Stmt::Const(5, Size::FWORD), Stmt::u8(2)]));
    assert!(!all_supported(&vec![Stmt::ExprUnsigned(host(1), Size::OWORD)]));
    assert!(!all_supported(&vec![Stmt::u8(1), Stmt::ExprSigned(host(1), Size::PWORD)]));
    assert!(!all_supported(&vec![Stmt::Const(0, Size::HWORD)]));
}

#[test]
fn lists_of_writable_widths_are_accepted() {
    assert!(all_supported(&vec![]));
    assert!(all_supported(&vec![
        Stmt::u8(1),
        Stmt::u16(2),
        Stmt::u32(3),
        Stmt::u64(4),
        Stmt::ExprUnsigned(host(1), Size::QWORD),
        Stmt::ExprSigned(host(2), Size::BYTE),
        Stmt::GlobalLabel(label("x")),
        Stmt::Extend(vec![0; 40]),
    ]));
}
