use asm_lowering::ast::{Expr, HostExpr, HostStmt, Ident, Span};
use asm_lowering::ast;
use asm_lowering::endian::push_le;
use asm_lowering::fold::{fold_constants, Stmt, CHUNK};
use asm_lowering::size::Size;

fn sp(lo: u32, hi: u32) -> Span {
    Span { lo, hi }
}

fn host(id: usize) -> Expr {
    Expr::Host(HostExpr { id, span: sp(10, 20) })
}

fn label(name: &str) -> Ident {
    Ident { name: name.to_string(), span: sp(3, 4) }
}

fn block_lengths(stmts: &[Stmt]) -> Vec<usize> {
    stmts
        .iter()
        .map(|s| match s {
            Stmt::Extend(bytes) => bytes.len(),
            other => panic!("not a block: {:?}", other),
        })
        .collect()
}

fn block_bytes(stmts: &[Stmt]) -> Vec<u8> {
    let mut all = Vec::new();
    for s in stmts {
        match s {
            Stmt::Extend(bytes) => all.extend_from_slice(bytes),
            other => panic!("not a block: {:?}", other),
        }
    }
    all
}

#[test]
fn constructors_pick_the_width() {
    assert_eq!(Stmt::u8(0xab), Stmt::Const(0xab, Size::BYTE));
    assert_eq!(Stmt::u16(0xabcd), Stmt::Const(0xabcd, Size::WORD));
    assert_eq!(Stmt::u32(0xabcd_ef01), Stmt::Const(0xabcd_ef01, Size::DWORD));
    assert_eq!(Stmt::u64(0xabcd_ef01_2345_6789), Stmt::Const(0xabcd_ef01_2345_6789, Size::QWORD));
    assert_eq!(Stmt::u8(u8::MAX), Stmt::Const(255, Size::BYTE));
    assert_eq!(Stmt::u64(u64::MAX), Stmt::Const(u64::MAX, Size::QWORD));
}

#[test]
fn push_le_writes_low_byte_first() {
    let mut buffer = vec![0xee];
    push_le(&mut buffer, 0x1234, Size::WORD);
    assert_eq!(buffer, vec![0xee, 0x34, 0x12]);
    push_le(&mut buffer, 0x1234_5678, Size::DWORD);
    assert_eq!(buffer, vec![0xee, 0x34, 0x12, 0x78, 0x56, 0x34, 0x12]);

    let mut buffer = Vec::new();
    push_le(&mut buffer, 0x0102_0304_0506_0708, Size::QWORD);
    assert_eq!(buffer, vec![8, 7, 6, 5, 4, 3, 2, 1]);

    let mut buffer = Vec::new();
    push_le(&mut buffer, 0x7f, Size::BYTE);
    assert_eq!(buffer, vec![0x7f]);
}

#[test]
fn push_le_cuts_the_value_down_to_the_width() {
    let mut buffer = Vec::new();
    push_le(&mut buffer, 0x1ff, Size::BYTE);
    assert_eq!(buffer, vec![0xff]);

    let mut buffer = Vec::new();
    push_le(&mut buffer, 0x0012_3456, Size::WORD);
    assert_eq!(buffer, vec![0x56, 0x34]);

    let mut buffer = Vec::new();
    push_le(&mut buffer, 0xaabb_ccdd_1122_3344, Size::DWORD);
    assert_eq!(buffer, vec![0x44, 0x33, 0x22, 0x11]);

    let mut buffer = Vec::new();
    push_le(&mut buffer, u64::MAX, Size::QWORD);
    assert_eq!(buffer, vec![0xff; 8]);
}

#[test]
fn constants_of_each_width_fold_to_little_endian_bytes() {
    let out = fold_constants(vec![
        Stmt::u8(0x01),
        Stmt::u16(0x0203),
        Stmt::u32(0x0405_0607),
        Stmt::u64(0x0809_0a0b_0c0d_0e0f),
    ]);
    assert_eq!(
        out,
        vec![Stmt::Extend(vec![
            0x01, 0x03, 0x02, 0x07, 0x06, 0x05, 0x04, 0x0f, 0x0e, 0x0d, 0x0c, 0x0b, 0x0a, 0x09, 0x08,
        ])]
    );
}

#[test]
fn constants_and_raw_bytes_fold_together_in_order() {
    let out = fold_constants(vec![
        Stmt::Extend(vec![0xaa, 0xbb]),
        Stmt::u16(0x1122),
        Stmt::Extend(vec![]),
        Stmt::Extend(vec![0xcc]),
        Stmt::u8(0xdd),
    ]);
    assert_eq!(out, vec![Stmt::Extend(vec![0xaa, 0xbb, 0x22, 0x11, 0xcc, 0xdd])]);
}

#[test]
fn the_same_bytes_fold_alike_however_they_are_divided() {
    let one = fold_constants(vec![Stmt::u32(0x4433_2211)]);
    let two = fold_constants(vec![Stmt::u16(0x2211), Stmt::u16(0x4433)]);
    let four = fold_constants(vec![Stmt::u8(0x11), Stmt::u8(0x22), Stmt::u8(0x33), Stmt::u8(0x44)]);
    let raw = fold_constants(vec![Stmt::Extend(vec![0x11, 0x22, 0x33]), Stmt::Extend(vec![0x44])]);
    let expected = vec![Stmt::Extend(vec![0x11, 0x22, 0x33, 0x44])];
    assert_eq!(one, expected);
    assert_eq!(two, expected);
    assert_eq!(four, expected);
    assert_eq!(raw, expected);
}

#[test]
fn nothing_folds_to_nothing() {
    assert_eq!(fold_constants(vec![]), vec![]);
    assert_eq!(fold_constants(vec![Stmt::Extend(vec![])]), vec![]);
    assert_eq!(fold_constants(vec![Stmt::Extend(vec![]), Stmt::Extend(vec![])]), vec![]);
}

#[test]
fn a_hundred_bytes_make_four_blocks() {
    let stmts: Vec<Stmt> = (0..100u8).map(Stmt::u8).collect();
    let out = fold_constants(stmts);
    assert_eq!(block_lengths(&out), vec![32, 32, 32, 4]);
    assert_eq!(block_bytes(&out), (0..100u8).collect::<Vec<u8>>());
}

#[test]
fn a_hundred_bytes_of_mixed_widths_make_four_blocks() {
    // 12 quadwords and one doubleword: 100 bytes
    let mut stmts: Vec<Stmt> = (0..12u64).map(|i| Stmt::u64(0x0101_0101_0101_0101 * i)).collect();
    stmts.push(Stmt::u32(0xdead_beef));
    let out = fold_constants(stmts);
    assert_eq!(block_lengths(&out), vec![32, 32, 32, 4]);
    let mut expected = Vec::new();
    for i in 0..12u8 {
        expected.extend_from_slice(&[i; 8]);
    }
    expected.extend_from_slice(&[0xef, 0xbe, 0xad, 0xde]);
    assert_eq!(block_bytes(&out), expected);
}

#[test]
fn blocks_are_full_up_to_the_limit() {
    assert_eq!(CHUNK, 32);
    for (n, lengths) in [
        (1usize, vec![1usize]),
        (31, vec![31]),
        (32, vec![32]),
        (33, vec![32, 1]),
        (64, vec![32, 32]),
        (65, vec![32, 32, 1]),
    ] {
        let stmts: Vec<Stmt> = (0..n).map(|i| Stmt::u8(i as u8)).collect();
        let out = fold_constants(stmts);
        assert_eq!(block_lengths(&out), lengths, "{} bytes", n);
        assert_eq!(block_bytes(&out), (0..n).map(|i| i as u8).collect::<Vec<u8>>());
    }
}

#[test]
fn long_raw_bytes_are_cut_too() {
    let data: Vec<u8> = (0..70u8).collect();
    let out = fold_constants(vec![Stmt::Extend(data.clone())]);
    assert_eq!(
        out,
        vec![
            Stmt::Extend(data[..32].to_vec()),
            Stmt::Extend(data[32..64].to_vec()),
            Stmt::Extend(data[64..].to_vec()),
        ]
    );
}

#[test]
fn a_block_that_is_full_waits_for_the_next_byte() {
    let mut stmts = vec![Stmt::Extend(vec![7; 32])];
    stmts.push(Stmt::Align(host(0)));
    stmts.push(Stmt::Extend(vec![8; 32]));
    stmts.push(Stmt::u8(9));
    let out = fold_constants(stmts);
    assert_eq!(
        out,
        vec![
            Stmt::Extend(vec![7; 32]),
            Stmt::Align(host(0)),
            Stmt::Extend(vec![8; 32]),
            Stmt::Extend(vec![9]),
        ]
    );
}

#[test]
fn folding_does_not_cross_a_label() {
    let out = fold_constants(vec![Stmt::u8(1), Stmt::GlobalLabel(label("L")), Stmt::u8(2)]);
    assert_eq!(
        out,
        vec![Stmt::Extend(vec![1]), Stmt::GlobalLabel(label("L")), Stmt::Extend(vec![2])]
    );
}

#[test]
fn every_other_statement_is_a_boundary_and_keeps_its_place() {
    let others = || {
        vec![
            Stmt::ExprUnsigned(host(1), Size::BYTE),
            Stmt::ExprSigned(host(2), Size::QWORD),
            Stmt::ExprExtend(host(3)),
            Stmt::Align(host(4)),
            Stmt::GlobalLabel(label("g")),
            Stmt::LocalLabel(label("l")),
            Stmt::DynamicLabel(host(5)),
            Stmt::GlobalJumpTarget(label("g"), host(6)),
            Stmt::ForwardJumpTarget(label("l"), host(7)),
            Stmt::BackwardJumpTarget(label("l"), host(8)),
            Stmt::DynamicJumpTarget(host(9), host(10)),
            Stmt::BareJumpTarget(host(11), host(12)),
            Stmt::Stmt(ast::Stmt::Host(HostStmt { id: 13 })),
        ]
    };
    let mut input = Vec::new();
    let mut expected = Vec::new();
    for (i, other) in others().into_iter().zip(others()).enumerate() {
        input.push(Stmt::u8(i as u8));
        input.push(Stmt::u8(0xf0));
        input.push(other.0);
        expected.push(Stmt::Extend(vec![i as u8, 0xf0]));
        expected.push(other.1);
    }
    assert_eq!(fold_constants(input), expected);
}

#[test]
fn neighbours_that_are_not_folded_stay_as_they_are() {
    let out = fold_constants(vec![
        Stmt::Align(host(1)),
        Stmt::DynamicLabel(host(2)),
        Stmt::u16(0xbeef),
        Stmt::LocalLabel(label("a")),
        Stmt::LocalLabel(label("b")),
    ]);
    assert_eq!(
        out,
        vec![
            Stmt::Align(host(1)),
            Stmt::DynamicLabel(host(2)),
            Stmt::Extend(vec![0xef, 0xbe]),
            Stmt::LocalLabel(label("a")),
            Stmt::LocalLabel(label("b")),
        ]
    );
}

#[test]
fn widths_that_cannot_be_written_are_told_apart() {
    for size in [Size::BYTE, Size::WORD, Size::DWORD, Size::QWORD] {
        assert!(Stmt::Const(5, size).is_supported());
        assert!(Stmt::ExprUnsigned(host(0), size).is_supported());
        assert!(Stmt::ExprSigned(host(0), size).is_supported());
    }
    for size in [Size::FWORD, Size::PWORD, Size::OWORD, Size::HWORD] {
        assert!(!Stmt::Const(5, size).is_supported());
        assert!(!Stmt::ExprUnsigned(host(0), size).is_supported());
        assert!(!Stmt::ExprSigned(host(0), size).is_supported());
    }
    assert!(Stmt::Extend(vec![1, 2, 3]).is_supported());
    assert!(Stmt::GlobalLabel(label("x")).is_supported());
    assert!(Stmt::Stmt(ast::Stmt::Host(HostStmt { id: 0 })).is_supported());
}
