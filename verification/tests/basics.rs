use asm_lowering::ast::{Expr, HostExpr, HostPath, Ident, IntSuffix, Lit, Path, Span, Ty};
use asm_lowering::context::Context;
use asm_lowering::size::Size;

const ALL: [Size; 8] = [
    Size::BYTE,
    Size::WORD,
    Size::DWORD,
    Size::FWORD,
    Size::QWORD,
    Size::PWORD,
    Size::OWORD,
    Size::HWORD,
];

#[test]
fn widths_in_bytes() {
    let bytes: Vec<u8> = ALL.iter().map(|s| s.in_bytes()).collect();
    assert_eq!(bytes, vec![1, 2, 4, 6, 8, 10, 16, 32]);
}

#[test]
fn widths_are_ordered_by_their_bytes() {
    for a in ALL {
        for b in ALL {
            assert_eq!(a.cmp(&b), a.in_bytes().cmp(&b.in_bytes()));
            assert_eq!(a < b, a.in_bytes() < b.in_bytes());
            assert_eq!(a == b, a.in_bytes() == b.in_bytes());
        }
    }
}

#[test]
fn widths_of_one_two_four_and_eight_bytes_can_be_written() {
    let encodable: Vec<bool> = ALL.iter().map(|s| s.is_encodable()).collect();
    assert_eq!(encodable, vec![true, true, true, false, true, false, false, false]);
}

#[test]
fn widths_name_their_integer_type() {
    let names: Vec<String> = ALL.iter().map(|s| s.as_literal().name).collect();
    assert_eq!(names, vec!["i8", "i16", "i32", "i48", "i64", "i80", "i128", "i256"]);
    assert_eq!(Size::QWORD.as_literal(), Ident { name: "i64".to_string(), span: Span::dummy() });
}

#[test]
fn made_up_identifiers_have_no_position() {
    assert_eq!(Span::dummy(), Span { lo: 0, hi: 0 });
    assert_eq!(Ident::from_str("rv"), Ident { name: "rv".to_string(), span: Span { lo: 0, hi: 0 } });
}

#[test]
fn a_new_context_has_named_no_temporary() {
    let cx = Context::new(Span { lo: 5, hi: 6 });
    assert_eq!(cx.call_site, Span { lo: 5, hi: 6 });
    assert_eq!(cx.temporaries, 0);
    assert!(cx.has_fresh_temp());
}

#[test]
fn temporaries_are_numbered_in_decimal() {
    let mut cx = Context::new(Span { lo: 5, hi: 6 });
    assert_eq!(cx.fresh_temp(), "temp");
    assert_eq!(cx.fresh_temp(), "temp1");
    assert_eq!(cx.temporaries, 2);

    let mut cx = Context { call_site: Span { lo: 5, hi: 6 }, temporaries: 9 };
    assert_eq!(cx.fresh_temp(), "temp9");
    assert_eq!(cx.fresh_temp(), "temp10");
    assert_eq!(cx.fresh_temp(), "temp11");

    let mut cx = Context { call_site: Span { lo: 5, hi: 6 }, temporaries: 1_234_567_890 };
    assert_eq!(cx.fresh_temp(), "temp1234567890");
    assert_eq!(cx.call_site, Span { lo: 5, hi: 6 });

    let mut cx = Context { call_site: Span { lo: 5, hi: 6 }, temporaries: u64::MAX - 1 };
    assert!(cx.has_fresh_temp());
    assert_eq!(cx.fresh_temp(), "temp18446744073709551614");
    assert!(!cx.has_fresh_temp());
}

#[test]
fn every_expression_knows_its_position() {
    let here = Span { lo: 1, hi: 2 };
    let there = Span { lo: 3, hi: 4 };
    let inner = || Box::new(Expr::Host(HostExpr { id: 0, span: there }));
    assert_eq!(Expr::Host(HostExpr { id: 0, span: there }).span(), there);
    assert_eq!(Expr::integer(here, 1).span(), here);
    assert_eq!(Expr::ident(here, "x").span(), here);
    assert_eq!(Expr::Path(Path::Host(HostPath { id: 1, span: there })).span(), there);
    assert_eq!(Expr::AddrOf(here, inner()).span(), here);
    assert_eq!(Expr::Field(here, inner(), "f".to_string()).span(), here);
    assert_eq!(Expr::Tuple(here, vec![]).span(), here);
    assert_eq!(Expr::Call(here, inner(), vec![]).span(), here);
    assert_eq!(Expr::MethodCall(here, inner(), "m".to_string(), vec![]).span(), here);
    assert_eq!(Expr::Match(here, inner(), vec![]).span(), here);
    assert_eq!(Expr::Block(here, false, vec![]).span(), here);
    assert_eq!(Expr::Cast(here, inner(), Ty::Infer(there)).span(), here);
}

#[test]
fn literals_carry_their_suffix() {
    let here = Span { lo: 1, hi: 2 };
    assert_eq!(Expr::integer(here, 7), Expr::Lit(here, Lit::Int(7, IntSuffix::Unsuffixed)));
    assert_eq!(Expr::u8(here, 7), Expr::Lit(here, Lit::Int(7, IntSuffix::U8)));
    assert_eq!(Expr::str(here, "seven"), Expr::Lit(here, Lit::Str("seven".to_string())));
}
