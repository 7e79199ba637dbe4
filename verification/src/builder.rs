//! Builders of host expressions: the arithmetic that computes the fields of an
//! addressing mode when the generated program runs.
//!
//! Each builder has a spec function of the same name without the `expr_` in front,
//! which says over views which tree it builds.

use crate::ast::{
    no_exprs, one_expr, Arm, ArmView, BinOp, Expr, ExprView, HostExpr, HostPath, Ident, IdentView,
    IntSuffix, Lit, LitView, Pat, PatView, Path, PathView, Span, Stmt, StmtView, Ty, TyView,
};
use crate::ast::{arms_view, exprs_view, stmts_view, tys_view};
use crate::context::{temp_name, Context};
use crate::size::Size;
use crate::target::Method;
use vstd::prelude::*;

verus! {

/// The literal `0`.
pub open spec fn zero(call_site: Span) -> ExprView {
    ExprView::integer(call_site, 0)
}

/// The name of `i` as a string literal, at the place of `i`.
pub open spec fn string_from_ident(i: IdentView) -> ExprView {
    ExprView::str(i.span, i.name)
}

/// `orig | ((expr & mask) << shift)`, where a negative `shift` shifts to the right
/// instead and a `shift` of zero does not shift.
pub open spec fn mask_shift_or(orig: ExprView, expr: ExprView, mask: u64, shift: i8) -> ExprView {
    let span = expr.span();
    let masked = ExprView::binary(span, BinOp::BitAnd, expr, ExprView::integer(span, mask as u128));
    let moved = if shift < 0 {
        ExprView::binary(span, BinOp::Shr, masked, ExprView::integer(span, (-shift) as u128))
    } else if shift > 0 {
        ExprView::binary(span, BinOp::Shl, masked, ExprView::integer(span, shift as u128))
    } else {
        masked
    };
    ExprView::binary(span, BinOp::BitOr, orig, moved)
}

/// What the generated program reports when a stride is none of 1, 2, 4 and 8.
pub open spec fn scale_error() -> Seq<char> {
    "Type size not representable as scale"@
}

/// The arm `stride => code`.
pub open spec fn scale_arm(span: Span, stride: usize, code: u8) -> ArmView {
    ArmView {
        pat: PatView::Lit(span, LitView::Int(stride as u128, IntSuffix::Usize)),
        body: ExprView::u8(span, code),
    }
}

/// The arm `_ => target.runtime_error("..")`.
pub open spec fn scale_error_arm(span: Span, target: HostExpr) -> ArmView {
    ArmView {
        pat: PatView::Wild(span),
        body: ExprView::method_call(
            span,
            ExprView::Host(target),
            Method::RuntimeError.name(),
            seq![ExprView::str(span, scale_error())],
        ),
    }
}

/// `match size { 8 => 3, 4 => 2, 2 => 1, 1 => 0, _ => target.runtime_error("..") }`
pub open spec fn encode_x64_sib_scale(target: HostExpr, size: ExprView) -> ExprView {
    let span = size.span();
    ExprView::Match(
        span,
        Box::new(size),
        seq![
            scale_arm(span, 8, 3),
            scale_arm(span, 4, 2),
            scale_arm(span, 2, 1),
            scale_arm(span, 1, 0),
            scale_error_arm(span, target),
        ],
    )
}

/// `let temp = <the code of scale>;` and `rest | ((temp & 3) << 6)`.
pub open spec fn dynscale(
    call_site: Span,
    temp: Seq<char>,
    target: HostExpr,
    scale: ExprView,
    rest: ExprView,
) -> (StmtView, ExprView) {
    (
        StmtView::Local(
            call_site,
            PatView::Ident(call_site, false, temp),
            None,
            Some(encode_x64_sib_scale(target, scale)),
        ),
        mask_shift_or(rest, ExprView::ident(call_site, temp), 3, 6),
    )
}

/// The tuple of the bytes of `data`, each a literal of type `u8`.
pub open spec fn tuple_of_u8s(span: Span, data: Seq<u8>) -> ExprView {
    ExprView::Tuple(span, Seq::new(data.len(), |i: int| ExprView::u8(span, data[i])))
}

/// `((e0 + e1) + e2) + ..` for one expression or more.
pub open spec fn sum(span: Span, exprs: Seq<ExprView>) -> ExprView
    decreases exprs.len(),
{
    if exprs.len() <= 1 {
        exprs[0]
    } else {
        ExprView::binary(span, BinOp::Add, sum(span, exprs.drop_last()), exprs.last())
    }
}

/// The sum of `exprs`, or nothing where there are none.
pub open spec fn add_many(span: Span, exprs: Seq<ExprView>) -> Option<ExprView> {
    if exprs.len() == 0 {
        None
    } else {
        Some(sum(span, exprs))
    }
}

/// `::std::mem::size_of::<path>()`
pub open spec fn size_of(path: HostPath) -> ExprView {
    ExprView::Call(
        path.span,
        Box::new(
            ExprView::Path(
                PathView::std_mem(path.span, "size_of"@, seq![TyView::Path(PathView::Host(path))]),
            ),
        ),
        Seq::empty(),
    )
}

/// `(size_of::<ty>() as T) * value`, where `T` is the integer type for `size`.
pub open spec fn size_of_scale(ty: HostPath, value: ExprView, size: Size) -> ExprView {
    let span = value.span();
    ExprView::binary(
        span,
        BinOp::Mul,
        ExprView::cast(span, size_of(ty), TyView::ident(span, size.literal_name())),
        value,
    )
}

/// `&place as *const _ as usize`
pub open spec fn address_of(span: Span, place: ExprView) -> ExprView {
    ExprView::cast(
        span,
        ExprView::cast(
            span,
            ExprView::AddrOf(span, Box::new(place)),
            TyView::ConstPtr(span, Box::new(TyView::Infer(span))),
        ),
        TyView::ident(span, "usize"@),
    )
}

/// The block that computes how far the field `attr` lies from the start of a value
/// of type `path`:
///
/// ```text
/// unsafe {
///     let path { attr: _, .. };
///     let temp: path = ::std::mem::uninitialized();
///     let rv = &temp.attr as *const _ as usize - &temp as *const _ as usize;
///     ::std::mem::forget(temp);
///     rv as T
/// }
/// ```
///
/// `T` is the integer type for `size`. The first statement makes the host compiler
/// refuse a type without such a field. `temp` is never initialized, so it must not
/// be dropped: hence the `forget`.
pub open spec fn offset_of(path: HostPath, attr: IdentView, size: Size) -> ExprView {
    let span = path.span;
    let temp = ExprView::ident(span, "temp"@);
    ExprView::Block(
        span,
        true,
        seq![
            StmtView::Local(span, PatView::StructField(span, PathView::Host(path), attr), None, None),
            StmtView::Local(
                span,
                PatView::Ident(span, false, "temp"@),
                Some(TyView::Path(PathView::Host(path))),
                Some(ExprView::call_std_mem(span, "uninitialized"@, Seq::empty())),
            ),
            StmtView::Local(
                span,
                PatView::Ident(span, false, "rv"@),
                None,
                Some(
                    ExprView::binary(
                        span,
                        BinOp::Sub,
                        address_of(span, ExprView::Field(span, Box::new(temp), attr.name)),
                        address_of(span, temp),
                    ),
                ),
            ),
            StmtView::Semi(ExprView::call_std_mem(span, "forget"@, seq![temp])),
            StmtView::Expr(
                ExprView::cast(
                    span,
                    ExprView::ident(span, "rv"@),
                    TyView::ident(span, size.literal_name()),
                ),
            ),
        ],
    )
}

pub fn expr_zero(ecx: &Context) -> (e: Expr)
    ensures
        e@ == zero(ecx.call_site),
{
    Expr::integer(ecx.call_site, 0)
}

pub fn expr_string_from_ident(i: Ident) -> (e: Expr)
    ensures
        e@ == string_from_ident(i@),
{
    Expr::Lit(i.span, Lit::Str(i.name))
}

pub fn expr_mask_shift_or(orig: Expr, expr: Expr, mask: u64, shift: i8) -> (e: Expr)
    ensures
        e@ == mask_shift_or(orig@, expr@, mask, shift),
{
    let span = expr.span();
    let masked = Expr::binary(span, BinOp::BitAnd, expr, Expr::integer(span, mask as u128));
    let moved = if shift < 0 {
        let distance = (-(shift as i16)) as u128;
        Expr::binary(span, BinOp::Shr, masked, Expr::integer(span, distance))
    } else if shift > 0 {
        Expr::binary(span, BinOp::Shl, masked, Expr::integer(span, shift as u128))
    } else {
        masked
    };
    Expr::binary(span, BinOp::BitOr, orig, moved)
}

/// The arm `stride => code`.
fn arm_for_scale(span: Span, stride: usize, code: u8) -> (arm: Arm)
    ensures
        arm@ == scale_arm(span, stride, code),
{
    Arm { pat: Pat::Lit(span, Lit::Int(stride as u128, IntSuffix::Usize)), body: Expr::u8(span, code) }
}

/// The arm `_ => target.runtime_error("..")`.
fn arm_for_scale_error(span: Span, target: HostExpr) -> (arm: Arm)
    ensures
        arm@ == scale_error_arm(span, target),
{
    let message = Expr::str(span, "Type size not representable as scale");
    let body = Expr::method_call(
        span,
        Expr::Host(target),
        Method::RuntimeError.as_str(),
        one_expr(message),
    );
    Arm { pat: Pat::Wild(span), body }
}

pub fn expr_encode_x64_sib_scale(name: &HostExpr, size: Expr) -> (e: Expr)
    ensures
        e@ == encode_x64_sib_scale(*name, size@),
{
    let span = size.span();
    let mut arms: Vec<Arm> = Vec::new();
    arms.push(arm_for_scale(span, 8, 3));
    arms.push(arm_for_scale(span, 4, 2));
    arms.push(arm_for_scale(span, 2, 1));
    arms.push(arm_for_scale(span, 1, 0));
    arms.push(arm_for_scale_error(span, *name));
    assert(arms_view(arms@) =~= seq![
        scale_arm(span, 8, 3),
        scale_arm(span, 4, 2),
        scale_arm(span, 2, 1),
        scale_arm(span, 1, 0),
        scale_error_arm(span, *name),
    ]);
    Expr::Match(span, Box::new(size), arms)
}

pub fn expr_dynscale(ecx: &mut Context, name: &HostExpr, scale: Expr, rest: Expr) -> (pair: (
    Stmt,
    Expr,
))
    requires
        old(ecx).temporaries < u64::MAX,
    ensures
        final(ecx).call_site == old(ecx).call_site,
        final(ecx).temporaries == old(ecx).temporaries + 1,
        (pair.0@, pair.1@) == dynscale(
            old(ecx).call_site,
            temp_name(old(ecx).temporaries as nat),
            *name,
            scale@,
            rest@,
        ),
{
    let call_site = ecx.call_site;
    let temp = ecx.fresh_temp();
    let code = expr_encode_x64_sib_scale(name, scale);
    let read = Expr::ident(call_site, temp.as_str());
    let binding = Stmt::Local(call_site, Pat::Ident(call_site, false, temp), None, Some(code));
    (binding, expr_mask_shift_or(rest, read, 3, 6))
}

pub fn expr_tuple_of_u8s(span: Span, data: &[u8]) -> (e: Expr)
    ensures
        e@ == tuple_of_u8s(span, data@),
{
    let mut items: Vec<Expr> = Vec::new();
    let mut i: usize = 0;
    while i < data.len()
        invariant
            i <= data.len(),
            items@.len() == i,
            forall|j: int| 0 <= j < i ==> (#[trigger] items@[j])@ == ExprView::u8(span, data@[j]),
        decreases data.len() - i,
    {
        items.push(Expr::u8(span, data[i]));
        i += 1;
    }
    assert(exprs_view(items@) =~= Seq::new(data@.len(), |i: int| ExprView::u8(span, data@[i])));
    Expr::Tuple(span, items)
}

pub fn expr_add_many(span: Span, exprs: Vec<Expr>) -> (total: Option<Expr>)
    ensures
        match total {
            Some(e) => Some(e@),
            None => None,
        } == add_many(span, exprs_view(exprs@)),
{
    let ghost all = exprs_view(exprs@);
    let mut total: Option<Expr> = None;
    for next in it: exprs
        invariant
            all == exprs_view(it.seq()),
            match total {
                Some(e) => Some(e@),
                None => None,
            } == add_many(span, all.take(it.index() as int)),
    {
        proof {
            let upto = all.take(it.index() + 1);
            assert(upto.drop_last() =~= all.take(it.index() as int));
            assert(upto.last() == next@);
        }
        total = Some(
            match total {
                None => next,
                Some(accum) => Expr::binary(span, BinOp::Add, accum, next),
            },
        );
    }
    assert(all.take(all.len() as int) =~= all);
    total
}

pub fn expr_size_of(path: HostPath) -> (e: Expr)
    ensures
        e@ == size_of(path),
{
    let span = path.span;
    let mut types: Vec<Ty> = Vec::new();
    types.push(Ty::Path(Path::Host(path)));
    assert(tys_view(types@) =~= seq![TyView::Path(PathView::Host(path))]);
    let callee = Expr::Path(Path::std_mem(span, "size_of", types));
    assert(callee@ == ExprView::Path(
        PathView::std_mem(span, "size_of"@, seq![TyView::Path(PathView::Host(path))]),
    ));
    Expr::Call(span, Box::new(callee), no_exprs())
}

pub fn expr_size_of_scale(ty: HostPath, value: Expr, size: Size) -> (e: Expr)
    ensures
        e@ == size_of_scale(ty, value@, size),
{
    let span = value.span();
    let width = Ty::ident(span, size.as_literal().name.as_str());
    Expr::binary(span, BinOp::Mul, Expr::cast(span, expr_size_of(ty), width), value)
}

/// `&place as *const _ as usize`
fn expr_address_of(span: Span, place: Expr) -> (e: Expr)
    ensures
        e@ == address_of(span, place@),
{
    let address = Expr::AddrOf(span, Box::new(place));
    let pointee = Ty::Infer(span);
    assert(pointee@ == TyView::Infer(span));
    let pointer = Ty::ConstPtr(span, Box::new(pointee));
    assert(pointer@ == TyView::ConstPtr(span, Box::new(TyView::Infer(span))));
    Expr::cast(span, Expr::cast(span, address, pointer), Ty::ident(span, "usize"))
}

pub fn expr_offset_of(path: HostPath, attr: Ident, size: Size) -> (e: Expr)
    ensures
        e@ == offset_of(path, attr@, size),
{
    let span = path.span;
    let field = attr.name.clone();
    let ghost spec_field = attr@.name;
    let ghost spec_attr = attr@;

    let validation = Stmt::Local(span, Pat::StructField(span, Path::Host(path), attr), None, None);
    assert(validation@ == StmtView::Local(
        span,
        PatView::StructField(span, PathView::Host(path), spec_attr),
        None,
        None,
    ));

    let temp = Stmt::Local(
        span,
        Pat::Ident(span, false, "temp".to_owned()),
        Some(Ty::Path(Path::Host(path))),
        Some(Expr::call_std_mem(span, "uninitialized", no_exprs())),
    );

    let field_place = Expr::Field(span, Box::new(Expr::ident(span, "temp")), field);
    let distance = Expr::binary(
        span,
        BinOp::Sub,
        expr_address_of(span, field_place),
        expr_address_of(span, Expr::ident(span, "temp")),
    );
    let rv = Stmt::Local(span, Pat::Ident(span, false, "rv".to_owned()), None, Some(distance));

    let forget = Stmt::Semi(
        Expr::call_std_mem(span, "forget", one_expr(Expr::ident(span, "temp"))),
    );

    let width = Ty::ident(span, size.as_literal().name.as_str());
    let result = Stmt::Expr(Expr::cast(span, Expr::ident(span, "rv"), width));

    let ghost views = seq![validation@, temp@, rv@, forget@, result@];
    let mut stmts: Vec<Stmt> = Vec::new();
    stmts.push(validation);
    stmts.push(temp);
    stmts.push(rv);
    stmts.push(forget);
    stmts.push(result);
    assert(stmts_view(stmts@) =~= views);
    Expr::Block(span, true, stmts)
}

} // verus!
