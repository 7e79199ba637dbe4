//! From encoding statements to calls on the assembler.

use crate::ast::{exprs_view, one_expr, stmts_view, two_exprs};
use crate::ast::{Expr, ExprView, HostExpr, Lit, LitView, Span};
use crate::ast;
use crate::builder::{expr_string_from_ident, string_from_ident};
use crate::context::Context;
use crate::fold::{
    fold_constants, folded, lemma_fold_boundary, lemma_fold_keeps, views, Stmt, StmtView,
};
use crate::size::Size;
use crate::target::Method;
use vstd::prelude::*;

verus! {

/// The method that writes out a value of the given width that the host program
/// computes, signed or unsigned. There is one for the widths that can be written out.
pub open spec fn push_method(signed: bool, size: Size) -> Option<Method> {
    match size {
        Size::BYTE => Some(if signed { Method::PushI8 } else { Method::Push }),
        Size::WORD => Some(if signed { Method::PushI16 } else { Method::PushU16 }),
        Size::DWORD => Some(if signed { Method::PushI32 } else { Method::PushU32 }),
        Size::QWORD => Some(if signed { Method::PushI64 } else { Method::PushU64 }),
        _ => None,
    }
}

impl StmtView {
    /// The method of the assembler that does what the statement says. A constant
    /// has none: folding turns it into raw bytes. Neither has a host statement,
    /// nor a value of a width that cannot be written out.
    pub open spec fn method(self) -> Option<Method> {
        match self {
            StmtView::Const(_, _) => None,
            StmtView::ExprUnsigned(_, size) => push_method(false, size),
            StmtView::ExprSigned(_, size) => push_method(true, size),
            StmtView::Extend(_) => Some(Method::Extend),
            StmtView::ExprExtend(_) => Some(Method::Extend),
            StmtView::Align(_) => Some(Method::Align),
            StmtView::GlobalLabel(_) => Some(Method::GlobalLabel),
            StmtView::LocalLabel(_) => Some(Method::LocalLabel),
            StmtView::DynamicLabel(_) => Some(Method::DynamicLabel),
            StmtView::GlobalJumpTarget(_, _) => Some(Method::GlobalReloc),
            StmtView::ForwardJumpTarget(_, _) => Some(Method::ForwardReloc),
            StmtView::BackwardJumpTarget(_, _) => Some(Method::BackwardReloc),
            StmtView::DynamicJumpTarget(_, _) => Some(Method::DynamicReloc),
            StmtView::BareJumpTarget(_, _) => Some(Method::BareReloc),
            StmtView::Stmt(_) => None,
        }
    }

    /// The arguments of that call. Expressions are handed on as they are, a label's
    /// name becomes a string literal, and raw bytes become a byte string literal at
    /// the call site.
    pub open spec fn arguments(self, call_site: Span) -> Seq<ExprView> {
        match self {
            StmtView::Const(_, _) => Seq::empty(),
            StmtView::ExprUnsigned(e, _) => seq![e],
            StmtView::ExprSigned(e, _) => seq![e],
            StmtView::Extend(bytes) => seq![ExprView::Lit(call_site, LitView::ByteStr(bytes))],
            StmtView::ExprExtend(e) => seq![e],
            StmtView::Align(e) => seq![e],
            StmtView::GlobalLabel(name) => seq![string_from_ident(name)],
            StmtView::LocalLabel(name) => seq![string_from_ident(name)],
            StmtView::DynamicLabel(e) => seq![e],
            StmtView::GlobalJumpTarget(name, reloc) => seq![string_from_ident(name), reloc],
            StmtView::ForwardJumpTarget(name, reloc) => seq![string_from_ident(name), reloc],
            StmtView::BackwardJumpTarget(name, reloc) => seq![string_from_ident(name), reloc],
            StmtView::DynamicJumpTarget(e, reloc) => seq![e, reloc],
            StmtView::BareJumpTarget(e, reloc) => seq![e, reloc],
            StmtView::Stmt(_) => Seq::empty(),
        }
    }

    /// Whether the statement can be lowered: it is a host statement, or it has a method.
    pub open spec fn lowerable(self) -> bool {
        self is Stmt || self.method() is Some
    }

    /// The host statement that the statement is lowered to: a host statement stays
    /// what it is, and any other becomes `target.method(arguments);`.
    pub open spec fn lowered(self, call_site: Span, target: HostExpr) -> ast::StmtView {
        match self {
            StmtView::Stmt(inner) => inner,
            _ => call(call_site, target, self.method().unwrap(), self.arguments(call_site)),
        }
    }
}

/// The statement `target.method(args);`.
pub open spec fn call(call_site: Span, target: HostExpr, method: Method, args: Seq<ExprView>)
    -> ast::StmtView {
    ast::StmtView::Semi(
        ExprView::method_call(call_site, ExprView::Host(target), method.name(), args),
    )
}

/// Each of `stmts` lowered, in the same order.
pub open spec fn lowered_all(call_site: Span, target: HostExpr, stmts: Seq<StmtView>) -> Seq<
    ast::StmtView,
> {
    Seq::new(stmts.len(), |i: int| stmts[i].lowered(call_site, target))
}

/// What a list of statements is turned into: it is folded, then each statement of the
/// result is lowered.
pub open spec fn serialized(call_site: Span, target: HostExpr, stmts: Seq<StmtView>) -> Seq<
    ast::StmtView,
> {
    lowered_all(call_site, target, folded(stmts))
}

/// A statement that is not folded is lowered where it stands: what comes before it
/// and what comes after it are turned into calls as they would be alone, the calls
/// for what comes before it first.
pub proof fn lemma_serialize_boundary(
    call_site: Span,
    target: HostExpr,
    before: Seq<StmtView>,
    s: StmtView,
    after: Seq<StmtView>,
)
    requires
        !s.foldable(),
    ensures
        serialized(call_site, target, before + seq![s] + after) == serialized(
            call_site,
            target,
            before,
        ) + seq![s.lowered(call_site, target)] + serialized(call_site, target, after),
{
    lemma_fold_boundary(before, s, after);
    assert(serialized(call_site, target, before + seq![s] + after) =~= serialized(
        call_site,
        target,
        before,
    ) + seq![s.lowered(call_site, target)] + serialized(call_site, target, after));
}

/// The method that writes out a value of the given width.
fn method_for_push(signed: bool, size: Size) -> (method: Method)
    requires
        size.encodable(),
    ensures
        push_method(signed, size) == Some(method),
{
    match size {
        Size::BYTE => if signed {
            Method::PushI8
        } else {
            Method::Push
        },
        Size::WORD => if signed {
            Method::PushI16
        } else {
            Method::PushU16
        },
        Size::DWORD => if signed {
            Method::PushI32
        } else {
            Method::PushU32
        },
        _ => if signed {
            Method::PushI64
        } else {
            Method::PushU64
        },
    }
}

/// The statement `target.method(args);`.
fn call_on(ecx: &Context, target: HostExpr, method: Method, args: Vec<Expr>) -> (s: ast::Stmt)
    ensures
        s@ == call(ecx.call_site, target, method, exprs_view(args@)),
{
    let e = Expr::method_call(ecx.call_site, Expr::Host(target), method.as_str(), args);
    ast::Stmt::Semi(e)
}

/// Lowers one statement: a host statement is handed back, any other becomes a call
/// of the method that [`StmtView::method`] gives, on `name`, with the arguments that
/// [`StmtView::arguments`] gives.
pub fn lower(ecx: &Context, name: HostExpr, stmt: Stmt) -> (out: ast::Stmt)
    requires
        stmt@.lowerable(),
    ensures
        out@ == stmt@.lowered(ecx.call_site, name),
{
    match stmt {
        Stmt::Const(_, _) => vstd::pervasive::unreached(),
        Stmt::ExprUnsigned(e, size) => call_on(ecx, name, method_for_push(false, size), one_expr(e)),
        Stmt::ExprSigned(e, size) => call_on(ecx, name, method_for_push(true, size), one_expr(e)),
        Stmt::Extend(data) => {
            let literal = Expr::Lit(ecx.call_site, Lit::ByteStr(data));
            call_on(ecx, name, Method::Extend, one_expr(literal))
        },
        Stmt::ExprExtend(e) => call_on(ecx, name, Method::Extend, one_expr(e)),
        Stmt::Align(e) => call_on(ecx, name, Method::Align, one_expr(e)),
        Stmt::GlobalLabel(n) => call_on(
            ecx,
            name,
            Method::GlobalLabel,
            one_expr(expr_string_from_ident(n)),
        ),
        Stmt::LocalLabel(n) => call_on(
            ecx,
            name,
            Method::LocalLabel,
            one_expr(expr_string_from_ident(n)),
        ),
        Stmt::DynamicLabel(e) => call_on(ecx, name, Method::DynamicLabel, one_expr(e)),
        Stmt::GlobalJumpTarget(n, reloc) => call_on(
            ecx,
            name,
            Method::GlobalReloc,
            two_exprs(expr_string_from_ident(n), reloc),
        ),
        Stmt::ForwardJumpTarget(n, reloc) => call_on(
            ecx,
            name,
            Method::ForwardReloc,
            two_exprs(expr_string_from_ident(n), reloc),
        ),
        Stmt::BackwardJumpTarget(n, reloc) => call_on(
            ecx,
            name,
            Method::BackwardReloc,
            two_exprs(expr_string_from_ident(n), reloc),
        ),
        Stmt::DynamicJumpTarget(e, reloc) => call_on(
            ecx,
            name,
            Method::DynamicReloc,
            two_exprs(e, reloc),
        ),
        Stmt::BareJumpTarget(e, reloc) => call_on(ecx, name, Method::BareReloc, two_exprs(e, reloc)),
        Stmt::Stmt(s) => s,
    }
}

/// Whether every statement asks for a width that can be written out, if it asks
/// for one. [`serialize`] takes such lists only.
pub fn all_supported(stmts: &Vec<Stmt>) -> (ok: bool)
    ensures
        ok == forall|i: int| 0 <= i < stmts.len() ==> (#[trigger] stmts[i])@.supported(),
{
    let mut i: usize = 0;
    while i < stmts.len()
        invariant
            i <= stmts.len(),
            forall|j: int| 0 <= j < i ==> (#[trigger] stmts[j])@.supported(),
        decreases stmts.len() - i,
    {
        if !stmts[i].is_supported() {
            return false;
        }
        i += 1;
    }
    true
}

/// Turns a list of encoding statements into host statements that call the
/// assembler `name`: the list is folded ([`fold_constants`]), and each statement
/// of the result is lowered ([`lower`]), in order.
pub fn serialize(ecx: &Context, name: HostExpr, stmts: Vec<Stmt>) -> (out: Vec<ast::Stmt>)
    requires
        forall|i: int| 0 <= i < stmts.len() ==> (#[trigger] stmts[i])@.supported(),
    ensures
        stmts_view(out@) == serialized(ecx.call_site, name, views(stmts@)),
{
    let ghost input = views(stmts@);
    let folded_stmts = fold_constants(stmts);
    let ghost middle = views(folded_stmts@);
    proof {
        lemma_fold_keeps(Seq::empty(), input, |s: StmtView| s.lowerable());
    }
    let mut out: Vec<ast::Stmt> = Vec::new();
    for stmt in it: folded_stmts
        invariant
            middle == views(it.seq()),
            forall|i: int| 0 <= i < middle.len() ==> (#[trigger] middle[i]).lowerable(),
            out@.len() == it.index(),
            forall|i: int|
                0 <= i < it.index() ==> (#[trigger] out@[i])@ == middle[i].lowered(
                    ecx.call_site,
                    name,
                ),
    {
        assert(middle[it.index() as int] == stmt@);
        out.push(lower(ecx, name, stmt));
    }
    assert(stmts_view(out@) =~= lowered_all(ecx.call_site, name, middle));
    out
}

} // verus!
