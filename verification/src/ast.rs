//! A small syntax tree for the host-language code that the assembler emits.
//!
//! The tree holds what the code generator itself builds. Pieces of program text
//! that come from the caller (expressions, type paths, whole statements) are never
//! looked into: the tree refers to each by the index under which the caller keeps it.
//!
//! Every exec type `T` here has a mathematical view `T@`, in which vectors are
//! sequences and strings are sequences of characters. Contracts are stated over views.

use vstd::prelude::*;

verus! {

/// A region of source text by byte offsets, for diagnostics.
#[derive(Debug, PartialEq, Eq, Clone, Copy, Hash, Structural)]
pub struct Span {
    pub lo: u32,
    pub hi: u32,
}

/// The span of a node that corresponds to no source text.
pub open spec fn dummy_span() -> Span {
    Span { lo: 0, hi: 0 }
}

impl Span {
    pub fn dummy() -> (s: Span)
        ensures
            s == dummy_span(),
    {
        Span { lo: 0, hi: 0 }
    }
}

/// An expression that the caller supplied.
#[derive(Debug, PartialEq, Eq, Clone, Copy, Hash, Structural)]
pub struct HostExpr {
    /// The index under which the caller keeps the expression.
    pub id: usize,
    pub span: Span,
}

/// A type path that the caller supplied.
#[derive(Debug, PartialEq, Eq, Clone, Copy, Hash, Structural)]
pub struct HostPath {
    /// The index under which the caller keeps the path.
    pub id: usize,
    pub span: Span,
}

/// A statement that the caller supplied.
#[derive(Debug, PartialEq, Eq, Clone, Copy, Hash, Structural)]
pub struct HostStmt {
    /// The index under which the caller keeps the statement.
    pub id: usize,
}

/// An identifier and the place where it was written.
#[derive(Debug, PartialEq, Eq, Hash)]
pub struct Ident {
    pub name: String,
    pub span: Span,
}

pub struct IdentView {
    pub name: Seq<char>,
    pub span: Span,
}

impl View for Ident {
    type V = IdentView;

    open spec fn view(&self) -> IdentView {
        IdentView { name: self.name@, span: self.span }
    }
}

impl Ident {
    /// The identifier `name` with no source position.
    pub open spec fn named(name: Seq<char>) -> IdentView {
        IdentView { name, span: dummy_span() }
    }

    /// An identifier that the generator makes up: it has no source position.
    pub fn from_str(name: &str) -> (id: Ident)
        ensures
            id@ == Ident::named(name@),
    {
        Ident { name: name.to_owned(), span: Span::dummy() }
    }
}

/// The type suffix of an integer literal.
#[derive(Debug, PartialEq, Eq, Clone, Copy, Hash, Structural)]
pub enum IntSuffix {
    /// No suffix: the host compiler infers the type.
    Unsuffixed,
    U8,
    Usize,
}

/// A literal.
#[derive(Debug, PartialEq, Eq, Hash)]
pub enum Lit {
    Int(u128, IntSuffix),
    Str(String),
    ByteStr(Vec<u8>),
}

pub enum LitView {
    Int(u128, IntSuffix),
    Str(Seq<char>),
    ByteStr(Seq<u8>),
}

impl View for Lit {
    type V = LitView;

    open spec fn view(&self) -> LitView {
        match self {
            Lit::Int(value, suffix) => LitView::Int(*value, *suffix),
            Lit::Str(text) => LitView::Str(text@),
            Lit::ByteStr(bytes) => LitView::ByteStr(bytes@),
        }
    }
}

/// A binary operator.
#[derive(Debug, PartialEq, Eq, Clone, Copy, Hash, Structural)]
pub enum BinOp {
    Add,
    Sub,
    Mul,
    BitAnd,
    BitOr,
    Shl,
    Shr,
}

/// A path: the caller's, or a sequence of identifiers.
#[derive(Debug, PartialEq, Eq, Hash)]
pub enum Path {
    Host(HostPath),
    /// `a::b::c::<T, ..>`, with a leading `::` where `global` is set. The type
    /// arguments belong to the last segment.
    Idents { span: Span, global: bool, segments: Vec<String>, types: Vec<Ty> },
}

/// A type.
#[derive(Debug, PartialEq, Eq, Hash)]
pub enum Ty {
    /// `_`
    Infer(Span),
    Path(Path),
    /// `*const T`
    ConstPtr(Span, Box<Ty>),
}

/// A pattern.
#[derive(Debug, PartialEq, Eq, Hash)]
pub enum Pat {
    /// `_`
    Wild(Span),
    Lit(Span, Lit),
    /// `x`, or `mut x` where the flag is set.
    Ident(Span, bool, String),
    /// `P { field: _, .. }`: matches a value of the struct `P`, which must have the field.
    StructField(Span, Path, Ident),
}

/// One arm of a `match`.
#[derive(Debug, PartialEq, Eq, Hash)]
pub struct Arm {
    pub pat: Pat,
    pub body: Expr,
}

/// An expression.
#[derive(Debug, PartialEq, Eq, Hash)]
pub enum Expr {
    Host(HostExpr),
    Lit(Span, Lit),
    Path(Path),
    Binary(Span, BinOp, Box<Expr>, Box<Expr>),
    /// `e as T`
    Cast(Span, Box<Expr>, Ty),
    /// `&e`
    AddrOf(Span, Box<Expr>),
    /// `e.field`
    Field(Span, Box<Expr>, String),
    Tuple(Span, Vec<Expr>),
    /// `f(args)`
    Call(Span, Box<Expr>, Vec<Expr>),
    /// `receiver.method(args)`
    MethodCall(Span, Box<Expr>, String, Vec<Expr>),
    Match(Span, Box<Expr>, Vec<Arm>),
    /// `{ .. }`, or `unsafe { .. }` where the flag is set.
    Block(Span, bool, Vec<Stmt>),
}

/// A statement.
#[derive(Debug, PartialEq, Eq, Hash)]
pub enum Stmt {
    Host(HostStmt),
    /// `let pat: ty = init;`, where the type and the initializer may be missing.
    Local(Span, Pat, Option<Ty>, Option<Expr>),
    /// `e;`
    Semi(Expr),
    /// `e` as the last thing in a block, which gives the block its value.
    Expr(Expr),
}

pub enum PathView {
    Host(HostPath),
    Idents { span: Span, global: bool, segments: Seq<Seq<char>>, types: Seq<TyView> },
}

pub enum TyView {
    Infer(Span),
    Path(PathView),
    ConstPtr(Span, Box<TyView>),
}

pub enum PatView {
    Wild(Span),
    Lit(Span, LitView),
    Ident(Span, bool, Seq<char>),
    StructField(Span, PathView, IdentView),
}

pub struct ArmView {
    pub pat: PatView,
    pub body: ExprView,
}

pub enum ExprView {
    Host(HostExpr),
    Lit(Span, LitView),
    Path(PathView),
    Binary(Span, BinOp, Box<ExprView>, Box<ExprView>),
    Cast(Span, Box<ExprView>, TyView),
    AddrOf(Span, Box<ExprView>),
    Field(Span, Box<ExprView>, Seq<char>),
    Tuple(Span, Seq<ExprView>),
    Call(Span, Box<ExprView>, Seq<ExprView>),
    MethodCall(Span, Box<ExprView>, Seq<char>, Seq<ExprView>),
    Match(Span, Box<ExprView>, Seq<ArmView>),
    Block(Span, bool, Seq<StmtView>),
}

pub enum StmtView {
    Host(HostStmt),
    Local(Span, PatView, Option<TyView>, Option<ExprView>),
    Semi(ExprView),
    Expr(ExprView),
}

/// The views of a sequence of names.
pub open spec fn names_view(s: Seq<String>) -> Seq<Seq<char>> {
    Seq::new(s.len(), |i: int| s[i]@)
}

pub open spec fn path_view(p: Path) -> PathView
    decreases p,
{
    match p {
        Path::Host(h) => PathView::Host(h),
        Path::Idents { span, global, segments, types } => PathView::Idents {
            span,
            global,
            segments: names_view(segments@),
            types: tys_view(types@),
        },
    }
}

pub open spec fn ty_view(t: Ty) -> TyView
    decreases t,
{
    match t {
        Ty::Infer(span) => TyView::Infer(span),
        Ty::Path(p) => TyView::Path(path_view(p)),
        Ty::ConstPtr(span, inner) => TyView::ConstPtr(span, Box::new(ty_view(*inner))),
    }
}

/// The views of a sequence of types.
pub open spec fn tys_view(s: Seq<Ty>) -> Seq<TyView>
    decreases s,
{
    Seq::new(
        s.len(),
        |i: int|
            if 0 <= i < s.len() {
                ty_view(s[i])
            } else {
                arbitrary()
            },
    )
}

pub open spec fn pat_view(p: Pat) -> PatView {
    match p {
        Pat::Wild(span) => PatView::Wild(span),
        Pat::Lit(span, lit) => PatView::Lit(span, lit@),
        Pat::Ident(span, mutable, name) => PatView::Ident(span, mutable, name@),
        Pat::StructField(span, path, field) => PatView::StructField(span, path_view(path), field@),
    }
}

pub open spec fn expr_view(e: Expr) -> ExprView
    decreases e,
{
    match e {
        Expr::Host(h) => ExprView::Host(h),
        Expr::Lit(span, lit) => ExprView::Lit(span, lit@),
        Expr::Path(p) => ExprView::Path(path_view(p)),
        Expr::Binary(span, op, lhs, rhs) => ExprView::Binary(
            span,
            op,
            Box::new(expr_view(*lhs)),
            Box::new(expr_view(*rhs)),
        ),
        Expr::Cast(span, inner, ty) => ExprView::Cast(span, Box::new(expr_view(*inner)), ty_view(ty)),
        Expr::AddrOf(span, inner) => ExprView::AddrOf(span, Box::new(expr_view(*inner))),
        Expr::Field(span, inner, field) => ExprView::Field(span, Box::new(expr_view(*inner)), field@),
        Expr::Tuple(span, items) => ExprView::Tuple(span, exprs_view(items@)),
        Expr::Call(span, callee, args) => ExprView::Call(
            span,
            Box::new(expr_view(*callee)),
            exprs_view(args@),
        ),
        Expr::MethodCall(span, receiver, method, args) => ExprView::MethodCall(
            span,
            Box::new(expr_view(*receiver)),
            method@,
            exprs_view(args@),
        ),
        Expr::Match(span, scrutinee, arms) => ExprView::Match(
            span,
            Box::new(expr_view(*scrutinee)),
            arms_view(arms@),
        ),
        Expr::Block(span, is_unsafe, stmts) => ExprView::Block(span, is_unsafe, stmts_view(stmts@)),
    }
}

/// The views of a sequence of expressions.
pub open spec fn exprs_view(s: Seq<Expr>) -> Seq<ExprView>
    decreases s,
{
    Seq::new(
        s.len(),
        |i: int|
            if 0 <= i < s.len() {
                expr_view(s[i])
            } else {
                arbitrary()
            },
    )
}

pub open spec fn arm_view(a: Arm) -> ArmView
    decreases a,
{
    ArmView { pat: pat_view(a.pat), body: expr_view(a.body) }
}

/// The views of a sequence of arms.
pub open spec fn arms_view(s: Seq<Arm>) -> Seq<ArmView>
    decreases s,
{
    Seq::new(
        s.len(),
        |i: int|
            if 0 <= i < s.len() {
                arm_view(s[i])
            } else {
                arbitrary()
            },
    )
}

pub open spec fn stmt_view(s: Stmt) -> StmtView
    decreases s,
{
    match s {
        Stmt::Host(h) => StmtView::Host(h),
        Stmt::Local(span, pat, ty, init) => StmtView::Local(
            span,
            pat_view(pat),
            match ty {
                Some(t) => Some(ty_view(t)),
                None => None,
            },
            match init {
                Some(e) => Some(expr_view(e)),
                None => None,
            },
        ),
        Stmt::Semi(e) => StmtView::Semi(expr_view(e)),
        Stmt::Expr(e) => StmtView::Expr(expr_view(e)),
    }
}

/// The views of a sequence of statements.
pub open spec fn stmts_view(s: Seq<Stmt>) -> Seq<StmtView>
    decreases s,
{
    Seq::new(
        s.len(),
        |i: int|
            if 0 <= i < s.len() {
                stmt_view(s[i])
            } else {
                arbitrary()
            },
    )
}

impl PathView {
    /// The path that is the one name `name`.
    pub open spec fn ident(span: Span, name: Seq<char>) -> PathView {
        PathView::Idents { span, global: false, segments: seq![name], types: Seq::empty() }
    }

    /// `::std::mem::name::<types>`
    pub open spec fn std_mem(span: Span, name: Seq<char>, types: Seq<TyView>) -> PathView {
        PathView::Idents { span, global: true, segments: seq!["std"@, "mem"@, name], types }
    }

    /// The source position of the path.
    pub open spec fn span(self) -> Span {
        match self {
            PathView::Host(h) => h.span,
            PathView::Idents { span, .. } => span,
        }
    }
}

impl TyView {
    /// The type named `name`.
    pub open spec fn ident(span: Span, name: Seq<char>) -> TyView {
        TyView::Path(PathView::ident(span, name))
    }
}

impl ExprView {
    /// An integer literal without a suffix.
    pub open spec fn integer(span: Span, value: u128) -> ExprView {
        ExprView::Lit(span, LitView::Int(value, IntSuffix::Unsuffixed))
    }

    /// `value` as a literal of type `u8`.
    pub open spec fn u8(span: Span, value: u8) -> ExprView {
        ExprView::Lit(span, LitView::Int(value as u128, IntSuffix::U8))
    }

    /// A string literal.
    pub open spec fn str(span: Span, text: Seq<char>) -> ExprView {
        ExprView::Lit(span, LitView::Str(text))
    }

    /// The variable `name`.
    pub open spec fn ident(span: Span, name: Seq<char>) -> ExprView {
        ExprView::Path(PathView::ident(span, name))
    }

    pub open spec fn binary(span: Span, op: BinOp, lhs: ExprView, rhs: ExprView) -> ExprView {
        ExprView::Binary(span, op, Box::new(lhs), Box::new(rhs))
    }

    pub open spec fn cast(span: Span, inner: ExprView, ty: TyView) -> ExprView {
        ExprView::Cast(span, Box::new(inner), ty)
    }

    /// `::std::mem::name(args)`
    pub open spec fn call_std_mem(span: Span, name: Seq<char>, args: Seq<ExprView>) -> ExprView {
        ExprView::Call(
            span,
            Box::new(ExprView::Path(PathView::std_mem(span, name, Seq::empty()))),
            args,
        )
    }

    pub open spec fn method_call(
        span: Span,
        receiver: ExprView,
        method: Seq<char>,
        args: Seq<ExprView>,
    ) -> ExprView {
        ExprView::MethodCall(span, Box::new(receiver), method, args)
    }

    /// The source position of the expression.
    pub open spec fn span(self) -> Span {
        match self {
            ExprView::Host(h) => h.span,
            ExprView::Lit(span, _) => span,
            ExprView::Path(p) => p.span(),
            ExprView::Binary(span, _, _, _) => span,
            ExprView::Cast(span, _, _) => span,
            ExprView::AddrOf(span, _) => span,
            ExprView::Field(span, _, _) => span,
            ExprView::Tuple(span, _) => span,
            ExprView::Call(span, _, _) => span,
            ExprView::MethodCall(span, _, _, _) => span,
            ExprView::Match(span, _, _) => span,
            ExprView::Block(span, _, _) => span,
        }
    }
}

impl Path {
    /// The path that is the one name `name`.
    pub fn ident(span: Span, name: &str) -> (p: Path)
        ensures
            p@ == PathView::ident(span, name@),
    {
        let mut segments: Vec<String> = Vec::new();
        segments.push(name.to_owned());
        let types: Vec<Ty> = Vec::new();
        let p = Path::Idents { span, global: false, segments, types };
        assert(p@->Idents_segments =~= seq![name@]);
        assert(p@->Idents_types =~= Seq::empty());
        p
    }

    /// `::std::mem::name::<types>`
    pub fn std_mem(span: Span, name: &str, types: Vec<Ty>) -> (p: Path)
        ensures
            p@ == PathView::std_mem(span, name@, tys_view(types@)),
    {
        let mut segments: Vec<String> = Vec::new();
        segments.push("std".to_owned());
        segments.push("mem".to_owned());
        segments.push(name.to_owned());
        let p = Path::Idents { span, global: true, segments, types };
        assert(p@->Idents_segments =~= seq!["std"@, "mem"@, name@]);
        p
    }

    /// The source position of the path.
    pub fn span(&self) -> (span: Span)
        ensures
            span == self@.span(),
    {
        match self {
            Path::Host(h) => h.span,
            Path::Idents { span, .. } => *span,
        }
    }
}

impl Ty {
    /// The type named `name`.
    pub fn ident(span: Span, name: &str) -> (t: Ty)
        ensures
            t@ == TyView::ident(span, name@),
    {
        Ty::Path(Path::ident(span, name))
    }
}

/// No expressions.
pub fn no_exprs() -> (v: Vec<Expr>)
    ensures
        exprs_view(v@) == Seq::<ExprView>::empty(),
{
    let v: Vec<Expr> = Vec::new();
    assert(exprs_view(v@) =~= Seq::<ExprView>::empty());
    v
}

/// One expression.
pub fn one_expr(first: Expr) -> (v: Vec<Expr>)
    ensures
        exprs_view(v@) == seq![first@],
{
    let mut v: Vec<Expr> = Vec::new();
    v.push(first);
    assert(exprs_view(v@) =~= seq![first@]);
    v
}

/// Two expressions.
pub fn two_exprs(first: Expr, second: Expr) -> (v: Vec<Expr>)
    ensures
        exprs_view(v@) == seq![first@, second@],
{
    let mut v: Vec<Expr> = Vec::new();
    v.push(first);
    v.push(second);
    assert(exprs_view(v@) =~= seq![first@, second@]);
    v
}

impl Expr {
    /// An integer literal without a suffix.
    pub fn integer(span: Span, value: u128) -> (e: Expr)
        ensures
            e@ == ExprView::integer(span, value),
    {
        Expr::Lit(span, Lit::Int(value, IntSuffix::Unsuffixed))
    }

    /// `value` as a literal of type `u8`.
    pub fn u8(span: Span, value: u8) -> (e: Expr)
        ensures
            e@ == ExprView::u8(span, value),
    {
        Expr::Lit(span, Lit::Int(value as u128, IntSuffix::U8))
    }

    /// A string literal.
    pub fn str(span: Span, text: &str) -> (e: Expr)
        ensures
            e@ == ExprView::str(span, text@),
    {
        Expr::Lit(span, Lit::Str(text.to_owned()))
    }

    /// The variable `name`.
    pub fn ident(span: Span, name: &str) -> (e: Expr)
        ensures
            e@ == ExprView::ident(span, name@),
    {
        Expr::Path(Path::ident(span, name))
    }

    pub fn binary(span: Span, op: BinOp, lhs: Expr, rhs: Expr) -> (e: Expr)
        ensures
            e@ == ExprView::binary(span, op, lhs@, rhs@),
    {
        Expr::Binary(span, op, Box::new(lhs), Box::new(rhs))
    }

    pub fn cast(span: Span, inner: Expr, ty: Ty) -> (e: Expr)
        ensures
            e@ == ExprView::cast(span, inner@, ty@),
    {
        Expr::Cast(span, Box::new(inner), ty)
    }

    /// `::std::mem::name(args)`
    pub fn call_std_mem(span: Span, name: &str, args: Vec<Expr>) -> (e: Expr)
        ensures
            e@ == ExprView::call_std_mem(span, name@, exprs_view(args@)),
    {
        let types: Vec<Ty> = Vec::new();
        assert(tys_view(types@) =~= Seq::<TyView>::empty());
        let callee = Expr::Path(Path::std_mem(span, name, types));
        assert(callee@ == ExprView::Path(PathView::std_mem(span, name@, Seq::empty())));
        Expr::Call(span, Box::new(callee), args)
    }

    pub fn method_call(span: Span, receiver: Expr, method: &str, args: Vec<Expr>) -> (e: Expr)
        ensures
            e@ == ExprView::method_call(span, receiver@, method@, exprs_view(args@)),
    {
        Expr::MethodCall(span, Box::new(receiver), method.to_owned(), args)
    }

    /// The source position of the expression.
    pub fn span(&self) -> (span: Span)
        ensures
            span == self@.span(),
    {
        match self {
            Expr::Host(h) => h.span,
            Expr::Lit(span, _) => *span,
            Expr::Path(p) => p.span(),
            Expr::Binary(span, _, _, _) => *span,
            Expr::Cast(span, _, _) => *span,
            Expr::AddrOf(span, _) => *span,
            Expr::Field(span, _, _) => *span,
            Expr::Tuple(span, _) => *span,
            Expr::Call(span, _, _) => *span,
            Expr::MethodCall(span, _, _, _) => *span,
            Expr::Match(span, _, _) => *span,
            Expr::Block(span, _, _) => *span,
        }
    }
}

impl View for Path {
    type V = PathView;

    open spec fn view(&self) -> PathView {
        path_view(*self)
    }
}

impl View for Ty {
    type V = TyView;

    open spec fn view(&self) -> TyView {
        ty_view(*self)
    }
}

impl View for Pat {
    type V = PatView;

    open spec fn view(&self) -> PatView {
        pat_view(*self)
    }
}

impl View for Arm {
    type V = ArmView;

    open spec fn view(&self) -> ArmView {
        arm_view(*self)
    }
}

impl View for Expr {
    type V = ExprView;

    open spec fn view(&self) -> ExprView {
        expr_view(*self)
    }
}

impl View for Stmt {
    type V = StmtView;

    open spec fn view(&self) -> StmtView {
        stmt_view(*self)
    }
}

/// A copy of each name.
fn clone_names(names: &Vec<String>) -> (copy: Vec<String>)
    ensures
        names_view(copy@) == names_view(names@),
{
    let mut copy: Vec<String> = Vec::new();
    let mut i: usize = 0;
    while i < names.len()
        invariant
            i <= names.len(),
            copy@.len() == i,
            forall|j: int| 0 <= j < i ==> (#[trigger] copy@[j])@ == names@[j]@,
        decreases names.len() - i,
    {
        copy.push(names[i].clone());
        i += 1;
    }
    assert(names_view(copy@) =~= names_view(names@));
    copy
}

/// A copy of each type.
fn clone_tys(tys: &Vec<Ty>) -> (copy: Vec<Ty>)
    ensures
        tys_view(copy@) == tys_view(tys@),
    decreases tys,
{
    let mut copy: Vec<Ty> = Vec::new();
    let mut i: usize = 0;
    while i < tys.len()
        invariant
            i <= tys.len(),
            copy@.len() == i,
            forall|j: int| 0 <= j < i ==> (#[trigger] copy@[j])@ == tys@[j]@,
        decreases tys.len() - i,
    {
        copy.push(tys[i].clone());
        i += 1;
    }
    assert(tys_view(copy@) =~= tys_view(tys@));
    copy
}

impl Clone for Path {
    fn clone(&self) -> (copy: Path)
        ensures
            copy@ == self@,
        decreases self,
    {
        match self {
            Path::Host(h) => Path::Host(*h),
            Path::Idents { span, global, segments, types } => Path::Idents {
                span: *span,
                global: *global,
                segments: clone_names(segments),
                types: clone_tys(types),
            },
        }
    }
}

impl Clone for Ty {
    fn clone(&self) -> (copy: Ty)
        ensures
            copy@ == self@,
        decreases self,
    {
        match self {
            Ty::Infer(span) => Ty::Infer(*span),
            Ty::Path(p) => Ty::Path(p.clone()),
            Ty::ConstPtr(span, inner) => Ty::ConstPtr(*span, Box::new((**inner).clone())),
        }
    }
}

impl Clone for Ident {
    fn clone(&self) -> (copy: Ident)
        ensures
            copy@ == self@,
    {
        Ident { name: self.name.clone(), span: self.span }
    }
}

impl Clone for Lit {
    fn clone(&self) -> (copy: Lit)
        ensures
            copy@ == self@,
    {
        match self {
            Lit::Int(value, suffix) => Lit::Int(*value, *suffix),
            Lit::Str(text) => Lit::Str(text.clone()),
            Lit::ByteStr(bytes) => {
                let copy = bytes.clone();
                assert(copy@ =~= bytes@);
                Lit::ByteStr(copy)
            },
        }
    }
}

impl Clone for Pat {
    fn clone(&self) -> (copy: Pat)
        ensures
            copy@ == self@,
    {
        match self {
            Pat::Wild(span) => Pat::Wild(*span),
            Pat::Lit(span, lit) => Pat::Lit(*span, lit.clone()),
            Pat::Ident(span, mutable, name) => Pat::Ident(*span, *mutable, name.clone()),
            Pat::StructField(span, path, field) => Pat::StructField(
                *span,
                path.clone(),
                field.clone(),
            ),
        }
    }
}

/// A copy of each expression.
fn clone_exprs(exprs: &Vec<Expr>) -> (copy: Vec<Expr>)
    ensures
        exprs_view(copy@) == exprs_view(exprs@),
    decreases exprs,
{
    let mut copy: Vec<Expr> = Vec::new();
    let mut i: usize = 0;
    while i < exprs.len()
        invariant
            i <= exprs.len(),
            copy@.len() == i,
            forall|j: int| 0 <= j < i ==> (#[trigger] copy@[j])@ == exprs@[j]@,
        decreases exprs.len() - i,
    {
        copy.push(exprs[i].clone());
        i += 1;
    }
    assert(exprs_view(copy@) =~= exprs_view(exprs@));
    copy
}

/// A copy of each arm.
fn clone_arms(arms: &Vec<Arm>) -> (copy: Vec<Arm>)
    ensures
        arms_view(copy@) == arms_view(arms@),
    decreases arms,
{
    let mut copy: Vec<Arm> = Vec::new();
    let mut i: usize = 0;
    while i < arms.len()
        invariant
            i <= arms.len(),
            copy@.len() == i,
            forall|j: int| 0 <= j < i ==> (#[trigger] copy@[j])@ == arms@[j]@,
        decreases arms.len() - i,
    {
        copy.push(arms[i].clone());
        i += 1;
    }
    assert(arms_view(copy@) =~= arms_view(arms@));
    copy
}

/// A copy of each statement.
fn clone_stmts(stmts: &Vec<Stmt>) -> (copy: Vec<Stmt>)
    ensures
        stmts_view(copy@) == stmts_view(stmts@),
    decreases stmts,
{
    let mut copy: Vec<Stmt> = Vec::new();
    let mut i: usize = 0;
    while i < stmts.len()
        invariant
            i <= stmts.len(),
            copy@.len() == i,
            forall|j: int| 0 <= j < i ==> (#[trigger] copy@[j])@ == stmts@[j]@,
        decreases stmts.len() - i,
    {
        copy.push(stmts[i].clone());
        i += 1;
    }
    assert(stmts_view(copy@) =~= stmts_view(stmts@));
    copy
}

impl Clone for Arm {
    fn clone(&self) -> (copy: Arm)
        ensures
            copy@ == self@,
        decreases self,
    {
        Arm { pat: self.pat.clone(), body: self.body.clone() }
    }
}

impl Clone for Expr {
    fn clone(&self) -> (copy: Expr)
        ensures
            copy@ == self@,
        decreases self,
    {
        match self {
            Expr::Host(h) => Expr::Host(*h),
            Expr::Lit(span, lit) => Expr::Lit(*span, lit.clone()),
            Expr::Path(p) => Expr::Path(p.clone()),
            Expr::Binary(span, op, lhs, rhs) => Expr::Binary(
                *span,
                *op,
                Box::new((**lhs).clone()),
                Box::new((**rhs).clone()),
            ),
            Expr::Cast(span, inner, ty) => Expr::Cast(
                *span,
                Box::new((**inner).clone()),
                ty.clone(),
            ),
            Expr::AddrOf(span, inner) => Expr::AddrOf(*span, Box::new((**inner).clone())),
            Expr::Field(span, inner, field) => Expr::Field(
                *span,
                Box::new((**inner).clone()),
                field.clone(),
            ),
            Expr::Tuple(span, items) => Expr::Tuple(*span, clone_exprs(items)),
            Expr::Call(span, callee, args) => Expr::Call(
                *span,
                Box::new((**callee).clone()),
                clone_exprs(args),
            ),
            Expr::MethodCall(span, receiver, method, args) => Expr::MethodCall(
                *span,
                Box::new((**receiver).clone()),
                method.clone(),
                clone_exprs(args),
            ),
            Expr::Match(span, scrutinee, arms) => Expr::Match(
                *span,
                Box::new((**scrutinee).clone()),
                clone_arms(arms),
            ),
            Expr::Block(span, is_unsafe, stmts) => Expr::Block(
                *span,
                *is_unsafe,
                clone_stmts(stmts),
            ),
        }
    }
}

impl Clone for Stmt {
    fn clone(&self) -> (copy: Stmt)
        ensures
            copy@ == self@,
        decreases self,
    {
        match self {
            Stmt::Host(h) => Stmt::Host(*h),
            Stmt::Local(span, pat, ty, init) => Stmt::Local(
                *span,
                pat.clone(),
                match ty {
                    Some(t) => Some(t.clone()),
                    None => None,
                },
                match init {
                    Some(e) => Some(e.clone()),
                    None => None,
                },
            ),
            Stmt::Semi(e) => Stmt::Semi(e.clone()),
            Stmt::Expr(e) => Stmt::Expr(e.clone()),
        }
    }
}

} // verus!
