//! Constant folding: runs of constants and raw bytes become blocks of at most
//! [`CHUNK`] bytes.

use crate::ast::{Expr, ExprView, Ident, IdentView};
use crate::ast;
use crate::endian::{le_bytes, push_le};
use crate::size::Size;
use vstd::prelude::*;

verus! {

/// One piece of the byte stream that an instruction assembles to.
#[derive(Debug, PartialEq, Eq, Hash)]
pub enum Stmt {
    /// A value known now, written out unsigned in the given width.
    Const(u64, Size),
    /// A value that the host program computes, written out unsigned.
    ExprUnsigned(Expr, Size),
    /// A value that the host program computes, written out signed.
    ExprSigned(Expr, Size),
    /// Bytes to append as they are.
    Extend(Vec<u8>),
    /// Bytes that the host program computes.
    ExprExtend(Expr),
    /// Align the stream to what the expression gives.
    Align(Expr),
    GlobalLabel(Ident),
    LocalLabel(Ident),
    DynamicLabel(Expr),
    /// A reference to a global label; the expression describes the relocation.
    GlobalJumpTarget(Ident, Expr),
    /// A reference to the next local label of that name.
    ForwardJumpTarget(Ident, Expr),
    /// A reference to the previous local label of that name.
    BackwardJumpTarget(Ident, Expr),
    /// A reference to a label that the host program computes.
    DynamicJumpTarget(Expr, Expr),
    /// A reference to an address without a label.
    BareJumpTarget(Expr, Expr),
    /// A host statement to put between the pieces, unchanged.
    Stmt(ast::Stmt),
}

pub enum StmtView {
    Const(u64, Size),
    ExprUnsigned(ExprView, Size),
    ExprSigned(ExprView, Size),
    Extend(Seq<u8>),
    ExprExtend(ExprView),
    Align(ExprView),
    GlobalLabel(IdentView),
    LocalLabel(IdentView),
    DynamicLabel(ExprView),
    GlobalJumpTarget(IdentView, ExprView),
    ForwardJumpTarget(IdentView, ExprView),
    BackwardJumpTarget(IdentView, ExprView),
    DynamicJumpTarget(ExprView, ExprView),
    BareJumpTarget(ExprView, ExprView),
    Stmt(ast::StmtView),
}

impl View for Stmt {
    type V = StmtView;

    open spec fn view(&self) -> StmtView {
        match self {
            Stmt::Const(value, size) => StmtView::Const(*value, *size),
            Stmt::ExprUnsigned(e, size) => StmtView::ExprUnsigned(e@, *size),
            Stmt::ExprSigned(e, size) => StmtView::ExprSigned(e@, *size),
            Stmt::Extend(bytes) => StmtView::Extend(bytes@),
            Stmt::ExprExtend(e) => StmtView::ExprExtend(e@),
            Stmt::Align(e) => StmtView::Align(e@),
            Stmt::GlobalLabel(name) => StmtView::GlobalLabel(name@),
            Stmt::LocalLabel(name) => StmtView::LocalLabel(name@),
            Stmt::DynamicLabel(e) => StmtView::DynamicLabel(e@),
            Stmt::GlobalJumpTarget(name, reloc) => StmtView::GlobalJumpTarget(name@, reloc@),
            Stmt::ForwardJumpTarget(name, reloc) => StmtView::ForwardJumpTarget(name@, reloc@),
            Stmt::BackwardJumpTarget(name, reloc) => StmtView::BackwardJumpTarget(name@, reloc@),
            Stmt::DynamicJumpTarget(e, reloc) => StmtView::DynamicJumpTarget(e@, reloc@),
            Stmt::BareJumpTarget(e, reloc) => StmtView::BareJumpTarget(e@, reloc@),
            Stmt::Stmt(s) => StmtView::Stmt(s@),
        }
    }
}

/// The views of a sequence of statements.
pub open spec fn views(stmts: Seq<Stmt>) -> Seq<StmtView> {
    Seq::new(stmts.len(), |i: int| stmts[i]@)
}

impl StmtView {
    /// Whether the statement stands for bytes that are known now.
    pub open spec fn foldable(self) -> bool {
        self is Const || self is Extend
    }

    /// The bytes that a foldable statement stands for: a constant's low bytes in
    /// little-endian order, or the raw bytes.
    pub open spec fn bytes(self) -> Seq<u8> {
        match self {
            StmtView::Const(value, size) => le_bytes(value, size.bytes()),
            StmtView::Extend(bytes) => bytes,
            _ => Seq::empty(),
        }
    }

    /// Whether the width that the statement asks for, if it asks for one, can be
    /// written out.
    pub open spec fn supported(self) -> bool {
        match self {
            StmtView::Const(_, size) => size.encodable(),
            StmtView::ExprUnsigned(_, size) => size.encodable(),
            StmtView::ExprSigned(_, size) => size.encodable(),
            _ => true,
        }
    }
}

impl Clone for Stmt {
    fn clone(&self) -> (copy: Stmt)
        ensures
            copy@ == self@,
    {
        match self {
            Stmt::Const(value, size) => Stmt::Const(*value, *size),
            Stmt::ExprUnsigned(e, size) => Stmt::ExprUnsigned(e.clone(), *size),
            Stmt::ExprSigned(e, size) => Stmt::ExprSigned(e.clone(), *size),
            Stmt::Extend(bytes) => {
                let copy = bytes.clone();
                assert(copy@ =~= bytes@);
                Stmt::Extend(copy)
            },
            Stmt::ExprExtend(e) => Stmt::ExprExtend(e.clone()),
            Stmt::Align(e) => Stmt::Align(e.clone()),
            Stmt::GlobalLabel(name) => Stmt::GlobalLabel(name.clone()),
            Stmt::LocalLabel(name) => Stmt::LocalLabel(name.clone()),
            Stmt::DynamicLabel(e) => Stmt::DynamicLabel(e.clone()),
            Stmt::GlobalJumpTarget(name, reloc) => Stmt::GlobalJumpTarget(
                name.clone(),
                reloc.clone(),
            ),
            Stmt::ForwardJumpTarget(name, reloc) => Stmt::ForwardJumpTarget(
                name.clone(),
                reloc.clone(),
            ),
            Stmt::BackwardJumpTarget(name, reloc) => Stmt::BackwardJumpTarget(
                name.clone(),
                reloc.clone(),
            ),
            Stmt::DynamicJumpTarget(e, reloc) => Stmt::DynamicJumpTarget(e.clone(), reloc.clone()),
            Stmt::BareJumpTarget(e, reloc) => Stmt::BareJumpTarget(e.clone(), reloc.clone()),
            Stmt::Stmt(s) => Stmt::Stmt(s.clone()),
        }
    }
}

impl Stmt {
    pub fn u8(value: u8) -> (s: Stmt)
        ensures
            s@ == StmtView::Const(value as u64, Size::BYTE),
    {
        Stmt::Const(value as u64, Size::BYTE)
    }

    pub fn u16(value: u16) -> (s: Stmt)
        ensures
            s@ == StmtView::Const(value as u64, Size::WORD),
    {
        Stmt::Const(value as u64, Size::WORD)
    }

    pub fn u32(value: u32) -> (s: Stmt)
        ensures
            s@ == StmtView::Const(value as u64, Size::DWORD),
    {
        Stmt::Const(value as u64, Size::DWORD)
    }

    pub fn u64(value: u64) -> (s: Stmt)
        ensures
            s@ == StmtView::Const(value, Size::QWORD),
    {
        Stmt::Const(value, Size::QWORD)
    }

    /// Whether the width that the statement asks for, if it asks for one, can be
    /// written out.
    pub fn is_supported(&self) -> (b: bool)
        ensures
            b == self@.supported(),
    {
        match self {
            Stmt::Const(_, size) => size.is_encodable(),
            Stmt::ExprUnsigned(_, size) => size.is_encodable(),
            Stmt::ExprSigned(_, size) => size.is_encodable(),
            _ => true,
        }
    }
}

/// The largest number of bytes in one folded block.
pub const CHUNK: usize = 32;

/// The number of blocks that `n` bytes are cut into.
pub open spec fn chunk_count(n: nat) -> nat {
    ((n + CHUNK - 1) / (CHUNK as int)) as nat
}

/// Block number `j` of `bytes`: the bytes from `CHUNK * j` on, up to [`CHUNK`] of them.
pub open spec fn chunk(bytes: Seq<u8>, j: int) -> Seq<u8> {
    bytes.subrange(CHUNK * j, if CHUNK * j + CHUNK <= bytes.len() {
        CHUNK * j + CHUNK
    } else {
        bytes.len() as int
    })
}

/// `bytes` cut into blocks: each holds [`CHUNK`] bytes, but for the last, which
/// holds what is left. No bytes give no block.
pub open spec fn chunks(bytes: Seq<u8>) -> Seq<StmtView> {
    Seq::new(chunk_count(bytes.len()), |j: int| StmtView::Extend(chunk(bytes, j)))
}

/// What folding makes of `stmts` when the bytes `pending` of the run before them
/// have not been written out yet.
pub open spec fn fold_from(pending: Seq<u8>, stmts: Seq<StmtView>) -> Seq<StmtView>
    decreases stmts.len(),
{
    if stmts.len() == 0 {
        chunks(pending)
    } else if stmts[0].foldable() {
        fold_from(pending + stmts[0].bytes(), stmts.drop_first())
    } else {
        chunks(pending) + seq![stmts[0]] + fold_from(Seq::empty(), stmts.drop_first())
    }
}

/// The statements after folding. Each run of constants and raw bytes is replaced by
/// its bytes, cut into blocks; every other statement stays where it is.
pub open spec fn folded(stmts: Seq<StmtView>) -> Seq<StmtView> {
    fold_from(Seq::empty(), stmts)
}

/// Up to [`CHUNK`] bytes make one block that holds them all, and none if there are none.
proof fn lemma_chunks_short(bytes: Seq<u8>)
    requires
        bytes.len() <= CHUNK,
    ensures
        chunks(bytes) == if bytes.len() == 0 {
            Seq::<StmtView>::empty()
        } else {
            seq![StmtView::Extend(bytes)]
        },
{
    if bytes.len() == 0 {
        assert(chunks(bytes) =~= Seq::<StmtView>::empty());
    } else {
        assert(chunk_count(bytes.len()) == 1);
        assert(chunk(bytes, 0) =~= bytes);
        assert(chunks(bytes) =~= seq![StmtView::Extend(bytes)]);
    }
}

/// More than [`CHUNK`] bytes: the first block holds the first [`CHUNK`] of them, and
/// the other blocks are those of the rest.
proof fn lemma_chunks_long(bytes: Seq<u8>)
    requires
        bytes.len() > CHUNK,
    ensures
        chunks(bytes) == seq![StmtView::Extend(bytes.take(CHUNK as int))] + chunks(
            bytes.skip(CHUNK as int),
        ),
{
    let rest = bytes.skip(CHUNK as int);
    let split = seq![StmtView::Extend(bytes.take(CHUNK as int))] + chunks(rest);
    assert(chunk_count(bytes.len()) == chunk_count(rest.len()) + 1);
    assert(chunks(bytes).len() == split.len());
    assert forall|j: int| 0 <= j < split.len() implies chunks(bytes)[j] == split[j] by {
        if j == 0 {
            assert(chunk(bytes, 0) =~= bytes.take(CHUNK as int));
        } else {
            assert(chunk(bytes, j) =~= chunk(rest, j - 1));
        }
    }
    assert(chunks(bytes) =~= split);
}

/// Folding may write out a full block as soon as more than [`CHUNK`] bytes are pending.
proof fn lemma_fold_split(pending: Seq<u8>, stmts: Seq<StmtView>)
    requires
        pending.len() > CHUNK,
    ensures
        fold_from(pending, stmts) == seq![StmtView::Extend(pending.take(CHUNK as int))]
            + fold_from(pending.skip(CHUNK as int), stmts),
    decreases stmts.len(),
{
    let head = seq![StmtView::Extend(pending.take(CHUNK as int))];
    let rest = pending.skip(CHUNK as int);
    if stmts.len() == 0 {
        lemma_chunks_long(pending);
    } else if stmts[0].foldable() {
        let more = stmts[0].bytes();
        lemma_fold_split(pending + more, stmts.drop_first());
        assert((pending + more).take(CHUNK as int) =~= pending.take(CHUNK as int));
        assert((pending + more).skip(CHUNK as int) =~= rest + more);
    } else {
        lemma_chunks_long(pending);
        let tail = seq![stmts[0]] + fold_from(Seq::empty(), stmts.drop_first());
        assert((head + chunks(rest)) + tail =~= head + (chunks(rest) + tail));
        assert(chunks(pending) + seq![stmts[0]] + fold_from(Seq::empty(), stmts.drop_first())
            =~= chunks(pending) + tail);
        assert(chunks(rest) + seq![stmts[0]] + fold_from(Seq::empty(), stmts.drop_first())
            =~= chunks(rest) + tail);
    }
}

/// Every block holds at least one byte and at most [`CHUNK`], and every block but
/// the last is full.
pub proof fn lemma_chunk_len(bytes: Seq<u8>, j: int)
    requires
        0 <= j < chunk_count(bytes.len()),
    ensures
        1 <= chunk(bytes, j).len() <= CHUNK,
        j + 1 < chunk_count(bytes.len()) ==> chunk(bytes, j).len() == CHUNK,
{
}

/// What holds of every block of at most [`CHUNK`] bytes, and of every statement of
/// `stmts` that is not folded, holds of every statement that folding gives.
pub proof fn lemma_fold_keeps(
    pending: Seq<u8>,
    stmts: Seq<StmtView>,
    holds: spec_fn(StmtView) -> bool,
)
    requires
        forall|block: Seq<u8>|
            1 <= block.len() <= CHUNK ==> #[trigger] holds(StmtView::Extend(block)),
        forall|i: int|
            0 <= i < stmts.len() && !(#[trigger] stmts[i]).foldable() ==> holds(stmts[i]),
    ensures
        forall|k: int|
            0 <= k < fold_from(pending, stmts).len() ==> holds(
                #[trigger] fold_from(pending, stmts)[k],
            ),
    decreases stmts.len(),
{
    let blocks = chunks(pending);
    assert forall|k: int| 0 <= k < blocks.len() implies holds(#[trigger] blocks[k]) by {
        lemma_chunk_len(pending, k);
    }
    let all = fold_from(pending, stmts);
    if stmts.len() == 0 {
        assert(all == blocks);
    } else {
        let rest = stmts.drop_first();
        assert forall|i: int| 0 <= i < rest.len() && !(#[trigger] rest[i]).foldable() implies holds(
            rest[i],
        ) by {
            assert(rest[i] == stmts[i + 1]);
        }
        if stmts[0].foldable() {
            lemma_fold_keeps(pending + stmts[0].bytes(), rest, holds);
            assert(all == fold_from(pending + stmts[0].bytes(), rest));
        } else {
            lemma_fold_keeps(Seq::empty(), rest, holds);
            let tail = fold_from(Seq::empty(), rest);
            assert(all == blocks + seq![stmts[0]] + tail);
            assert forall|k: int| 0 <= k < all.len() implies holds(#[trigger] all[k]) by {
                if k < blocks.len() {
                    assert(all[k] == blocks[k]);
                } else if k == blocks.len() {
                    assert(all[k] == stmts[0]);
                } else {
                    assert(all[k] == tail[k - blocks.len() - 1]);
                }
            }
        }
    }
}

/// The bytes that `stmts` stand for, one statement after the other.
pub open spec fn content(stmts: Seq<StmtView>) -> Seq<u8>
    decreases stmts.len(),
{
    if stmts.len() == 0 {
        Seq::empty()
    } else {
        stmts[0].bytes() + content(stmts.drop_first())
    }
}

/// The blocks that bytes are cut into hold those bytes, in order.
pub proof fn lemma_chunks_content(bytes: Seq<u8>)
    ensures
        content(chunks(bytes)) == bytes,
    decreases bytes.len(),
{
    if bytes.len() <= CHUNK {
        lemma_chunks_short(bytes);
        if bytes.len() > 0 {
            let only = seq![StmtView::Extend(bytes)];
            assert(only.drop_first() =~= Seq::<StmtView>::empty());
            assert(content(only.drop_first()) =~= Seq::<u8>::empty());
            assert(content(only) =~= bytes);
        }
    } else {
        lemma_chunks_long(bytes);
        let first = bytes.take(CHUNK as int);
        let rest = bytes.skip(CHUNK as int);
        lemma_chunks_content(rest);
        let cut = seq![StmtView::Extend(first)] + chunks(rest);
        assert(cut.drop_first() =~= chunks(rest));
        assert(first + rest =~= bytes);
    }
}

/// A run of constants and raw bytes is folded to the blocks of its bytes, after
/// those that were pending.
pub proof fn lemma_fold_run(pending: Seq<u8>, stmts: Seq<StmtView>)
    requires
        forall|i: int| 0 <= i < stmts.len() ==> (#[trigger] stmts[i]).foldable(),
    ensures
        fold_from(pending, stmts) == chunks(pending + content(stmts)),
    decreases stmts.len(),
{
    if stmts.len() == 0 {
        assert(pending + content(stmts) =~= pending);
    } else {
        let rest = stmts.drop_first();
        assert forall|i: int| 0 <= i < rest.len() implies (#[trigger] rest[i]).foldable() by {
            assert(rest[i] == stmts[i + 1]);
        }
        lemma_fold_run(pending + stmts[0].bytes(), rest);
        assert((pending + stmts[0].bytes()) + content(rest) =~= pending + content(stmts));
    }
}

/// Folding loses no byte, adds none and keeps their order: a list of constants and
/// raw bytes is folded to the blocks of the bytes that its statements stand for,
/// however these are divided among the statements.
pub proof fn lemma_fold_content(stmts: Seq<StmtView>)
    requires
        forall|i: int| 0 <= i < stmts.len() ==> (#[trigger] stmts[i]).foldable(),
    ensures
        folded(stmts) == chunks(content(stmts)),
        content(folded(stmts)) == content(stmts),
{
    lemma_fold_run(Seq::empty(), stmts);
    assert(Seq::<u8>::empty() + content(stmts) =~= content(stmts));
    lemma_chunks_content(content(stmts));
}

/// Folding leaves no constant, and no raw bytes but in blocks of at least one byte
/// and at most [`CHUNK`].
pub proof fn lemma_fold_bound(stmts: Seq<StmtView>)
    ensures
        forall|k: int|
            0 <= k < folded(stmts).len() ==> match #[trigger] folded(stmts)[k] {
                StmtView::Const(_, _) => false,
                StmtView::Extend(block) => 1 <= block.len() <= CHUNK,
                _ => true,
            },
{
    lemma_fold_keeps(
        Seq::empty(),
        stmts,
        |s: StmtView|
            match s {
                StmtView::Const(_, _) => false,
                StmtView::Extend(block) => 1 <= block.len() <= CHUNK,
                _ => true,
            },
    );
}

/// A statement that is not folded stays between what comes before it and what comes
/// after it, and nothing is folded across it.
pub proof fn lemma_fold_boundary(before: Seq<StmtView>, s: StmtView, after: Seq<StmtView>)
    requires
        !s.foldable(),
    ensures
        folded(before + seq![s] + after) == folded(before) + seq![s] + folded(after),
{
    lemma_fold_from_boundary(Seq::empty(), before, s, after);
}

proof fn lemma_fold_from_boundary(
    pending: Seq<u8>,
    before: Seq<StmtView>,
    s: StmtView,
    after: Seq<StmtView>,
)
    requires
        !s.foldable(),
    ensures
        fold_from(pending, before + seq![s] + after) == fold_from(pending, before) + seq![s]
            + folded(after),
    decreases before.len(),
{
    let whole = before + seq![s] + after;
    if before.len() == 0 {
        assert(whole[0] == s);
        assert(whole.drop_first() =~= after);
    } else {
        let head = before[0];
        let rest = before.drop_first();
        assert(whole[0] == head);
        assert(whole.drop_first() =~= rest + seq![s] + after);
        if head.foldable() {
            lemma_fold_from_boundary(pending + head.bytes(), rest, s, after);
        } else {
            lemma_fold_from_boundary(Seq::empty(), rest, s, after);
            let start = chunks(pending) + seq![head];
            assert(start + (folded(rest) + seq![s] + folded(after)) =~= (start + folded(rest))
                + seq![s] + folded(after));
        }
    }
}

/// Appending a statement appends its view.
proof fn lemma_views_push(stmts: Seq<Stmt>, last: Stmt)
    ensures
        views(stmts.push(last)) == views(stmts).push(last@),
{
    assert(views(stmts.push(last)) =~= views(stmts).push(last@));
}

/// Writes out what is pending, if anything is, as one block.
fn flush(out: &mut Vec<Stmt>, pending: &mut Vec<u8>)
    requires
        old(pending)@.len() <= CHUNK,
    ensures
        views(final(out)@) == views(old(out)@) + chunks(old(pending)@),
        final(pending)@ == Seq::<u8>::empty(),
{
    proof {
        lemma_chunks_short(pending@);
    }
    if !pending.is_empty() {
        let mut block: Vec<u8> = Vec::new();
        block.append(pending);
        proof {
            lemma_views_push(out@, Stmt::Extend(block));
        }
        out.push(Stmt::Extend(block));
        assert(views(out@) =~= views(old(out)@) + chunks(old(pending)@));
    } else {
        assert(views(out@) =~= views(old(out)@) + chunks(old(pending)@));
    }
}

/// Writes out full blocks until at most [`CHUNK`] bytes are pending. For what
/// folding gives in the end it makes no difference, whatever statements `rest` follow.
fn spill(out: &mut Vec<Stmt>, pending: &mut Vec<u8>, Ghost(rest): Ghost<Seq<StmtView>>)
    ensures
        final(pending)@.len() <= CHUNK,
        views(final(out)@) + fold_from(final(pending)@, rest) == views(old(out)@) + fold_from(
            old(pending)@,
            rest,
        ),
{
    while pending.len() > CHUNK
        invariant
            views(out@) + fold_from(pending@, rest) == views(old(out)@) + fold_from(
                old(pending)@,
                rest,
            ),
        decreases pending.len(),
    {
        let ghost before = views(out@);
        let ghost whole = pending@;
        let tail = pending.split_off(CHUNK);
        let mut block: Vec<u8> = Vec::new();
        block.append(pending);
        *pending = tail;
        proof {
            lemma_views_push(out@, Stmt::Extend(block));
        }
        out.push(Stmt::Extend(block));
        proof {
            lemma_fold_split(whole, rest);
            let head = seq![StmtView::Extend(whole.take(CHUNK as int))];
            assert(block@ =~= whole.take(CHUNK as int));
            assert(pending@ =~= whole.skip(CHUNK as int));
            assert(views(out@) =~= before + head);
            assert((before + head) + fold_from(pending@, rest) =~= before + (head + fold_from(
                pending@,
                rest,
            )));
        }
    }
}

/// Takes in one statement: its bytes join what is pending, or, if it has none
/// that are known now, what is pending is written out and the statement after it.
fn take_in(out: &mut Vec<Stmt>, pending: &mut Vec<u8>, stmt: Stmt, Ghost(rest): Ghost<Seq<StmtView>>)
    requires
        old(pending)@.len() <= CHUNK,
        stmt@ is Const ==> stmt@.supported(),
    ensures
        final(pending)@.len() <= CHUNK,
        views(final(out)@) + fold_from(final(pending)@, rest) == views(old(out)@) + fold_from(
            old(pending)@,
            seq![stmt@] + rest,
        ),
{
    let ghost before = views(out@);
    let ghost held = pending@;
    let ghost current = stmt@;
    proof {
        assert((seq![current] + rest).drop_first() =~= rest);
    }
    match stmt {
        Stmt::Const(value, size) => {
            push_le(pending, value, size);
        },
        Stmt::Extend(data) => {
            let mut data = data;
            pending.append(&mut data);
        },
        other => {
            flush(out, pending);
            proof {
                lemma_views_push(out@, other);
            }
            out.push(other);
            proof {
                let tail = fold_from(Seq::empty(), rest);
                assert(views(out@) =~= before + chunks(held) + seq![current]);
                assert(before + (chunks(held) + seq![current] + tail) =~= (before + chunks(held)
                    + seq![current]) + tail);
            }
        },
    }
    spill(out, pending, Ghost(rest));
}

/// Folds constants: every run of `Const` and `Extend` statements becomes `Extend`
/// statements of at most [`CHUNK`] bytes each, which hold the bytes of the run in
/// order. The other statements are kept, each in its place.
pub fn fold_constants(stmts: Vec<Stmt>) -> (out: Vec<Stmt>)
    requires
        forall|i: int| 0 <= i < stmts.len() && (#[trigger] stmts[i])@ is Const ==> stmts[i]@.supported(),
    ensures
        views(out@) == folded(views(stmts@)),
{
    let ghost input = views(stmts@);
    let mut out: Vec<Stmt> = Vec::new();
    let mut pending: Vec<u8> = Vec::new();
    proof {
        assert(input.skip(0) =~= input);
        assert(views(out@) + folded(input) =~= folded(input));
    }
    for stmt in it: stmts
        invariant
            input == views(it.seq()),
            forall|i: int|
                0 <= i < it.seq().len() && (#[trigger] it.seq()[i])@ is Const
                    ==> it.seq()[i]@.supported(),
            pending@.len() <= CHUNK,
            views(out@) + fold_from(pending@, input.skip(it.index() as int)) == folded(input),
    {
        let ghost rest = input.skip(it.index() + 1);
        proof {
            assert(input.skip(it.index() as int) =~= seq![stmt@] + rest);
        }
        take_in(&mut out, &mut pending, stmt, Ghost(rest));
    }
    proof {
        assert(input.skip(input.len() as int) =~= Seq::<StmtView>::empty());
    }
    flush(&mut out, &mut pending);
    out
}

} // verus!
