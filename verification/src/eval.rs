//! What a built expression computes when the generated program runs.
//!
//! The meaning is given for the part of the tree that the builders of
//! [`crate::builder`] use for arithmetic, and for a host program that computes in
//! unsigned integers of 64 bits. Everything here is ghost code.

use crate::ast::{ArmView, BinOp, ExprView, HostExpr, LitView, PatView, PathView, Span, StmtView};
use crate::builder::{
    dynscale, encode_x64_sib_scale, mask_shift_or, scale_arm, scale_error, scale_error_arm, sum,
};
use crate::target::Method;
use vstd::prelude::*;

verus! {

/// The values that the things have which an expression refers to.
pub struct Env {
    /// The values of the caller's expressions, by index.
    pub host: Map<usize, u64>,
    /// The values of the local variables, by name.
    pub locals: Map<Seq<char>, u64>,
}

/// What evaluating an expression leads to.
pub enum Outcome {
    Value(u64),
    /// The call `target.runtime_error(message)`.
    RuntimeError { target: ExprView, message: Seq<char> },
    /// Nothing that this model determines.
    Unknown,
}

/// What `lhs op rhs` gives. A shift by 64 bits or more, and arithmetic that leaves
/// the range of 64 bits, give nothing that this model determines.
pub open spec fn apply(op: BinOp, lhs: u64, rhs: u64) -> Outcome {
    match op {
        BinOp::BitAnd => Outcome::Value(lhs & rhs),
        BinOp::BitOr => Outcome::Value(lhs | rhs),
        BinOp::Shl => if rhs < 64 {
            Outcome::Value(lhs << rhs)
        } else {
            Outcome::Unknown
        },
        BinOp::Shr => if rhs < 64 {
            Outcome::Value(lhs >> rhs)
        } else {
            Outcome::Unknown
        },
        BinOp::Add => if lhs + rhs <= u64::MAX {
            Outcome::Value((lhs + rhs) as u64)
        } else {
            Outcome::Unknown
        },
        BinOp::Sub => if lhs >= rhs {
            Outcome::Value((lhs - rhs) as u64)
        } else {
            Outcome::Unknown
        },
        BinOp::Mul => if lhs * rhs <= u64::MAX {
            Outcome::Value((lhs * rhs) as u64)
        } else {
            Outcome::Unknown
        },
    }
}

/// What evaluating `e` leads to. The operands of a binary operator are evaluated
/// from left to right, and a `match` takes the first arm whose pattern fits.
pub open spec fn eval(e: ExprView, env: Env) -> Outcome
    decreases e, 0nat,
{
    match e {
        ExprView::Host(h) => if env.host.dom().contains(h.id) {
            Outcome::Value(env.host[h.id])
        } else {
            Outcome::Unknown
        },
        ExprView::Lit(_, LitView::Int(value, _)) => if value <= u64::MAX {
            Outcome::Value(value as u64)
        } else {
            Outcome::Unknown
        },
        ExprView::Path(PathView::Idents { global, segments, types, .. }) => if !global
            && segments.len() == 1 && types.len() == 0 && env.locals.dom().contains(segments[0]) {
            Outcome::Value(env.locals[segments[0]])
        } else {
            Outcome::Unknown
        },
        ExprView::Binary(_, op, lhs, rhs) => match eval(*lhs, env) {
            Outcome::Value(a) => match eval(*rhs, env) {
                Outcome::Value(b) => apply(op, a, b),
                other => other,
            },
            other => other,
        },
        ExprView::Match(_, scrutinee, arms) => match eval(*scrutinee, env) {
            Outcome::Value(v) => eval_arms(arms, 0, v, env),
            other => other,
        },
        ExprView::MethodCall(_, receiver, method, args) => if method == Method::RuntimeError.name()
            && args.len() == 1 {
            match args[0] {
                ExprView::Lit(_, LitView::Str(message)) => Outcome::RuntimeError {
                    target: *receiver,
                    message,
                },
                _ => Outcome::Unknown,
            }
        } else {
            Outcome::Unknown
        },
        _ => Outcome::Unknown,
    }
}

/// What a `match` on the value `v` leads to, of whose arms those from number `from`
/// on are still to try.
pub open spec fn eval_arms(arms: Seq<ArmView>, from: nat, v: u64, env: Env) -> Outcome
    decreases arms, arms.len() - from,
{
    if from >= arms.len() {
        Outcome::Unknown
    } else {
        match arms[from as int].pat {
            PatView::Wild(_) => eval(arms[from as int].body, env),
            PatView::Lit(_, LitView::Int(value, _)) => if value == v {
                eval(arms[from as int].body, env)
            } else {
                eval_arms(arms, from + 1, v, env)
            },
            _ => Outcome::Unknown,
        }
    }
}

/// `x` shifted as `shift` says: to the left where it is positive, to the right where
/// it is negative.
pub open spec fn shifted(x: u64, shift: i8) -> u64 {
    if shift < 0 {
        x >> ((-shift) as u64)
    } else if shift > 0 {
        x << (shift as u64)
    } else {
        x
    }
}

/// Masking, shifting and merging computes `orig | ((expr & mask) << shift)`, with a
/// shift to the right for a negative `shift`, and `orig | (expr & mask)` for none.
pub proof fn lemma_mask_shift_or(
    orig: ExprView,
    expr: ExprView,
    mask: u64,
    shift: i8,
    env: Env,
    a: u64,
    b: u64,
)
    requires
        eval(orig, env) == Outcome::Value(a),
        eval(expr, env) == Outcome::Value(b),
        -64 < shift < 64,
    ensures
        eval(mask_shift_or(orig, expr, mask, shift), env) == Outcome::Value(
            a | shifted(b & mask, shift),
        ),
        shift == 0 ==> eval(mask_shift_or(orig, expr, mask, shift), env) == Outcome::Value(
            a | (b & mask),
        ),
{
    reveal_with_fuel(eval, 4);
}

/// With the mask 3 and a shift by 6, bits 6 and 7 of `expr` come out where `orig`
/// has none there, and every other bit is that of `orig`. Doing it again with what
/// came out changes nothing.
pub proof fn lemma_scale_bits(orig: ExprView, expr: ExprView, env: Env, a: u64, b: u64)
    requires
        eval(orig, env) == Outcome::Value(a),
        eval(expr, env) == Outcome::Value(b),
    ensures
        ({
            let r = a | ((b & 3) << 6);
            &&& eval(mask_shift_or(orig, expr, 3, 6), env) == Outcome::Value(r)
            &&& r & !0xc0u64 == a & !0xc0u64
            &&& a & 0xc0 == 0 ==> (r >> 6) & 3 == b & 3
            &&& r | ((b & 3) << 6) == r
        }),
{
    lemma_mask_shift_or(orig, expr, 3, 6, env, a, b);
    let r = a | ((b & 3) << 6);
    assert(r & !0xc0u64 == a & !0xc0u64) by (bit_vector)
        requires
            r == a | ((b & 3) << 6),
    ;
    assert(a & 0xc0 == 0 ==> (r >> 6) & 3 == b & 3) by (bit_vector)
        requires
            r == a | ((b & 3) << 6),
    ;
    assert(r | ((b & 3) << 6) == r) by (bit_vector)
        requires
            r == a | ((b & 3) << 6),
    ;
}

/// The code of a stride: 0, 1, 2 and 3 for the strides 1, 2, 4 and 8.
pub open spec fn scale_code(stride: u64) -> Option<u64> {
    if stride == 1 {
        Some(0)
    } else if stride == 2 {
        Some(1)
    } else if stride == 4 {
        Some(2)
    } else if stride == 8 {
        Some(3)
    } else {
        None
    }
}

/// The expression that encodes a scale gives the code of the stride. For a stride
/// that has no code it calls `runtime_error` on the assembler, with the message
/// [`scale_error`].
pub proof fn lemma_encode_x64_sib_scale(target: HostExpr, size: ExprView, env: Env, stride: u64)
    requires
        eval(size, env) == Outcome::Value(stride),
    ensures
        eval(encode_x64_sib_scale(target, size), env) == match scale_code(stride) {
            Some(code) => Outcome::Value(code),
            None => Outcome::RuntimeError {
                target: ExprView::Host(target),
                message: scale_error(),
            },
        },
{
    let span = size.span();
    let arms = seq![
        scale_arm(span, 8, 3),
        scale_arm(span, 4, 2),
        scale_arm(span, 2, 1),
        scale_arm(span, 1, 0),
        scale_error_arm(span, target),
    ];
    assert(eval(encode_x64_sib_scale(target, size), env) == eval_arms(arms, 0, stride, env));
    assert(eval(arms[0].body, env) == Outcome::Value(3));
    assert(eval(arms[1].body, env) == Outcome::Value(2));
    assert(eval(arms[2].body, env) == Outcome::Value(1));
    assert(eval(arms[3].body, env) == Outcome::Value(0));
    assert(eval(arms[4].body, env) == Outcome::RuntimeError {
        target: ExprView::Host(target),
        message: scale_error(),
    });
    assert(eval_arms(arms, 4, stride, env) == eval(arms[4].body, env));
    assert(eval_arms(arms, 3, stride, env) == if stride == 1 {
        eval(arms[3].body, env)
    } else {
        eval_arms(arms, 4, stride, env)
    });
    assert(eval_arms(arms, 2, stride, env) == if stride == 2 {
        eval(arms[2].body, env)
    } else {
        eval_arms(arms, 3, stride, env)
    });
    assert(eval_arms(arms, 1, stride, env) == if stride == 4 {
        eval(arms[1].body, env)
    } else {
        eval_arms(arms, 2, stride, env)
    });
    assert(eval_arms(arms, 0, stride, env) == if stride == 8 {
        eval(arms[0].body, env)
    } else {
        eval_arms(arms, 1, stride, env)
    });
}

/// The values after the statement `s`, where it is a `let` that binds one variable
/// to an expression that has a value.
pub open spec fn bind(s: StmtView, env: Env) -> Option<Env> {
    match s {
        StmtView::Local(_, PatView::Ident(_, _, name), _, Some(init)) => match eval(init, env) {
            Outcome::Value(v) => Some(Env { host: env.host, locals: env.locals.insert(name, v) }),
            _ => None,
        },
        _ => None,
    }
}

/// The statement of a dynamic scale binds the temporary to the code of the stride,
/// and after it the expression gives `rest` with that code in bits 6 and 7: the
/// statement must run before the expression is evaluated.
pub proof fn lemma_dynscale(
    call_site: Span,
    temp: Seq<char>,
    target: HostExpr,
    scale: ExprView,
    rest: ExprView,
    env: Env,
    stride: u64,
    r: u64,
)
    requires
        eval(scale, env) == Outcome::Value(stride),
        scale_code(stride) is Some,
        eval(
            rest,
            Env { host: env.host, locals: env.locals.insert(temp, scale_code(stride).unwrap()) },
        ) == Outcome::Value(r),
    ensures
        ({
            let code = scale_code(stride).unwrap();
            let after = Env { host: env.host, locals: env.locals.insert(temp, code) };
            let built = dynscale(call_site, temp, target, scale, rest);
            &&& bind(built.0, env) == Some(after)
            &&& eval(built.1, after) == Outcome::Value(r | (code << 6))
        }),
{
    let code = scale_code(stride).unwrap();
    let after = Env { host: env.host, locals: env.locals.insert(temp, code) };
    lemma_encode_x64_sib_scale(target, scale, env, stride);
    let read = ExprView::ident(call_site, temp);
    assert(eval(read, after) == Outcome::Value(code));
    lemma_mask_shift_or(rest, read, 3, 6, after, r, code);
    assert((code & 3) << 6 == code << 6) by (bit_vector)
        requires
            code <= 3,
    ;
}

/// The numbers of `values` added up.
pub open spec fn total(values: Seq<u64>) -> nat
    decreases values.len(),
{
    if values.len() == 0 {
        0
    } else {
        total(values.drop_last()) + values.last() as nat
    }
}

/// The sum of expressions gives the values of the expressions added up, where that
/// fits in 64 bits.
pub proof fn lemma_sum(span: Span, exprs: Seq<ExprView>, env: Env, values: Seq<u64>)
    requires
        exprs.len() >= 1,
        values.len() == exprs.len(),
        forall|i: int| 0 <= i < exprs.len() ==> eval(#[trigger] exprs[i], env) == Outcome::Value(
            values[i],
        ),
        total(values) <= u64::MAX,
    ensures
        eval(sum(span, exprs), env) == Outcome::Value(total(values) as u64),
    decreases exprs.len(),
{
    if exprs.len() == 1 {
        assert(values.drop_last() =~= Seq::<u64>::empty());
        assert(total(values.drop_last()) == 0);
    } else {
        let front = exprs.drop_last();
        assert forall|i: int| 0 <= i < front.len() implies eval(#[trigger] front[i], env)
            == Outcome::Value(values.drop_last()[i]) by {
            assert(front[i] == exprs[i]);
        }
        lemma_sum(span, front, env, values.drop_last());
        assert(eval(exprs.last(), env) == Outcome::Value(values.last()));
    }
}

} // verus!
