//! Properties that relate several operations of the outcome types.

use core::ops::ControlFlow;
use vstd::prelude::*;

use crate::cancel::{Cancel, CancelWith, Cancellation, CancellationReason};
use crate::checked::{Checked, FloatFailure};
use crate::outcome::{
    has_single_field, is_short_circuit, lemma_scan_rejects_bad_fields, scan_variants,
    spec_outcome_shape, FieldsShape, OutcomeShape, OutcomeShapeError, VariantShape,
};
use crate::parsing::{
    found_prefix, is_ident_char, is_ident_start, ParseFailure, Parsing, FOUND_LIMIT,
};
use crate::stage::{Stage, StageFailure};

verus! {

/// For `Cancel`, `?` continues with exactly the value that was wrapped as
/// output, and a short-circuit rebuilds exactly the outcome it came from.
pub proof fn law_cancel_try<T>(value: T, outcome: Cancel<T>)
    ensures
        Cancel::<T>::from_output(value).branch() == ControlFlow::<Cancellation, T>::Continue(value),
        outcome.branch() matches ControlFlow::Break(r) ==> Cancel::<T>::from_residual(r) == outcome,
        outcome.branch() matches ControlFlow::Continue(v) ==> Cancel::<T>::from_output(v) == outcome,
{
}

/// For `CancelWith`, `?` continues with the wrapped value, and a
/// short-circuit carries the reason out and back unchanged.
pub proof fn law_cancel_with_try<T, R>(value: T, outcome: CancelWith<T, R>)
    ensures
        CancelWith::<T, R>::from_output(value).branch()
            == ControlFlow::<CancellationReason<R>, T>::Continue(value),
        outcome.branch() matches ControlFlow::Break(r) ==> CancelWith::<T, R>::from_residual(r) == outcome,
        outcome.branch() matches ControlFlow::Continue(v) ==> CancelWith::<T, R>::from_output(v) == outcome,
        outcome matches CancelWith::Cancelled(reason) ==> outcome.branch()
            == ControlFlow::<CancellationReason<R>, T>::Break(CancellationReason(reason)),
{
}

/// For `Checked`, `?` continues with the wrapped value, a short-circuit
/// rebuilds the failed outcome, and conversion to `Result` agrees with `?`.
pub proof fn law_checked_try<T>(value: T, outcome: Checked<T>)
    ensures
        Checked::<T>::from_output(value).branch() == ControlFlow::<FloatFailure, T>::Continue(value),
        outcome.branch() matches ControlFlow::Break(r) ==> Checked::<T>::from_residual(r) == outcome,
        outcome.branch() matches ControlFlow::Continue(v) ==> Checked::<T>::from_output(v) == outcome,
        outcome.into_result() == (match outcome.branch() {
            ControlFlow::Continue(v) => Ok::<T, FloatFailure>(v),
            ControlFlow::Break(f) => Err::<T, FloatFailure>(f),
        }),
{
}

/// For `Parsing`, `?` continues with the wrapped value and remaining input,
/// and a short-circuit rebuilds the failed outcome.
pub proof fn law_parsing_try<'a, T>(value: T, rest: &'a str, outcome: Parsing<'a, T>)
    ensures
        Parsing::<'a, T>::from_output((value, rest)).branch()
            == ControlFlow::<ParseFailure<'a>, (T, &'a str)>::Continue((value, rest)),
        outcome.branch() matches ControlFlow::Break(r) ==> Parsing::<'a, T>::from_residual(r) == outcome,
        outcome.branch() matches ControlFlow::Continue(v) ==> Parsing::<'a, T>::from_output(v) == outcome,
{
}

/// For `Stage`, `?` continues with the wrapped value, and a short-circuit
/// carries the stage and the partial state out and back unchanged.
pub proof fn law_stage_try<S, T, P>(value: T, outcome: Stage<S, T, P>)
    ensures
        Stage::<S, T, P>::from_output(value).branch()
            == ControlFlow::<StageFailure<S, P>, T>::Continue(value),
        outcome.branch() matches ControlFlow::Break(r) ==> Stage::<S, T, P>::from_residual(r) == outcome,
        outcome.branch() matches ControlFlow::Continue(v) ==> Stage::<S, T, P>::from_output(v) == outcome,
{
}

/// What a failure quotes of the input is a prefix of it, at most
/// `FOUND_LIMIT` bytes long, and all of it when the input is that short.
pub proof fn law_found_is_short_prefix(bytes: Seq<u8>)
    ensures
        found_prefix(bytes).len() <= FOUND_LIMIT,
        found_prefix(bytes) == bytes.subrange(0, found_prefix(bytes).len() as int),
        bytes.len() <= FOUND_LIMIT ==> found_prefix(bytes) == bytes,
{
    assert(bytes.len() <= FOUND_LIMIT ==> bytes.subrange(0, bytes.len() as int) =~= bytes);
}

proof fn lemma_scan_meaning(vs: Seq<VariantShape>, k: int)
    requires
        0 <= k <= vs.len() <= usize::MAX,
    ensures
        scan_variants(vs, k) matches Ok((success, short)) ==> {
            &&& success matches Some(i) ==> {
                &&& i < k
                &&& vs[i as int].success
                &&& has_single_field(vs[i as int])
                &&& forall|j: int| 0 <= j < k && j != i ==> !(#[trigger] vs[j]).success
            }
            &&& success is None ==> forall|j: int| 0 <= j < k ==> !(#[trigger] vs[j]).success
            &&& short matches Some(i) ==> {
                &&& i < k
                &&& is_short_circuit(vs[i as int])
                &&& has_single_field(vs[i as int])
                &&& forall|j: int| 0 <= j < k && j != i ==> !is_short_circuit(#[trigger] vs[j])
            }
            &&& short is None ==> forall|j: int| 0 <= j < k ==> !is_short_circuit(#[trigger] vs[j])
        },
    decreases k,
{
    if k > 0 {
        lemma_scan_meaning(vs, k - 1);
    }
}

/// An enum shape that the `Outcome` derive accepts has exactly one success
/// variant and exactly one short-circuit variant, each holding exactly one
/// unnamed field, and those are the variants it reports.
pub proof fn law_outcome_shape_accepts_unique_variants(vs: Seq<VariantShape>)
    requires
        vs.len() <= usize::MAX,
    ensures
        spec_outcome_shape(vs) matches Ok(shape) ==> {
            &&& shape.success < vs.len()
            &&& shape.short_circuit < vs.len()
            &&& vs[shape.success as int].success
            &&& vs[shape.success as int].fields == FieldsShape::Unnamed(1)
            &&& vs[shape.short_circuit as int].short_circuit && !vs[shape.short_circuit as int].success
            &&& vs[shape.short_circuit as int].fields == FieldsShape::Unnamed(1)
            &&& forall|j: int| 0 <= j < vs.len() && j != shape.success ==> !(#[trigger] vs[j]).success
            &&& forall|j: int| 0 <= j < vs.len() && j != shape.short_circuit
                ==> !((#[trigger] vs[j]).short_circuit && !vs[j].success)
        },
{
    lemma_scan_meaning(vs, vs.len() as int);
}

/// The scan of the first `k` variants reports exactly the success and
/// short-circuit variants among them, when the whole enum has exactly one of
/// each and both hold one unnamed field.
proof fn lemma_scan_accepts(vs: Seq<VariantShape>, k: int, s: int, c: int)
    requires
        0 <= k <= vs.len() <= usize::MAX,
        0 <= s < vs.len(),
        0 <= c < vs.len(),
        vs[s].success && has_single_field(vs[s]),
        is_short_circuit(vs[c]) && has_single_field(vs[c]),
        forall|j: int| 0 <= j < vs.len() && j != s ==> !(#[trigger] vs[j]).success,
        forall|j: int| 0 <= j < vs.len() && j != c ==> !is_short_circuit(#[trigger] vs[j]),
    ensures
        scan_variants(vs, k) == Ok::<(Option<usize>, Option<usize>), OutcomeShapeError>((
            if s < k { Some(s as usize) } else { None },
            if c < k { Some(c as usize) } else { None },
        )),
    decreases k,
{
    if k > 0 {
        lemma_scan_accepts(vs, k - 1, s, c);
        let v = vs[k - 1];
        if k - 1 != s && k - 1 != c {
            assert(!v.success);
            assert(!is_short_circuit(v));
        }
    }
}

/// An enum with exactly one success variant and exactly one short-circuit
/// variant, each holding exactly one unnamed field, is accepted by the
/// `Outcome` derive, which reports those two variants.
pub proof fn law_outcome_shape_accepts_exactly_one_of_each(vs: Seq<VariantShape>, s: int, c: int)
    requires
        vs.len() <= usize::MAX,
        0 <= s < vs.len(),
        0 <= c < vs.len(),
        vs[s].success && vs[s].fields == FieldsShape::Unnamed(1),
        vs[c].short_circuit && !vs[c].success && vs[c].fields == FieldsShape::Unnamed(1),
        forall|j: int| 0 <= j < vs.len() && j != s ==> !(#[trigger] vs[j]).success,
        forall|j: int| 0 <= j < vs.len() && j != c ==> !((#[trigger] vs[j]).short_circuit && !vs[j].success),
    ensures
        spec_outcome_shape(vs) == Ok::<OutcomeShape, OutcomeShapeError>(
            OutcomeShape { success: s as usize, short_circuit: c as usize },
        ),
{
    lemma_scan_accepts(vs, vs.len() as int, s, c);
}

/// A variant flagged `success` or `short_circuit` that is a unit variant, a
/// variant with named fields, or one with other than one unnamed field makes
/// the `Outcome` derive reject the enum.
pub proof fn law_outcome_shape_rejects_other_fields(vs: Seq<VariantShape>, i: int)
    requires
        0 <= i < vs.len(),
        vs[i].success || vs[i].short_circuit,
        vs[i].fields != FieldsShape::Unnamed(1),
    ensures
        spec_outcome_shape(vs) is Err,
{
    lemma_scan_rejects_bad_fields(vs, i, vs.len() as int);
}

/// An identifier starts with `_` or an ASCII letter and continues with `_`,
/// ASCII letters and ASCII digits; no other character belongs to one.
pub proof fn law_ident_character_classes(c: char)
    ensures
        is_ident_start(c) <==> (c == '_' || ('a' <= c && c <= 'z') || ('A' <= c && c <= 'Z')),
        is_ident_char(c) <==> (c == '_' || ('a' <= c && c <= 'z') || ('A' <= c && c <= 'Z')
            || ('0' <= c && c <= '9')),
{
}

} // verus!
