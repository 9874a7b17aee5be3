use vstd::prelude::*;

verus! {

/// How the fields of an enum variant are written.
#[derive(Debug, Clone, Copy, PartialEq, Eq)]
pub enum FieldsShape {
    /// `Variant { a: A, .. }` with this many fields.
    Named(usize),
    /// `Variant(A, ..)` with this many fields.
    Unnamed(usize),
    /// `Variant`.
    Unit,
}

/// What the `Outcome` derive reads of one variant.
#[derive(Debug, Clone, Copy, PartialEq, Eq)]
pub struct VariantShape {
    /// The variant carries `#[outcome(success)]`.
    pub success: bool,
    /// The variant carries `#[outcome(short_circuit)]`.
    pub short_circuit: bool,
    pub fields: FieldsShape,
}

/// Indices of the success variant and of the short-circuit variant.
#[derive(Debug, Clone, Copy, PartialEq, Eq)]
pub struct OutcomeShape {
    pub success: usize,
    pub short_circuit: usize,
}

/// Why an enum cannot derive `Outcome`; an index names the offending variant.
#[derive(Debug, Clone, Copy, PartialEq, Eq)]
pub enum OutcomeShapeError {
    MultipleSuccess(usize),
    MultipleShortCircuit(usize),
    NotSingleField(usize),
    MissingSuccess,
    MissingShortCircuit,
}

/// A variant holds exactly one unnamed field.
pub open spec fn has_single_field(v: VariantShape) -> bool {
    v.fields == FieldsShape::Unnamed(1)
}

/// A variant counts as the short-circuit variant: it is flagged so and not
/// flagged as the success variant.
pub open spec fn is_short_circuit(v: VariantShape) -> bool {
    v.short_circuit && !v.success
}

/// The success and short-circuit variants found among the first `k`
/// variants, in order, or the first error met on the way.
pub open spec fn scan_variants(vs: Seq<VariantShape>, k: int) -> Result<(Option<usize>, Option<usize>), OutcomeShapeError>
    decreases k,
{
    if k <= 0 {
        Ok((None, None))
    } else {
        match scan_variants(vs, k - 1) {
            Err(e) => Err(e),
            Ok((success, short)) => {
                let v = vs[k - 1];
                let i = (k - 1) as usize;
                if v.success {
                    if success is Some {
                        Err(OutcomeShapeError::MultipleSuccess(i))
                    } else if !has_single_field(v) {
                        Err(OutcomeShapeError::NotSingleField(i))
                    } else {
                        Ok((Some(i), short))
                    }
                } else if v.short_circuit {
                    if short is Some {
                        Err(OutcomeShapeError::MultipleShortCircuit(i))
                    } else if !has_single_field(v) {
                        Err(OutcomeShapeError::NotSingleField(i))
                    } else {
                        Ok((success, Some(i)))
                    }
                } else {
                    Ok((success, short))
                }
            },
        }
    }
}

/// The shape the `Outcome` derive accepts for `vs`, or why it rejects it.
pub open spec fn spec_outcome_shape(vs: Seq<VariantShape>) -> Result<OutcomeShape, OutcomeShapeError> {
    match scan_variants(vs, vs.len() as int) {
        Err(e) => Err(e),
        Ok((None, _)) => Err(OutcomeShapeError::MissingSuccess),
        Ok((Some(_), None)) => Err(OutcomeShapeError::MissingShortCircuit),
        Ok((Some(s), Some(c))) => Ok(OutcomeShape { success: s, short_circuit: c }),
    }
}

/// Once the scan meets an error, scanning further variants keeps it.
proof fn lemma_scan_error_stays(vs: Seq<VariantShape>, k: int, m: int)
    requires
        0 <= k <= m,
        scan_variants(vs, k) is Err,
    ensures
        scan_variants(vs, m) == scan_variants(vs, k),
    decreases m - k,
{
    if k < m {
        lemma_scan_error_stays(vs, k, m - 1);
    }
}

/// What an error-free scan of the first `k` variants reports: indices below
/// `k` of a variant flagged `success`, and of one flagged `short_circuit` and
/// not `success`, each with one unnamed field.
proof fn lemma_scan_shape(vs: Seq<VariantShape>, k: int)
    requires
        0 <= k <= vs.len() <= usize::MAX,
    ensures
        scan_variants(vs, k) matches Ok((success, short)) ==> {
            &&& success matches Some(i) ==> i < k && vs[i as int].success
                && vs[i as int].fields == FieldsShape::Unnamed(1)
            &&& short matches Some(i) ==> i < k && vs[i as int].short_circuit && !vs[i as int].success
                && vs[i as int].fields == FieldsShape::Unnamed(1)
        },
    decreases k,
{
    if k > 0 {
        lemma_scan_shape(vs, k - 1);
    }
}

/// A variant flagged `success` or `short_circuit` whose fields are anything
/// but one unnamed field makes the scan of any prefix that holds it fail.
pub proof fn lemma_scan_rejects_bad_fields(vs: Seq<VariantShape>, i: int, k: int)
    requires
        0 <= i < k,
        vs[i].success || vs[i].short_circuit,
        vs[i].fields != FieldsShape::Unnamed(1),
    ensures
        scan_variants(vs, k) is Err,
    decreases k,
{
    if k > i + 1 {
        lemma_scan_rejects_bad_fields(vs, i, k - 1);
        lemma_scan_error_stays(vs, k - 1, k);
    }
}

fn single_field(v: &VariantShape) -> (b: bool)
    ensures
        b == has_single_field(*v),
{
    match v.fields {
        FieldsShape::Unnamed(n) => n == 1,
        _ => false,
    }
}

/// Find the success variant and the short-circuit variant of an enum that
/// derives `Outcome`, checking that each is unique and holds exactly one
/// unnamed field.
pub fn outcome_shape(variants: &Vec<VariantShape>) -> (res: Result<OutcomeShape, OutcomeShapeError>)
    ensures
        res == spec_outcome_shape(variants@),
        res matches Ok(shape) ==> {
            &&& shape.success < variants@.len()
            &&& shape.short_circuit < variants@.len()
            &&& variants@[shape.success as int].success
            &&& variants@[shape.success as int].fields == FieldsShape::Unnamed(1)
            &&& variants@[shape.short_circuit as int].short_circuit
            &&& !variants@[shape.short_circuit as int].success
            &&& variants@[shape.short_circuit as int].fields == FieldsShape::Unnamed(1)
        },
        forall|i: int|
            0 <= i < variants@.len() && (#[trigger] variants@[i].success || variants@[i].short_circuit)
                && variants@[i].fields != FieldsShape::Unnamed(1) ==> res is Err,
{
    let count = variants.len();
    proof {
        lemma_scan_shape(variants@, count as int);
        assert forall|i: int|
            0 <= i < variants@.len() && (#[trigger] variants@[i].success || variants@[i].short_circuit)
                && variants@[i].fields != FieldsShape::Unnamed(1) implies spec_outcome_shape(variants@) is Err by {
            lemma_scan_rejects_bad_fields(variants@, i, variants@.len() as int);
        }
    }
    let mut success: Option<usize> = None;
    let mut short: Option<usize> = None;
    let mut i: usize = 0;
    while i < variants.len()
        invariant
            i <= variants@.len(),
            scan_variants(variants@, i as int) == Ok::<(Option<usize>, Option<usize>), OutcomeShapeError>((success, short)),
        decreases variants@.len() - i,
    {
        let v = &variants[i];
        if v.success {
            if success.is_some() {
                proof {
                    lemma_scan_error_stays(variants@, i + 1, variants@.len() as int);
                }
                return Err(OutcomeShapeError::MultipleSuccess(i));
            }
            if !single_field(v) {
                proof {
                    lemma_scan_error_stays(variants@, i + 1, variants@.len() as int);
                }
                return Err(OutcomeShapeError::NotSingleField(i));
            }
            success = Some(i);
        } else if v.short_circuit {
            if short.is_some() {
                proof {
                    lemma_scan_error_stays(variants@, i + 1, variants@.len() as int);
                }
                return Err(OutcomeShapeError::MultipleShortCircuit(i));
            }
            if !single_field(v) {
                proof {
                    lemma_scan_error_stays(variants@, i + 1, variants@.len() as int);
                }
                return Err(OutcomeShapeError::NotSingleField(i));
            }
            short = Some(i);
        }
        i = i + 1;
    }
    match (success, short) {
        (None, _) => Err(OutcomeShapeError::MissingSuccess),
        (Some(_), None) => Err(OutcomeShapeError::MissingShortCircuit),
        (Some(s), Some(c)) => Ok(OutcomeShape { success: s, short_circuit: c }),
    }
}

impl OutcomeShapeError {
    /// The diagnostic the derive reports.
    pub fn message(&self) -> (text: &'static str)
        ensures
            text@ == (match *self {
                OutcomeShapeError::MultipleSuccess(_) => "multiple success variants"@,
                OutcomeShapeError::MultipleShortCircuit(_) => "multiple short_circuit variants"@,
                OutcomeShapeError::NotSingleField(_) => "variant must have exactly one unnamed field"@,
                OutcomeShapeError::MissingSuccess => "missing #[outcome(success)]"@,
                OutcomeShapeError::MissingShortCircuit => "missing #[outcome(short_circuit)]"@,
            }),
    {
        match self {
            OutcomeShapeError::MultipleSuccess(_) => "multiple success variants",
            OutcomeShapeError::MultipleShortCircuit(_) => "multiple short_circuit variants",
            OutcomeShapeError::NotSingleField(_) => "variant must have exactly one unnamed field",
            OutcomeShapeError::MissingSuccess => "missing #[outcome(success)]",
            OutcomeShapeError::MissingShortCircuit => "missing #[outcome(short_circuit)]",
        }
    }
}

} // verus!
