use tryx::outcome::{outcome_shape, FieldsShape, OutcomeShape, OutcomeShapeError, VariantShape};

fn variant(success: bool, short_circuit: bool, fields: FieldsShape) -> VariantShape {
    VariantShape { success, short_circuit, fields }
}

#[test]
fn accepts_one_success_and_one_short_circuit() {
    let variants = vec![
        variant(true, false, FieldsShape::Unnamed(1)),
        variant(false, false, FieldsShape::Unit),
        variant(false, true, FieldsShape::Unnamed(1)),
    ];
    assert_eq!(outcome_shape(&variants), Ok(OutcomeShape { success: 0, short_circuit: 2 }));
}

#[test]
fn rejects_ambiguous_shapes() {
    let multiple_success = vec![
        variant(true, false, FieldsShape::Unnamed(1)),
        variant(true, false, FieldsShape::Unnamed(1)),
    ];
    assert_eq!(outcome_shape(&multiple_success), Err(OutcomeShapeError::MultipleSuccess(1)));

    let multiple_short = vec![
        variant(false, true, FieldsShape::Unnamed(1)),
        variant(false, true, FieldsShape::Unnamed(1)),
    ];
    assert_eq!(outcome_shape(&multiple_short), Err(OutcomeShapeError::MultipleShortCircuit(1)));

    let multiple_fields = vec![
        variant(true, false, FieldsShape::Unnamed(1)),
        variant(false, true, FieldsShape::Unnamed(2)),
    ];
    assert_eq!(outcome_shape(&multiple_fields), Err(OutcomeShapeError::NotSingleField(1)));

    let named = vec![variant(true, false, FieldsShape::Named(1))];
    assert_eq!(outcome_shape(&named), Err(OutcomeShapeError::NotSingleField(0)));

    let missing_success = vec![variant(false, true, FieldsShape::Unnamed(1))];
    assert_eq!(outcome_shape(&missing_success), Err(OutcomeShapeError::MissingSuccess));

    let missing_short = vec![variant(true, true, FieldsShape::Unnamed(1))];
    assert_eq!(outcome_shape(&missing_short), Err(OutcomeShapeError::MissingShortCircuit));

    assert_eq!(outcome_shape(&Vec::new()), Err(OutcomeShapeError::MissingSuccess));
}

#[test]
fn shape_error_messages() {
    assert_eq!(OutcomeShapeError::MultipleSuccess(0).message(), "multiple success variants");
    assert_eq!(OutcomeShapeError::MultipleShortCircuit(0).message(), "multiple short_circuit variants");
    assert_eq!(OutcomeShapeError::NotSingleField(0).message(), "variant must have exactly one unnamed field");
    assert_eq!(OutcomeShapeError::MissingSuccess.message(), "missing #[outcome(success)]");
    assert_eq!(OutcomeShapeError::MissingShortCircuit.message(), "missing #[outcome(short_circuit)]");
}
