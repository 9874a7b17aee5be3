use std::convert::Infallible;
use std::ops::ControlFlow;

use tryx::stage::{Stage, StageError, StageFailure};

#[derive(Debug, Clone, Copy, PartialEq, Eq)]
enum Step {
    Parse,
}

fn parse(input: &str) -> Stage<Step, u32, &'_ str> {
    match input.parse::<u32>() {
        Ok(value) => Stage::done(value),
        Err(_) => Stage::failed(Step::Parse, input),
    }
}

#[test]
fn question_mark_short_circuits_with_partial_state() {
    fn run() -> Stage<Step, u32, &'static str> {
        let value = match parse("bad").branch() {
            ControlFlow::Continue(value) => value,
            ControlFlow::Break(residual) => return Stage::from_residual(residual),
        };
        Stage::done(value + 1)
    }

    assert_eq!(
        run(),
        Stage::Failed(StageFailure {
            stage: Step::Parse,
            partial: "bad"
        })
    );
}

#[test]
fn umbrella_reexports_stage_api() {
    fn run() -> Stage<Step, u32, &'static str> {
        let value = match parse("bad").branch() {
            ControlFlow::Continue(value) => value,
            ControlFlow::Break(residual) => return Stage::from_residual(residual),
        };
        Stage::done(value)
    }

    assert_eq!(
        run(),
        Stage::Failed(StageFailure {
            stage: Step::Parse,
            partial: "bad"
        })
    );
}

#[derive(Debug, PartialEq, Eq)]
struct PipelineError(Step);

impl From<StageError<Step>> for PipelineError {
    fn from(error: StageError<Step>) -> Self {
        Self(error.stage)
    }
}

#[test]
fn stage_continues_and_maps() {
    fn run() -> Stage<Step, u32, &'static str> {
        let value = match parse("41").branch() {
            ControlFlow::Continue(value) => value,
            ControlFlow::Break(residual) => return Stage::from_residual(residual),
        };
        Stage::done(value + 1)
    }
    assert_eq!(run(), Stage::Done(42));
    assert_eq!(parse("20").map(|value| value * 2), Stage::Done(40));
    assert_eq!(
        parse("x").map(|value| value * 2),
        Stage::Failed(StageFailure { stage: Step::Parse, partial: "x" }),
    );
    assert_eq!(Stage::<Step, u8, ()>::from_output(3).branch(), ControlFlow::Continue(3));
}

#[test]
fn stage_result_interop_drops_partial_state() {
    fn run() -> Result<u32, PipelineError> {
        let value = match parse("nope").branch() {
            ControlFlow::Continue(value) => value,
            ControlFlow::Break(residual) => return residual.into_result(),
        };
        Ok(value)
    }
    assert_eq!(run(), Err(PipelineError(Step::Parse)));
}

#[test]
fn stage_absorbs_result_with_default_partial_state() {
    let absorbed: Result<Infallible, StageError<Step>> = Err(StageError { stage: Step::Parse });
    assert_eq!(
        Stage::<Step, u8, u32>::from_error_residual(absorbed),
        Stage::Failed(StageFailure { stage: Step::Parse, partial: 0 }),
    );
}

#[test]
fn stage_error_message_names_stage() {
    assert_eq!(StageError { stage: Step::Parse }.to_string(), "pipeline stopped at stage Parse");
}
