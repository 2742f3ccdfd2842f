use hyprdisplay::error::LayoutError;
use hyprdisplay::pipeline::Stage;

#[test]
fn a_run_applies_twice_then_notifies_then_saves() {
    let mut stage = Stage::start();
    let mut seen = vec![stage];
    while stage != Stage::Done {
        stage = stage.after(true).unwrap();
        seen.push(stage);
    }
    assert_eq!(
        seen,
        [Stage::ApplyFirst, Stage::ApplySecond, Stage::Notify, Stage::Persist, Stage::Done]
    );
    assert_eq!(Stage::Done.after(true), Ok(Stage::Done));
}

#[test]
fn a_failure_at_any_stage_ends_the_run() {
    for stage in [Stage::ApplyFirst, Stage::ApplySecond, Stage::Notify, Stage::Persist, Stage::Done] {
        assert_eq!(stage.after(false), Err(LayoutError::ExternalCapabilityFailure));
    }
}

#[test]
fn saving_is_not_reached_when_the_second_directive_fails() {
    let stage = Stage::start().after(true).unwrap();
    assert_eq!(stage, Stage::ApplySecond);
    assert_eq!(stage.after(false), Err(LayoutError::ExternalCapabilityFailure));
}
