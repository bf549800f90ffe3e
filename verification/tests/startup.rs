use pong::startup::{built, created, Stage};

#[test]
fn an_object_that_was_handed_out_is_passed_on() {
    assert_eq!(created(Some(7u32), Stage::Shader), Ok(7));
    assert_eq!(created(Some("program"), Stage::Program), Ok("program"));
}

#[test]
fn no_shader_object() {
    assert_eq!(
        created::<u32>(None, Stage::Shader),
        Err(String::from("Unable to create shader object"))
    );
}

#[test]
fn no_program_object() {
    assert_eq!(
        created::<u32>(None, Stage::Program),
        Err(String::from("Unable to create program object"))
    );
}

#[test]
fn a_build_that_succeeded() {
    assert_eq!(built(3u32, Some(true), None, Stage::Shader), Ok(3));
    assert_eq!(built(4u32, Some(true), Some(String::from("warning: unused")), Stage::Program), Ok(4));
}

#[test]
fn a_build_that_failed_reports_the_log() {
    assert_eq!(
        built(3u32, Some(false), Some(String::from("0:3: syntax error")), Stage::Shader),
        Err(String::from("0:3: syntax error"))
    );
    assert_eq!(
        built(3u32, Some(false), Some(String::from("link failed")), Stage::Program),
        Err(String::from("link failed"))
    );
}

#[test]
fn a_build_that_failed_without_a_log() {
    assert_eq!(
        built(3u32, Some(false), None, Stage::Shader),
        Err(String::from("Unknown error creating shader"))
    );
    assert_eq!(
        built(3u32, Some(false), None, Stage::Program),
        Err(String::from("Unknown error creating program"))
    );
}

#[test]
fn a_status_that_is_no_truth_value_counts_as_failure() {
    assert_eq!(
        built(3u32, None, None, Stage::Shader),
        Err(String::from("Unknown error creating shader"))
    );
    assert_eq!(
        built(3u32, None, Some(String::from("lost context")), Stage::Program),
        Err(String::from("lost context"))
    );
}
