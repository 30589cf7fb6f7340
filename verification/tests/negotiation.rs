use shader::config::{negotiate, ApiKind, CandidateConfig};
use shader::context::{setup, ContextSetup, SetupStep};
use shader::error::SetupError;

fn gl(transparency: bool, samples: u32) -> CandidateConfig {
    CandidateConfig::new(transparency, samples, ApiKind::OpenGl)
}

fn attributes(list: &Vec<CandidateConfig>) -> (bool, u32) {
    let i = negotiate(list).unwrap();
    (list[i].supports_transparency, list[i].sample_count)
}

#[test]
fn transparent_candidate_with_most_samples_is_selected() {
    let list = vec![gl(false, 0), gl(true, 2), gl(true, 8), gl(false, 16)];
    assert_eq!(negotiate(&list), Ok(2));
    assert_eq!(attributes(&list), (true, 8));
}

#[test]
fn empty_list_has_no_suitable_config() {
    let list: Vec<CandidateConfig> = Vec::new();
    assert_eq!(negotiate(&list), Err(SetupError::NoSuitableConfig));
}

#[test]
fn single_candidate_is_selected() {
    assert_eq!(negotiate(&vec![gl(false, 0)]), Ok(0));
}

#[test]
fn more_samples_do_not_outweigh_transparency() {
    let list = vec![gl(true, 2), gl(false, 16)];
    assert_eq!(negotiate(&list), Ok(0));
    let list = vec![gl(false, 16), gl(true, 0)];
    assert_eq!(negotiate(&list), Ok(1));
}

#[test]
fn more_samples_win_among_equal_transparency() {
    assert_eq!(negotiate(&vec![gl(false, 4), gl(false, 8), gl(false, 2)]), Ok(1));
    assert_eq!(negotiate(&vec![gl(true, 4), gl(true, 2), gl(true, 16)]), Ok(2));
}

#[test]
fn first_seen_wins_a_tie() {
    let list = vec![gl(true, 8), gl(false, 8), gl(true, 8), gl(true, 8)];
    assert_eq!(negotiate(&list), Ok(0));
    let list = vec![gl(false, 1), gl(false, 3), gl(false, 3)];
    assert_eq!(negotiate(&list), Ok(1));
}

#[test]
fn reordering_keeps_the_selected_attributes() {
    let a = vec![gl(false, 0), gl(true, 2), gl(true, 8), gl(false, 16)];
    let b = vec![gl(false, 16), gl(true, 8), gl(false, 0), gl(true, 2)];
    let c = vec![gl(true, 8), gl(true, 2), gl(false, 16), gl(false, 0)];
    assert_eq!(attributes(&a), (true, 8));
    assert_eq!(attributes(&b), (true, 8));
    assert_eq!(attributes(&c), (true, 8));
    assert_eq!(negotiate(&b), Ok(1));
    assert_eq!(negotiate(&c), Ok(0));
}

#[test]
fn reordered_duplicates_may_select_another_position() {
    let first = CandidateConfig::new(true, 4, ApiKind::OpenGl);
    let second = CandidateConfig::new(true, 4, ApiKind::Gles);
    let a = vec![first, second];
    let b = vec![second, first];
    assert_eq!(negotiate(&a), Ok(0));
    assert_eq!(negotiate(&b), Ok(0));
    assert_eq!(a[0].api_kind, ApiKind::OpenGl);
    assert_eq!(b[0].api_kind, ApiKind::Gles);
    assert_eq!(attributes(&a), attributes(&b));
}

#[test]
fn preference_is_strict() {
    let plain = gl(false, 4);
    let clear = gl(true, 0);
    assert!(clear.is_preferred_to(&plain));
    assert!(!plain.is_preferred_to(&clear));
    assert!(!plain.is_preferred_to(&plain));
    assert!(gl(false, 5).is_preferred_to(&plain));
    assert!(!gl(false, 3).is_preferred_to(&plain));
}

#[test]
fn setup_of_an_empty_list_fails() {
    let list: Vec<CandidateConfig> = Vec::new();
    assert_eq!(setup(&list, ApiKind::OpenGl), Err(SetupError::NoSuitableConfig));
}

#[test]
fn setup_without_the_requested_api_fails() {
    let list = vec![
        CandidateConfig::new(true, 8, ApiKind::Gles),
        CandidateConfig::new(false, 2, ApiKind::Other),
    ];
    assert_eq!(setup(&list, ApiKind::OpenGl), Err(SetupError::NoCompatibleApi));
}

#[test]
fn setup_selects_within_the_requested_api() {
    let list = vec![
        CandidateConfig::new(true, 16, ApiKind::Gles),
        CandidateConfig::new(false, 4, ApiKind::OpenGl),
        CandidateConfig::new(true, 2, ApiKind::OpenGl),
        CandidateConfig::new(true, 2, ApiKind::OpenGl),
        CandidateConfig::new(true, 32, ApiKind::Other),
    ];
    let expected = ContextSetup { selected: 2, pending: Some(SetupStep::CreateContext) };
    assert_eq!(setup(&list, ApiKind::OpenGl), Ok(expected));
    let expected = ContextSetup { selected: 0, pending: Some(SetupStep::CreateContext) };
    assert_eq!(setup(&list, ApiKind::Gles), Ok(expected));
}

#[test]
fn setup_agrees_with_negotiation_in_one_family() {
    let list = vec![gl(false, 0), gl(true, 2), gl(true, 8), gl(false, 16)];
    let selected = setup(&list, ApiKind::OpenGl).unwrap().selected;
    assert_eq!(Ok(selected), negotiate(&list));
}

#[test]
fn three_successful_steps_make_the_context_current() {
    let start = ContextSetup { selected: 5, pending: Some(SetupStep::CreateContext) };
    assert!(!start.is_current());
    let second = start.step_finished(true).unwrap();
    assert_eq!(second, ContextSetup { selected: 5, pending: Some(SetupStep::CreateSurface) });
    let third = second.step_finished(true).unwrap();
    assert_eq!(third, ContextSetup { selected: 5, pending: Some(SetupStep::MakeCurrent) });
    let done = third.step_finished(true).unwrap();
    assert_eq!(done, ContextSetup { selected: 5, pending: None });
    assert!(done.is_current());
    assert_eq!(done.step_finished(false), Ok(done));
    assert_eq!(done.step_finished(true), Ok(done));
}

#[test]
fn each_step_fails_with_its_own_error() {
    let at = |step| ContextSetup { selected: 0, pending: Some(step) };
    assert_eq!(
        at(SetupStep::CreateContext).step_finished(false),
        Err(SetupError::ContextCreationFailed)
    );
    assert_eq!(
        at(SetupStep::CreateSurface).step_finished(false),
        Err(SetupError::SurfaceCreationFailed)
    );
    assert_eq!(at(SetupStep::MakeCurrent).step_finished(false), Err(SetupError::MakeCurrentFailed));
}
