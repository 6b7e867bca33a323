use scaffold_core::errors::ResolveError;
use scaffold_core::hooks::{HookPhase, Pipeline, PipelineAction};

fn names(list: &[&str]) -> Vec<String> {
    list.iter().map(|s| s.to_string()).collect()
}

#[test]
fn hooks_run_in_order_and_succeeding_phase_completes() {
    let mut phase = HookPhase::new(names(&["first.sh", "second.sh"]));
    assert_eq!(phase.next_index(), Some(0));
    phase.record(true);
    assert_eq!(phase.next_index(), Some(1));
    phase.record(true);
    assert_eq!(phase.next_index(), None);
    assert!(phase.outcome().is_ok());
}

#[test]
fn first_failing_hook_stops_the_phase_and_names_itself() {
    let mut phase = HookPhase::new(names(&["first.sh", "second.sh"]));
    assert_eq!(phase.next_index(), Some(0));
    phase.record(false);
    // The second hook is never offered.
    assert_eq!(phase.next_index(), None);
    assert_eq!(
        phase.outcome(),
        Err(ResolveError::HookFailed("first.sh".to_string()))
    );
}

#[test]
fn failing_pre_gen_hook_stops_generation_and_post_phase() {
    let mut p = Pipeline::new(true, names(&["a.sh", "b.sh"]), names(&["post.sh"]));
    assert_eq!(p.next_action(), PipelineAction::RunPreHook(0));
    p.pre_hook_finished(false);
    // The second pre-gen hook is never invoked, generation never runs, and
    // the post-generation phase is never entered.
    assert_eq!(p.next_action(), PipelineAction::Stopped);
    assert!(!p.generated);
    assert_eq!(p.post.idx, 0);
}

#[test]
fn full_pipeline_runs_pre_generate_post_in_order() {
    let mut p = Pipeline::new(true, names(&["a.sh"]), names(&["post.sh"]));
    assert_eq!(p.next_action(), PipelineAction::RunPreHook(0));
    p.pre_hook_finished(true);
    assert_eq!(p.next_action(), PipelineAction::Generate);
    p.generation_finished();
    assert_eq!(p.next_action(), PipelineAction::RunPostHook(0));
    p.post_hook_finished(true);
    assert_eq!(p.next_action(), PipelineAction::Finished);
}

#[test]
fn disabled_hooks_skip_both_phases() {
    let mut p = Pipeline::new(false, names(&["a.sh"]), names(&["post.sh"]));
    assert_eq!(p.next_action(), PipelineAction::Generate);
    p.generation_finished();
    assert_eq!(p.next_action(), PipelineAction::Finished);
}

#[test]
fn empty_phases_are_skipped() {
    let mut p = Pipeline::new(true, Vec::new(), Vec::new());
    assert_eq!(p.next_action(), PipelineAction::Generate);
    p.generation_finished();
    assert_eq!(p.next_action(), PipelineAction::Finished);
}

#[test]
fn failing_post_gen_hook_stops_the_pipeline() {
    let mut p = Pipeline::new(true, Vec::new(), names(&["post.sh"]));
    assert_eq!(p.next_action(), PipelineAction::Generate);
    p.generation_finished();
    assert_eq!(p.next_action(), PipelineAction::RunPostHook(0));
    p.post_hook_finished(false);
    assert_eq!(p.next_action(), PipelineAction::Stopped);
    assert_eq!(
        p.post.outcome(),
        Err(ResolveError::HookFailed("post.sh".to_string()))
    );
}
