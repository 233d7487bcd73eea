use hephaestus_control::ids::{
    evolution_analysis_id, evolution_assessment_id, evolution_child_evaluation_id,
    evolution_diagnostic_evaluation_id, evolution_promotion_transition_id, evolution_proposal_id,
    forge_aggregate_id, forge_assessment_event_id, forge_event_id, job_run_id,
    meta_lineage_run_id, paired_run_id, paired_run_prefix, remote_job_run_id, trial_run_id, wrap,
};

#[test]
fn identities_have_their_documented_forms() {
    assert_eq!(wrap("a", "b", "c"), "abc");
    assert_eq!(forge_event_id("p"), "forge:p:proposed");
    assert_eq!(forge_aggregate_id("p"), "forge:p");
    assert_eq!(forge_assessment_event_id("a"), "forge-assessment:a:recorded");
    let digest = blake3::hash(b"job-1").to_hex().to_string();
    assert_eq!(job_run_id("job-1"), format!("async-{}", &digest[..32]));
    assert_eq!(remote_job_run_id("job-1"), format!("remote-{}", &digest[..32]));
    assert_eq!(paired_run_prefix("job-1"), format!("paired-{}", &digest[..24]));
    assert_eq!(paired_run_id("job-1", "parent", 7), format!("paired-{}-parent-7", &digest[..24]));
    assert_eq!(evolution_diagnostic_evaluation_id("r", 0), "evolve-r-g0-d");
    assert_eq!(evolution_child_evaluation_id("r", 10), "evolve-r-g10-c");
    assert_eq!(evolution_proposal_id("r", 1), "evolve-r-g1-p");
    assert_eq!(evolution_assessment_id("r", 1), "evolve-r-g1-a");
    assert_eq!(evolution_promotion_transition_id("r", 1), "evolve-r-g1-x");
    assert_eq!(evolution_analysis_id("r", 1), "evolve-r-g1-analysis");
}

#[test]
fn trials_of_the_parent_come_before_those_of_the_candidate() {
    let prefix = paired_run_prefix("evaluation-1");
    assert_eq!(trial_run_id("evaluation-1", 2, 0), paired_run_id("evaluation-1", "parent", 0));
    assert_eq!(trial_run_id("evaluation-1", 2, 1), paired_run_id("evaluation-1", "parent", 1));
    assert_eq!(trial_run_id("evaluation-1", 2, 2), paired_run_id("evaluation-1", "candidate", 0));
    assert_eq!(trial_run_id("evaluation-1", 2, 3), paired_run_id("evaluation-1", "candidate", 1));
    assert!(trial_run_id("evaluation-1", 2, 3).starts_with(&prefix));
}

#[test]
fn the_parts_of_a_generation_have_distinct_identities() {
    let names = [
        evolution_diagnostic_evaluation_id("run", 3),
        evolution_child_evaluation_id("run", 3),
        evolution_proposal_id("run", 3),
        evolution_assessment_id("run", 3),
        evolution_promotion_transition_id("run", 3),
        evolution_analysis_id("run", 3),
        evolution_analysis_id("run", 4),
    ];
    for (i, left) in names.iter().enumerate() {
        assert!(left.starts_with("evolve-run-g"));
        for right in &names[i + 1..] {
            assert_ne!(left, right);
        }
    }
}

#[test]
fn lineage_runs_are_named_after_their_side() {
    assert_eq!(meta_lineage_run_id("m", false, 0), "meta-m-a-0");
    assert_eq!(meta_lineage_run_id("m", true, 12), "meta-m-b-12");
}
