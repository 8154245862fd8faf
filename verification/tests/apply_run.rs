use comtrya::apply::{
    manifest_node, root_node, Apply, ApplyCommand, ApplyError, ApplyEvent, ApplyRun, ApplyState,
    ManifestOutcome, RunNode, SkipReason, Stage,
};
use comtrya::manifest::{ActionKind, Manifest};

fn node(labels: &[&str], has_where: bool, action_count: usize) -> RunNode {
    RunNode {
        is_root: false,
        labels: labels.iter().map(|l| l.to_string()).collect(),
        has_where,
        action_count,
    }
}

fn manifest(name: &str, depends: &[&str], actions: Vec<ActionKind>) -> Manifest {
    Manifest {
        name: Some(name.to_string()),
        root_dir: None,
        depends: depends.iter().map(|d| d.to_string()).collect(),
        labels: vec![],
        where_condition: None,
        actions,
    }
}

/// Drives a run, answering each command with the next prepared answer
/// (or `Proceed` for a command that only reports), and lists the commands.
fn drive(run: &ApplyRun, answers: &mut Vec<ApplyEvent>) -> Vec<ApplyCommand> {
    let mut state = ApplyState::start();
    let mut event = ApplyEvent::Proceed;
    let mut commands = vec![];
    for _ in 0..100 {
        let (next, command) = run.advance(state, event);
        state = next;
        commands.push(command);
        event = match command {
            ApplyCommand::Stop => return commands,
            ApplyCommand::EvaluateWhere { .. }
            | ApplyCommand::PlanAction { .. }
            | ApplyCommand::CheckStep { .. }
            | ApplyCommand::ExecuteStep { .. }
            | ApplyCommand::CheckFinalizers { .. } => answers.remove(0),
            _ => ApplyEvent::Proceed,
        };
    }
    panic!("the run did not stop");
}

fn two_manifest_run(dry_run: bool) -> ApplyRun {
    ApplyRun {
        dry_run,
        label: None,
        order: vec![1, 2, 0],
        nodes: vec![root_node(), node(&[], false, 1), node(&[], true, 1)],
    }
}

#[test]
fn apply_runs_each_manifest_in_order() {
    let run = two_manifest_run(false);
    let mut answers = vec![
        ApplyEvent::Planned(Some(1)),
        ApplyEvent::Checked(true),
        ApplyEvent::Executed(true),
        ApplyEvent::Finalized(true),
        ApplyEvent::WhereResult(true),
        ApplyEvent::Planned(Some(0)),
    ];
    let commands = drive(&run, &mut answers);
    assert_eq!(
        commands,
        vec![
            ApplyCommand::PlanAction { node: 1, action: 0 },
            ApplyCommand::CheckStep { node: 1, action: 0, step: 0 },
            ApplyCommand::ExecuteStep { node: 1, action: 0, step: 0 },
            ApplyCommand::CheckFinalizers { node: 1, action: 0, step: 0 },
            ApplyCommand::Summarize { node: 1, action: 0 },
            ApplyCommand::Finished { node: 1, outcome: ManifestOutcome::Completed },
            ApplyCommand::EvaluateWhere { node: 2 },
            ApplyCommand::PlanAction { node: 2, action: 0 },
            ApplyCommand::NothingToDo { node: 2, action: 0 },
            ApplyCommand::Finished { node: 2, outcome: ManifestOutcome::Completed },
            ApplyCommand::Skip { node: 0, reason: SkipReason::Root },
            ApplyCommand::Stop,
        ]
    );
}

#[test]
fn apply_dry_run_checks_but_never_executes() {
    let run = two_manifest_run(true);
    let mut answers = vec![
        ApplyEvent::Planned(Some(2)),
        ApplyEvent::Checked(true),
        ApplyEvent::Checked(false),
        ApplyEvent::WhereResult(false),
    ];
    let commands = drive(&run, &mut answers);
    assert!(commands.iter().all(|c| !matches!(c, ApplyCommand::ExecuteStep { .. } | ApplyCommand::CheckFinalizers { .. })));
    assert_eq!(commands[3], ApplyCommand::Summarize { node: 1, action: 0 });
    assert_eq!(commands[4], ApplyCommand::Finished { node: 1, outcome: ManifestOutcome::DryRun });
    assert_eq!(commands[6], ApplyCommand::Skip { node: 2, reason: SkipReason::WhereFalse });
}

#[test]
fn apply_failure_stops_the_traversal() {
    let run = two_manifest_run(false);
    let mut answers = vec![ApplyEvent::Planned(Some(1)), ApplyEvent::Checked(true), ApplyEvent::Executed(false)];
    let commands = drive(&run, &mut answers);
    assert_eq!(
        commands,
        vec![
            ApplyCommand::PlanAction { node: 1, action: 0 },
            ApplyCommand::CheckStep { node: 1, action: 0, step: 0 },
            ApplyCommand::ExecuteStep { node: 1, action: 0, step: 0 },
            ApplyCommand::Summarize { node: 1, action: 0 },
            ApplyCommand::Finished { node: 1, outcome: ManifestOutcome::Failed },
            ApplyCommand::Stop,
        ]
    );
}

#[test]
fn apply_failed_plan_marks_the_manifest_failed() {
    let run = ApplyRun { dry_run: false, label: None, order: vec![1], nodes: vec![root_node(), node(&[], false, 2)] };
    let mut answers = vec![ApplyEvent::Planned(None), ApplyEvent::Planned(Some(0))];
    let commands = drive(&run, &mut answers);
    assert_eq!(commands[2], ApplyCommand::NothingToDo { node: 1, action: 1 });
    assert_eq!(commands[3], ApplyCommand::Finished { node: 1, outcome: ManifestOutcome::Failed });
}

#[test]
fn apply_finalizers_that_refuse_fail_the_manifest() {
    let run = ApplyRun { dry_run: false, label: None, order: vec![1], nodes: vec![root_node(), node(&[], false, 1)] };
    let mut answers = vec![
        ApplyEvent::Planned(Some(2)),
        ApplyEvent::Checked(true),
        ApplyEvent::Executed(true),
        ApplyEvent::Finalized(false),
    ];
    let commands = drive(&run, &mut answers);
    assert_eq!(commands[4], ApplyCommand::Summarize { node: 1, action: 0 });
    assert_eq!(commands[5], ApplyCommand::Finished { node: 1, outcome: ManifestOutcome::Failed });
}

#[test]
fn apply_label_filter_skips_other_manifests() {
    let run = ApplyRun {
        dry_run: false,
        label: Some("work".to_string()),
        order: vec![1, 2, 0],
        nodes: vec![root_node(), node(&["home"], false, 1), node(&["work"], false, 0)],
    };
    let mut answers = vec![];
    let commands = drive(&run, &mut answers);
    assert_eq!(commands[0], ApplyCommand::Skip { node: 1, reason: SkipReason::LabelNotFound });
    assert_eq!(commands[1], ApplyCommand::Finished { node: 2, outcome: ManifestOutcome::Completed });
}

#[test]
fn apply_done_is_final_and_stray_events_are_ignored() {
    let run = two_manifest_run(false);
    let start = ApplyState::start();
    let (same, command) = run.advance(start, ApplyEvent::Executed(true));
    assert_eq!(command, ApplyCommand::Ignored);
    assert_eq!(same, start);
    let done = ApplyState { stage: Stage::Done, ..start };
    assert_eq!(run.advance(done, ApplyEvent::Proceed), (done, ApplyCommand::Stop));
}

#[test]
fn apply_manifest_path_rejects_paths() {
    let apply = Apply { manifests: vec!["dir/main".to_string()], dry_run: false, label: None };
    assert_eq!(apply.manifest_path(&vec!["/m".to_string()], '/'), Err(ApplyError::PathGiven));
}

#[test]
fn apply_manifest_path_needs_a_directory() {
    let apply = Apply { manifests: vec!["main".to_string()], dry_run: false, label: None };
    assert_eq!(apply.manifest_path(&vec![], '/'), Err(ApplyError::NoManifestPaths));
    assert_eq!(
        apply.manifest_path(&vec!["/first".to_string(), "/second".to_string()], '/'),
        Ok("/first".to_string())
    );
}

#[test]
fn apply_start_nodes() {
    let entries = vec![
        ("a".to_string(), manifest("a", &[], vec![])),
        ("b".to_string(), manifest("b", &[], vec![])),
        ("c".to_string(), manifest("c", &[], vec![])),
    ];
    let all = Apply { manifests: vec![], dry_run: false, label: None };
    assert_eq!(all.start_nodes(&entries), vec![0]);
    let some = Apply { manifests: vec!["c".to_string(), "a".to_string(), "zzz".to_string()], dry_run: true, label: None };
    assert_eq!(some.start_nodes(&entries), vec![1, 3]);
}

#[test]
fn apply_manifest_node_counts_actions() {
    let mut m = manifest("a", &[], vec![ActionKind::Other, ActionKind::PackageInstall]);
    m.labels = vec!["x".to_string()];
    m.where_condition = Some("true".to_string());
    let n = manifest_node(&m);
    assert!(!n.is_root);
    assert_eq!(n.action_count, 2);
    assert!(n.has_where);
    assert_eq!(n.labels, vec!["x".to_string()]);
}

#[test]
fn apply_runs_only_the_steps_that_pass_their_check() {
    let run = ApplyRun { dry_run: false, label: None, order: vec![1], nodes: vec![root_node(), node(&[], false, 1)] };
    let mut answers = vec![
        ApplyEvent::Planned(Some(2)),
        ApplyEvent::Checked(false),
        ApplyEvent::Checked(true),
        ApplyEvent::Executed(true),
        ApplyEvent::Finalized(true),
    ];
    let commands = drive(&run, &mut answers);
    assert_eq!(
        commands,
        vec![
            ApplyCommand::PlanAction { node: 1, action: 0 },
            ApplyCommand::CheckStep { node: 1, action: 0, step: 0 },
            ApplyCommand::CheckStep { node: 1, action: 0, step: 1 },
            ApplyCommand::ExecuteStep { node: 1, action: 0, step: 1 },
            ApplyCommand::CheckFinalizers { node: 1, action: 0, step: 1 },
            ApplyCommand::Summarize { node: 1, action: 0 },
            ApplyCommand::Finished { node: 1, outcome: ManifestOutcome::Completed },
            ApplyCommand::Stop,
        ]
    );
}

#[test]
fn a_run_is_made_only_over_nodes_of_the_graph() {
    assert!(ApplyRun::new(false, None, vec![1, 0], vec![root_node(), node(&[], false, 1)]).is_some());
    assert!(ApplyRun::new(false, None, vec![2], vec![root_node(), node(&[], false, 1)]).is_none());
}
