use cargo_dockerize::pipeline::{advance, next_step, Outcome, PipelineError, Stage, Step};
use cargo_dockerize::root::{probe, Probe};

fn dir(parts: &[&str]) -> Vec<String> {
    parts.iter().map(|p| p.to_string()).collect()
}

fn walk(start: Vec<String>, has_manifest: impl Fn(&[String]) -> bool) -> Option<Vec<String>> {
    let mut current = start;
    loop {
        match probe(&current, has_manifest(&current)) {
            Probe::Found => return Some(current),
            Probe::Ascend(parent) => current = parent,
            Probe::Exhausted => return None,
        }
    }
}

#[test]
fn probe_decides_each_step() {
    assert_eq!(probe(&dir(&["home", "ann"]), true), Probe::Found);
    assert_eq!(probe(&dir(&["home", "ann"]), false), Probe::Ascend(dir(&["home"])));
    assert_eq!(probe(&dir(&["home"]), false), Probe::Ascend(vec![]));
    assert_eq!(probe(&vec![], false), Probe::Exhausted);
    assert_eq!(probe(&vec![], true), Probe::Found);
}

#[test]
fn walk_finds_the_nearest_root_from_any_depth() {
    let root = dir(&["work", "svc"]);
    for k in 0..4 {
        let mut start = root.clone();
        for i in 0..k {
            start.push(format!("sub{}", i));
        }
        let found = walk(start, |d| d == root.as_slice());
        assert_eq!(found, Some(root.clone()));
    }
}

#[test]
fn walk_without_manifest_finds_nothing() {
    assert_eq!(walk(dir(&["a", "b", "c"]), |_| false), None);
}

#[test]
fn successful_run_with_export() {
    let mut stage = Stage::MetadataRead;
    let mut steps = vec![];
    while let Some(step) = next_step(stage, true) {
        steps.push(step);
        stage = advance(stage, true, Outcome::Succeeded).unwrap();
    }
    assert_eq!(steps, vec![Step::BuildProject, Step::BuildImage, Step::ExportImage]);
    assert_eq!(stage, Stage::Done);
}

#[test]
fn successful_run_without_export() {
    assert_eq!(advance(Stage::MetadataRead, false, Outcome::Succeeded), Ok(Stage::ProjectBuilt));
    assert_eq!(advance(Stage::ProjectBuilt, false, Outcome::Succeeded), Ok(Stage::Done));
    assert_eq!(next_step(Stage::Done, false), None);
}

#[test]
fn image_built_then_export() {
    assert_eq!(advance(Stage::ProjectBuilt, true, Outcome::Succeeded), Ok(Stage::ImageBuilt));
    assert_eq!(next_step(Stage::ImageBuilt, true), Some(Step::ExportImage));
    assert_eq!(advance(Stage::ImageBuilt, true, Outcome::Succeeded), Ok(Stage::Done));
}

#[test]
fn failures_abort_with_their_error() {
    assert_eq!(advance(Stage::MetadataRead, false, Outcome::Failed), Err(PipelineError::BuildFailed));
    assert_eq!(advance(Stage::ProjectBuilt, true, Outcome::Failed), Err(PipelineError::ImageBuildFailed));
    assert_eq!(advance(Stage::ImageBuilt, true, Outcome::Failed), Err(PipelineError::ExportFailed));
    assert_eq!(
        advance(Stage::ProjectBuilt, false, Outcome::NotStarted),
        Err(PipelineError::NotStarted(Step::BuildImage))
    );
}
