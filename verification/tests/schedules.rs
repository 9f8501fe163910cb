use hot_reload::contents::ReloadableAppContents;
use hot_reload::schedules::{cleanup, register_schedules, ReloadableAppCleanup, RootTask, Schedules};

fn contribute(label: &str, systems: Vec<u64>) -> ReloadableAppContents {
    let mut contents = ReloadableAppContents::default();
    contents.add_systems(label, systems);
    contents
}

#[test]
fn a_new_host_has_no_pipelines() {
    let schedules = Schedules::new();
    assert!(!schedules.contains("update"));
    assert_eq!(schedules.run_order("update"), Vec::<u64>::new());
    assert_eq!(schedules.contributed("update"), Vec::<u64>::new());
    assert_eq!(schedules.root("update"), Vec::<RootTask>::new());
    let other = Schedules::default();
    assert!(!other.contains("update"));
}

#[test]
fn the_host_adds_its_own_tasks_in_order() {
    let mut schedules = Schedules::new();
    schedules.add_systems("update", vec![1, 2]);
    schedules.add_systems("update", vec![3]);
    assert!(schedules.contains("update"));
    assert_eq!(
        schedules.root("update"),
        vec![RootTask::System(1), RootTask::System(2), RootTask::System(3)]
    );
    assert_eq!(schedules.run_order("update"), vec![1, 2, 3]);
    assert_eq!(schedules.contributed("update"), Vec::<u64>::new());
}

#[test]
fn the_first_contribution_makes_the_permanent_pipeline_forward() {
    let mut schedules = Schedules::new();
    let labels = register_schedules(contribute("update", vec![7, 8]), &mut schedules);
    assert!(labels.contains("update"));
    assert!(!labels.contains("render"));
    assert!(labels.forwards_anew("update"));
    assert!(!labels.forwards_anew("render"));
    assert_eq!(labels.len(), 1);
    assert!(schedules.contains("update"));
    assert_eq!(schedules.root("update"), vec![RootTask::Forward]);
    assert_eq!(schedules.contributed("update"), vec![7, 8]);
    assert_eq!(schedules.run_order("update"), vec![7, 8]);
}

#[test]
fn the_forwarding_task_stands_where_the_first_contribution_came() {
    let mut schedules = Schedules::new();
    schedules.add_systems("update", vec![1]);
    register_schedules(contribute("update", vec![7, 8]), &mut schedules);
    schedules.add_systems("update", vec![2]);
    assert_eq!(
        schedules.root("update"),
        vec![RootTask::System(1), RootTask::Forward, RootTask::System(2)]
    );
    assert_eq!(schedules.run_order("update"), vec![1, 7, 8, 2]);
}

#[test]
fn a_second_contribution_replaces_the_first_and_forwards_once() {
    let mut schedules = Schedules::new();
    schedules.add_systems("update", vec![1]);
    register_schedules(contribute("update", vec![7, 8]), &mut schedules);
    let labels = register_schedules(contribute("update", vec![9]), &mut schedules);
    assert!(labels.contains("update"));
    assert!(!labels.forwards_anew("update"));
    assert_eq!(schedules.root("update"), vec![RootTask::System(1), RootTask::Forward]);
    assert_eq!(schedules.contributed("update"), vec![9]);
    assert_eq!(schedules.run_order("update"), vec![1, 9]);
}

#[test]
fn registering_leaves_other_contributions_alone() {
    let mut schedules = Schedules::new();
    register_schedules(contribute("update", vec![7]), &mut schedules);
    let labels = register_schedules(contribute("render", vec![5]), &mut schedules);
    assert!(labels.contains("render"));
    assert!(!labels.contains("update"));
    assert_eq!(schedules.contributed("update"), vec![7]);
    assert_eq!(schedules.contributed("render"), vec![5]);
}

#[test]
fn registering_several_pipelines_installs_each() {
    let mut schedules = Schedules::new();
    let mut contents = ReloadableAppContents::default();
    contents.add_systems("a", vec![1]);
    contents.add_systems("b", vec![2, 3]);
    contents.add_systems("c", vec![]);
    let labels = register_schedules(contents, &mut schedules);
    assert_eq!(labels.len(), 3);
    assert!(labels.contains("a") && labels.contains("b") && labels.contains("c"));
    let mut names = labels.labels();
    names.sort();
    assert_eq!(names, vec!["a", "b", "c"]);
    assert_eq!(ReloadableAppCleanup::default().labels(), Vec::<String>::new());
    assert_eq!(schedules.run_order("a"), vec![1]);
    assert_eq!(schedules.run_order("b"), vec![2, 3]);
    assert_eq!(schedules.run_order("c"), Vec::<u64>::new());
    assert_eq!(schedules.root("c"), vec![RootTask::Forward]);
}

#[test]
fn cleanup_empties_what_the_module_contributed_and_nothing_else() {
    let mut schedules = Schedules::new();
    schedules.add_systems("update", vec![1]);
    register_schedules(contribute("render", vec![5]), &mut schedules);
    let labels = register_schedules(contribute("update", vec![7, 8]), &mut schedules);
    let fresh = cleanup(&mut schedules, &labels);
    assert_eq!(fresh.systems("update"), Vec::<u64>::new());
    assert!(!fresh.has_resource("Score"));
    assert_eq!(schedules.contributed("update"), Vec::<u64>::new());
    assert_eq!(schedules.run_order("update"), vec![1]);
    assert_eq!(schedules.root("update"), vec![RootTask::System(1), RootTask::Forward]);
    assert_eq!(schedules.contributed("render"), vec![5]);
}

#[test]
fn cleanup_of_a_name_that_was_never_contributed_changes_nothing() {
    let mut schedules = Schedules::new();
    let mut other = Schedules::new();
    let labels = register_schedules(contribute("ghost", vec![1]), &mut other);
    schedules.add_systems("update", vec![1]);
    cleanup(&mut schedules, &labels);
    assert!(!schedules.contains("ghost"));
    assert_eq!(schedules.run_order("update"), vec![1]);
    cleanup(&mut schedules, &ReloadableAppCleanup::default());
    assert_eq!(schedules.run_order("update"), vec![1]);
}

#[test]
fn reinstating_gives_back_what_cleanup_took() {
    let mut schedules = Schedules::new();
    schedules.add_systems("update", vec![1]);
    let labels = register_schedules(contribute("update", vec![7, 8]), &mut schedules);
    cleanup(&mut schedules, &labels);
    cleanup(&mut schedules, &labels);
    assert_eq!(schedules.run_order("update"), vec![1]);
    schedules.reinstate();
    assert_eq!(schedules.contributed("update"), vec![7, 8]);
    assert_eq!(schedules.run_order("update"), vec![1, 7, 8]);
    schedules.reinstate();
    assert_eq!(schedules.run_order("update"), vec![1, 7, 8]);
}

#[test]
fn registering_lets_go_of_what_was_retired() {
    let mut schedules = Schedules::new();
    let labels = register_schedules(contribute("update", vec![7]), &mut schedules);
    cleanup(&mut schedules, &labels);
    register_schedules(contribute("render", vec![5]), &mut schedules);
    schedules.reinstate();
    assert_eq!(schedules.contributed("update"), Vec::<u64>::new());
    assert_eq!(schedules.contributed("render"), vec![5]);
}

#[test]
fn contributions_do_not_pile_up_over_many_reloads() {
    let mut schedules = Schedules::new();
    schedules.add_systems("update", vec![100]);
    let mut labels = ReloadableAppCleanup::default();
    for generation in 0..25u64 {
        let mut contents = cleanup(&mut schedules, &labels);
        contents.add_systems("update", vec![generation]);
        labels = register_schedules(contents, &mut schedules);
        assert_eq!(schedules.contributed("update"), vec![generation]);
        assert_eq!(schedules.contributed("update").len(), 1);
        assert_eq!(schedules.root("update"), vec![RootTask::System(100), RootTask::Forward]);
        assert_eq!(schedules.run_order("update"), vec![100, generation]);
    }
}

#[test]
fn a_pipeline_that_the_next_module_does_not_contribute_stays_empty() {
    let mut schedules = Schedules::new();
    let mut first = ReloadableAppContents::default();
    first.add_systems("update", vec![1]);
    first.add_systems("extra", vec![2]);
    let labels = register_schedules(first, &mut schedules);
    let mut second = cleanup(&mut schedules, &labels);
    second.add_systems("update", vec![3]);
    let labels = register_schedules(second, &mut schedules);
    assert!(!labels.contains("extra"));
    assert_eq!(schedules.run_order("update"), vec![3]);
    assert_eq!(schedules.run_order("extra"), Vec::<u64>::new());
    assert_eq!(schedules.root("extra"), vec![RootTask::Forward]);
}
