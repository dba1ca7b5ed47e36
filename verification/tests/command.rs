use cargo_cdylib::{
    build_cdylib, build_example, build_self_cdylib, cargo_build, cargo_supports_offline,
    feature_args, metadata_query, offline_probe, Project,
};

fn strings(items: &[&str]) -> Vec<String> {
    items.iter().map(|s| s.to_string()).collect()
}

#[test]
fn feature_args_names_the_features_in_one_argument() {
    let args = feature_args(&Some(strings(&["a", "b"])));
    assert_eq!(args, strings(&["--no-default-features", "--features", "a,b"]));
}

#[test]
fn feature_args_without_a_list_is_empty() {
    assert_eq!(feature_args(&None), Vec::<String>::new());
}

#[test]
fn feature_args_with_an_empty_list_still_switches_defaults_off() {
    let args = feature_args(&Some(Vec::new()));
    assert_eq!(args, strings(&["--no-default-features", "--features", ""]));
}

#[test]
fn feature_args_with_one_feature_has_no_comma() {
    let args = feature_args(&Some(strings(&["serde"])));
    assert_eq!(args, strings(&["--no-default-features", "--features", "serde"]));
}

#[test]
fn feature_args_keeps_the_order_of_three_features() {
    let args = feature_args(&Some(strings(&["z", "a", "m"])));
    assert_eq!(args[2], "z,a,m");
}

#[test]
fn probe_that_succeeds_means_offline() {
    assert!(cargo_supports_offline(Some(true)));
}

#[test]
fn probe_that_fails_means_not_offline() {
    assert!(!cargo_supports_offline(Some(false)));
}

#[test]
fn probe_that_does_not_start_means_not_offline() {
    assert!(!cargo_supports_offline(None));
}

#[test]
fn offline_probe_asks_for_the_version() {
    let run = offline_probe();
    assert_eq!(run.args, strings(&["--version", "--offline"]));
    assert_eq!(run.current_dir, None);
    assert!(run.env.is_none());
    assert!(!run.inherit_stderr);
}

#[test]
fn cargo_build_online_without_features() {
    let args = cargo_build(&None, false);
    assert_eq!(args, strings(&["build", "--message-format=json"]));
}

#[test]
fn cargo_build_offline_without_features() {
    let args = cargo_build(&None, true);
    assert_eq!(args, strings(&["--offline", "build", "--message-format=json"]));
}

#[test]
fn cargo_build_without_features_has_neither_flag() {
    for offline in [false, true] {
        let args = cargo_build(&None, offline);
        assert!(!args.contains(&"--no-default-features".to_string()));
        assert!(!args.contains(&"--features".to_string()));
    }
}

#[test]
fn cargo_build_offline_with_features() {
    let args = cargo_build(&Some(strings(&["a", "b"])), true);
    assert_eq!(
        args,
        strings(&[
            "--offline",
            "build",
            "--message-format=json",
            "--no-default-features",
            "--features",
            "a,b",
        ])
    );
}

#[test]
fn build_cdylib_runs_in_the_project_with_its_own_target() {
    let project = Project { dir: "/work/helper".to_string(), features: Some(strings(&["x"])) };
    let run = build_cdylib(&project, false);
    assert_eq!(
        run.args,
        strings(&["build", "--message-format=json", "--no-default-features", "--features", "x"])
    );
    assert_eq!(run.current_dir, Some("/work/helper".to_string()));
    let env = run.env.expect("the target directory is set");
    assert_eq!(env.name, "CARGO_TARGET_DIR");
    assert_eq!(env.dir, "/work/helper");
    assert_eq!(env.leaf, "target");
    assert!(run.inherit_stderr);
}

#[test]
fn build_cdylib_offline_without_features() {
    let project = Project { dir: "p".to_string(), features: None };
    let run = build_cdylib(&project, true);
    assert_eq!(run.args, strings(&["--offline", "build", "--message-format=json"]));
    assert_eq!(run.current_dir, Some("p".to_string()));
}

#[test]
fn build_self_cdylib_builds_the_library() {
    let run = build_self_cdylib(&Some(strings(&["a", "b"])), true);
    assert_eq!(
        run.args,
        strings(&[
            "--offline",
            "build",
            "--message-format=json",
            "--no-default-features",
            "--features",
            "a,b",
            "--lib",
        ])
    );
    assert_eq!(run.current_dir, None);
    assert!(run.env.is_none());
    assert!(run.inherit_stderr);
}

#[test]
fn build_self_cdylib_with_defaults() {
    let run = build_self_cdylib(&None, false);
    assert_eq!(run.args, strings(&["build", "--message-format=json", "--lib"]));
}

#[test]
fn build_example_names_the_example_last() {
    let run = build_example("demo", &None, false);
    assert_eq!(run.args, strings(&["build", "--message-format=json", "--example", "demo"]));
    assert_eq!(run.current_dir, None);
    assert!(run.env.is_none());
    assert!(run.inherit_stderr);
}

#[test]
fn build_example_with_features_offline() {
    let run = build_example("demo", &Some(strings(&["f"])), true);
    assert_eq!(
        run.args,
        strings(&[
            "--offline",
            "build",
            "--message-format=json",
            "--no-default-features",
            "--features",
            "f",
            "--example",
            "demo",
        ])
    );
}

#[test]
fn metadata_query_asks_for_format_one() {
    let run = metadata_query();
    assert_eq!(run.args, strings(&["metadata", "--format-version=1"]));
    assert_eq!(run.current_dir, None);
    assert!(run.env.is_none());
    assert!(!run.inherit_stderr);
}
