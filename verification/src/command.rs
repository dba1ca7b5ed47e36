//! The command lines that `cargo` is started with.

use crate::artifact::option_text;
use crate::text::{join, joined, texts};
use vstd::prelude::*;

verus! {

/// A project whose dynamic library is to be built.
#[derive(Debug)]
pub struct Project {
    /// The directory of the project.
    pub dir: String,
    /// The features to build with; `None` leaves the defaults in place.
    pub features: Option<Vec<String>>,
}

/// An environment variable whose value is the path of `leaf` in `dir`.
#[derive(Debug)]
pub struct EnvPath {
    pub name: String,
    pub dir: String,
    pub leaf: String,
}

/// One run of `cargo`, ready to be started.
#[derive(Debug)]
pub struct Invocation {
    /// The arguments behind the name of the program.
    pub args: Vec<String>,
    /// The directory to run in; `None` is the directory of the caller.
    pub current_dir: Option<String>,
    /// A variable to set in the environment of the run.
    pub env: Option<EnvPath>,
    /// Whether the run writes to the standard error of the caller, so that
    /// diagnostics are seen while the build goes on.
    pub inherit_stderr: bool,
}

/// An [`EnvPath`] as mathematical values.
pub struct EnvPathView {
    pub name: Seq<char>,
    pub dir: Seq<char>,
    pub leaf: Seq<char>,
}

/// An [`Invocation`] as mathematical values.
pub struct InvocationView {
    pub args: Seq<Seq<char>>,
    pub current_dir: Option<Seq<char>>,
    pub env: Option<EnvPathView>,
    pub inherit_stderr: bool,
}

impl View for EnvPath {
    type V = EnvPathView;

    open spec fn view(&self) -> EnvPathView {
        EnvPathView { name: self.name@, dir: self.dir@, leaf: self.leaf@ }
    }
}

impl View for Invocation {
    type V = InvocationView;

    open spec fn view(&self) -> InvocationView {
        InvocationView {
            args: texts(self.args@),
            current_dir: option_text(self.current_dir),
            env: match self.env {
                Some(env) => Some(env@),
                None => None,
            },
            inherit_stderr: self.inherit_stderr,
        }
    }
}

/// The texts of an optional list of features.
pub open spec fn feature_texts(features: Option<Vec<String>>) -> Option<Seq<Seq<char>>> {
    match features {
        Some(list) => Some(texts(list@)),
        None => None,
    }
}

/// The arguments that select features: none where `features` is absent, so
/// that the defaults apply; otherwise the defaults switched off and the given
/// features named in one comma-separated argument.
pub open spec fn feature_args_of(features: Option<Seq<Seq<char>>>) -> Seq<Seq<char>> {
    match features {
        Some(list) => seq!["--no-default-features"@, "--features"@, joined(list, ","@)],
        None => Seq::empty(),
    }
}

/// The arguments of a build that reports its progress as JSON: `--offline`
/// comes first where `cargo` supports it, the feature arguments come last.
pub open spec fn cargo_build_of(features: Option<Seq<Seq<char>>>, offline: bool) -> Seq<
    Seq<char>,
> {
    let head = if offline {
        seq!["--offline"@]
    } else {
        Seq::empty()
    };
    head + seq!["build"@, "--message-format=json"@] + feature_args_of(features)
}

/// The run that asks `cargo` whether it knows `--offline`.
pub open spec fn offline_probe_of() -> InvocationView {
    InvocationView {
        args: seq!["--version"@, "--offline"@],
        current_dir: None,
        env: None,
        inherit_stderr: false,
    }
}

/// The run that builds the dynamic library of a project, in the project's
/// directory and into its own `target` directory.
pub open spec fn build_cdylib_of(
    dir: Seq<char>,
    features: Option<Seq<Seq<char>>>,
    offline: bool,
) -> InvocationView {
    InvocationView {
        args: cargo_build_of(features, offline),
        current_dir: Some(dir),
        env: Some(EnvPathView { name: "CARGO_TARGET_DIR"@, dir, leaf: "target"@ }),
        inherit_stderr: true,
    }
}

/// The run that builds the library of the package in the caller's directory.
pub open spec fn build_self_cdylib_of(
    features: Option<Seq<Seq<char>>>,
    offline: bool,
) -> InvocationView {
    InvocationView {
        args: cargo_build_of(features, offline).push("--lib"@),
        current_dir: None,
        env: None,
        inherit_stderr: true,
    }
}

/// The run that builds the example `name` of the package in the caller's
/// directory.
pub open spec fn build_example_of(
    name: Seq<char>,
    features: Option<Seq<Seq<char>>>,
    offline: bool,
) -> InvocationView {
    InvocationView {
        args: cargo_build_of(features, offline).push("--example"@).push(name),
        current_dir: None,
        env: None,
        inherit_stderr: true,
    }
}

/// The run that asks for the metadata of the workspace.
pub open spec fn metadata_query_of() -> InvocationView {
    InvocationView {
        args: seq!["metadata"@, "--format-version=1"@],
        current_dir: None,
        env: None,
        inherit_stderr: false,
    }
}

/// The run that finds out whether `cargo` accepts `--offline`.
pub fn offline_probe() -> (run: Invocation)
    ensures
        run@ == offline_probe_of(),
{
    let mut args: Vec<String> = Vec::new();
    args.push("--version".to_owned());
    args.push("--offline".to_owned());
    assert(texts(args@) =~= offline_probe_of().args);
    Invocation { args, current_dir: None, env: None, inherit_stderr: false }
}

/// Whether `cargo` accepts `--offline`, given how the probe for it ended:
/// `None` where the probe could not be started, else whether it exited with
/// success. A probe that fails in either way means "no".
pub fn cargo_supports_offline(probe: Option<bool>) -> (offline: bool)
    ensures
        offline == (probe == Some(true)),
{
    match probe {
        Some(success) => success,
        None => false,
    }
}

/// The feature arguments of a build.
pub fn feature_args(features: &Option<Vec<String>>) -> (args: Vec<String>)
    ensures
        texts(args@) == feature_args_of(feature_texts(*features)),
{
    match features {
        Some(list) => {
            let mut args: Vec<String> = Vec::new();
            args.push("--no-default-features".to_owned());
            args.push("--features".to_owned());
            args.push(join(list, ","));
            assert(texts(args@) =~= feature_args_of(feature_texts(*features)));
            args
        },
        None => {
            let args: Vec<String> = Vec::new();
            assert(texts(args@) =~= feature_args_of(feature_texts(*features)));
            args
        },
    }
}

/// The arguments of a build, given whether `cargo` supports `--offline`.
pub fn cargo_build(features: &Option<Vec<String>>, offline: bool) -> (args: Vec<String>)
    ensures
        texts(args@) == cargo_build_of(feature_texts(*features), offline),
{
    let mut args: Vec<String> = Vec::new();
    if offline {
        args.push("--offline".to_owned());
    }
    args.push("build".to_owned());
    args.push("--message-format=json".to_owned());
    let mut selected = feature_args(features);
    let ghost head = args@;
    let ghost tail = selected@;
    args.append(&mut selected);
    proof {
        assert(args@ == head + tail);
        assert(texts(args@) =~= texts(head) + texts(tail));
        assert(texts(head) =~= if offline {
            seq!["--offline"@]
        } else {
            Seq::empty()
        } + seq!["build"@, "--message-format=json"@]);
    }
    args
}

/// The run that builds the dynamic library of `project`.
pub fn build_cdylib(project: &Project, offline: bool) -> (run: Invocation)
    ensures
        run@ == build_cdylib_of(project.dir@, feature_texts(project.features), offline),
{
    let args = cargo_build(&project.features, offline);
    let env = EnvPath {
        name: "CARGO_TARGET_DIR".to_owned(),
        dir: project.dir.clone(),
        leaf: "target".to_owned(),
    };
    Invocation {
        args,
        current_dir: Some(project.dir.clone()),
        env: Some(env),
        inherit_stderr: true,
    }
}

/// The run that builds the library of the package in the caller's directory.
pub fn build_self_cdylib(features: &Option<Vec<String>>, offline: bool) -> (run: Invocation)
    ensures
        run@ == build_self_cdylib_of(feature_texts(*features), offline),
{
    let mut args = cargo_build(features, offline);
    let ghost base = args@;
    args.push("--lib".to_owned());
    assert(texts(args@) =~= texts(base).push("--lib"@));
    Invocation { args, current_dir: None, env: None, inherit_stderr: true }
}

/// The run that builds the example `name`.
pub fn build_example(name: &str, features: &Option<Vec<String>>, offline: bool) -> (run: Invocation)
    ensures
        run@ == build_example_of(name@, feature_texts(*features), offline),
{
    let mut args = cargo_build(features, offline);
    let ghost base = args@;
    args.push("--example".to_owned());
    args.push(name.to_owned());
    assert(texts(args@) =~= texts(base).push("--example"@).push(name@));
    Invocation { args, current_dir: None, env: None, inherit_stderr: true }
}

/// The run that asks for the metadata of the workspace.
pub fn metadata_query() -> (run: Invocation)
    ensures
        run@ == metadata_query_of(),
{
    let mut args: Vec<String> = Vec::new();
    args.push("metadata".to_owned());
    args.push("--format-version=1".to_owned());
    assert(texts(args@) =~= metadata_query_of().args);
    Invocation { args, current_dir: None, env: None, inherit_stderr: false }
}

/// Without a list of features a build leaves the defaults alone: neither
/// the argument that switches them off nor the one that names features is
/// among its arguments.
pub proof fn lemma_no_features_no_flags(offline: bool)
    ensures
        !cargo_build_of(None, offline).contains("--no-default-features"@),
        !cargo_build_of(None, offline).contains("--features"@),
{
    reveal_strlit("--offline");
    reveal_strlit("build");
    reveal_strlit("--message-format=json");
    reveal_strlit("--no-default-features");
    reveal_strlit("--features");
    let args = cargo_build_of(None, offline);
    assert("--offline"@.len() == 9);
    assert("build"@.len() == 5);
    assert("--message-format=json"@.len() == 21);
    assert("--no-default-features"@.len() == 21);
    assert("--features"@.len() == 10);
    assert("--message-format=json"@[2] == 'm');
    assert("--no-default-features"@[2] == 'n');
    assert forall|i: int| 0 <= i < args.len() implies args[i] != "--no-default-features"@
        && args[i] != "--features"@ by {}
}

/// With a list of features a build ends in three arguments: the defaults
/// are switched off, and the features are named in one argument, joined by
/// commas.
pub proof fn lemma_features_come_last(list: Seq<Seq<char>>, offline: bool)
    ensures
        ({
            let args = cargo_build_of(Some(list), offline);
            &&& args.len() >= 3
            &&& args[args.len() - 3] == "--no-default-features"@
            &&& args[args.len() - 2] == "--features"@
            &&& args[args.len() - 1] == joined(list, ","@)
        }),
{
}

} // verus!
