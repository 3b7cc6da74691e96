use vstd::prelude::*;
use crate::config::{
    Config, skeleton_position, script_position, names_overlap, skeleton_names, script_names,
    lemma_first_position,
};
use crate::error::{ToolError, error_exit_code};

verus! {

/// Whether a subcommand provisions from a skeleton or runs a script.
#[derive(Clone, Copy, Debug, PartialEq, Eq, Structural)]
pub enum SubcommandKind {
    Skeleton,
    Script,
}

/// One subcommand of the command-line surface.
#[derive(Debug)]
pub struct Subcommand {
    pub name: String,
    pub kind: SubcommandKind,
}

/// What the tool does for one invocation.
#[derive(Debug)]
pub enum Action {
    /// Provision the skeleton at this index of the configuration into `output_dir`.
    Provision { skeleton: usize, output_dir: String },
    /// Run the script at this index of the configuration with `args`.
    RunScript { script: usize, args: Vec<String> },
    /// No subcommand was given: print the help text and exit with zero.
    ShowHelp,
    /// Stop with this error.
    Fail(ToolError),
}

/// The mathematical form of an `Action`.
pub enum ActionView {
    Provision { skeleton: int, output_dir: Seq<char> },
    RunScript { script: int, args: Seq<Seq<char>> },
    ShowHelp,
    Fail(ToolError),
}

pub open spec fn strings_view(v: Seq<String>) -> Seq<Seq<char>> {
    v.map_values(|s: String| s@)
}

pub open spec fn option_view(o: Option<String>) -> Option<Seq<char>> {
    match o {
        Some(s) => Some(s@),
        None => None,
    }
}

impl View for Action {
    type V = ActionView;

    open spec fn view(&self) -> ActionView {
        match self {
            Action::Provision { skeleton, output_dir } =>
                ActionView::Provision { skeleton: *skeleton as int, output_dir: output_dir@ },
            Action::RunScript { script, args } =>
                ActionView::RunScript { script: *script as int, args: strings_view(args@) },
            Action::ShowHelp => ActionView::ShowHelp,
            Action::Fail(e) => ActionView::Fail(*e),
        }
    }
}

/// What an invocation of subcommand `sub` asks for. Skeletons are looked up
/// before scripts; a skeleton needs an output directory.
pub open spec fn resolution(
    c: &Config,
    sub: Option<Seq<char>>,
    output_dir: Option<Seq<char>>,
    args: Seq<Seq<char>>,
) -> ActionView {
    match sub {
        None => ActionView::ShowHelp,
        Some(n) => match skeleton_position(c, n) {
            Some(i) => match output_dir {
                Some(d) => ActionView::Provision { skeleton: i, output_dir: d },
                None => ActionView::Fail(ToolError::MissingOutputDirectory),
            },
            None => match script_position(c, n) {
                Some(j) => ActionView::RunScript { script: j, args },
                None => ActionView::ShowHelp,
            },
        },
    }
}

/// Refuses a configuration whose two namespaces share a name.
pub fn check_namespaces(config: &Config) -> (r: Result<(), ToolError>)
    ensures
        r.is_err() <==> names_overlap(config),
        r matches Err(e) ==> e == ToolError::ConfigOverlap,
{
    match config.find_overlap() {
        Some(_) => Err(ToolError::ConfigOverlap),
        None => Ok(()),
    }
}

/// The names of a list of subcommands, in order.
pub open spec fn subcommand_names(v: Seq<Subcommand>) -> Seq<Seq<char>> {
    v.map_values(|s: Subcommand| s.name@)
}

/// One subcommand per configured name: the skeletons first, then the scripts.
/// Only a configuration that passed `check_namespaces` gets a command line.
pub fn subcommands(config: &Config) -> (r: Vec<Subcommand>)
    requires
        !names_overlap(config),
        config.skeletons@.len() + config.scripts@.len() <= usize::MAX,
    ensures
        subcommand_names(r@) == skeleton_names(config) + script_names(config),
        forall|i: int| 0 <= i < r@.len() ==>
            (#[trigger] r@[i]).kind == (if i < config.skeletons@.len() {
                SubcommandKind::Skeleton
            } else {
                SubcommandKind::Script
            }),
{
    let ghost sk = skeleton_names(config);
    let ghost sc = script_names(config);
    let mut r: Vec<Subcommand> = Vec::new();
    let mut i: usize = 0;
    while i < config.skeletons.len()
        invariant
            0 <= i <= config.skeletons@.len(),
            sk == skeleton_names(config),
            r@.len() == i,
            subcommand_names(r@) =~= sk.take(i as int),
            forall|k: int| 0 <= k < r@.len() ==> (#[trigger] r@[k]).kind == SubcommandKind::Skeleton,
        decreases config.skeletons@.len() - i,
    {
        let name = config.skeletons[i].name.clone();
        assert(name@ == sk[i as int]);
        r.push(Subcommand { name, kind: SubcommandKind::Skeleton });
        assert(subcommand_names(r@) =~= sk.take(i + 1));
        i = i + 1;
    }
    let mut j: usize = 0;
    while j < config.scripts.len()
        invariant
            0 <= j <= config.scripts@.len(),
            sk == skeleton_names(config),
            sc == script_names(config),
            sc.len() == config.scripts@.len(),
            r@.len() == sk.len() + j,
            sk.len() == config.skeletons@.len(),
            subcommand_names(r@) =~= sk + sc.take(j as int),
            forall|k: int| 0 <= k < r@.len() ==>
                (#[trigger] r@[k]).kind == (if k < config.skeletons@.len() {
                    SubcommandKind::Skeleton
                } else {
                    SubcommandKind::Script
                }),
        decreases config.scripts@.len() - j,
    {
        let name = config.scripts[j].name.clone();
        assert(name@ == sc[j as int]);
        let ghost prev = subcommand_names(r@);
        r.push(Subcommand { name, kind: SubcommandKind::Script });
        assert(subcommand_names(r@) =~= prev.push(sc[j as int]));
        assert(sk + sc.take(j + 1) =~= (sk + sc.take(j as int)).push(sc[j as int]));
        j = j + 1;
    }
    assert(sc.take(sc.len() as int) =~= sc);
    assert(sk.take(sk.len() as int) =~= sk);
    r
}

/// Decides what an invocation does: `subcommand` is the matched subcommand,
/// `output_dir` its positional argument, `script_args` its trailing arguments.
pub fn resolve(
    config: &Config,
    subcommand: Option<String>,
    output_dir: Option<String>,
    script_args: Vec<String>,
) -> (r: Action)
    ensures
        r@ == resolution(config, option_view(subcommand), option_view(output_dir),
            strings_view(script_args@)),
{
    match subcommand {
        None => Action::ShowHelp,
        Some(n) => match config.skeleton_index(&n) {
            Some(i) => match output_dir {
                Some(d) => Action::Provision { skeleton: i, output_dir: d },
                None => Action::Fail(ToolError::MissingOutputDirectory),
            },
            None => match config.script_index(&n) {
                Some(j) => Action::RunScript { script: j, args: script_args },
                None => Action::ShowHelp,
            },
        },
    }
}

/// The exit status of the tool once a script has finished: the script's own
/// code, or an error when it ended without one.
pub fn script_exit_code(code: Option<i32>) -> (r: Result<i32, ToolError>)
    ensures
        code matches Some(c) ==> r == Ok::<i32, ToolError>(c),
        code.is_none() ==> r == Err::<i32, ToolError>(ToolError::ChildExitCodeUnavailable),
{
    match code {
        Some(c) => Ok(c),
        None => Err(ToolError::ChildExitCodeUnavailable),
    }
}

/// A skeleton subcommand given without an output directory ends the run with
/// status one, before any provisioning step is chosen.
pub proof fn missing_output_directory_exits_with_one(
    c: &Config,
    name: Seq<char>,
    args: Seq<Seq<char>>,
)
    requires
        skeleton_position(c, name).is_some(),
    ensures
        resolution(c, Some(name), None, args) == ActionView::Fail(ToolError::MissingOutputDirectory),
        error_exit_code(ToolError::MissingOutputDirectory) == 1,
{
}

/// An invocation of a script subcommand runs that script with exactly the
/// trailing arguments it was given, when no skeleton has the same name.
pub proof fn script_arguments_pass_through(
    c: &Config,
    name: Seq<char>,
    args: Seq<Seq<char>>,
    output_dir: Option<Seq<char>>,
)
    requires
        !names_overlap(c),
        script_position(c, name).is_some(),
    ensures
        resolution(c, Some(name), output_dir, args)
            == (ActionView::RunScript { script: script_position(c, name).unwrap(), args }),
{
    let sc = script_names(c);
    let sk = skeleton_names(c);
    let w = choose|w: int| 0 <= w < sc.len() && sc[w] == name;
    lemma_first_position(sc, name, w);
    if skeleton_position(c, name).is_some() {
        let v = choose|v: int| 0 <= v < sk.len() && sk[v] == name;
        assert(c.skeletons@[v].name@ == c.scripts@[w].name@);
        assert(names_overlap(c));
    }
}

} // verus!
