//! The install or update of one package as a state machine: from the user's
//! choice, through the tool check, the cache probe, the clone or pull and the
//! build, to the cleanup. The caller performs each action and hands back
//! what came of it as the next event.

use vstd::prelude::*;

use crate::builder::{
    build_args, build_args_spec, clone_url_spec, output_streams, process_outcome, source_step,
    streams_spec, texts, BuildError, ProcessResult, SourceStep, Stream, Verbosity, VCS_TOOL,
};
use crate::cache::{joined, Cache, CacheError};
use crate::config::Config;
use crate::package::{Package, PackageModel};
use crate::sync::package_models;
use crate::select::Selection;

verus! {

/// Where an install stands.
#[derive(Debug, Clone, Copy, PartialEq, Eq, Structural)]
pub enum Phase {
    /// Waiting for the user's choice.
    Selecting,
    /// Waiting to learn whether the version-control tool is on the path.
    AwaitTool,
    /// Waiting to learn whether the package's sources are in the cache.
    AwaitProbe,
    /// Waiting for the clone or pull to end.
    AwaitSource,
    /// Waiting for the build to end.
    AwaitBuild,
    /// Waiting for the package's cache directory to be removed.
    AwaitPurge,
    /// Finished: nothing more is done.
    Done,
}

/// Why an install failed.
#[derive(Debug, Clone)]
pub enum InstallError {
    /// The version-control tool is not on the path.
    DependencyMissing,
    /// The clone or pull failed.
    Source(BuildError),
    /// The build failed.
    Build(BuildError),
    /// The cache directory could not be entered or removed.
    Cache(CacheError),
}

/// How an install ended.
#[derive(Debug, Clone)]
pub enum Outcome {
    /// The user quit at the prompt.
    Quit,
    /// The user's answer selected no offered package.
    Invalid,
    /// The package was built and installed.
    Installed,
    /// The install failed.
    Failed(InstallError),
    /// An event came that the install was not waiting for.
    OutOfOrder,
}

/// What the caller is to do next.
#[derive(Debug, Clone)]
pub enum Action {
    /// Look the named tool up on the path; answer with `ToolFound`.
    FindTool(String),
    /// Check whether the directory holds a checkout that can be entered;
    /// answer with `Probed`.
    Probe { dir: String },
    /// Run the version-control tool for the step; answer with `Exited`.
    FetchSource(SourceStep),
    /// Run the build tool in `dir` with `args`; answer with `Exited`.
    Build { dir: String, args: Vec<String>, stdout: Stream, stderr: Stream },
    /// Remove the directory and all it holds; answer with `Purged`.
    Purge { dir: String },
    /// Nothing more to do.
    Stop(Outcome),
}

/// What a probe of a package's cache directory found.
#[derive(Debug, Clone, Copy, PartialEq, Eq, Structural)]
pub enum Presence {
    /// Nothing is there.
    Absent,
    /// A directory that can be entered.
    Present,
    /// Something is there but it is no directory that can be entered.
    Unusable,
}

/// What came of the last action.
#[derive(Debug, Clone)]
pub enum Event {
    Selected(Selection),
    ToolFound(bool),
    Probed(Presence),
    Exited(ProcessResult),
    Purged(bool),
}

/// Whether an action changes the file system or runs a subprocess.
pub open spec fn performs_effect(a: Action) -> bool {
    a is FetchSource || a is Build || a is Purge
}

/// The mathematical value of an install.
pub struct InstallerModel {
    pub phase: Phase,
    pub names: Seq<Seq<char>>,
    pub chosen: Seq<char>,
    pub base: Seq<char>,
    pub root: Seq<char>,
    pub keep_cache: bool,
    pub no_confirm: bool,
    pub verbosity: Verbosity,
}

/// The install of one package.
pub struct Installer {
    phase: Phase,
    names: Vec<String>,
    chosen: String,
    base: String,
    cache: Cache,
    keep_cache: bool,
    no_confirm: bool,
    verbosity: Verbosity,
}

impl View for Installer {
    type V = InstallerModel;

    closed spec fn view(&self) -> InstallerModel {
        InstallerModel {
            phase: self.phase,
            names: texts(self.names@),
            chosen: self.chosen@,
            base: self.base@,
            root: self.cache.root_view(),
            keep_cache: self.keep_cache,
            no_confirm: self.no_confirm,
            verbosity: self.verbosity,
        }
    }
}

impl InstallerModel {
    /// The cache directory of the chosen package.
    pub open spec fn dir(self) -> Seq<char> {
        joined(self.root, self.chosen)
    }
}

impl Installer {
    /// An install that first asks the user to choose among `names`, fetching
    /// from the repository at `base` into `cache`.
    pub fn select(names: Vec<String>, base: &str, cache: Cache, config: &Config) -> (r: Installer)
        ensures
            r@ == (InstallerModel {
                phase: Phase::Selecting,
                names: texts(names@),
                chosen: Seq::empty(),
                base: base@,
                root: cache.root_view(),
                keep_cache: config@.keep_cache,
                no_confirm: config@.no_confirm,
                verbosity: crate::builder::verbosity_spec(config@.verbose),
            }),
    {
        Installer {
            phase: Phase::Selecting,
            names,
            chosen: String::new(),
            base: base.to_owned(),
            cache,
            keep_cache: config.get_keep_cache(),
            no_confirm: config.get_no_confirm(),
            verbosity: config.verbosity(),
        }
    }

    /// The install of the package `name`, which starts at the tool check.
    pub fn for_package(name: &str, base: &str, cache: Cache, config: &Config) -> (r: (
        Installer,
        Action,
    ))
        ensures
            r.0@ == (InstallerModel {
                phase: Phase::AwaitTool,
                names: seq![name@],
                chosen: name@,
                base: base@,
                root: cache.root_view(),
                keep_cache: config@.keep_cache,
                no_confirm: config@.no_confirm,
                verbosity: crate::builder::verbosity_spec(config@.verbose),
            }),
            r.1 matches Action::FindTool(t) && t@ == VCS_TOOL@,
    {
        let mut names: Vec<String> = Vec::new();
        names.push(name.to_owned());
        let inst = Installer {
            phase: Phase::AwaitTool,
            names,
            chosen: name.to_owned(),
            base: base.to_owned(),
            cache,
            keep_cache: config.get_keep_cache(),
            no_confirm: config.get_no_confirm(),
            verbosity: config.verbosity(),
        };
        assert(texts(inst.names@) =~= seq![name@]);
        (inst, Action::FindTool(VCS_TOOL.to_owned()))
    }

    pub fn phase(&self) -> (r: Phase)
        ensures
            r == self@.phase,
    {
        self.phase
    }

    fn finish(&mut self, o: Outcome) -> (r: Action)
        ensures
            final(self)@ == (InstallerModel { phase: Phase::Done, ..old(self)@ }),
            r == Action::Stop(o),
    {
        self.phase = Phase::Done;
        Action::Stop(o)
    }

    /// Moves the install on by one event and says what to do next.
    pub fn step(&mut self, event: Event) -> (r: Action)
        ensures
            ({
                let s = old(self)@;
                let t = final(self)@;
                &&& t.names == s.names && t.base == s.base && t.root == s.root
                &&& t.keep_cache == s.keep_cache && t.no_confirm == s.no_confirm
                &&& t.verbosity == s.verbosity
                &&& (t.phase is Done ==> r is Stop)
                &&& match (s.phase, event) {
                    (Phase::Selecting, Event::Selected(sel)) => match sel {
                        Selection::Quit => r matches Action::Stop(Outcome::Quit) && t.phase is Done,
                        Selection::Choose(k) => if k < s.names.len() {
                            r matches Action::FindTool(tool) && tool@ == VCS_TOOL@
                                && t.phase is AwaitTool && t.chosen == s.names[k as int]
                        } else {
                            r matches Action::Stop(Outcome::Invalid) && t.phase is Done
                        },
                        Selection::Invalid => r matches Action::Stop(Outcome::Invalid)
                            && t.phase is Done,
                    },
                    (Phase::AwaitTool, Event::ToolFound(found)) => if found {
                        r matches Action::Probe { dir } && dir@ == s.dir() && t.phase is AwaitProbe
                            && t.chosen == s.chosen
                    } else {
                        r matches Action::Stop(Outcome::Failed(InstallError::DependencyMissing))
                            && t.phase is Done
                    },
                    (Phase::AwaitProbe, Event::Probed(found)) => if found is Unusable {
                        r matches Action::Stop(Outcome::Failed(InstallError::Cache(e))) && e.path@
                            == s.dir() && t.phase is Done
                    } else if found is Present {
                        r matches Action::FetchSource(SourceStep::Pull { dir }) && dir@ == s.dir()
                            && t.phase is AwaitSource && t.chosen == s.chosen
                    } else {
                        r matches Action::FetchSource(SourceStep::Clone { url, dest }) && url@
                            == clone_url_spec(s.base, s.chosen) && dest@ == s.dir()
                            && t.phase is AwaitSource && t.chosen == s.chosen
                    },
                    (Phase::AwaitSource, Event::Exited(res)) => if res.code == Some(0i32) {
                        r matches Action::Build { dir, args, stdout, stderr } && dir@ == s.dir()
                            && texts(args@) == build_args_spec(s.no_confirm) && (stdout, stderr)
                            == streams_spec(s.verbosity) && t.phase is AwaitBuild && t.chosen
                            == s.chosen
                    } else {
                        r matches Action::Stop(Outcome::Failed(InstallError::Source(err)))
                            && err.code == res.code && err.stderr@ == res.stderr@ && t.phase is Done
                    },
                    (Phase::AwaitBuild, Event::Exited(res)) => if res.code != Some(0i32) {
                        r matches Action::Stop(Outcome::Failed(InstallError::Build(err)))
                            && err.code == res.code && err.stderr@ == res.stderr@ && t.phase is Done
                    } else if s.keep_cache {
                        r matches Action::Stop(Outcome::Installed) && t.phase is Done
                    } else {
                        r matches Action::Purge { dir } && dir@ == s.dir() && t.phase is AwaitPurge
                            && t.chosen == s.chosen
                    },
                    (Phase::AwaitPurge, Event::Purged(ok)) => if ok {
                        r matches Action::Stop(Outcome::Installed) && t.phase is Done
                    } else {
                        r matches Action::Stop(Outcome::Failed(InstallError::Cache(e))) && e.path@
                            == s.dir() && t.phase is Done
                    },
                    _ => r matches Action::Stop(Outcome::OutOfOrder) && t.phase is Done,
                }
            }),
    {
        match (self.phase, event) {
            (Phase::Selecting, Event::Selected(sel)) => match sel {
                Selection::Quit => self.finish(Outcome::Quit),
                Selection::Choose(k) => {
                    if k < self.names.len() {
                        self.chosen = self.names[k].clone();
                        self.phase = Phase::AwaitTool;
                        Action::FindTool(VCS_TOOL.to_owned())
                    } else {
                        self.finish(Outcome::Invalid)
                    }
                },
                Selection::Invalid => self.finish(Outcome::Invalid),
            },
            (Phase::AwaitTool, Event::ToolFound(found)) => {
                if found {
                    self.phase = Phase::AwaitProbe;
                    Action::Probe { dir: self.cache.package_dir(self.chosen.as_str()) }
                } else {
                    self.finish(Outcome::Failed(InstallError::DependencyMissing))
                }
            },
            (Phase::AwaitProbe, Event::Probed(found)) => match found {
                Presence::Unusable => {
                    let path = self.cache.package_dir(self.chosen.as_str());
                    self.finish(Outcome::Failed(InstallError::Cache(CacheError { path })))
                },
                Presence::Present => {
                    self.phase = Phase::AwaitSource;
                    Action::FetchSource(
                        source_step(self.base.as_str(), &self.cache, self.chosen.as_str(), true),
                    )
                },
                Presence::Absent => {
                    self.phase = Phase::AwaitSource;
                    Action::FetchSource(
                        source_step(self.base.as_str(), &self.cache, self.chosen.as_str(), false),
                    )
                },
            },
            (Phase::AwaitSource, Event::Exited(res)) => match process_outcome(res) {
                Ok(()) => {
                    self.phase = Phase::AwaitBuild;
                    let (stdout, stderr) = output_streams(self.verbosity);
                    Action::Build {
                        dir: self.cache.package_dir(self.chosen.as_str()),
                        args: build_args(self.no_confirm),
                        stdout,
                        stderr,
                    }
                },
                Err(e) => self.finish(Outcome::Failed(InstallError::Source(e))),
            },
            (Phase::AwaitBuild, Event::Exited(res)) => match process_outcome(res) {
                Ok(()) => {
                    if self.keep_cache {
                        self.finish(Outcome::Installed)
                    } else {
                        self.phase = Phase::AwaitPurge;
                        Action::Purge { dir: self.cache.package_dir(self.chosen.as_str()) }
                    }
                },
                Err(e) => self.finish(Outcome::Failed(InstallError::Build(e))),
            },
            (Phase::AwaitPurge, Event::Purged(ok)) => {
                if ok {
                    self.finish(Outcome::Installed)
                } else {
                    let path = self.cache.package_dir(self.chosen.as_str());
                    self.finish(Outcome::Failed(InstallError::Cache(CacheError { path })))
                }
            },
            _ => self.finish(Outcome::OutOfOrder),
        }
    }
}

/// The names of a list of packages.
pub open spec fn package_names(s: Seq<PackageModel>) -> Seq<Seq<char>> {
    s.map_values(|p: PackageModel| p.name)
}

/// The handler of a search: offers the packages found for install.
pub struct SearchHandler;

impl SearchHandler {
    /// The install that asks the user to choose among the packages that a
    /// search found; none where it found nothing.
    pub fn handle(&self, packages: &Vec<Package>, base: &str, cache: Cache, config: &Config) -> (r:
        Option<Installer>)
        ensures
            r is None <==> packages.len() == 0,
            r is Some ==> r->Some_0@ == (InstallerModel {
                phase: Phase::Selecting,
                names: package_names(package_models(packages@)),
                chosen: Seq::empty(),
                base: base@,
                root: cache.root_view(),
                keep_cache: config@.keep_cache,
                no_confirm: config@.no_confirm,
                verbosity: crate::builder::verbosity_spec(config@.verbose),
            }),
    {
        if packages.len() == 0 {
            return None;
        }
        let mut names: Vec<String> = Vec::new();
        let mut i: usize = 0;
        while i < packages.len()
            invariant
                i <= packages.len(),
                texts(names@) == package_names(package_models(packages@.subrange(0, i as int))),
            decreases packages.len() - i,
        {
            let ghost before = names@;
            let name = packages[i].get_name().to_owned();
            names.push(name);
            assert(texts(names@) =~= texts(before).push(packages@[i as int]@.name));
            assert(package_models(packages@.subrange(0, i as int + 1)) =~= package_models(
                packages@.subrange(0, i as int),
            ).push(packages@[i as int]@));
            assert(package_names(package_models(packages@.subrange(0, i as int + 1))) =~= package_names(
                package_models(packages@.subrange(0, i as int)),
            ).push(packages@[i as int]@.name));
            assert(texts(names@) =~= package_names(
                package_models(packages@.subrange(0, i as int + 1)),
            ));
            i = i + 1;
        }
        assert(packages@.subrange(0, packages.len() as int) =~= packages@);
        Some(Installer::select(names, base, cache, config))
    }
}

} // verus!
