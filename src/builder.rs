//! Fetching package sources with the version-control tool and building
//! them with the build tool: the commands to run, and what their exit
//! statuses mean.

use vstd::prelude::*;

use crate::cache::{joined, Cache};
use crate::version::same_text;

verus! {

/// The version-control tool.
pub const VCS_TOOL: &'static str = "git";

/// The build tool.
pub const BUILD_TOOL: &'static str = "makepkg";

/// How much of a subprocess's output reaches the user's terminal.
#[derive(Debug, Clone, Copy, PartialEq, Eq, Structural)]
pub enum Verbosity {
    /// All output is inherited.
    Verbose,
    /// All output is captured and kept back.
    Quiet,
    /// Standard output is captured; diagnostics are inherited.
    Default,
}

/// Where one output stream of a subprocess goes.
#[derive(Debug, Clone, Copy, PartialEq, Eq, Structural)]
pub enum Stream {
    /// To the user's terminal.
    Inherit,
    /// Into a buffer of this program.
    Piped,
}

/// The verbosity that a configured name selects.
pub open spec fn verbosity_spec(name: Seq<char>) -> Verbosity {
    if name == "verbose"@ {
        Verbosity::Verbose
    } else if name == "quiet"@ {
        Verbosity::Quiet
    } else {
        Verbosity::Default
    }
}

/// Where standard output and standard error go under a verbosity.
pub open spec fn streams_spec(v: Verbosity) -> (Stream, Stream) {
    match v {
        Verbosity::Verbose => (Stream::Inherit, Stream::Inherit),
        Verbosity::Quiet => (Stream::Piped, Stream::Piped),
        Verbosity::Default => (Stream::Piped, Stream::Inherit),
    }
}

/// The verbosity named `name`: "verbose", "quiet", and any other name
/// the default.
pub fn verbosity_from_name(name: &str) -> (r: Verbosity)
    ensures
        r == verbosity_spec(name@),
{
    if same_text(name, "verbose") {
        Verbosity::Verbose
    } else if same_text(name, "quiet") {
        Verbosity::Quiet
    } else {
        Verbosity::Default
    }
}

/// Where standard output and standard error of a subprocess go.
pub fn output_streams(v: Verbosity) -> (r: (Stream, Stream))
    ensures
        r == streams_spec(v),
{
    match v {
        Verbosity::Verbose => (Stream::Inherit, Stream::Inherit),
        Verbosity::Quiet => (Stream::Piped, Stream::Piped),
        Verbosity::Default => (Stream::Piped, Stream::Inherit),
    }
}

/// What a finished subprocess left: its exit code, if it exited, and what
/// it wrote to standard error, where that was captured.
#[derive(Debug, Clone)]
pub struct ProcessResult {
    pub code: Option<i32>,
    pub stderr: Vec<u8>,
}

/// A subprocess that did not exit with status zero, with the diagnostics
/// it wrote.
#[derive(Debug, Clone, PartialEq, Eq)]
pub struct BuildError {
    pub code: Option<i32>,
    pub stderr: Vec<u8>,
}

impl BuildError {
    /// The diagnostics as text, with invalid sequences replaced.
    pub fn message(&self) -> (r: String)
        ensures
            r@ == decoded_lossy(self.stderr@),
    {
        decode_lossy(&self.stderr)
    }
}

/// The text that decoding bytes as UTF-8 gives, invalid sequences replaced.
pub uninterp spec fn decoded_lossy(bytes: Seq<u8>) -> Seq<char>;

/// Relies on `String::from_utf8_lossy`: the decoding depends on the bytes
/// alone, and no bytes decode to no text.
#[verifier::external_body]
fn decode_lossy(bytes: &Vec<u8>) -> (r: String)
    ensures
        r@ == decoded_lossy(bytes@),
        bytes@.len() == 0 ==> r@.len() == 0,
{
    String::from_utf8_lossy(bytes.as_slice()).into_owned()
}

/// Success for an exit with status zero; any other end is an error that
/// carries the subprocess's diagnostics unchanged.
pub fn process_outcome(res: ProcessResult) -> (r: Result<(), BuildError>)
    ensures
        r is Ok <==> res.code == Some(0i32),
        r is Err ==> r->Err_0.code == res.code && r->Err_0.stderr@ == res.stderr@,
{
    match res.code {
        Some(c) => {
            if c == 0 {
                Ok(())
            } else {
                Err(BuildError { code: res.code, stderr: res.stderr })
            }
        },
        None => Err(BuildError { code: None, stderr: res.stderr }),
    }
}

/// How the sources of a package are brought up to date.
#[derive(Debug, Clone)]
pub enum SourceStep {
    /// Clone the package's repository from `url` into `dest`.
    Clone { url: String, dest: String },
    /// Pull the default branch in the checkout at `dir`.
    Pull { dir: String },
}

/// The address of the source repository of the package `name`.
pub open spec fn clone_url_spec(base: Seq<char>, name: Seq<char>) -> Seq<char> {
    base + seq!['/'] + name + ".git"@
}

pub fn clone_url(base: &str, name: &str) -> (r: String)
    ensures
        r@ == clone_url_spec(base@, name@),
{
    let mut s = crate::cache::join_path(base, name);
    s.append(".git");
    s
}

/// A clone into the package's cache directory where it holds no sources
/// yet, else a pull there.
pub fn source_step(base: &str, cache: &Cache, name: &str, in_cache: bool) -> (r: SourceStep)
    ensures
        in_cache ==> (r matches SourceStep::Pull { dir } && dir@ == joined(cache.root_view(), name@)),
        !in_cache ==> (r matches SourceStep::Clone { url, dest } && url@ == clone_url_spec(base@, name@)
            && dest@ == joined(cache.root_view(), name@)),
{
    let dir = cache.package_dir(name);
    if in_cache {
        SourceStep::Pull { dir }
    } else {
        SourceStep::Clone { url: clone_url(base, name), dest: dir }
    }
}

/// The views of a list of strings.
pub open spec fn texts(v: Seq<String>) -> Seq<Seq<char>> {
    v.map_values(|s: String| s@)
}

/// The arguments of the version-control tool for a step.
pub open spec fn vcs_args_spec(step: SourceStep) -> Seq<Seq<char>> {
    match step {
        SourceStep::Clone { url, dest } => seq!["clone"@, url@, dest@],
        SourceStep::Pull { dir } => seq!["pull"@, "origin"@, "master"@],
    }
}

/// The arguments of the version-control tool for `step`; a pull runs in
/// the checkout's directory.
pub fn vcs_args(step: &SourceStep) -> (r: Vec<String>)
    ensures
        texts(r@) == vcs_args_spec(*step),
{
    let mut v: Vec<String> = Vec::new();
    match step {
        SourceStep::Clone { url, dest } => {
            v.push("clone".to_owned());
            v.push(url.clone());
            v.push(dest.clone());
        },
        SourceStep::Pull { dir } => {
            v.push("pull".to_owned());
            v.push("origin".to_owned());
            v.push("master".to_owned());
        },
    }
    assert(texts(v@) =~= vcs_args_spec(*step));
    v
}

/// The arguments of the build tool: build and install, without its own
/// prompts where no confirmation is wanted.
pub open spec fn build_args_spec(no_confirm: bool) -> Seq<Seq<char>> {
    if no_confirm {
        seq!["-si"@, "--noconfirm"@]
    } else {
        seq!["-si"@]
    }
}

pub fn build_args(no_confirm: bool) -> (r: Vec<String>)
    ensures
        texts(r@) == build_args_spec(no_confirm),
{
    let mut v: Vec<String> = Vec::new();
    v.push("-si".to_owned());
    if no_confirm {
        v.push("--noconfirm".to_owned());
    }
    assert(texts(v@) =~= build_args_spec(no_confirm));
    v
}

} // verus!
