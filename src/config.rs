//! The user's settings: where the cache lies, whether it is kept after a
//! build, whether to ask for confirmation, and how verbose subprocesses are.

use vstd::prelude::*;

use crate::builder::{output_streams, streams_spec, verbosity_from_name, verbosity_spec, Stream, Verbosity};
use crate::cache::{join_path, joined};

verus! {

/// The settings directory, relative to the home directory.
pub const DEFAULT_PATH: &'static str = ".config/aurme";

/// The settings file, inside the settings directory.
pub const SETTINGS_FILE: &'static str = "config.json";

/// The default database directory, relative to the home directory.
pub const CACHE_PATH: &'static str = ".cache/aurme";

/// The default package cache, relative to the home directory.
pub const PACKAGES_CACHE_PATH: &'static str = ".cache/aurme/packages";

/// The settings.
#[derive(Debug, Clone)]
pub struct Config {
    cache_path: String,
    db_path: String,
    keep_cache: bool,
    no_confirm: bool,
    verbose: String,
}

/// The mathematical value of the settings.
pub struct ConfigModel {
    pub cache_path: Seq<char>,
    pub db_path: Seq<char>,
    pub keep_cache: bool,
    pub no_confirm: bool,
    pub verbose: Seq<char>,
}

impl View for Config {
    type V = ConfigModel;

    closed spec fn view(&self) -> ConfigModel {
        ConfigModel {
            cache_path: self.cache_path@,
            db_path: self.db_path@,
            keep_cache: self.keep_cache,
            no_confirm: self.no_confirm,
            verbose: self.verbose@,
        }
    }
}

/// The path of the settings file under the home directory `home`.
pub open spec fn settings_file_spec(home: Seq<char>) -> Seq<char> {
    joined(joined(home, DEFAULT_PATH@), SETTINGS_FILE@)
}

/// The path of the settings file under the home directory `home`.
pub fn settings_file(home: &str) -> (r: String)
    ensures
        r@ == settings_file_spec(home@),
{
    let dir = join_path(home, DEFAULT_PATH);
    join_path(dir.as_str(), SETTINGS_FILE)
}

/// The settings directory under the home directory `home`.
pub fn settings_dir(home: &str) -> (r: String)
    ensures
        r@ == joined(home@, DEFAULT_PATH@),
{
    join_path(home, DEFAULT_PATH)
}

/// The settings written when none exist yet.
pub fn default_config() -> (r: Config)
    ensures
        r@ == (ConfigModel {
            cache_path: PACKAGES_CACHE_PATH@,
            db_path: CACHE_PATH@,
            keep_cache: true,
            no_confirm: false,
            verbose: "default"@,
        }),
{
    Config {
        cache_path: PACKAGES_CACHE_PATH.to_owned(),
        db_path: CACHE_PATH.to_owned(),
        keep_cache: true,
        no_confirm: false,
        verbose: "default".to_owned(),
    }
}

impl Config {
    pub fn new(
        cache_path: String,
        db_path: String,
        keep_cache: bool,
        no_confirm: bool,
        verbose: String,
    ) -> (r: Config)
        ensures
            r@ == (ConfigModel {
                cache_path: cache_path@,
                db_path: db_path@,
                keep_cache,
                no_confirm,
                verbose: verbose@,
            }),
    {
        Config { cache_path, db_path, keep_cache, no_confirm, verbose }
    }

    pub fn get_cache_path(&self) -> (r: &str)
        ensures
            r@ == self@.cache_path,
    {
        self.cache_path.as_str()
    }

    pub fn get_db_path(&self) -> (r: &str)
        ensures
            r@ == self@.db_path,
    {
        self.db_path.as_str()
    }

    pub fn get_keep_cache(&self) -> (r: bool)
        ensures
            r == self@.keep_cache,
    {
        self.keep_cache
    }

    pub fn get_no_confirm(&self) -> (r: bool)
        ensures
            r == self@.no_confirm,
    {
        self.no_confirm
    }

    pub fn get_verbose(&self) -> (r: &str)
        ensures
            r@ == self@.verbose,
    {
        self.verbose.as_str()
    }

    /// The verbosity that the settings name.
    pub fn verbosity(&self) -> (r: Verbosity)
        ensures
            r == verbosity_spec(self@.verbose),
    {
        verbosity_from_name(self.verbose.as_str())
    }

    /// Where standard output and standard error of the build tool go.
    pub fn get_verbose_config(&self) -> (r: (Stream, Stream))
        ensures
            r == streams_spec(verbosity_spec(self@.verbose)),
    {
        output_streams(self.verbosity())
    }
}

} // verus!
