//! A package of the repository as known locally: its name, version and
//! description.

use vstd::prelude::*;

use crate::version::{differs, extract_version, heading_capture, version_of, ParseError};

verus! {

/// The mathematical value of a package: its three strings.
pub struct PackageModel {
    pub name: Seq<char>,
    pub version: Seq<char>,
    pub description: Seq<char>,
}

/// A package, keyed by its name.
#[derive(Debug, Clone)]
pub struct Package {
    name: String,
    version: String,
    description: String,
}

impl View for Package {
    type V = PackageModel;

    closed spec fn view(&self) -> PackageModel {
        PackageModel { name: self.name@, version: self.version@, description: self.description@ }
    }
}

/// What checking a package against its details page tells: whether the
/// published version differs, and that version.
pub open spec fn update_check(local_version: Seq<char>, html: Seq<char>) -> Result<
    (bool, Seq<char>),
    ParseError,
> {
    match version_of(heading_capture(html)) {
        Ok(v) => Ok((differs(local_version, v), v)),
        Err(e) => Err(e),
    }
}

impl Package {
    pub fn new(name: String, description: String, version: String) -> (r: Package)
        ensures
            r@ == (PackageModel { name: name@, version: version@, description: description@ }),
    {
        Package { name, description, version }
    }

    pub fn get_name(&self) -> (r: &str)
        ensures
            r@ == self@.name,
    {
        self.name.as_str()
    }

    pub fn get_description(&self) -> (r: &str)
        ensures
            r@ == self@.description,
    {
        self.description.as_str()
    }

    pub fn get_version(&self) -> (r: &str)
        ensures
            r@ == self@.version,
    {
        self.version.as_str()
    }

    /// Replaces the version, as when a newer one has been resolved.
    pub fn set_version(&mut self, version: String)
        ensures
            final(self)@ == (PackageModel { version: version@, ..old(self)@ }),
    {
        self.version = version;
    }

    /// The same package at another version.
    pub fn with_version(&self, version: String) -> (r: Package)
        ensures
            r@ == (PackageModel { version: version@, ..self@ }),
    {
        Package::new(self.name.clone(), self.description.clone(), version)
    }

    /// Checks this package against its details page: whether the version
    /// published there differs from the local one, and that version.
    pub fn check_for_updates(&self, html: &str) -> (r: Result<(bool, String), ParseError>)
        ensures
            r is Ok <==> update_check(self@.version, html@) is Ok,
            r is Ok ==> r->Ok_0.0 == update_check(self@.version, html@)->Ok_0.0,
            r is Ok ==> r->Ok_0.1@ == update_check(self@.version, html@)->Ok_0.1,
            r is Err ==> r->Err_0 == update_check(self@.version, html@)->Err_0,
    {
        match extract_version(html) {
            Ok(v) => {
                let outdated = crate::version::compare(self.version.as_str(), v.as_str());
                Ok((outdated, v))
            },
            Err(e) => Err(e),
        }
    }
}

} // verus!
