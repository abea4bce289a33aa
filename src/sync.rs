//! Checking a set of packages against the repository: which are outdated,
//! and which could not be checked.

use vstd::prelude::*;

use crate::fetch::FetchError;
use crate::package::{update_check, Package, PackageModel};
use crate::version::ParseError;

verus! {

/// Why one package could not be checked.
#[derive(Debug, Clone, Copy, PartialEq, Eq, Structural)]
pub enum CheckError {
    Fetch(FetchError),
    Parse(ParseError),
}

/// The result of checking one package.
#[derive(Debug, Clone)]
pub enum PackageStatus {
    /// The published version is the local one.
    UpToDate,
    /// The published version, which differs from the local one.
    Outdated(String),
    /// The package could not be checked.
    Failed(CheckError),
}

/// The mathematical value of a status.
pub enum StatusModel {
    UpToDate,
    Outdated(Seq<char>),
    Failed(CheckError),
}

impl View for PackageStatus {
    type V = StatusModel;

    open spec fn view(&self) -> StatusModel {
        match self {
            PackageStatus::UpToDate => StatusModel::UpToDate,
            PackageStatus::Outdated(v) => StatusModel::Outdated(v@),
            PackageStatus::Failed(e) => StatusModel::Failed(*e),
        }
    }
}

/// The view of a fetched page.
pub open spec fn page_model(p: Result<String, FetchError>) -> Result<Seq<char>, FetchError> {
    match p {
        Ok(s) => Ok(s@),
        Err(e) => Err(e),
    }
}

/// The status of a package at `local_version` whose details page was
/// fetched as `page`.
pub open spec fn status_spec(local_version: Seq<char>, page: Result<Seq<char>, FetchError>) -> StatusModel {
    match page {
        Err(e) => StatusModel::Failed(CheckError::Fetch(e)),
        Ok(html) => match update_check(local_version, html) {
            Ok((outdated, v)) => if outdated {
                StatusModel::Outdated(v)
            } else {
                StatusModel::UpToDate
            },
            Err(e) => StatusModel::Failed(CheckError::Parse(e)),
        },
    }
}

/// The statuses of a batch: each package's from its own page alone.
pub open spec fn batch_spec(
    pkgs: Seq<PackageModel>,
    pages: Seq<Result<Seq<char>, FetchError>>,
) -> Seq<StatusModel> {
    Seq::new(pkgs.len(), |i: int| status_spec(pkgs[i].version, pages[i]))
}

pub open spec fn package_models(s: Seq<Package>) -> Seq<PackageModel> {
    s.map_values(|p: Package| p@)
}

pub open spec fn page_models(s: Seq<Result<String, FetchError>>) -> Seq<
    Result<Seq<char>, FetchError>,
> {
    s.map_values(|p: Result<String, FetchError>| page_model(p))
}

pub open spec fn status_models(s: Seq<PackageStatus>) -> Seq<StatusModel> {
    s.map_values(|st: PackageStatus| st@)
}

/// Checks one package against its fetched details page.
pub fn check_package(package: &Package, page: &Result<String, FetchError>) -> (r: PackageStatus)
    ensures
        r@ == status_spec(package@.version, page_model(*page)),
{
    match page {
        Err(e) => PackageStatus::Failed(CheckError::Fetch(*e)),
        Ok(html) => match package.check_for_updates(html.as_str()) {
            Ok((outdated, v)) => {
                if outdated {
                    PackageStatus::Outdated(v)
                } else {
                    PackageStatus::UpToDate
                }
            },
            Err(e) => PackageStatus::Failed(CheckError::Parse(e)),
        },
    }
}

/// Checks each package against the page fetched for it, at the same
/// position; a package that fails leaves the others' results as they are.
pub fn check_batch(packages: &Vec<Package>, pages: &Vec<Result<String, FetchError>>) -> (r: Vec<
    PackageStatus,
>)
    requires
        packages.len() == pages.len(),
    ensures
        status_models(r@) == batch_spec(package_models(packages@), page_models(pages@)),
{
    let mut out: Vec<PackageStatus> = Vec::new();
    let mut i: usize = 0;
    while i < packages.len()
        invariant
            i <= packages.len(),
            packages.len() == pages.len(),
            out.len() == i,
            forall|j: int|
                0 <= j < i ==> #[trigger] out@[j]@ == status_spec(
                    packages@[j]@.version,
                    page_model(pages@[j]),
                ),
        decreases packages.len() - i,
    {
        let st = check_package(&packages[i], &pages[i]);
        out.push(st);
        i = i + 1;
    }
    assert(status_models(out@) =~= batch_spec(package_models(packages@), page_models(pages@)));
    out
}

/// A fetch failure of one package changes the status of that package
/// alone: it is reported as failed, and every other package keeps the
/// status that its own page gives.
pub proof fn lemma_failure_isolated(
    pkgs: Seq<PackageModel>,
    pages: Seq<Result<Seq<char>, FetchError>>,
    j: int,
    e: FetchError,
)
    requires
        pkgs.len() == pages.len(),
        0 <= j < pages.len(),
    ensures
        batch_spec(pkgs, pages.update(j, Err(e))).len() == pkgs.len(),
        batch_spec(pkgs, pages.update(j, Err(e)))[j] == StatusModel::Failed(CheckError::Fetch(e)),
        forall|i: int|
            0 <= i < pkgs.len() && i != j ==> #[trigger] batch_spec(pkgs, pages.update(j, Err(e)))[i]
                == batch_spec(pkgs, pages)[i],
{
}

/// A local package and its published counterpart, for reporting.
#[derive(Debug, Clone)]
pub struct OutdatedEntry {
    pub local: Package,
    pub remote: Package,
}

/// The outdated packages among the first packages of a batch, in the
/// order of the batch, each with its published counterpart.
pub open spec fn outdated_spec(pkgs: Seq<PackageModel>, sts: Seq<StatusModel>) -> Seq<
    (PackageModel, PackageModel),
>
    decreases pkgs.len(),
{
    if pkgs.len() == 0 || sts.len() == 0 {
        seq![]
    } else {
        let prev = outdated_spec(pkgs.drop_last(), sts.drop_last());
        match sts.last() {
            StatusModel::Outdated(v) => prev.push(
                (pkgs.last(), PackageModel { version: v, ..pkgs.last() }),
            ),
            _ => prev,
        }
    }
}

pub open spec fn entry_models(s: Seq<OutdatedEntry>) -> Seq<(PackageModel, PackageModel)> {
    s.map_values(|e: OutdatedEntry| (e.local@, e.remote@))
}

/// The outdated packages of a checked batch, in the batch's order.
pub fn outdated_packages(packages: &Vec<Package>, statuses: &Vec<PackageStatus>) -> (r: Vec<
    OutdatedEntry,
>)
    requires
        packages.len() == statuses.len(),
    ensures
        entry_models(r@) == outdated_spec(package_models(packages@), status_models(statuses@)),
{
    let mut out: Vec<OutdatedEntry> = Vec::new();
    let mut i: usize = 0;
    while i < packages.len()
        invariant
            i <= packages.len(),
            packages.len() == statuses.len(),
            entry_models(out@) == outdated_spec(
                package_models(packages@.subrange(0, i as int)),
                status_models(statuses@.subrange(0, i as int)),
            ),
        decreases packages.len() - i,
    {
        let ghost pk = package_models(packages@.subrange(0, i as int + 1));
        let ghost st = status_models(statuses@.subrange(0, i as int + 1));
        assert(pk.drop_last() =~= package_models(packages@.subrange(0, i as int)));
        assert(st.drop_last() =~= status_models(statuses@.subrange(0, i as int)));
        match &statuses[i] {
            PackageStatus::Outdated(v) => {
                let local = &packages[i];
                let entry = OutdatedEntry {
                    local: local.with_version(local.get_version().to_owned()),
                    remote: local.with_version(v.clone()),
                };
                out.push(entry);
                assert(entry_models(out@) =~= outdated_spec(pk, st));
            },
            _ => {},
        }
        i = i + 1;
    }
    assert(packages@.subrange(0, packages.len() as int) =~= packages@);
    assert(statuses@.subrange(0, statuses.len() as int) =~= statuses@);
    out
}

} // verus!
