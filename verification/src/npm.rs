//! What the package manager is asked, and how its answer about a package is read.

use vstd::prelude::*;
use vstd::string::*;
use crate::command::{texts_model, Invocation, InvocationModel};
use crate::error::{ErrorModel, NodeRuntimeError};

verus! {

/// A subcommand of the package manager with its arguments, scoped to a directory or not.
#[derive(Debug, PartialEq, Eq)]
pub struct Request {
    /// The subcommand.
    pub subcommand: String,
    /// The arguments that follow the isolation flags.
    pub arguments: Vec<String>,
    /// Whether the package manager works on a directory of the caller's choice.
    pub scoped: bool,
}

/// The mathematical content of a [`Request`].
pub struct RequestModel {
    pub subcommand: Seq<char>,
    pub arguments: Seq<Seq<char>>,
    pub scoped: bool,
}

impl View for Request {
    type V = RequestModel;

    open spec fn view(&self) -> RequestModel {
        RequestModel {
            subcommand: self.subcommand@,
            arguments: texts_model(self.arguments@),
            scoped: self.scoped,
        }
    }
}

/// The flags that bound the package manager's network waits: retries wait between 2000
/// and 5000 milliseconds, and a fetch is given up after 5000 milliseconds.
pub open spec fn fetch_flags() -> Seq<Seq<char>> {
    seq![
        "--fetch-retry-mintimeout"@,
        "2000"@,
        "--fetch-retry-maxtimeout"@,
        "5000"@,
        "--fetch-timeout"@,
        "5000"@,
    ]
}

/// A package and its version as the package manager reads them: `name@version`.
pub open spec fn package_spec(name: Seq<char>, version: Seq<char>) -> Seq<char> {
    name + "@"@ + version
}

impl RequestModel {
    /// The query for a package's registry metadata, as JSON.
    pub open spec fn latest_version(name: Seq<char>) -> RequestModel {
        RequestModel {
            subcommand: "info"@,
            arguments: seq![name, "--json"@] + fetch_flags(),
            scoped: false,
        }
    }

    /// The installation of the packages at exactly the given versions.
    pub open spec fn install_packages(packages: Seq<(Seq<char>, Seq<char>)>) -> RequestModel {
        RequestModel {
            subcommand: "install"@,
            arguments: packages.map_values(
                |package: (Seq<char>, Seq<char>)| package_spec(package.0, package.1),
            ) + seq!["--save-exact"@] + fetch_flags(),
            scoped: true,
        }
    }
}

/// The names and versions as mathematical values.
pub open spec fn packages_model(packages: Seq<(String, String)>) -> Seq<(Seq<char>, Seq<char>)> {
    packages.map_values(|package: (String, String)| (package.0@, package.1@))
}

/// Appends the fetch flags.
fn push_fetch_flags(arguments: &mut Vec<String>)
    ensures
        texts_model(final(arguments)@) == texts_model(old(arguments)@) + fetch_flags(),
{
    arguments.push("--fetch-retry-mintimeout".to_owned());
    arguments.push("2000".to_owned());
    arguments.push("--fetch-retry-maxtimeout".to_owned());
    arguments.push("5000".to_owned());
    arguments.push("--fetch-timeout".to_owned());
    arguments.push("5000".to_owned());
}

impl Request {
    /// The request that asks the registry about the package `name`.
    pub fn latest_version(name: &str) -> (r: Request)
        ensures
            r@ == RequestModel::latest_version(name@),
    {
        let mut arguments: Vec<String> = Vec::new();
        arguments.push(name.to_owned());
        arguments.push("--json".to_owned());
        assert(texts_model(arguments@) =~= seq![name@, "--json"@]);
        push_fetch_flags(&mut arguments);
        Request { subcommand: "info".to_owned(), arguments, scoped: false }
    }

    /// The request that installs the given packages, each a name and a version, into the
    /// directory that the request is scoped to.
    pub fn install_packages(packages: &[(String, String)]) -> (r: Request)
        ensures
            r@ == RequestModel::install_packages(packages_model(packages@)),
    {
        let ghost specs = packages_model(packages@).map_values(
            |package: (Seq<char>, Seq<char>)| package_spec(package.0, package.1),
        );
        let mut arguments: Vec<String> = Vec::new();
        let mut i: usize = 0;
        while i < packages.len()
            invariant
                i <= packages.len(),
                specs == packages_model(packages@).map_values(
                    |package: (Seq<char>, Seq<char>)| package_spec(package.0, package.1),
                ),
                texts_model(arguments@) == specs.take(i as int),
            decreases packages.len() - i,
        {
            let mut spec = packages[i].0.clone();
            spec.append("@");
            spec.append(packages[i].1.as_str());
            arguments.push(spec);
            assert(specs.take(i + 1) =~= specs.take(i as int).push(specs[i as int]));
            i = i + 1;
        }
        let ghost named = arguments@;
        arguments.push("--save-exact".to_owned());
        assert(texts_model(arguments@) =~= texts_model(named).push("--save-exact"@));
        assert(texts_model(named).push("--save-exact"@) =~= specs + seq!["--save-exact"@]);
        push_fetch_flags(&mut arguments);
        Request { subcommand: "install".to_owned(), arguments, scoped: true }
    }

    /// The command line that carries out the request.
    pub fn invocation(&self) -> (r: Invocation)
        ensures
            r@ == InvocationModel::npm_subcommand(self@.subcommand, self@.arguments, self@.scoped),
    {
        Invocation::npm_subcommand(self.subcommand.as_str(), self.arguments.as_slice(), self.scoped)
    }
}

/// The distribution tags of a package in the registry.
#[derive(Debug, PartialEq, Eq)]
pub struct NpmInfoDistTags {
    latest: Option<String>,
}

/// The registry's metadata of a package: its distribution tags and all its versions, in
/// the registry's order.
#[derive(Debug, PartialEq, Eq)]
pub struct NpmInfo {
    dist_tags: NpmInfoDistTags,
    versions: Vec<String>,
}

/// The mathematical content of an [`NpmInfo`].
pub struct NpmInfoModel {
    /// The version that the `latest` tag points to, if the tag is there.
    pub latest: Option<Seq<char>>,
    /// All known versions, in order.
    pub versions: Seq<Seq<char>>,
}

impl NpmInfoModel {
    /// The latest version: the one that the `latest` tag points to, else the last of the
    /// known versions, else none.
    pub open spec fn latest_version(self) -> Option<Seq<char>> {
        match self.latest {
            Some(version) => Some(version),
            None => if self.versions.len() > 0 {
                Some(self.versions.last())
            } else {
                None
            },
        }
    }
}

impl View for NpmInfoDistTags {
    type V = Option<Seq<char>>;

    closed spec fn view(&self) -> Option<Seq<char>> {
        match self.latest {
            Some(version) => Some(version@),
            None => None,
        }
    }
}

impl View for NpmInfo {
    type V = NpmInfoModel;

    closed spec fn view(&self) -> NpmInfoModel {
        NpmInfoModel { latest: self.dist_tags@, versions: texts_model(self.versions@) }
    }
}

impl NpmInfoDistTags {
    /// Distribution tags with the given `latest` tag, or without it.
    pub fn new(latest: Option<String>) -> (r: NpmInfoDistTags)
        ensures
            r@ == match latest {
                Some(version) => Some(version@),
                None => None,
            },
    {
        NpmInfoDistTags { latest }
    }

    /// The version that the `latest` tag points to, if the tag is there.
    pub fn latest(&self) -> (r: &Option<String>)
        ensures
            self@ == match *r {
                Some(version) => Some(version@),
                None => None,
            },
    {
        &self.latest
    }
}

impl Default for NpmInfoDistTags {
    /// Distribution tags without a `latest` tag.
    fn default() -> (r: NpmInfoDistTags)
        ensures
            r@ is None,
    {
        NpmInfoDistTags { latest: None }
    }
}

impl NpmInfo {
    /// The metadata with the given tags and versions.
    pub fn new(dist_tags: NpmInfoDistTags, versions: Vec<String>) -> (r: NpmInfo)
        ensures
            r@ == (NpmInfoModel { latest: dist_tags@, versions: texts_model(versions@) }),
    {
        NpmInfo { dist_tags, versions }
    }

    /// The distribution tags.
    pub fn dist_tags(&self) -> (r: &NpmInfoDistTags)
        ensures
            r@ == self@.latest,
    {
        &self.dist_tags
    }

    /// All known versions, in the registry's order.
    pub fn versions(&self) -> (r: &Vec<String>)
        ensures
            texts_model(r@) == self@.versions,
    {
        &self.versions
    }

    /// The latest version of the package, if the registry knows one.
    pub fn latest_version(self) -> (r: Option<String>)
        ensures
            match self@.latest_version() {
                Some(version) => r matches Some(found) && found@ == version,
                None => r is None,
            },
    {
        let mut info = self;
        match info.dist_tags.latest {
            Some(version) => Some(version),
            None => info.versions.pop(),
        }
    }
}

/// What the query for the latest version of package `name` returns, given what the
/// package manager's answer was read as.
pub open spec fn spec_latest_version(name: Seq<char>, answer: Result<NpmInfoModel, Seq<char>>) -> Result<
    Seq<char>,
    ErrorModel,
> {
    match answer {
        Err(cause) => Err(ErrorModel::MetadataUnreadable { package: name, cause }),
        Ok(info) => match info.latest_version() {
            Some(version) => Ok(version),
            None => Err(ErrorModel::NoVersionFound { package: name }),
        },
    }
}

/// The latest version of the package `name`, from the package manager's answer to
/// [`Request::latest_version`]: the answer as metadata, or why it could not be read.
pub fn npm_package_latest_version(name: &str, answer: Result<NpmInfo, String>) -> (r: Result<
    String,
    NodeRuntimeError,
>)
    ensures
        match spec_latest_version(
            name@,
            match answer {
                Ok(info) => Ok(info@),
                Err(cause) => Err(cause@),
            },
        ) {
            Ok(version) => r matches Ok(found) && found@ == version,
            Err(error) => r matches Err(e) && e@ == error,
        },
{
    match answer {
        Err(cause) => Err(NodeRuntimeError::MetadataUnreadable { package: name.to_owned(), cause }),
        Ok(info) => match info.latest_version() {
            Some(version) => Ok(version),
            None => Err(NodeRuntimeError::NoVersionFound { package: name.to_owned() }),
        },
    }
}

} // verus!
