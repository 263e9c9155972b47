//! Where the configuration lives.

use std::path::PathBuf;
use vstd::prelude::*;
use vstd::string::*;

pub mod accounts;

verus! {

/// A file-system path, as the standard library holds it.
#[verifier::external_type_specification]
#[verifier::external_body]
pub struct ExPathBuf(PathBuf);

/// `PathBuf::clone` copies the path.
pub assume_specification[ <PathBuf as Clone>::clone ](path: &PathBuf) -> (copy: PathBuf)
    ensures
        copy == *path,
;

/// A path below a base directory: the segments are joined to the base one after the other.
#[derive(Debug)]
pub struct Location {
    /// The directory that the segments start from.
    pub base: PathBuf,
    /// File and directory names below the base.
    pub segments: Vec<String>,
}

impl Location {
    /// Whether this is the path of `names` below `base`.
    pub open spec fn is(self, base: PathBuf, names: Seq<Seq<char>>) -> bool {
        self.base == base && crate::text::views(self.segments@) == names
    }
}

/// A failed file operation.
#[derive(Debug)]
pub struct IoFailure {
    /// The path in question, quoted for display.
    pub path: String,
    /// What the operating system reported.
    pub source: String,
}

/// What came of reading a file.
#[derive(Debug)]
pub enum FileRead<T> {
    /// The file was read.
    Found(T),
    /// There is no such file.
    Missing,
    /// The file could not be read.
    Failed(IoFailure),
}

/// Errors of the configuration directory.
#[derive(Debug)]
pub enum ConfigError {
    /// The platform names no configuration directory.
    UnsupportedPlatform,
    /// A directory could not be created.
    Io(IoFailure),
}

impl ConfigError {
    /// The message shown to the user.
    pub open spec fn text(self) -> Seq<char> {
        match self {
            ConfigError::UnsupportedPlatform =>
                "failed to determine configuration directory for this platform"@,
            ConfigError::Io(failure) => "I/O error interacting with "@ + failure.path@,
        }
    }

    /// Renders the message shown to the user.
    pub fn message(&self) -> (text: String)
        ensures
            text@ == self.text(),
    {
        match self {
            ConfigError::UnsupportedPlatform =>
                "failed to determine configuration directory for this platform".to_owned(),
            ConfigError::Io(failure) =>
                "I/O error interacting with ".to_owned().concat(failure.path.as_str()),
        }
    }
}

/// Namespace for resolving configuration directories and filenames.
#[derive(Debug, Clone)]
pub struct ConfigPaths {
    base_dir: PathBuf,
}

impl View for ConfigPaths {
    type V = PathBuf;

    closed spec fn view(&self) -> PathBuf {
        self.base_dir
    }
}

/// The names by which a platform finds the directories of this project: the qualifier, the
/// organization and the application.
pub fn project_names() -> (names: (&'static str, &'static str, &'static str))
    ensures
        names.0@ == "io"@,
        names.1@ == "plausible"@,
        names.2@ == "plausible-cli"@,
{
    ("io", "plausible", "plausible-cli")
}

/// Calls `directories::ProjectDirs::from` and hands out the configuration directory of the project
/// of the given names. Which directory that is, and whether there is one, depends on the operating
/// system and environment variables besides the names, so nothing is claimed of it.
#[verifier::external_body]
fn project_config_dir(qualifier: &str, organization: &str, application: &str) -> (dir: Option<
    PathBuf,
>) {
    let dirs = directories::ProjectDirs::from(qualifier, organization, application)?;
    Some(dirs.config_dir().to_path_buf())
}

impl ConfigPaths {
    /// Configuration paths below the directory that the platform names, if it names one.
    pub fn from_platform_dir(dir: Option<PathBuf>) -> (paths: Result<ConfigPaths, ConfigError>)
        ensures
            dir matches Some(base) ==> (paths matches Ok(p) && p@ == base),
            dir is None ==> paths matches Err(ConfigError::UnsupportedPlatform),
    {
        match dir {
            Some(base) => Ok(ConfigPaths::from_base_dir(base)),
            None => Err(ConfigError::UnsupportedPlatform),
        }
    }

    /// Create configuration paths using the user's platform conventions, below the directory that
    /// the platform names for the project of [`project_names`].
    ///
    /// Which directory that is depends on the platform. The only error is that it names none.
    pub fn with_project_dirs() -> (paths: Result<ConfigPaths, ConfigError>)
        ensures
            paths matches Err(e) ==> e is UnsupportedPlatform,
    {
        let (qualifier, organization, application) = project_names();
        ConfigPaths::from_platform_dir(project_config_dir(qualifier, organization, application))
    }

    /// Construct from a custom base directory.
    pub fn from_base_dir(base_dir: PathBuf) -> (paths: ConfigPaths)
        ensures
            paths@ == base_dir,
    {
        ConfigPaths { base_dir }
    }

    /// The path of one file or directory in the configuration root.
    fn child(&self, name: &str) -> (location: Location)
        ensures
            location.is(self@, seq![name@]),
    {
        let mut segments: Vec<String> = Vec::new();
        segments.push(name.to_owned());
        assert(crate::text::views(segments@) =~= seq![name@]);
        Location { base: self.base_dir.clone(), segments }
    }

    /// The path of a file in a directory of the configuration root.
    pub(crate) fn grandchild(&self, dir: &str, name: String) -> (location: Location)
        ensures
            location.is(self@, seq![dir@, name@]),
    {
        let mut segments: Vec<String> = Vec::new();
        segments.push(dir.to_owned());
        segments.push(name);
        assert(crate::text::views(segments@) =~= seq![dir@, name@]);
        Location { base: self.base_dir.clone(), segments }
    }

    /// Location of the persisted configuration file.
    pub fn config_file(&self) -> (location: Location)
        ensures
            location.is(self@, seq!["config.toml"@]),
    {
        self.child("config.toml")
    }

    /// Directory that stores rate-limit usage counters.
    pub fn usage_dir(&self) -> (location: Location)
        ensures
            location.is(self@, seq!["usage"@]),
    {
        self.child("usage")
    }

    /// Directory that stores account metadata.
    pub fn accounts_dir(&self) -> (location: Location)
        ensures
            location.is(self@, seq!["accounts"@]),
    {
        self.child("accounts")
    }

    /// File path storing account metadata index.
    pub fn accounts_file(&self) -> (location: Location)
        ensures
            location.is(self@, seq!["accounts.json"@]),
    {
        self.child("accounts.json")
    }

    /// The directories that have to exist before anything is stored, in the order in which they
    /// are created.
    pub fn required_dirs(&self) -> (dirs: Vec<Location>)
        ensures
            dirs@.len() == 3,
            dirs@[0].is(self@, Seq::empty()),
            dirs@[1].is(self@, seq!["accounts"@]),
            dirs@[2].is(self@, seq!["usage"@]),
    {
        let root = Location { base: self.base_dir.clone(), segments: Vec::new() };
        assert(crate::text::views(root.segments@) =~= Seq::empty());
        let mut dirs: Vec<Location> = Vec::new();
        dirs.push(root);
        dirs.push(self.accounts_dir());
        dirs.push(self.usage_dir());
        dirs
    }

    /// Retrieve the base directory path.
    pub fn base_dir(&self) -> (base: &PathBuf)
        ensures
            *base == self@,
    {
        &self.base_dir
    }
}

/// A location is below exactly one base, by exactly one list of names, in their order.
pub proof fn law_location_is_below_its_base(
    location: Location,
    base: PathBuf,
    names: Seq<Seq<char>>,
)
    ensures
        location.is(base, names) <==> location.base == base && location.segments@.len()
            == names.len() && forall|i: int|
            0 <= i < names.len() ==> (#[trigger] location.segments@[i])@ == names[i],
{
    let views = crate::text::views(location.segments@);
    assert(views.len() == location.segments@.len());
    if location.is(base, names) {
        assert forall|i: int| 0 <= i < names.len() implies (#[trigger] location.segments@[i])@
            == names[i] by {
            assert(views[i] == location.segments@[i]@);
        }
    }
    if location.segments@.len() == names.len() && forall|i: int|
        0 <= i < names.len() ==> (#[trigger] location.segments@[i])@ == names[i] {
        assert(views =~= names);
    }
}

/// A message says that there is no configuration directory, or which path made trouble.
pub proof fn law_config_messages_tell_the_details(failure: IoFailure)
    ensures
        ConfigError::UnsupportedPlatform.text()
            == "failed to determine configuration directory for this platform"@,
        ConfigError::Io(failure).text() == "I/O error interacting with "@ + failure.path@,
{
}

} // verus!
