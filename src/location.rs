use vstd::prelude::*;
use directories::ProjectDirs;
use crate::error::Error;

verus! {

#[verifier::external_type_specification]
#[verifier::external_body]
pub struct ExProjectDirs(ProjectDirs);

/// Relies on directories::ProjectDirs::from: it looks up the user's home and
/// configuration directories in the environment, and gives `None` where the
/// host has no home directory. Nothing is promised of which value comes back.
pub assume_specification[ ProjectDirs::from ](
    qualifier: &str,
    organization: &str,
    application: &str,
) -> Option<ProjectDirs>;

/// The path of the entry `name` inside the directory `dir`.
pub uninterp spec fn joined(dir: Seq<char>, name: Seq<char>) -> Seq<char>;

/// The name of the configuration file inside the project's directory.
pub open spec fn config_file_text() -> Seq<char> {
    seq!['c', 'o', 'n', 'f', 'i', 'g', '.', 'y', 'm', 'l']
}

/// The path of the configuration file inside the directory `dir`.
pub open spec fn config_file_of(dir: Seq<char>) -> Seq<char> {
    joined(dir, config_file_text())
}

/// Whether `name` is a single plain entry name: not empty, neither `.` nor
/// `..`, and holding no separator or drive mark.
pub open spec fn plain_name(name: Seq<char>) -> bool {
    &&& name.len() > 0
    &&& name != seq!['.']
    &&& name != seq!['.', '.']
    &&& forall|i: int| 0 <= i < name.len() ==> name[i] != '/' && name[i] != '\\' && name[i] != ':'
}

/// Whether `dir` is a directory path to which an entry is joined by plain
/// concatenation: it has no verbatim prefix (`\\?\`), and it does not end
/// in a drive mark or a backslash, whose meaning differs between platforms.
pub open spec fn plain_dir(dir: Seq<char>) -> bool {
    &&& !(dir.len() >= 4 && dir.subrange(0, 4) == seq!['\\', '\\', '?', '\\'])
    &&& dir.len() > 0 ==> dir.last() != ':' && dir.last() != '\\'
}

/// Whether `path` is `dir`, then one separator unless `dir` is empty or
/// already ends in one, then `name`.
pub open spec fn placed_in(path: Seq<char>, dir: Seq<char>, name: Seq<char>) -> bool {
    if dir.len() == 0 || dir.last() == '/' {
        path == dir + name
    } else {
        path == dir + seq!['/'] + name || path == dir + seq!['\\'] + name
    }
}

/// Relies on std::path::Path::join: the path of `name` inside `dir`, which
/// depends on the two paths alone. A plain relative name joined to a plain
/// directory is appended to it, with the platform's separator between them
/// where `dir` does not already end in one.
#[verifier::external_body]
fn join_path(dir: &str, name: &str) -> (r: String)
    ensures
        r@ == joined(dir@, name@),
        plain_dir(dir@) && plain_name(name@) ==> placed_in(r@, dir@, name@),
{
    std::path::Path::new(dir).join(name).to_string_lossy().into_owned()
}

/// Relies on directories::ProjectDirs::config_dir: the project's configuration
/// directory, as text, or `None` where that path is not valid Unicode. It was
/// read from the environment, so nothing is promised of its value.
#[verifier::external_body]
fn config_dir_of(project: &ProjectDirs) -> (r: Option<String>) {
    project.config_dir().to_str().map(|d| d.to_owned())
}

/// The qualifier of the `so` tool's identity: a reverse domain.
pub open spec fn qualifier_text() -> Seq<char> {
    seq!['i', 'o']
}

/// The organization of the `so` tool's identity.
pub open spec fn organization_text() -> Seq<char> {
    seq!['S', 'a', 'm', ' ', 'T', 'a', 'y']
}

/// The application name of the `so` tool's identity.
pub open spec fn application_text() -> Seq<char> {
    seq!['s', 'o']
}

/// The identity under which the tool's directories are looked up:
/// qualifier, organization and application.
pub fn project_identity() -> (r: (&'static str, &'static str, &'static str))
    ensures
        r.0@ == qualifier_text(),
        r.1@ == organization_text(),
        r.2@ == application_text(),
{
    let r = ("io", "Sam Tay", "so");
    proof {
        reveal_strlit("io");
        reveal_strlit("Sam Tay");
        reveal_strlit("so");
        assert(r.0@ =~= qualifier_text());
        assert(r.1@ =~= organization_text());
        assert(r.2@ =~= application_text());
    }
    r
}

/// The project directories of the `so` tool, looked up under
/// `project_identity`, or `Error::ProjectDir` where the host offers no home
/// directory.
pub fn project_dir() -> (r: Result<ProjectDirs, Error>)
    ensures
        r matches Err(e) ==> e is ProjectDir,
{
    let (qualifier, organization, application) = project_identity();
    match ProjectDirs::from(qualifier, organization, application) {
        Some(p) => Ok(p),
        None => Err(Error::ProjectDir),
    }
}

/// The directory that holds the configuration file, or `Error::ProjectDir`
/// where there is none, or its path is not valid Unicode.
pub fn config_dir() -> (r: Result<String, Error>)
    ensures
        r matches Err(e) ==> e is ProjectDir,
{
    let project = project_dir()?;
    match config_dir_of(&project) {
        Some(d) => Ok(d),
        None => Err(Error::ProjectDir),
    }
}

/// The path of the configuration file inside the directory `dir`.
pub fn config_file_in(dir: &String) -> (r: String)
    ensures
        r@ == config_file_of(dir@),
        plain_dir(dir@) ==> placed_in(r@, dir@, config_file_text()),
{
    let name = "config.yml";
    proof {
        reveal_strlit("config.yml");
        assert(name@ =~= config_file_text());
        assert(plain_name(config_file_text()));
    }
    join_path(dir.as_str(), name)
}

/// The path of the configuration file: `config.yml` inside the directory
/// that `config_dir` gives.
pub fn config_file_name() -> (r: Result<String, Error>)
    ensures
        r matches Err(e) ==> e is ProjectDir,
        r matches Ok(f) ==> exists|d: Seq<char>|
            f@ == #[trigger] config_file_of(d)
                && (plain_dir(d) ==> placed_in(f@, d, config_file_text())),
{
    let dir = config_dir()?;
    Ok(config_file_in(&dir))
}

} // verus!
