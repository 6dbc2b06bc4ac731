//! Where the application keeps its files.
//!
//! Paths are strings with `/` between their segments. Every location is a
//! function of a base directory that the caller hands in; only the three
//! `get_*_dir` functions ask the operating system for one.

use vstd::prelude::*;
use vstd::string::*;

verus! {

/// `segment` below `base`: the two joined by one `/`, which is left out where
/// `base` is empty or already ends in one. The segment is taken as it is,
/// also where it begins with a `/`.
pub open spec fn spec_join(base: Seq<char>, segment: Seq<char>) -> Seq<char> {
    if base.len() == 0 || base.last() == '/' {
        base + segment
    } else {
        base + seq!['/'] + segment
    }
}

/// The application's own directory below one of the user's base directories.
pub open spec fn spec_app_dir(base: Seq<char>) -> Seq<char> {
    spec_join(base, "git-chest"@)
}

/// The path of `segment` below `base`.
pub fn join(base: &str, segment: &str) -> (path: String)
    ensures
        path@ == spec_join(base@, segment@),
{
    let mut path = base.to_owned();
    let len = base.unicode_len();
    if len > 0 && base.get_char(len - 1) != '/' {
        proof {
            reveal_strlit("/");
        }
        path.append("/");
    }
    path.append(segment);
    path
}

/// The application's directory below `base`.
pub fn app_dir(base: &str) -> (dir: String)
    ensures
        dir@ == spec_app_dir(base@),
{
    join(base, "git-chest")
}

/// Calls `dirs::config_local_dir`, which reads the user's local configuration
/// directory from the operating system. Nothing is claimed of the answer: it
/// depends on the machine and the environment, and may be missing. A
/// directory whose name is no UTF-8 text counts as missing.
#[verifier::external_body]
fn os_config_local_dir() -> (base: Option<String>) {
    ::dirs::config_local_dir()?.into_os_string().into_string().ok()
}

/// Calls `dirs::data_local_dir`, which reads the user's local data directory
/// from the operating system. Nothing is claimed of the answer. A directory
/// whose name is no UTF-8 text counts as missing.
#[verifier::external_body]
fn os_data_local_dir() -> (base: Option<String>) {
    ::dirs::data_local_dir()?.into_os_string().into_string().ok()
}

/// Calls `dirs::cache_dir`, which reads the user's cache directory from the
/// operating system. Nothing is claimed of the answer. A directory whose
/// name is no UTF-8 text counts as missing.
#[verifier::external_body]
fn os_cache_dir() -> (base: Option<String>) {
    ::dirs::cache_dir()?.into_os_string().into_string().ok()
}

/// The application's directory below a base directory that the operating
/// system reported, or nothing where it reported none.
pub fn app_dir_in(base: Option<String>) -> (dir: Option<String>)
    ensures
        match base {
            Some(b) => dir matches Some(d) && d@ == spec_app_dir(b@),
            None => dir is None,
        },
{
    match base {
        Some(b) => Some(app_dir(b.as_str())),
        None => None,
    }
}

/// Where the application configuration files are stored. `None` where the
/// operating system knows no configuration directory for the user.
pub fn get_config_dir() -> (dir: Option<String>)
    ensures
        dir matches Some(d) ==> exists|base: Seq<char>| d@ == spec_app_dir(base),
{
    app_dir_in(os_config_local_dir())
}

/// Where the non-cache data for the application is stored. `None` where the
/// operating system knows no data directory for the user.
pub fn get_data_dir() -> (dir: Option<String>)
    ensures
        dir matches Some(d) ==> exists|base: Seq<char>| d@ == spec_app_dir(base),
{
    app_dir_in(os_data_local_dir())
}

/// Where the cache data for the application is stored. `None` where the
/// operating system knows no cache directory for the user.
pub fn get_cache_dir() -> (dir: Option<String>)
    ensures
        dir matches Some(d) ==> exists|base: Seq<char>| d@ == spec_app_dir(base),
{
    app_dir_in(os_cache_dir())
}

/// The directories that must exist before the application starts, in the
/// order in which they are created: the configuration directory, the image
/// directory below the data directory, and the cache directory.
pub open spec fn spec_required_dirs(
    config_dir: Seq<char>,
    data_dir: Seq<char>,
    cache_dir: Seq<char>,
) -> Seq<Seq<char>> {
    seq![config_dir, spec_join(data_dir, "images"@), cache_dir]
}

/// The directories to create, if they are missing, when the application
/// starts.
pub fn required_dirs(config_dir: &str, data_dir: &str, cache_dir: &str) -> (dirs: Vec<String>)
    ensures
        dirs@.map_values(|d: String| d@) == spec_required_dirs(
            config_dir@,
            data_dir@,
            cache_dir@,
        ),
{
    let mut dirs: Vec<String> = Vec::new();
    dirs.push(config_dir.to_owned());
    dirs.push(join(data_dir, "images"));
    dirs.push(cache_dir.to_owned());
    assert(dirs@.map_values(|d: String| d@) =~= spec_required_dirs(
        config_dir@,
        data_dir@,
        cache_dir@,
    ));
    dirs
}

/// A location below the application's data directory.
#[derive(Clone, Copy, Debug)]
pub enum DataPath<'a> {
    /// The directory of all avatars.
    Avatars,
    /// One avatar, by its file name.
    Avatar(&'a str),
    /// The readme assets of a repository, by owner and repository name.
    ReadmeAssets((&'a str, &'a str)),
}

/// A [`DataPath`] with its names as sequences of characters.
pub enum DataPathView {
    Avatars,
    Avatar(Seq<char>),
    ReadmeAssets(Seq<char>, Seq<char>),
}

impl<'a> View for DataPath<'a> {
    type V = DataPathView;

    open spec fn view(&self) -> DataPathView {
        match *self {
            DataPath::Avatars => DataPathView::Avatars,
            DataPath::Avatar(file) => DataPathView::Avatar(file@),
            DataPath::ReadmeAssets((owner, repo)) => DataPathView::ReadmeAssets(owner@, repo@),
        }
    }
}

impl DataPathView {
    /// The location relative to the data directory.
    pub open spec fn segment(self) -> Seq<char> {
        match self {
            DataPathView::Avatars => "assets/avatars"@,
            DataPathView::Avatar(file) => "assets/avatars/"@ + file,
            DataPathView::ReadmeAssets(owner, repo) => "assets/repos/"@ + owner + "/"@ + repo
                + "/readme"@,
        }
    }

    /// The location below `data_dir`.
    pub open spec fn path(self, data_dir: Seq<char>) -> Seq<char> {
        spec_join(data_dir, self.segment())
    }

    /// The directory that has to exist before the location is used: the
    /// avatar directory for a single avatar, else the location itself.
    pub open spec fn ensured_dir(self, data_dir: Seq<char>) -> Seq<char> {
        match self {
            DataPathView::Avatar(_) => DataPathView::Avatars.path(data_dir),
            _ => self.path(data_dir),
        }
    }
}

impl<'a> DataPath<'a> {
    /// The path of the location below `data_dir`.
    pub fn path(&self, data_dir: &str) -> (path: String)
        ensures
            path@ == self@.path(data_dir@),
    {
        match self {
            DataPath::Avatars => join(data_dir, "assets/avatars"),
            DataPath::Avatar(file) => {
                let mut segment = "assets/avatars/".to_owned();
                segment.append(file);
                join(data_dir, segment.as_str())
            },
            DataPath::ReadmeAssets((owner, repo)) => {
                let mut segment = "assets/repos/".to_owned();
                segment.append(owner);
                segment.append("/");
                segment.append(repo);
                segment.append("/readme");
                join(data_dir, segment.as_str())
            },
        }
    }

    /// The directory to create, if it is missing, before `path` is used.
    pub fn ensured_dir(&self, data_dir: &str) -> (dir: String)
        ensures
            dir@ == self@.ensured_dir(data_dir@),
    {
        match self {
            DataPath::Avatar(_) => DataPath::Avatars.path(data_dir),
            _ => self.path(data_dir),
        }
    }
}

/// A single avatar lies directly in the avatar directory: its path is that
/// directory's path, a `/`, and the file name.
pub proof fn lemma_avatar_in_avatars(data_dir: Seq<char>, file: Seq<char>)
    ensures
        DataPathView::Avatar(file).path(data_dir) == DataPathView::Avatars.path(data_dir) + seq![
            '/',
        ] + file,
{
    reveal_strlit("assets/avatars");
    reveal_strlit("assets/avatars/");
    assert(DataPathView::Avatar(file).path(data_dir) =~= DataPathView::Avatars.path(data_dir)
        + seq!['/'] + file);
}

} // verus!
