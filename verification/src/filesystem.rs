//! The directory that the application's files live under, and how a file
//! name is put under a directory.

use vstd::prelude::*;

verus! {

/// A character of a plain file name: a letter or a digit of ASCII, a dot,
/// an underscore or a hyphen.
pub open spec fn plain_char(c: char) -> bool {
    ('a' <= c && c <= 'z') || ('A' <= c && c <= 'Z') || ('0' <= c && c <= '9') || c == '.' || c == '_' || c == '-'
}

/// A plain file name: it begins with a letter and holds plain characters
/// only, so that no platform reads a separator, a drive or a step to another
/// directory in it.
pub open spec fn plain_name(name: Seq<char>) -> bool {
    &&& name.len() > 0
    &&& name[0] != '.'
    &&& name[0] != '-'
    &&& forall|i: int| 0 <= i < name.len() ==> plain_char(#[trigger] name[i])
}

/// Whether `path` ends with `name`.
pub open spec fn ends_with_text(path: Seq<char>, name: Seq<char>) -> bool {
    path.len() >= name.len() && path.subrange(path.len() - name.len(), path.len() as int) == name
}

/// `Path::join` of std: `name` adjoined to `dir`. What stands between the
/// two is the platform's choice, and a name that the platform reads as
/// absolute takes the place of `dir`; so the contract says only that the
/// path ends with a plain name.
#[verifier::external_body]
pub(crate) fn join_path(dir: &str, name: &str) -> (path: String)
    ensures
        plain_name(name@) ==> ends_with_text(path@, name@),
{
    std::path::Path::new(dir).join(name).to_string_lossy().into_owned()
}

/// The directory that relative paths of the application are resolved
/// against.
#[derive(Debug, Clone)]
pub struct FileSystem {
    base_dir: String,
}

impl View for FileSystem {
    type V = Seq<char>;

    closed spec fn view(&self) -> Seq<char> {
        self.base_dir@
    }
}

impl FileSystem {
    /// A file system under `base_dir`.
    pub fn new(base_dir: String) -> (fs: FileSystem)
        ensures
            fs@ == base_dir@,
    {
        FileSystem { base_dir }
    }

    /// The directory that was given to `new`.
    pub fn get_base_dir(&self) -> (dir: &String)
        ensures
            dir@ == self@,
    {
        &self.base_dir
    }
}

} // verus!
