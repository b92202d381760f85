//! Where named resources live, and what is accepted as their content.

use vstd::prelude::*;

verus! {

/// Why a resource could not be had.
pub enum Error {
    /// Reading failed; the text says how.
    Io(String),
    /// The content holds a zero byte, so it cannot end in one.
    FileContainsNil,
    /// The location of the running program is not known.
    FailToGetPath,
}

/// What the failure says.
pub open spec fn spec_message(e: Error) -> Seq<char> {
    match e {
        Error::Io(_) => "I/O Error"@,
        Error::FileContainsNil => "File contains null character"@,
        Error::FailToGetPath => "Failed to find executable path"@,
    }
}

impl Error {
    /// What the failure says.
    pub fn message(&self) -> (text: String)
        ensures
            text@ == spec_message(*self),
    {
        match self {
            Error::Io(_) => "I/O Error".to_owned(),
            Error::FileContainsNil => "File contains null character".to_owned(),
            Error::FailToGetPath => "Failed to find executable path".to_owned(),
        }
    }
}

/// The directory that resource names are resolved against.
pub struct Resources {
    pub root_path: String,
}

/// What `std::path::Path::parent` gives for `path`: the path without its
/// last component, or nothing where it ends in a root or is empty.
pub uninterp spec fn path_parent(path: Seq<char>) -> Option<Seq<char>>;

/// What `std::path::Path::join` gives for `base` and `rel`: `rel` adjoined to
/// `base`, or `rel` alone where it is absolute.
pub uninterp spec fn path_join(base: Seq<char>, rel: Seq<char>) -> Seq<char>;

/// Calls `std::path::Path::parent` on `path`. Nothing is proved of it: the
/// contract only names the outcome, which depends on the path alone.
#[verifier::external_body]
fn parent_of(path: &str) -> (r: Option<String>)
    ensures
        match r {
            Some(dir) => path_parent(path@) == Some(dir@),
            None => path_parent(path@) is None,
        },
{
    std::path::Path::new(path).parent().map(|dir| dir.to_string_lossy().into_owned())
}

/// Calls `std::path::Path::join` on `base` with `rel`. Nothing is proved of
/// it: the contract only names the outcome, which depends on the two paths
/// alone.
#[verifier::external_body]
fn join(base: &str, rel: &str) -> (r: String)
    ensures
        r@ == path_join(base@, rel@),
{
    std::path::Path::new(base).join(rel).to_string_lossy().into_owned()
}

/// The root that lies `rel_path` below the directory of the program at `exe`:
/// none where the location is not known or lies in no directory.
pub open spec fn spec_root(exe: Option<Seq<char>>, rel_path: Seq<char>) -> Option<Seq<char>> {
    match exe {
        None => None,
        Some(path) => match path_parent(path) {
            None => None,
            Some(dir) => Some(path_join(dir, rel_path)),
        },
    }
}

/// No byte of `content` is zero.
pub open spec fn nil_free(content: Seq<u8>) -> bool {
    forall|i: int| 0 <= i < content.len() ==> #[trigger] content[i] != 0
}

/// Tells whether some byte of `content` is zero.
pub fn contains_nil(content: &Vec<u8>) -> (r: bool)
    ensures
        r == !nil_free(content@),
{
    let mut i: usize = 0;
    while i < content.len()
        invariant
            0 <= i <= content@.len(),
            forall|j: int| 0 <= j < i ==> #[trigger] content@[j] != 0,
        decreases content@.len() - i,
    {
        if content[i] == 0 {
            return true;
        }
        i += 1;
    }
    false
}

impl Resources {
    /// Builds the root from the directory that holds the running program,
    /// if it lies in one, and a path relative to that directory. Without a
    /// directory there is no root.
    pub fn rooted(dir: Option<String>, rel_path: &str) -> (r: Result<Resources, Error>)
        ensures
            match dir {
                Some(d) => r matches Ok(res) && res.root_path@ == path_join(d@, rel_path@),
                None => r matches Err(Error::FailToGetPath),
            },
    {
        match dir {
            Some(dir) => Ok(Resources { root_path: join(dir.as_str(), rel_path) }),
            None => Err(Error::FailToGetPath),
        }
    }

    /// Builds the root from the location of the running program, if it is
    /// known, and a path relative to the directory that holds the program.
    /// Without a location, or with one that lies in no directory, there is
    /// no root.
    pub fn from_rel_path(exe: Option<&str>, rel_path: &str) -> (r: Result<Resources, Error>)
        ensures
            match spec_root(
                match exe {
                    Some(path) => Some(path@),
                    None => None,
                },
                rel_path@,
            ) {
                Some(root) => r matches Ok(res) && res.root_path@ == root,
                None => r matches Err(Error::FailToGetPath),
            },
    {
        match exe {
            None => Err(Error::FailToGetPath),
            Some(path) => Resources::rooted(parent_of(path), rel_path),
        }
    }

    /// Where the resource `resource_name` is read from: its name joined to
    /// the root.
    pub(crate) fn path_of(&self, resource_name: &str) -> (path: String)
        ensures
            path@ == path_join(self.root_path@, resource_name@),
    {
        join(self.root_path.as_str(), resource_name)
    }

    /// Accepts what reading a resource gave: a failed read stays the failure
    /// it is, content with a zero byte is refused whole, and any other content
    /// is handed on as it is.
    pub fn load(read: Result<Vec<u8>, String>) -> (r: Result<Vec<u8>, Error>)
        ensures
            match read {
                Err(cause) => r matches Err(Error::Io(text)) && text@ == cause@,
                Ok(content) => if nil_free(content@) {
                    r matches Ok(buffer) && buffer@ == content@
                } else {
                    r matches Err(Error::FileContainsNil)
                },
            },
    {
        match read {
            Err(cause) => Err(Error::Io(cause)),
            Ok(content) => if contains_nil(&content) {
                Err(Error::FileContainsNil)
            } else {
                Ok(content)
            },
        }
    }
}

} // verus!
