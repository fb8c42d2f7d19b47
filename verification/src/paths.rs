use vstd::prelude::*;
use crate::text::spec_option_text;

verus! {

/// What `Path::parent` gives for a path written as text, as text.
pub uninterp spec fn spec_path_parent(path: Seq<char>) -> Option<Seq<char>>;

/// What `Path::file_name` gives for a path written as text, as text.
pub uninterp spec fn spec_path_file_name(path: Seq<char>) -> Option<Seq<char>>;

/// The position of the last `.` in a text, if it holds one.
pub open spec fn spec_last_dot(text: Seq<char>) -> Option<int>
    decreases text.len(),
{
    if text.len() == 0 {
        None
    } else if text.last() == '.' {
        Some(text.len() - 1)
    } else {
        spec_last_dot(text.drop_last())
    }
}

/// The extension of a file name: what follows its last `.`; none when it holds no `.`, or
/// when its only `.` is the one it begins with.
pub open spec fn spec_file_name_extension(file_name: Seq<char>) -> Option<Seq<char>> {
    match spec_last_dot(file_name) {
        Some(dot) => if dot == 0 {
            None
        } else {
            Some(file_name.skip(dot + 1))
        },
        None => None,
    }
}

/// The extension of a path: that of its file name, none without one.
pub open spec fn spec_path_extension(path: Seq<char>) -> Option<Seq<char>> {
    match spec_path_file_name(path) {
        Some(file_name) => spec_file_name_extension(file_name),
        None => None,
    }
}

/// The extension of the path's file name: what follows its last `.`.
/// Wraps `std::path::Path::extension`, whose documentation gives the rule: no extension
/// without a file name, without a `.` in it, or when its only `.` begins it; otherwise the
/// part after the last `.`. The file name itself is the one `path_file_name` names.
#[verifier::external_body]
pub(crate) fn path_extension(path: &str) -> (extension: Option<String>)
    ensures
        spec_option_text(extension) == spec_path_extension(path@),
{
    match std::path::Path::new(path).extension() {
        Some(extension) => Some(extension.to_string_lossy().into_owned()),
        None => None,
    }
}

/// What `Path::join` gives for a base path and a path to add, as text.
pub uninterp spec fn spec_path_join(base: Seq<char>, addition: Seq<char>) -> Seq<char>;

/// The base path with another path added after it.
/// Wraps `std::path::Path::join`. The contract names the result by the two texts alone, as
/// for `path_parent`.
#[verifier::external_body]
pub(crate) fn path_join(base: &str, addition: &str) -> (joined: String)
    ensures
        joined@ == spec_path_join(base@, addition@),
{
    std::path::Path::new(base).join(addition).to_string_lossy().into_owned()
}

/// The path without its last component.
/// Wraps `std::path::Path::parent`. The contract names the result by the path's text alone:
/// the component rules of the target's paths are not restated here.
#[verifier::external_body]
pub(crate) fn path_parent(path: &str) -> (parent: Option<String>)
    ensures
        spec_option_text(parent) == spec_path_parent(path@),
{
    match std::path::Path::new(path).parent() {
        Some(parent) => Some(parent.to_string_lossy().into_owned()),
        None => None,
    }
}

/// What comparing two paths written as text with `==` on `Path` gives: whether their
/// components are equal.
pub uninterp spec fn spec_same_path(left: Seq<char>, right: Seq<char>) -> bool;

/// Whether two paths are the same path, compared component by component, so that redundant
/// separators do not count.
/// Wraps `==` on `std::path::Path`. The contract names the answer by the two texts alone,
/// and states that equal texts are the same path.
#[verifier::external_body]
pub(crate) fn same_path(left: &str, right: &str) -> (same: bool)
    ensures
        same == spec_same_path(left@, right@),
        left@ == right@ ==> same,
{
    std::path::Path::new(left) == std::path::Path::new(right)
}

/// The last component of a path, when it is a normal file or directory name.
/// Wraps `std::path::Path::file_name`. The contract names the result by the path's text
/// alone, as for `path_parent`.
#[verifier::external_body]
pub(crate) fn path_file_name(path: &str) -> (file_name: Option<String>)
    ensures
        spec_option_text(file_name) == spec_path_file_name(path@),
{
    match std::path::Path::new(path).file_name() {
        Some(file_name) => Some(file_name.to_string_lossy().into_owned()),
        None => None,
    }
}

/// A project on disk as the project list shows it: the path of its project file, the
/// directory that holds the file, and the project's name, which is that directory's name.
pub struct ProjectInfo {
    pub project_file_path: String,
    pub project_directory: Option<String>,
    pub name: String,
}

/// The directory of a project file.
pub open spec fn spec_project_directory(project_file_path: Seq<char>) -> Option<Seq<char>> {
    spec_path_parent(project_file_path)
}

/// The name of a project: the last component of its directory, or empty text without one.
pub open spec fn spec_project_name(project_file_path: Seq<char>) -> Seq<char> {
    match spec_project_directory(project_file_path) {
        Some(directory) => match spec_path_file_name(directory) {
            Some(name) => name,
            None => Seq::empty(),
        },
        None => Seq::empty(),
    }
}

impl ProjectInfo {
    /// The project whose project file lies at `project_file_path`.
    pub fn new(project_file_path: &str) -> (project_info: ProjectInfo)
        ensures
            project_info.project_file_path@ == project_file_path@,
            spec_option_text(project_info.project_directory) == spec_project_directory(project_file_path@),
            project_info.name@ == spec_project_name(project_file_path@),
    {
        let project_directory = path_parent(project_file_path);
        let name = match &project_directory {
            Some(directory) => match path_file_name(directory.as_str()) {
                Some(name) => name,
                None => String::new(),
            },
            None => String::new(),
        };
        ProjectInfo { project_file_path: String::from_str(project_file_path), project_directory, name }
    }

    pub fn get_name(&self) -> (name: &str)
        ensures
            name@ == self.name@,
    {
        self.name.as_str()
    }

    pub fn get_project_directory(&self) -> (directory: Option<String>)
        ensures
            directory == self.project_directory,
    {
        match &self.project_directory {
            Some(directory) => Some(directory.clone()),
            None => None,
        }
    }
}

} // verus!
