use vstd::prelude::*;

verus! {

/// A path is absolute when it starts at the root, that is with `/`.
pub open spec fn is_absolute(p: Seq<char>) -> bool {
    p.len() > 0 && p[0] == '/'
}

/// The view of an optional string slice.
pub open spec fn opt_view(o: Option<&str>) -> Option<Seq<char>> {
    match o {
        Some(s) => Some(s@),
        None => None,
    }
}

/// The lexical relative path that leads from the directory `base` to `path`,
/// when one can be written.
pub uninterp spec fn relative_path(path: Seq<char>, base: Seq<char>) -> Option<Seq<char>>;

/// The argument that `wslview` receives for `path` when the current directory
/// is `cwd` (`None` where it could not be read): a relative path is kept, an
/// absolute one is rewritten relative to `cwd` where possible, and kept
/// otherwise.
pub open spec fn wsl_form(path: Seq<char>, cwd: Option<Seq<char>>) -> Seq<char> {
    if !is_absolute(path) {
        path
    } else {
        match cwd {
            None => path,
            Some(base) => match relative_path(path, base) {
                Some(rel) => rel,
                None => path,
            },
        }
    }
}

/// Relies on `pathdiff::diff_paths` (0.2): it compares the components of the
/// two paths without touching the file system, so its result depends on the
/// two paths alone. As its source shows, an absolute path seen from a
/// relative base is given back as it is. Its result is built from
/// components of the two UTF-8 inputs, so the lossy conversion keeps it whole.
#[verifier::external_body]
fn diff_paths(path: &str, base: &str) -> (r: Option<String>)
    ensures
        match r {
            Some(s) => relative_path(path@, base@) == Some(s@),
            None => relative_path(path@, base@) is None,
        },
        is_absolute(path@) && !is_absolute(base@) ==> r is Some && r->0@ == path@,
{
    pathdiff::diff_paths(path, base).map(|p| p.to_string_lossy().into_owned())
}

/// Whether `path` is absolute, that is starts with `/`.
pub fn starts_at_root(path: &str) -> (r: bool)
    ensures
        r == is_absolute(path@),
{
    let mut chars = path.chars();
    match chars.next() {
        Some(c) => c == '/',
        None => false,
    }
}

/// `path` itself, or its relative form where one was found.
pub fn prefer_relative(path: &str, relative: Option<String>) -> (r: String)
    ensures
        r@ == match relative {
            Some(rel) => rel@,
            None => path@,
        },
{
    match relative {
        Some(rel) => rel,
        None => path.to_owned(),
    }
}

/// The path to hand to `wslview`, which in old versions cannot find absolute
/// paths: an absolute `path` is rewritten relative to the current directory
/// `cwd`. Where `path` is relative, `cwd` is unknown or no relative path can
/// be written, `path` comes back unchanged. Never fails.
pub fn wsl_path(path: &str, cwd: Option<&str>) -> (r: String)
    ensures
        r@ == wsl_form(path@, opt_view(cwd)),
        !is_absolute(path@) ==> r@ == path@,
        cwd is None ==> r@ == path@,
        cwd is Some && relative_path(path@, cwd->0@) is None ==> r@ == path@,
        is_absolute(path@) && cwd is Some && relative_path(path@, cwd->0@) is Some
            ==> r@ == relative_path(path@, cwd->0@)->0,
{
    if !starts_at_root(path) {
        return path.to_owned();
    }
    match cwd {
        None => path.to_owned(),
        Some(base) => prefer_relative(path, diff_paths(path, base)),
    }
}

} // verus!
