use vstd::prelude::*;
use crate::path::{is_absolute, opt_view, relative_path, wsl_form, wsl_path};

verus! {

/// A process launch that has not been started: a program and its arguments.
#[derive(Debug, Clone)]
pub struct Invocation {
    pub program: String,
    pub args: Vec<String>,
}

impl View for Invocation {
    type V = (Seq<char>, Seq<Seq<char>>);

    open spec fn view(&self) -> (Seq<char>, Seq<Seq<char>>) {
        (self.program@, self.args@.map_values(|a: String| a@))
    }
}

impl Invocation {
    /// An invocation of `program` with `args`.
    pub fn new(program: String, args: Vec<String>) -> (r: Invocation)
        ensures
            r.program@ == program@,
            r@.1 == args@.map_values(|a: String| a@),
    {
        Invocation { program, args }
    }
}

/// An argument list that holds `a` alone.
fn one_arg(a: &str) -> (r: Vec<String>)
    ensures
        r@.map_values(|s: String| s@) == seq![a@],
{
    let mut v: Vec<String> = Vec::new();
    v.push(a.to_owned());
    assert(v@.map_values(|s: String| s@) =~= seq![a@]);
    v
}

/// An invocation of the application `app` with `path` as its only argument,
/// unchanged. Nothing checks that `app` exists.
pub fn with_command(path: &str, app: String) -> (r: Invocation)
    ensures
        r@.0 == app@,
        r@.1 == seq![path@],
{
    Invocation::new(app, one_arg(path))
}

/// The openers to try for `path`, in order, where `wsl_arg` is the path handed
/// to `wslview`: `wslview`, `xdg-open`, `gio open`, `gnome-open`, `kde-open`.
pub fn commands_with(path: &str, wsl_arg: String) -> (r: Vec<Invocation>)
    ensures
        r@.len() == 5,
        r@[0]@ == ("wslview"@, seq![wsl_arg@]),
        r@[1]@ == ("xdg-open"@, seq![path@]),
        r@[2]@ == ("gio"@, seq!["open"@, path@]),
        r@[3]@ == ("gnome-open"@, seq![path@]),
        r@[4]@ == ("kde-open"@, seq![path@]),
{
    let mut gio_args: Vec<String> = Vec::new();
    gio_args.push("open".to_owned());
    gio_args.push(path.to_owned());
    assert(gio_args@.map_values(|s: String| s@) =~= seq!["open"@, path@]);

    let mut r: Vec<Invocation> = Vec::new();
    r.push(Invocation::new("wslview".to_owned(), one_arg(wsl_arg.as_str())));
    r.push(Invocation::new("xdg-open".to_owned(), one_arg(path)));
    r.push(Invocation::new("gio".to_owned(), gio_args));
    r.push(Invocation::new("gnome-open".to_owned(), one_arg(path)));
    r.push(Invocation::new("kde-open".to_owned(), one_arg(path)));
    r
}

/// The openers to try for `path`, in order of priority, when the current
/// directory is `cwd` (`None` where it could not be read). Each carries `path`
/// unchanged but `wslview`, which gets the form of [`wsl_path`].
pub fn commands(path: &str, cwd: Option<&str>) -> (r: Vec<Invocation>)
    ensures
        r@.len() == 5,
        r@[0]@ == ("wslview"@, seq![wsl_form(path@, opt_view(cwd))]),
        r@[1]@ == ("xdg-open"@, seq![path@]),
        r@[2]@ == ("gio"@, seq!["open"@, path@]),
        r@[3]@ == ("gnome-open"@, seq![path@]),
        r@[4]@ == ("kde-open"@, seq![path@]),
        !is_absolute(path@) ==> r@[0]@.1 == seq![path@],
        is_absolute(path@) && cwd is Some && relative_path(path@, cwd->0@) is Some
            ==> r@[0]@.1 == seq![relative_path(path@, cwd->0@)->0],
{
    commands_with(path, wsl_path(path, cwd))
}

} // verus!
