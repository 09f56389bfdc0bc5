use vstd::prelude::*;
use crate::error::{error_with, Error, ErrorKind, ErrorView};

verus! {

/// Relies on dunce::canonicalize: resolves `path` against the file system
/// (symbolic links and relative parts), or fails with an I/O error, which is
/// handed on as its message. The result depends on the disk, so nothing is
/// said of it; a path that is not valid Unicode has invalid parts replaced.
#[verifier::external_body]
fn canonicalize(path: &str) -> (r: Result<String, String>) {
    dunce::canonicalize(path).map(|p| p.to_string_lossy().into_owned()).map_err(|e| e.to_string())
}

/// The outcome of a resolution of `path` that gave `resolved`: the
/// canonical path, or an I/O error about `path`.
pub open spec fn resolution_spec(path: Seq<char>, resolved: Result<Seq<char>, Seq<char>>) -> Result<
    Seq<char>,
    ErrorView,
> {
    match resolved {
        Ok(p) => Ok(p),
        Err(m) => Err(error_with(ErrorKind::Io, m, path)),
    }
}

pub open spec fn string_result_view(r: Result<String, String>) -> Result<Seq<char>, Seq<char>> {
    match r {
        Ok(s) => Ok(s@),
        Err(m) => Err(m@),
    }
}

pub open spec fn resolved_view(r: Result<String, Error>) -> Result<Seq<char>, ErrorView> {
    match r {
        Ok(s) => Ok(s@),
        Err(e) => Err(e@),
    }
}

/// Turns the file system's answer for `path` into the library's result: the
/// canonical path, or an I/O error that carries `path`.
pub fn resolution(path: &str, resolved: Result<String, String>) -> (r: Result<String, Error>)
    ensures
        resolved_view(r) == resolution_spec(path@, string_result_view(resolved)),
{
    match resolved {
        Ok(p) => Ok(p),
        Err(m) => Err(Error::io(m, path)),
    }
}

/// Resolves `path` to its canonical form on the file system. On failure the
/// error is of the I/O kind and carries `path`.
pub fn resolve_path(path: &str) -> (r: Result<String, Error>)
    ensures
        r matches Err(e) ==> e@.kind == ErrorKind::Io && e@.content == Some(path@),
{
    resolution(path, canonicalize(path))
}

/// What is to be run as a service: a name, the canonical path of an
/// executable, and the arguments it is started with. It does not change
/// once built.
#[derive(Debug)]
pub struct SombraWindows {
    process_path: String,
    process_name: String,
    process_args: Vec<String>,
}

/// The mathematical value of a descriptor.
pub struct DescriptorView {
    pub name: Seq<char>,
    pub path: Seq<char>,
    pub args: Seq<Seq<char>>,
}

impl View for SombraWindows {
    type V = DescriptorView;

    closed spec fn view(&self) -> DescriptorView {
        DescriptorView {
            name: self.process_name@,
            path: self.process_path@,
            args: self.process_args.deep_view(),
        }
    }
}

/// The descriptor that `build` makes once `path` has resolved as `resolved`.
pub open spec fn build_spec(
    name: Seq<char>,
    path: Seq<char>,
    resolved: Result<Seq<char>, Seq<char>>,
    args: Seq<Seq<char>>,
) -> Result<DescriptorView, ErrorView> {
    match resolution_spec(path, resolved) {
        Ok(p) => Ok(DescriptorView { name, path: p, args }),
        Err(e) => Err(e),
    }
}

pub open spec fn built_view(r: Result<SombraWindows, Error>) -> Result<DescriptorView, ErrorView> {
    match r {
        Ok(d) => Ok(d@),
        Err(e) => Err(e@),
    }
}

impl SombraWindows {
    /// A descriptor for the executable at `path`, resolved to its canonical
    /// form. Fails with an I/O error that carries `path` where it cannot be
    /// resolved.
    pub fn build(name: &str, path: &str, args: Vec<String>) -> (r: Result<SombraWindows, Error>)
        ensures
            exists|resolved: Result<Seq<char>, Seq<char>>|
                built_view(r) == build_spec(name@, path@, resolved, args.deep_view()),
    {
        let resolved = canonicalize(path);
        let r = SombraWindows::from_resolution(name, path, resolved, args);
        r
    }

    /// The descriptor `build` makes where resolving `path` gave `resolved`.
    pub fn from_resolution(name: &str, path: &str, resolved: Result<String, String>, args: Vec<String>) -> (r: Result<
        SombraWindows,
        Error,
    >)
        ensures
            built_view(r) == build_spec(name@, path@, string_result_view(resolved), args.deep_view()),
    {
        match resolution(path, resolved) {
            Ok(p) => Ok(SombraWindows { process_path: p, process_name: name.to_owned(), process_args: args }),
            Err(e) => Err(e),
        }
    }

    /// The service name.
    pub fn name(&self) -> (r: &str)
        ensures
            r@ == self@.name,
    {
        self.process_name.as_str()
    }

    /// The canonical path of the executable.
    pub fn path(&self) -> (r: &str)
        ensures
            r@ == self@.path,
    {
        self.process_path.as_str()
    }

    /// The launch arguments, in order.
    pub fn args(&self) -> (r: &Vec<String>)
        ensures
            r.deep_view() == self@.args,
    {
        &self.process_args
    }
}

} // verus!
