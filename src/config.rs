use vstd::prelude::*;

verus! {

/// Where the helper executable is looked for when no location is configured.
pub const DEFAULT_HELPER_PATH: &'static str = "executables/sombra-windows-service.exe";

/// Settings of the controller.
pub struct Config {
    /// The location of the helper executable that the service manager starts;
    /// `None` stands for [`DEFAULT_HELPER_PATH`].
    pub helper_path: Option<String>,
}

impl Config {
    /// The helper location that this configuration names, before resolution.
    pub open spec fn helper_spec(&self) -> Seq<char> {
        match self.helper_path {
            Some(p) => p@,
            None => DEFAULT_HELPER_PATH@,
        }
    }

    /// A configuration that uses the default helper location.
    pub fn new() -> (r: Config)
        ensures
            r.helper_path is None,
    {
        Config { helper_path: None }
    }

    /// The helper location to resolve: the configured one, else the default.
    pub fn helper_location(&self) -> (r: &str)
        ensures
            r@ == self.helper_spec(),
    {
        match &self.helper_path {
            Some(p) => p.as_str(),
            None => DEFAULT_HELPER_PATH,
        }
    }
}

} // verus!
