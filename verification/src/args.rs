//! The editor's command-line arguments, as plain values: an optional
//! SSH connection string, an optional configuration file path, and the
//! starting path (defaulting to the current directory).  The shell
//! around the library parses the command line and fills this in.

use vstd::prelude::*;

verus! {

/// The editor's invocation parameters.
#[derive(Debug, Clone)]
pub struct Args {
    /// SSH connection string to a remote server, if editing remotely.
    pub ssh: Option<String>,
    /// The configuration file to use, if not the default one.
    pub config: Option<String>,
    /// The starting path of the editor.
    pub path: String,
}

impl Default for Args {
    /// No remote, no configuration file, and the current directory.
    fn default() -> (r: Args)
        ensures
            r.ssh is None,
            r.config is None,
            r.path@ == "./"@,
    {
        Args { ssh: None, config: None, path: String::from_str("./") }
    }
}

} // verus!
