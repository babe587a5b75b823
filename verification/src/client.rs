use vstd::prelude::*;

verus! {

/// A handle on the provisioned tool: the filesystem path of its executable.
/// Owned by the client for its whole lifetime and immutable after
/// construction.
pub struct P4Cli {
    bin_path: String,
}

impl P4Cli {
    /// The path this handle holds.
    pub closed spec fn path_spec(&self) -> Seq<char> {
        self.bin_path@
    }

    /// Wraps the path of a provisioned executable. The caller writes the
    /// bytes of `prepare_binary` to that path, marked executable, before
    /// constructing the handle.
    pub fn new(bin_path: String) -> (r: Self)
        ensures
            r.path_spec() == bin_path@,
    {
        P4Cli { bin_path }
    }

    /// The executable path a run of the tool starts.
    pub fn bin_path(&self) -> (r: &String)
        ensures
            r@ == self.path_spec(),
    {
        &self.bin_path
    }
}

} // verus!
