use vstd::prelude::*;

verus! {

/// The fatal conditions the library surfaces to its caller.
///
/// Filesystem and spawn failures happen outside the library and keep their
/// own error values there; these variants cover what the library itself
/// decides or computes.
#[derive(Clone, Copy, Debug, PartialEq, Eq, Structural)]
pub enum P4CliError {
    /// No payload is packaged for the requested (operating system,
    /// architecture) pair.
    UnsupportedPlatform,
    /// A payload is packaged for the pair, but this build of the library
    /// does not carry its bytes, or they do not decompress to a tool.
    PayloadUnavailable,
    /// The compressed payload is not a well-formed zstd frame sequence.
    Decompression,
    /// A line read from the child process is not valid UTF-8.
    InvalidEncoding,
}

} // verus!
