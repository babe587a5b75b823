use vstd::prelude::*;

use crate::error::P4CliError;
use crate::platform::{Arch, Os, Platform, spec_select};

verus! {

/// What the compressed payload bytes decompress to: `Some` of the decoded
/// bytes when they form well-formed zstd frames, `None` when they do not.
/// Decoding an in-memory buffer depends on its bytes alone.
pub uninterp spec fn zstd_decoded(data: Seq<u8>) -> Option<Seq<u8>>;

/// Relies on zstd::stream::decode_all: it fully decompresses an in-memory
/// zstd frame sequence into a buffer, a deterministic function of the input
/// bytes, and reports an error on malformed input.
#[verifier::external_body]
fn zstd_decode(data: &Vec<u8>) -> (r: Result<Vec<u8>, std::io::Error>)
    ensures
        match r {
            Ok(v) => zstd_decoded(data@) == Some(v@),
            Err(_) => zstd_decoded(data@) is None,
        },
{
    zstd::stream::decode_all(data.as_slice())
}

#[verifier::external_type_specification]
#[verifier::external_body]
pub struct ExIoError(std::io::Error);

/// Relies on p4cli_20251_win_x64::get_p4_cli_zst: hands back the embedded
/// compressed payload when this library is built for Windows/x86-64, and an
/// empty vector on every other build target.
#[verifier::external_body]
fn win_x64_payload() -> Vec<u8> {
    p4cli_20251_win_x64::get_p4_cli_zst()
}

/// Relies on p4cli_20251_mac_arm64::get_p4_cli_zst: hands back the embedded
/// compressed payload when this library is built for macOS/ARM64, and an
/// empty vector on every other build target.
#[verifier::external_body]
fn mac_arm64_payload() -> Vec<u8> {
    p4cli_20251_mac_arm64::get_p4_cli_zst()
}

/// Relies on p4cli_20251_mac_x64::get_p4_cli_zst: hands back the embedded
/// compressed payload when this library is built for macOS/x86-64, and an
/// empty vector on every other build target.
#[verifier::external_body]
fn mac_x64_payload() -> Vec<u8> {
    p4cli_20251_mac_x64::get_p4_cli_zst()
}

/// Relies on p4cli_20251_linux_x64::get_p4_cli_zst: hands back the embedded
/// compressed payload when this library is built for Linux/x86-64, and an
/// empty vector on every other build target.
#[verifier::external_body]
fn linux_x64_payload() -> Vec<u8> {
    p4cli_20251_linux_x64::get_p4_cli_zst()
}

/// Relies on p4cli_20251_linux_arm64::get_p4_cli_zst: hands back the embedded
/// compressed payload when this library is built for Linux/ARM64, and an
/// empty vector on every other build target.
#[verifier::external_body]
fn linux_arm64_payload() -> Vec<u8> {
    p4cli_20251_linux_arm64::get_p4_cli_zst()
}

/// The packaged compressed payload for the given platform. The distribution
/// crates carry the bytes only on their own build target, so the result is
/// empty whenever `platform` is not the platform this library was built for;
/// callers must check.
fn payload_for(platform: Platform) -> Vec<u8> {
    match platform {
        Platform::WinX64 => win_x64_payload(),
        Platform::MacArm64 => mac_arm64_payload(),
        Platform::MacX64 => mac_x64_payload(),
        Platform::LinuxX64 => linux_x64_payload(),
        Platform::LinuxArm64 => linux_arm64_payload(),
    }
}

/// Decompresses a packaged payload into the raw tool bytes.
pub fn decompress_payload(zst: &Vec<u8>) -> (r: Result<Vec<u8>, P4CliError>)
    ensures
        match r {
            Ok(v) => zstd_decoded(zst@) == Some(v@),
            Err(e) => zstd_decoded(zst@) is None && e == P4CliError::Decompression,
        },
{
    match zstd_decode(zst) {
        Ok(v) => Ok(v),
        Err(_) => Err(P4CliError::Decompression),
    }
}

/// Produces the executable tool bytes for an (operating system,
/// architecture) pair: selects the packaged platform, takes its compressed
/// payload and decompresses it. Succeeds only with a non-empty tool; the
/// caller materializes the bytes on disk.
pub fn prepare_binary(os: Os, arch: Arch) -> (r: Result<Vec<u8>, P4CliError>)
    ensures
        match r {
            Ok(v) => spec_select(os, arch) is Some && v@.len() > 0,
            Err(e) => {
                &&& (e == P4CliError::UnsupportedPlatform <==> spec_select(os, arch) is None)
                &&& (e == P4CliError::UnsupportedPlatform || e == P4CliError::PayloadUnavailable
                    || e == P4CliError::Decompression)
            },
        },
{
    let platform = match Platform::select(os, arch) {
        Ok(p) => p,
        Err(e) => {
            return Err(e);
        },
    };
    let zst = payload_for(platform);
    if zst.len() == 0 {
        return Err(P4CliError::PayloadUnavailable);
    }
    let binary = match decompress_payload(&zst) {
        Ok(b) => b,
        Err(e) => {
            return Err(e);
        },
    };
    if binary.len() == 0 {
        return Err(P4CliError::PayloadUnavailable);
    }
    Ok(binary)
}

} // verus!
