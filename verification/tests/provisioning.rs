use p4cli::{Arch, Os, P4Cli, P4CliError, Platform};
use p4cli::{decompress_payload, prepare_binary};
use p4cli::lines::{decode_lines, parse_line, split_lines};

#[test]
fn select_supported_pairs() {
    assert_eq!(Platform::select(Os::Windows, Arch::X64), Ok(Platform::WinX64));
    assert_eq!(Platform::select(Os::MacOs, Arch::Arm64), Ok(Platform::MacArm64));
    assert_eq!(Platform::select(Os::MacOs, Arch::X64), Ok(Platform::MacX64));
    assert_eq!(Platform::select(Os::Linux, Arch::X64), Ok(Platform::LinuxX64));
    assert_eq!(Platform::select(Os::Linux, Arch::Arm64), Ok(Platform::LinuxArm64));
}

#[test]
fn select_refuses_unsupported_pair() {
    assert_eq!(
        Platform::select(Os::Windows, Arch::Arm64),
        Err(P4CliError::UnsupportedPlatform)
    );
}

#[test]
fn decompress_round_trip() {
    let original: Vec<u8> = b"first line\nsecond line\nthird line\n".to_vec();
    let compressed = zstd::stream::encode_all(original.as_slice(), 3).unwrap();
    assert_ne!(compressed, original);
    let decompressed = decompress_payload(&compressed).unwrap();
    assert_eq!(decompressed, original);
}

#[test]
fn decompress_rejects_garbage() {
    let garbage: Vec<u8> = vec![1, 2, 3, 4, 5];
    assert_eq!(decompress_payload(&garbage), Err(P4CliError::Decompression));
}

#[test]
fn prepare_binary_for_this_build_target() {
    let binary = prepare_binary(Os::Linux, Arch::X64).unwrap();
    assert!(!binary.is_empty());
    assert_eq!(binary[0..4].to_vec(), vec![0x7f, 0x45, 0x4c, 0x46]);
}

#[test]
fn prepare_binary_other_targets_have_no_payload_here() {
    assert_eq!(
        prepare_binary(Os::Windows, Arch::X64),
        Err(P4CliError::PayloadUnavailable)
    );
    assert_eq!(
        prepare_binary(Os::MacOs, Arch::Arm64),
        Err(P4CliError::PayloadUnavailable)
    );
    assert_eq!(
        prepare_binary(Os::MacOs, Arch::X64),
        Err(P4CliError::PayloadUnavailable)
    );
    assert_eq!(
        prepare_binary(Os::Linux, Arch::Arm64),
        Err(P4CliError::PayloadUnavailable)
    );
}

#[test]
fn prepare_binary_unsupported_pair() {
    assert_eq!(
        prepare_binary(Os::Windows, Arch::Arm64),
        Err(P4CliError::UnsupportedPlatform)
    );
}

#[test]
fn client_keeps_the_path() {
    let client = P4Cli::new(String::from("/tmp/p4_binary"));
    assert_eq!(client.bin_path().as_str(), "/tmp/p4_binary");
}

#[test]
fn parse_line_strips_one_trailing_newline() {
    assert_eq!(parse_line(b"hello\n".to_vec()), Ok(String::from("hello")));
    assert_eq!(parse_line(b"hello".to_vec()), Ok(String::from("hello")));
    assert_eq!(parse_line(b"\n".to_vec()), Ok(String::new()));
    assert_eq!(parse_line(Vec::new()), Ok(String::new()));
}

#[test]
fn parse_line_keeps_other_trailing_bytes() {
    assert_eq!(parse_line(b"a\r\n".to_vec()), Ok(String::from("a\r")));
    assert_eq!(parse_line(b"a \n".to_vec()), Ok(String::from("a ")));
    assert_eq!(parse_line(b"a\n\n".to_vec()), Ok(String::from("a\n")));
}

#[test]
fn parse_line_rejects_invalid_encoding() {
    assert_eq!(
        parse_line(vec![0xff, 0xfe, b'\n']),
        Err(P4CliError::InvalidEncoding)
    );
}

#[test]
fn split_lines_on_newlines() {
    let parts = split_lines(&b"a\nbb\n".to_vec());
    assert_eq!(parts, vec![b"a".to_vec(), b"bb".to_vec()]);
    let unterminated = split_lines(&b"a\nbb".to_vec());
    assert_eq!(unterminated, vec![b"a".to_vec(), b"bb".to_vec()]);
    let empty = split_lines(&Vec::new());
    assert!(empty.is_empty());
    let blanks = split_lines(&b"\n\n".to_vec());
    assert_eq!(blanks, vec![Vec::new(), Vec::new()]);
}

#[test]
fn decode_lines_decodes_text() {
    let lines = decode_lines(&"caf\u{e9}\nth\u{e9}\n".as_bytes().to_vec()).unwrap();
    assert_eq!(lines, vec![String::from("caf\u{e9}"), String::from("th\u{e9}")]);
}

#[test]
fn decode_lines_rejects_invalid_encoding() {
    let mut content = b"good\n".to_vec();
    content.push(0xff);
    content.push(b'\n');
    assert_eq!(decode_lines(&content), Err(P4CliError::InvalidEncoding));
}
