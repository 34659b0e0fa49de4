use canvas_assembly::checksum::{checksum_hex, hex_lower_string, sha256_prefixed};

#[test]
fn sha256_checksum_is_prefixed_lowercase_hex() {
    assert_eq!(
        sha256_prefixed(b"hello world"),
        "sha256:b94d27b9934d3e08a52e52d7da7dabfac484efe37a5380ee9088f7ace2efcde9"
    );
    assert_eq!(
        sha256_prefixed(b""),
        "sha256:e3b0c44298fc1c149afbf4c8996fb92427ae41e4649b934ca495991b7852b855"
    );
    assert_eq!(sha256_prefixed(b"{\"blocks\":[]}").len(), 7 + 64);
}

#[test]
fn checksum_hex_strips_only_the_sha256_prefix() {
    let prefixed = sha256_prefixed(b"hello world");
    assert_eq!(
        checksum_hex(&prefixed),
        "b94d27b9934d3e08a52e52d7da7dabfac484efe37a5380ee9088f7ace2efcde9"
    );
    assert_eq!(checksum_hex("abcdef"), "abcdef");
    assert_eq!(checksum_hex("sha256"), "sha256");
    assert_eq!(checksum_hex("md5:abc"), "md5:abc");
}

#[test]
fn hex_rendering_uses_two_lowercase_digits_per_byte() {
    assert_eq!(hex_lower_string(&[0x00, 0x0a, 0xbe, 0xef, 0xff]), "000abeefff");
    assert_eq!(hex_lower_string(&[]), "");
}
