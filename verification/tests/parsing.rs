//! Tests for the kernel status name field, sysfs content, and bind-mount
//! configuration parsing.

use losetup_container::config::parse_bind_mounts;
use losetup_container::status::status_error_text;
use losetup_container::status::trim_raw_name;
use losetup_container::sysfs::parse_sysfs_content;

fn name_field(content: &[u8]) -> Vec<u8> {
    assert!(content.len() <= 64);
    let mut buf = content.to_vec();
    buf.resize(64, 0);
    buf
}

#[test]
fn trim_stops_at_first_nul() {
    let mut buf = name_field(b"/data/img.qcow2");
    buf[20] = b'g'; // stale bytes after the terminator are not part of the name
    assert_eq!(trim_raw_name(&buf), b"/data/img.qcow2".to_vec());
}

#[test]
fn trim_accepts_full_width_without_nul() {
    let buf = vec![b'a'; 64];
    assert_eq!(trim_raw_name(&buf), vec![b'a'; 64]);
}

#[test]
fn trim_of_detached_device_is_empty() {
    let buf = vec![0u8; 64];
    assert_eq!(trim_raw_name(&buf), Vec::<u8>::new());
}

#[test]
fn status_error_names_the_device_node() {
    let text = status_error_text(&b"/dev/loop3".to_vec(), &b"Permission denied".to_vec());
    assert_eq!(
        text,
        b"Failed to get status of '/dev/loop3': Permission denied".to_vec()
    );
}

#[test]
fn sysfs_content_loses_exactly_one_byte_at_each_end() {
    let parsed = parse_sysfs_content(&b"/data/img.qcow2\n".to_vec());
    assert_eq!(parsed.unwrap(), b"data/img.qcow2".to_vec());
}

#[test]
fn sysfs_content_is_not_trimmed_generally() {
    // inner whitespace and a second leading slash survive
    let parsed = parse_sysfs_content(&b"//a b \n".to_vec());
    assert_eq!(parsed.unwrap(), b"/a b ".to_vec());
}

#[test]
fn sysfs_content_shorter_than_two_bytes_is_rejected() {
    assert!(parse_sysfs_content(&b"/".to_vec()).is_err());
    assert!(parse_sysfs_content(&b"".to_vec()).is_err());
}

#[test]
fn sysfs_content_of_two_bytes_is_an_empty_path() {
    let parsed = parse_sysfs_content(&b"/\n".to_vec());
    assert_eq!(parsed.unwrap(), Vec::<u8>::new());
}

#[test]
fn absent_bind_mount_value_yields_no_roots() {
    assert_eq!(parse_bind_mounts(&Vec::new()), Vec::<Vec<u8>>::new());
}

#[test]
fn single_bind_mount_root() {
    assert_eq!(
        parse_bind_mounts(&b"/mnt/host".to_vec()),
        vec![b"/mnt/host".to_vec()]
    );
}

#[test]
fn bind_mount_lines_keep_their_order() {
    assert_eq!(
        parse_bind_mounts(&b"/mnt/host\n/alt".to_vec()),
        vec![b"/mnt/host".to_vec(), b"/alt".to_vec()]
    );
}

#[test]
fn empty_bind_mount_lines_are_ignored() {
    assert_eq!(
        parse_bind_mounts(&b"\n\n/mnt/host\n\n/alt\n".to_vec()),
        vec![b"/mnt/host".to_vec(), b"/alt".to_vec()]
    );
}

#[test]
fn bind_mount_value_of_only_newlines_yields_no_roots() {
    assert_eq!(parse_bind_mounts(&b"\n\n\n".to_vec()), Vec::<Vec<u8>>::new());
}
