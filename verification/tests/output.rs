//! Tests for the invocation gate, device naming and the rendered listing.

use losetup_container::gate::is_list_invocation;
use losetup_container::listing::dev_node_path;
use losetup_container::listing::device_diagnostic;
use losetup_container::listing::header_row;
use losetup_container::listing::is_loop_device_name;
use losetup_container::listing::render_listing;
use losetup_container::listing::row_line;
use losetup_container::listing::sysfs_backing_file_path;
use losetup_container::listing::Row;

fn args(tokens: &[&[u8]]) -> Vec<Vec<u8>> {
    tokens.iter().map(|t| t.to_vec()).collect()
}

#[test]
fn recognized_invocation_is_handled() {
    assert!(is_list_invocation(&args(&[b"-l", b"-O", b"NAME,BACK-FILE"])));
}

#[test]
fn other_columns_are_delegated() {
    assert!(!is_list_invocation(&args(&[b"-l", b"-O", b"NAME,SIZELIMIT"])));
}

#[test]
fn reordered_tokens_are_delegated() {
    assert!(!is_list_invocation(&args(&[b"-O", b"-l", b"NAME,BACK-FILE"])));
}

#[test]
fn shorter_invocations_are_delegated() {
    assert!(!is_list_invocation(&args(&[b"-l", b"-O"])));
    assert!(!is_list_invocation(&args(&[b"-l"])));
    assert!(!is_list_invocation(&args(&[])));
}

#[test]
fn longer_invocations_are_delegated() {
    assert!(!is_list_invocation(&args(&[
        b"-l",
        b"-O",
        b"NAME,BACK-FILE",
        b"/dev/loop0"
    ])));
}

#[test]
fn loop_names_are_recognized_by_prefix() {
    assert!(is_loop_device_name(&b"loop0".to_vec()));
    assert!(is_loop_device_name(&b"loop12".to_vec()));
    assert!(is_loop_device_name(&b"loop".to_vec()));
    assert!(!is_loop_device_name(&b"sda".to_vec()));
    assert!(!is_loop_device_name(&b"loo".to_vec()));
    assert!(!is_loop_device_name(&b"dm-loop".to_vec()));
}

#[test]
fn device_node_sits_under_dev() {
    assert_eq!(dev_node_path(&b"loop0".to_vec()), b"/dev/loop0".to_vec());
}

#[test]
fn backing_file_record_sits_under_sys_block() {
    assert_eq!(
        sysfs_backing_file_path(&b"loop0".to_vec()),
        b"/sys/block/loop0/loop/backing_file".to_vec()
    );
}

#[test]
fn header_is_exact() {
    assert_eq!(header_row(), b"NAME       BACK-FILE".to_vec());
}

#[test]
fn empty_listing_is_just_the_header_line() {
    assert_eq!(render_listing(&Vec::new()), b"NAME       BACK-FILE\n".to_vec());
}

#[test]
fn row_lines_are_space_separated() {
    assert_eq!(
        row_line(&b"/dev/loop0".to_vec(), &b"/data/img.qcow2".to_vec()),
        b"/dev/loop0 /data/img.qcow2\n".to_vec()
    );
}

#[test]
fn listing_renders_rows_in_order_after_the_header() {
    let rows = vec![
        Row {
            device: b"/dev/loop0".to_vec(),
            backing: b"/data/a.img".to_vec(),
        },
        Row {
            device: b"/dev/loop1".to_vec(),
            backing: b"/mnt/host/b.img".to_vec(),
        },
    ];
    assert_eq!(
        render_listing(&rows),
        b"NAME       BACK-FILE\n/dev/loop0 /data/a.img\n/dev/loop1 /mnt/host/b.img\n".to_vec()
    );
}

#[test]
fn diagnostic_names_the_failing_device() {
    let diag = device_diagnostic(
        &b"loop7".to_vec(),
        &b"Failed to get status of '/dev/loop7': Permission denied".to_vec(),
    );
    assert_eq!(
        diag,
        b"Failed to find backing path for 'loop7': Failed to get status of '/dev/loop7': Permission denied"
            .to_vec()
    );
}

#[test]
fn failed_device_is_absent_from_stdout_while_others_appear() {
    // loop0 resolves; loop1's status query failed, so it only gets a
    // diagnostic and no row
    let rows = vec![Row {
        device: b"/dev/loop0".to_vec(),
        backing: b"/data/a.img".to_vec(),
    }];
    let out = render_listing(&rows);
    let out_text = String::from_utf8(out).unwrap();
    assert!(out_text.contains("/dev/loop0"));
    assert!(!out_text.contains("loop1"));

    let diag = device_diagnostic(&b"loop1".to_vec(), &b"query failed".to_vec());
    let diag_text = String::from_utf8(diag).unwrap();
    assert!(diag_text.contains("loop1"));
}
