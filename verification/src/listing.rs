//! The corrected listing itself: which directory entries count as loop
//! devices, the paths derived from a device's name, and the rendered output
//! — a fixed two-column header followed by one line per resolved device.
//! Per-device failure diagnostics are worded here too.

use vstd::prelude::*;

use crate::bytes::ascii_bytes;
use crate::bytes::bytes_eq;
use crate::bytes::bytes_of;
use crate::bytes::copy_range;
use crate::bytes::extend_bytes;

verus! {

/// The name prefix that marks a block-device entry as a loop device.
pub open spec fn loop_prefix() -> Seq<u8> {
    bytes_of("loop")
}

/// Decides whether a directory entry's name carries the loop-device prefix.
pub fn is_loop_device_name(name: &Vec<u8>) -> (r: bool)
    ensures
        r == (name@.len() >= 4 && name@.take(4) == loop_prefix()),
{
    if name.len() < 4 {
        return false;
    }
    proof {
        reveal_strlit("loop");
    }
    let prefix = ascii_bytes("loop");
    let head = copy_range(name, 0, 4);
    bytes_eq(&head, &prefix)
}

/// The device-node path for a device name: the name under `/dev/`.
pub fn dev_node_path(name: &Vec<u8>) -> (r: Vec<u8>)
    ensures
        r@ == bytes_of("/dev/") + name@,
{
    proof {
        reveal_strlit("/dev/");
    }
    let mut r = ascii_bytes("/dev/");
    extend_bytes(&mut r, name);
    r
}

/// The sysfs path of a device's backing-file record: the name under
/// `/sys/block/`, then `loop/backing_file` below it.
pub fn sysfs_backing_file_path(name: &Vec<u8>) -> (r: Vec<u8>)
    ensures
        r@ == bytes_of("/sys/block/") + name@ + bytes_of("/loop/backing_file"),
{
    proof {
        reveal_strlit("/sys/block/");
        reveal_strlit("/loop/backing_file");
    }
    let mut r = ascii_bytes("/sys/block/");
    extend_bytes(&mut r, name);
    let suffix = ascii_bytes("/loop/backing_file");
    extend_bytes(&mut r, &suffix);
    proof {
        assert(r@ =~= bytes_of("/sys/block/") + name@ + bytes_of("/loop/backing_file"));
    }
    r
}

/// One successfully resolved device: its device-node path and the resolved
/// backing-file path.
pub struct Row {
    pub device: Vec<u8>,
    pub backing: Vec<u8>,
}

/// The fixed two-column header text.
pub open spec fn header_text() -> Seq<u8> {
    bytes_of("NAME       BACK-FILE")
}

/// The header as its own output line.
pub open spec fn header_line() -> Seq<u8> {
    header_text() + seq![10u8]
}

/// One device's output line: device-node path, one space, resolved path,
/// newline.
pub open spec fn row_line_spec(device: Seq<u8>, backing: Seq<u8>) -> Seq<u8> {
    device + seq![32u8] + backing + seq![10u8]
}

/// The rows' output lines, concatenated in order.
pub open spec fn rendered_rows(rows: Seq<Row>) -> Seq<u8>
    decreases rows.len(),
{
    if rows.len() == 0 {
        Seq::empty()
    } else {
        rendered_rows(rows.drop_last()) + row_line_spec(
            rows.last().device@,
            rows.last().backing@,
        )
    }
}

/// The whole listing: the header line, then every row's line, in order.
pub open spec fn rendered_listing(rows: Seq<Row>) -> Seq<u8> {
    header_line() + rendered_rows(rows)
}

/// The fixed two-column header text.
pub fn header_row() -> (r: Vec<u8>)
    ensures
        r@ == header_text(),
{
    proof {
        reveal_strlit("NAME       BACK-FILE");
    }
    ascii_bytes("NAME       BACK-FILE")
}

/// Renders one device's output line.
pub fn row_line(device: &Vec<u8>, backing: &Vec<u8>) -> (r: Vec<u8>)
    ensures
        r@ == row_line_spec(device@, backing@),
{
    let mut r = crate::bytes::copy_bytes(device);
    r.push(32);
    extend_bytes(&mut r, backing);
    r.push(10);
    proof {
        assert(r@ =~= row_line_spec(device@, backing@));
    }
    r
}

/// Renders the whole listing: the header line first, then one line per row,
/// in the rows' order — also when there are no rows at all.
pub fn render_listing(rows: &Vec<Row>) -> (out: Vec<u8>)
    ensures
        out@ == rendered_listing(rows@),
{
    let mut out = header_row();
    out.push(10);
    proof {
        assert(out@ =~= header_line());
        assert(rows@.take(0) =~= Seq::<Row>::empty());
        assert(out@ =~= header_line() + rendered_rows(rows@.take(0)));
    }
    let mut k: usize = 0;
    while k < rows.len()
        invariant
            k <= rows@.len(),
            out@ == header_line() + rendered_rows(rows@.take(k as int)),
        decreases rows@.len() - k,
    {
        let line = row_line(&rows[k].device, &rows[k].backing);
        extend_bytes(&mut out, &line);
        k = k + 1;
        proof {
            assert(rows@.take(k as int).drop_last() =~= rows@.take(k as int - 1));
            assert(rows@.take(k as int).last() == rows@[k as int - 1]);
            assert(out@ =~= header_line() + rendered_rows(rows@.take(k as int)));
        }
    }
    proof {
        assert(rows@.take(rows@.len() as int) =~= rows@);
    }
    out
}

/// Law: the header line precedes every device row in a rendered listing,
/// whatever the rows are — also when there are none.
pub proof fn lemma_header_precedes_rows(rows: Seq<Row>)
    ensures
        rendered_listing(rows).len() >= header_line().len(),
        rendered_listing(rows).take(header_line().len() as int) == header_line(),
{
    assert(rendered_listing(rows).take(header_line().len() as int) =~= header_line());
}

/// The text reported when one device's backing path cannot be resolved: it
/// names the device and carries the failure's own text. The device is then
/// skipped; it gets no row, and the listing goes on with the next device.
pub open spec fn device_diag_spec(name: Seq<u8>, detail: Seq<u8>) -> Seq<u8> {
    bytes_of("Failed to find backing path for '") + name + bytes_of("': ") + detail
}

/// Words the per-device failure diagnostic.
pub fn device_diagnostic(name: &Vec<u8>, detail: &Vec<u8>) -> (r: Vec<u8>)
    ensures
        r@ == device_diag_spec(name@, detail@),
{
    proof {
        reveal_strlit("Failed to find backing path for '");
        reveal_strlit("': ");
    }
    let mut r = ascii_bytes("Failed to find backing path for '");
    extend_bytes(&mut r, name);
    let mid = ascii_bytes("': ");
    extend_bytes(&mut r, &mid);
    extend_bytes(&mut r, detail);
    r
}

} // verus!
