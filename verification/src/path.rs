//! Device and filesystem path helpers.
use crate::text::{chars_of, contains_seq, contains_str, dec_digits, push_chars, push_str, u64_to_dec};
use vstd::prelude::*;

verus! {

/// The device path of partition `num` on `disk`: NVMe and MMC disks put a
/// `p` between the disk name and the number.
pub open spec fn partition_path_spec(disk: Seq<char>, num: nat) -> Seq<char> {
    if contains_seq(disk, "nvme"@) || contains_seq(disk, "mmcblk"@) {
        disk + "p"@ + dec_digits(num)
    } else {
        disk + dec_digits(num)
    }
}

/// Partition path helper for block devices. Handles nvme/mmcblk postfixing.
pub fn partition_path(disk: &str, num: u32) -> (r: String)
    ensures
        r@ == partition_path_spec(disk@, num as nat),
{
    let d = chars_of(disk);
    let digits = u64_to_dec(num as u64);
    let mut out = String::new();
    push_str(&mut out, disk);
    if contains_str(&d, "nvme") || contains_str(&d, "mmcblk") {
        push_str(&mut out, "p");
    }
    push_chars(&mut out, &digits);
    out
}

/// `base` joined with the relative path `rel`, as `Path::join` does: a
/// separator is added unless `base` is empty or already ends with one.
pub open spec fn join_path_spec(base: Seq<char>, rel: Seq<char>) -> Seq<char> {
    if base.len() == 0 {
        rel
    } else if base.last() == '/' {
        base + rel
    } else {
        base + "/"@ + rel
    }
}

/// Joins the relative path `rel` onto `base`.
pub fn join_path(base: &str, rel: &str) -> (r: String)
    ensures
        r@ == join_path_spec(base@, rel@),
{
    let n = base.unicode_len();
    let mut out = String::from_str(base);
    if n > 0 && base.get_char(n - 1) != '/' {
        push_str(&mut out, "/");
    }
    push_str(&mut out, rel);
    out
}

} // verus!
