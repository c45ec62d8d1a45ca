//! Small, reusable UI helpers used by multiple screens.
use crate::path::partition_path_spec;
use crate::text::{
    dec_digits, occurs_at,
    char_is_digit, chars_of, contains_seq, contains_str, is_digit, last_index_of, last_index_of_vec,
    string_of, strip_trailing_digits, strip_trailing_digits_vec,
};
use vstd::prelude::*;
use vstd::std_specs::convert::FromSpecImpl;

verus! {

/// Checkbox state.
#[derive(Debug, Clone, Copy, PartialEq, Eq, Structural)]
pub enum CheckboxState {
    Unchecked,
    Checked,
}

impl CheckboxState {
    pub open spec fn flipped(self) -> CheckboxState {
        match self {
            CheckboxState::Unchecked => CheckboxState::Checked,
            CheckboxState::Checked => CheckboxState::Unchecked,
        }
    }

    pub fn toggle(&mut self)
        ensures
            *final(self) == old(self).flipped(),
    {
        *self = match self {
            CheckboxState::Unchecked => CheckboxState::Checked,
            CheckboxState::Checked => CheckboxState::Unchecked,
        };
    }

    pub fn is_checked(&self) -> (r: bool)
        ensures
            r == (*self == CheckboxState::Checked),
    {
        match self {
            CheckboxState::Checked => true,
            CheckboxState::Unchecked => false,
        }
    }

    pub fn symbol(&self) -> (r: &'static str)
        ensures
            *self == CheckboxState::Unchecked ==> r@ == "[ ]"@,
            *self == CheckboxState::Checked ==> r@ == "[x]"@,
    {
        match self {
            CheckboxState::Unchecked => "[ ]",
            CheckboxState::Checked => "[x]",
        }
    }
}

/// The checkbox state for a flag.
pub open spec fn checkbox_of(b: bool) -> CheckboxState {
    if b {
        CheckboxState::Checked
    } else {
        CheckboxState::Unchecked
    }
}

impl From<bool> for CheckboxState {
    fn from(b: bool) -> (r: Self) {
        if b {
            CheckboxState::Checked
        } else {
            CheckboxState::Unchecked
        }
    }
}

impl FromSpecImpl<bool> for CheckboxState {
    open spec fn obeys_from_spec() -> bool {
        true
    }

    open spec fn from_spec(b: bool) -> CheckboxState {
        checkbox_of(b)
    }
}

// ---------------------------------------------------------------------------
// Base disk of a partition path
// ---------------------------------------------------------------------------

/// `s` without the `p<digits>` partition suffix after its last `p`, if the
/// characters after that `p` are all ASCII digits (none at all counts).
pub open spec fn strip_p_suffix(s: Seq<char>) -> Seq<char> {
    match last_index_of(s, 'p') {
        Some(pos) => if forall|i: int| pos < i < s.len() ==> is_digit(#[trigger] s[i]) {
            s.take(pos)
        } else {
            s
        },
        None => s,
    }
}

/// Base disk of a partition path: NVMe and MMC names lose their `p<n>`
/// suffix, other names their trailing digits.
pub open spec fn base_disk_spec(s: Seq<char>) -> Seq<char> {
    if contains_seq(s, "nvme"@) || contains_seq(s, "mmcblk"@) {
        strip_p_suffix(s)
    } else {
        strip_trailing_digits(s)
    }
}

fn strip_p_suffix_vec(v: &Vec<char>) -> (r: Vec<char>)
    ensures
        r@ == strip_p_suffix(v@),
{
    proof {
        assert(v@.take(v.len() as int) =~= v@);
    }
    match last_index_of_vec(v, 'p') {
        Some(pos) => {
            let mut j = pos + 1;
            let mut all = true;
            while j < v.len()
                invariant
                    pos < j <= v.len(),
                    all == (forall|i: int| pos < i < j ==> is_digit(#[trigger] v@[i])),
                decreases v.len() - j,
            {
                if !char_is_digit(v[j]) {
                    all = false;
                }
                j += 1;
            }
            let mut r = v.clone();
            if all {
                r.truncate(pos);
            }
            r
        },
        None => v.clone(),
    }
}

/// Get base disk from partition path.
///
/// Examples:
/// - `/dev/sda1` -> `/dev/sda`
/// - `/dev/nvme0n1p2` -> `/dev/nvme0n1`
/// - `/dev/mmcblk0p2` -> `/dev/mmcblk0`
pub fn base_disk(dev: &str) -> (r: String)
    ensures
        r@ == base_disk_spec(dev@),
{
    let v = chars_of(dev);
    if contains_str(&v, "nvme") || contains_str(&v, "mmcblk") {
        string_of(&strip_p_suffix_vec(&v))
    } else {
        string_of(&strip_trailing_digits_vec(&v))
    }
}

} // verus!

verus! {

/// Toggling a checkbox twice leaves it as it was.
pub proof fn law_toggle_twice_is_identity(c: CheckboxState)
    ensures
        c.flipped().flipped() == c,
{
}

/// A checkbox made from a flag is checked exactly when the flag is set.
pub proof fn law_from_bool_matches_flag(b: bool)
    ensures
        (checkbox_of(b) == CheckboxState::Checked) == b,
        checkbox_of(b).flipped() == checkbox_of(!b),
{
}

} // verus!

verus! {

proof fn lemma_dec_digits_are_digits(n: nat)
    ensures
        forall|i: int| 0 <= i < dec_digits(n).len() ==> is_digit(#[trigger] dec_digits(n)[i]),
    decreases n,
{
    if n >= 10 {
        lemma_dec_digits_are_digits(n / 10);
        let d = dec_digits(n);
        assert forall|i: int| 0 <= i < d.len() implies is_digit(#[trigger] d[i]) by {
            if i < d.len() - 1 {
                assert(d[i] == dec_digits(n / 10)[i]);
            }
        }
    }
}

/// A pattern without digits does not appear across the end of `d` when
/// only digits follow.
proof fn lemma_no_match_into_digits(d: Seq<char>, x: Seq<char>, p: Seq<char>)
    requires
        p.len() > 0,
        forall|i: int| 0 <= i < p.len() ==> !is_digit(#[trigger] p[i]),
        forall|i: int| 0 <= i < x.len() ==> is_digit(#[trigger] x[i]),
        !contains_seq(d, p),
    ensures
        !contains_seq(d + x, p),
{
    let s = d + x;
    assert forall|i: int| !occurs_at(s, p, i) by {
        if occurs_at(s, p, i) {
            if i + p.len() <= d.len() {
                assert(d.subrange(i, i + p.len()) =~= s.subrange(i, i + p.len()));
                assert(occurs_at(d, p, i));
            } else {
                let m = if i >= d.len() { i } else { d.len() as int };
                assert(s.subrange(i, i + p.len())[m - i] == s[m]);
                assert(s[m] == x[m - d.len()]);
                assert(is_digit(x[m - d.len()]));
                assert(!is_digit(p[m - i]));
            }
        }
    }
}

proof fn lemma_strip_digits_after(d: Seq<char>, x: Seq<char>)
    requires
        forall|i: int| 0 <= i < x.len() ==> is_digit(#[trigger] x[i]),
    ensures
        strip_trailing_digits(d + x) == strip_trailing_digits(d),
    decreases x.len(),
{
    if x.len() == 0 {
        assert(d + x =~= d);
    } else {
        let s = d + x;
        assert(s.last() == x.last());
        assert(s.drop_last() =~= d + x.drop_last());
        lemma_strip_digits_after(d, x.drop_last());
    }
}

proof fn lemma_last_p(d: Seq<char>, x: Seq<char>)
    requires
        forall|i: int| 0 <= i < x.len() ==> is_digit(#[trigger] x[i]),
    ensures
        last_index_of(d + seq!['p'] + x, 'p') == Some(d.len() as int),
    decreases x.len(),
{
    let s = d + seq!['p'] + x;
    if x.len() == 0 {
        assert(s.last() == 'p');
    } else {
        assert(s.last() == x.last());
        assert(is_digit(x.last()));
        assert(s.drop_last() =~= d + seq!['p'] + x.drop_last());
        lemma_last_p(d, x.drop_last());
    }
}

/// The base disk of a partition path is the disk again, for NVMe and MMC
/// disks and for disks whose name does not end in a digit.
pub proof fn law_base_disk_undoes_partition_path(disk: Seq<char>, num: nat)
    requires
        !(contains_seq(disk, "nvme"@) || contains_seq(disk, "mmcblk"@)) ==> (disk.len() == 0 || !is_digit(disk.last())),
    ensures
        base_disk_spec(partition_path_spec(disk, num)) == disk,
{
    reveal_strlit("nvme");
    reveal_strlit("mmcblk");
    reveal_strlit("p");
    let x = dec_digits(num);
    lemma_dec_digits_are_digits(num);
    if contains_seq(disk, "nvme"@) || contains_seq(disk, "mmcblk"@) {
        let s = disk + "p"@ + x;
        assert("p"@ =~= seq!['p']);
        if contains_seq(disk, "nvme"@) {
            let i = choose|i: int| occurs_at(disk, "nvme"@, i);
            assert(s.subrange(i, i + 4) =~= disk.subrange(i, i + 4));
            assert(occurs_at(s, "nvme"@, i));
        } else {
            let i = choose|i: int| occurs_at(disk, "mmcblk"@, i);
            assert(s.subrange(i, i + 6) =~= disk.subrange(i, i + 6));
            assert(occurs_at(s, "mmcblk"@, i));
        }
        lemma_last_p(disk, x);
        assert forall|i: int| disk.len() < i < s.len() implies is_digit(#[trigger] s[i]) by {
            assert(s[i] == x[i - disk.len() - 1]);
        }
        assert(s.take(disk.len() as int) =~= disk);
    } else {
        lemma_no_match_into_digits(disk, x, "nvme"@);
        lemma_no_match_into_digits(disk, x, "mmcblk"@);
        lemma_strip_digits_after(disk, x);
    }
}

} // verus!
