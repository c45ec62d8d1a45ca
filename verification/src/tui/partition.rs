//! Partition plan model and the size/ordering rules that the Dojo enforces
//! before any destructive step.
use crate::text::{
    chars_of, char_to_lower, char_to_upper, concat2, contains_seq, contains_str, ends_with_str,
    has_suffix, is_ws, lower_of, parse_u64_vec, parse_unsigned, sub_vec, trim_start_ws, trim_ws,
    trim_ws_vec, upper_of,
    vec_eq,
};
use vstd::prelude::*;
use vstd::string::*;

verus! {

/// Partition table scheme chosen by the user.
#[derive(Debug, Clone, Copy, PartialEq, Eq, Structural)]
pub enum PartitionScheme {
    Mbr,
    Gpt,
}

impl PartitionScheme {
    /// All schemes in declaration order.
    pub fn value_variants() -> (r: Vec<PartitionScheme>)
        ensures
            r@ == seq![PartitionScheme::Mbr, PartitionScheme::Gpt],
    {
        let mut v = Vec::new();
        v.push(PartitionScheme::Mbr);
        v.push(PartitionScheme::Gpt);
        v
    }
}

/// Which customisable size an error refers to.
#[derive(Debug, Clone, Copy, PartialEq, Eq, Structural)]
pub enum CustomizeField {
    Efi,
    Boot,
    Root,
}

/// A partition in the user's plan.
#[derive(Debug, Clone)]
pub struct Partition {
    pub name: String,
    /// e.g. "1024M", "2G", "100%".
    pub size: String,
    pub format: String,
    pub flags: Vec<String>,
}

/// The user's partition plan.
#[derive(Debug, Clone)]
pub struct PartitionPlan {
    pub scheme: PartitionScheme,
    pub partitions: Vec<Partition>,
}

/// A partition with a resolved size in bytes.
#[derive(Debug, Clone)]
pub struct ResolvedPartition {
    pub name: String,
    pub size_bytes: u64,
    pub format: String,
    pub flags: Vec<String>,
}

/// A rejected plan: what is wrong, and which field to highlight.
#[derive(Debug, Clone)]
pub struct ValidationError {
    pub message: String,
    pub field: Option<CustomizeField>,
}

// ---------------------------------------------------------------------------
// Size parsing
// ---------------------------------------------------------------------------

pub open spec fn ascii_lower_seq(s: Seq<char>) -> Seq<char> {
    s.map_values(|c: char| lower_of(c))
}

pub open spec fn ascii_upper_seq(s: Seq<char>) -> Seq<char> {
    s.map_values(|c: char| upper_of(c))
}

/// Unit suffixes in the order they are tried, with their factor to MiB.
pub open spec fn size_suffix_factor(lower: Seq<char>) -> Option<(Seq<char>, nat)> {
    if has_suffix(lower, "mib"@) {
        Some((lower.subrange(0, lower.len() - 3), 1))
    } else if has_suffix(lower, "mb"@) {
        Some((lower.subrange(0, lower.len() - 2), 1))
    } else if has_suffix(lower, "m"@) {
        Some((lower.subrange(0, lower.len() - 1), 1))
    } else if has_suffix(lower, "gib"@) {
        Some((lower.subrange(0, lower.len() - 3), 1024))
    } else if has_suffix(lower, "gb"@) {
        Some((lower.subrange(0, lower.len() - 2), 1024))
    } else if has_suffix(lower, "g"@) {
        Some((lower.subrange(0, lower.len() - 1), 1024))
    } else {
        None
    }
}

pub open spec fn saturate_u64(n: nat) -> nat {
    if n > u64::MAX as nat {
        u64::MAX as nat
    } else {
        n
    }
}

/// Size in MiB of a text such as "1024MiB", "2G" or " 512 m ".
pub open spec fn size_mib(raw: Seq<char>) -> Result<nat, Seq<char>> {
    let trimmed = trim_ws(raw);
    if trimmed.len() == 0 {
        Err("size is empty"@)
    } else {
        match size_suffix_factor(ascii_lower_seq(trimmed)) {
            None => Err("missing unit (use M/MiB or G/GiB)"@),
            Some((num, factor)) => match parse_unsigned(trim_ws(num), u64::MAX as nat) {
                None => Err("invalid number"@),
                Some(v) => Ok(saturate_u64(v * factor)),
            },
        }
    }
}

fn ascii_lower_vec(v: &Vec<char>) -> (r: Vec<char>)
    ensures
        r@ == ascii_lower_seq(v@),
{
    let mut r: Vec<char> = Vec::new();
    let mut i: usize = 0;
    while i < v.len()
        invariant
            i <= v.len(),
            r@ == ascii_lower_seq(v@.subrange(0, i as int)),
        decreases v.len() - i,
    {
        r.push(char_to_lower(v[i]));
        assert(ascii_lower_seq(v@.subrange(0, i + 1)) =~= ascii_lower_seq(
            v@.subrange(0, i as int),
        ).push(lower_of(v@[i as int])));
        i += 1;
    }
    assert(v@.subrange(0, v.len() as int) =~= v@);
    r
}

pub fn ascii_upper_vec(v: &Vec<char>) -> (r: Vec<char>)
    ensures
        r@ == ascii_upper_seq(v@),
{
    let mut r: Vec<char> = Vec::new();
    let mut i: usize = 0;
    while i < v.len()
        invariant
            i <= v.len(),
            r@ == ascii_upper_seq(v@.subrange(0, i as int)),
        decreases v.len() - i,
    {
        r.push(char_to_upper(v[i]));
        assert(ascii_upper_seq(v@.subrange(0, i + 1)) =~= ascii_upper_seq(
            v@.subrange(0, i as int),
        ).push(upper_of(v@[i as int])));
        i += 1;
    }
    assert(v@.subrange(0, v.len() as int) =~= v@);
    r
}

fn strip_unit(lower: &Vec<char>) -> (r: Option<(Vec<char>, u64)>)
    ensures
        r.is_some() == size_suffix_factor(lower@).is_some(),
        r matches Some(p) ==> {
            let q = size_suffix_factor(lower@)->0;
            p.0@ == q.0 && p.1 as nat == q.1
        },
{
    proof {
        reveal_strlit("mib");
        reveal_strlit("mb");
        reveal_strlit("m");
        reveal_strlit("gib");
        reveal_strlit("gb");
        reveal_strlit("g");
    }
    if ends_with_str(lower, "mib") {
        Some((sub_vec(lower, 0, lower.len() - 3), 1))
    } else if ends_with_str(lower, "mb") {
        Some((sub_vec(lower, 0, lower.len() - 2), 1))
    } else if ends_with_str(lower, "m") {
        Some((sub_vec(lower, 0, lower.len() - 1), 1))
    } else if ends_with_str(lower, "gib") {
        Some((sub_vec(lower, 0, lower.len() - 3), 1024))
    } else if ends_with_str(lower, "gb") {
        Some((sub_vec(lower, 0, lower.len() - 2), 1024))
    } else if ends_with_str(lower, "g") {
        Some((sub_vec(lower, 0, lower.len() - 1), 1024))
    } else {
        None
    }
}

/// The units of a size in MiB, lowercased.
pub open spec fn mib_unit(u: Seq<char>) -> bool {
    u == "m"@ || u == "mb"@ || u == "mib"@
}

/// The units of a size in GiB, lowercased.
pub open spec fn gib_unit(u: Seq<char>) -> bool {
    u == "g"@ || u == "gb"@ || u == "gib"@
}

proof fn lemma_trim_start_concat(n: Seq<char>, u: Seq<char>)
    requires
        u.len() > 0,
        !is_ws(u[0]),
    ensures
        trim_start_ws(n + u) == trim_start_ws(n) + u,
    decreases n.len(),
{
    if n.len() > 0 && is_ws(n[0]) {
        assert((n + u).drop_first() =~= n.drop_first() + u);
        assert((n + u)[0] == n[0]);
        lemma_trim_start_concat(n.drop_first(), u);
    } else if n.len() == 0 {
        assert(n + u =~= u);
        assert(trim_start_ws(n) + u =~= u);
    } else {
        assert((n + u)[0] == n[0]);
    }
}

/// A text ending in a unit written without spaces trims to its
/// start-trimmed number part followed by the unit.
proof fn lemma_trim_concat(n: Seq<char>, u: Seq<char>)
    requires
        u.len() > 0,
        forall|i: int| 0 <= i < u.len() ==> !is_ws(#[trigger] u[i]),
    ensures
        trim_ws(n + u) == trim_start_ws(n) + u,
{
    lemma_trim_start_concat(n, u);
    let t = trim_start_ws(n) + u;
    assert(t.last() == u[u.len() - 1]);
}

/// The factor of a lowercased size text `p + u` whose unit `u` is one of
/// the MiB or GiB units.
proof fn lemma_unit_factor(p: Seq<char>, u: Seq<char>)
    requires
        mib_unit(u) || gib_unit(u),
    ensures
        size_suffix_factor(p + u) == Some((p, if mib_unit(u) { 1nat } else { 1024nat })),
{
    reveal_strlit("mib");
    reveal_strlit("mb");
    reveal_strlit("m");
    reveal_strlit("gib");
    reveal_strlit("gb");
    reveal_strlit("g");
    let l = p + u;
    let n = l.len() as int;
    let k = u.len() as int;
    assert(forall|i: int| 0 <= i < k ==> #[trigger] l[p.len() + i] == u[i]);
    assert(l.subrange(0, n - k) =~= p);
    assert(l.subrange(n - k, n) =~= u);
    // the last letters of `l` decide which check matches first
    if n >= 3 {
        assert(l.subrange(n - 3, n)[2] == l[n - 1]);
        assert(l.subrange(n - 3, n)[1] == l[n - 2]);
        assert(l.subrange(n - 3, n)[0] == l[n - 3]);
    }
    if n >= 2 {
        assert(l.subrange(n - 2, n)[1] == l[n - 1]);
        assert(l.subrange(n - 2, n)[0] == l[n - 2]);
    }
    assert(l.subrange(n - 1, n)[0] == l[n - 1]);
    assert(l[n - 1] == u[k - 1]);
    if k >= 2 {
        assert(l[n - 2] == u[k - 2]);
    }
    if k >= 3 {
        assert(l[n - 3] == u[k - 3]);
    }
}

proof fn lemma_lower_unit_letters(u: Seq<char>)
    requires
        mib_unit(ascii_lower_seq(u)) || gib_unit(ascii_lower_seq(u)),
    ensures
        u.len() > 0,
        forall|i: int| 0 <= i < u.len() ==> !is_ws(#[trigger] u[i]),
{
    reveal_strlit("mib");
    reveal_strlit("mb");
    reveal_strlit("m");
    reveal_strlit("gib");
    reveal_strlit("gb");
    reveal_strlit("g");
    let lu = ascii_lower_seq(u);
    assert(lu.len() == u.len());
    assert(lu.len() > 0);
    assert forall|i: int| 0 <= i < u.len() implies !is_ws(#[trigger] u[i]) by {
        let l = lu[i];
        assert(l == lower_of(u[i]));
        if lu == "m"@ || lu == "g"@ {
            assert(i == 0);
        }
        assert(l == 'm' || l == 'i' || l == 'b' || l == 'g');
    }
}

/// A size given in gibibytes (unit G, GB or GiB, any case) is 1024 times
/// the same number given in mebibytes (unit M, MB or MiB, any case), the
/// result saturating at `u64::MAX`; a text that is no size in one unit is
/// none in the other, for the same reason.
pub proof fn law_gib_is_1024_mib(n: Seq<char>, um: Seq<char>, ug: Seq<char>)
    requires
        mib_unit(ascii_lower_seq(um)),
        gib_unit(ascii_lower_seq(ug)),
    ensures
        match size_mib(n + um) {
            Ok(v) => size_mib(n + ug) == Ok::<nat, Seq<char>>(
                if v * 1024 > u64::MAX as nat { u64::MAX as nat } else { v * 1024 },
            ),
            Err(e) => size_mib(n + ug) == Err::<nat, Seq<char>>(e),
        },
{
    lemma_lower_unit_letters(um);
    lemma_lower_unit_letters(ug);
    lemma_trim_concat(n, um);
    lemma_trim_concat(n, ug);
    let p = trim_start_ws(n);
    let lp = ascii_lower_seq(p);
    assert(ascii_lower_seq(p + um) =~= lp + ascii_lower_seq(um));
    assert(ascii_lower_seq(p + ug) =~= lp + ascii_lower_seq(ug));
    reveal_strlit("mib");
    reveal_strlit("mb");
    reveal_strlit("m");
    reveal_strlit("gib");
    reveal_strlit("gb");
    reveal_strlit("g");
    assert(!mib_unit(ascii_lower_seq(ug))) by {
        let g = ascii_lower_seq(ug);
        assert(g[0] == 'g');
    }
    lemma_unit_factor(lp, ascii_lower_seq(um));
    lemma_unit_factor(lp, ascii_lower_seq(ug));
    assert(trim_ws(n + um).len() > 0);
    assert(trim_ws(n + ug).len() > 0);
    match parse_unsigned(trim_ws(lp), u64::MAX as nat) {
        None => {},
        Some(v) => {
            assert(v * 1 == v);
        },
    }
}

/// The three spellings of each unit mean the same: a number with M, MB or
/// MiB (any case) gives one size, and so does a number with G, GB or GiB.
pub proof fn law_unit_spellings_agree(n: Seq<char>, u1: Seq<char>, u2: Seq<char>)
    requires
        (mib_unit(ascii_lower_seq(u1)) && mib_unit(ascii_lower_seq(u2))) || (gib_unit(ascii_lower_seq(u1))
            && gib_unit(ascii_lower_seq(u2))),
    ensures
        size_mib(n + u1) == size_mib(n + u2),
{
    lemma_lower_unit_letters(u1);
    lemma_lower_unit_letters(u2);
    lemma_trim_concat(n, u1);
    lemma_trim_concat(n, u2);
    let p = trim_start_ws(n);
    let lp = ascii_lower_seq(p);
    assert(ascii_lower_seq(p + u1) =~= lp + ascii_lower_seq(u1));
    assert(ascii_lower_seq(p + u2) =~= lp + ascii_lower_seq(u2));
    reveal_strlit("mib");
    reveal_strlit("mb");
    reveal_strlit("m");
    reveal_strlit("gib");
    reveal_strlit("gb");
    reveal_strlit("g");
    if gib_unit(ascii_lower_seq(u1)) {
        assert(!mib_unit(ascii_lower_seq(u1))) by {
            assert(ascii_lower_seq(u1)[0] == 'g');
        }
        assert(!mib_unit(ascii_lower_seq(u2))) by {
            assert(ascii_lower_seq(u2)[0] == 'g');
        }
    }
    lemma_unit_factor(lp, ascii_lower_seq(u1));
    lemma_unit_factor(lp, ascii_lower_seq(u2));
    assert(trim_ws(n + u1).len() > 0);
    assert(trim_ws(n + u2).len() > 0);
}

/// Parses a partition size with a unit (M, MB, MiB, G, GB, GiB; any case)
/// into MiB.  Gigabyte values saturate at `u64::MAX`.
pub fn parse_size_mib(raw: &str) -> (r: Result<u64, String>)
    ensures
        match size_mib(raw@) {
            Ok(v) => r matches Ok(x) && x as nat == v,
            Err(m) => r matches Err(e) && e@ == m,
        },
{
    let v = chars_of(raw);
    let trimmed = trim_ws_vec(&v);
    if trimmed.len() == 0 {
        return Err(String::from_str("size is empty"));
    }
    let lower = ascii_lower_vec(&trimmed);
    let split = strip_unit(&lower);
    match split {
        None => Err(String::from_str("missing unit (use M/MiB or G/GiB)")),
        Some((num, factor)) => {
            let num_t = trim_ws_vec(&num);
            match parse_u64_vec(&num_t) {
                None => Err(String::from_str("invalid number")),
                Some(value) => {
                    if factor == 1 {
                        Ok(value)
                    } else {
                        match value.checked_mul(1024) {
                            Some(m) => Ok(m),
                            None => Ok(u64::MAX),
                        }
                    }
                },
            }
        },
    }
}

// ---------------------------------------------------------------------------
// Plan validation
// ---------------------------------------------------------------------------

/// Size text of the last partition whose upper-cased name is `name`.
pub open spec fn named_size(parts: Seq<Partition>, name: Seq<char>) -> Option<Seq<char>>
    decreases parts.len(),
{
    if parts.len() == 0 {
        None
    } else if ascii_upper_seq(parts.last().name@) == name {
        Some(parts.last().size@)
    } else {
        named_size(parts.drop_last(), name)
    }
}

pub open spec fn plan_error(message: Seq<char>, field: CustomizeField) -> Result<(), (Seq<char>, CustomizeField)> {
    Err((message, field))
}

/// The verdict on the three sizes of a plan: `Ok(())`, or the message and
/// the field at fault.
pub open spec fn sizes_verdict(efi: Seq<char>, boot: Seq<char>, root: Seq<char>) -> Result<(), (Seq<char>, CustomizeField)> {
    if contains_seq(root, "%"@) {
        plan_error(
            "ROOT end must be an absolute size (e.g., 1800GiB), not a percentage."@,
            CustomizeField::Root,
        )
    } else {
        match (size_mib(efi), size_mib(boot), size_mib(root)) {
            (Err(m), _, _) => plan_error("EFI size invalid: "@ + m, CustomizeField::Efi),
            (Ok(_), Err(m), _) => plan_error("BOOT size invalid: "@ + m, CustomizeField::Boot),
            (Ok(_), Ok(_), Err(m)) => plan_error("ROOT end invalid: "@ + m, CustomizeField::Root),
            (Ok(e), Ok(b), Ok(r)) => {
                if e < 512 {
                    plan_error("EFI must be at least 512MiB."@, CustomizeField::Efi)
                } else if b < 512 {
                    plan_error("BOOT must be at least 512MiB."@, CustomizeField::Boot)
                } else if r <= e + b {
                    plan_error("ROOT end must be greater than BOOT end."@, CustomizeField::Root)
                } else {
                    Ok(())
                }
            },
        }
    }
}

/// The verdict on a plan: `Ok(())`, or the message and the field at fault.
pub open spec fn plan_verdict(parts: Seq<Partition>) -> Result<(), (Seq<char>, CustomizeField)> {
    match (named_size(parts, "EFI"@), named_size(parts, "BOOT"@), named_size(parts, "ROOT"@)) {
        (None, _, _) => plan_error("EFI size is required."@, CustomizeField::Efi),
        (Some(_), None, _) => plan_error("BOOT size is required."@, CustomizeField::Boot),
        (Some(_), Some(_), None) => plan_error("ROOT end is required."@, CustomizeField::Root),
        (Some(efi), Some(boot), Some(root)) => sizes_verdict(efi, boot, root),
    }
}

/// The plan the Dojo builds (EFI, BOOT, ROOT, DATA) is judged on its three
/// sizes alone.
pub proof fn lemma_standard_plan_verdict(
    parts: Seq<Partition>,
    efi: Seq<char>,
    boot: Seq<char>,
    root: Seq<char>,
)
    requires
        parts.len() == 4,
        parts[0].name@ == "EFI"@,
        parts[0].size@ == efi,
        parts[1].name@ == "BOOT"@,
        parts[1].size@ == boot,
        parts[2].name@ == "ROOT"@,
        parts[2].size@ == root,
        parts[3].name@ == "DATA"@,
    ensures
        plan_verdict(parts) == sizes_verdict(efi, boot, root),
{
    reveal_strlit("EFI");
    reveal_strlit("BOOT");
    reveal_strlit("ROOT");
    reveal_strlit("DATA");
    assert(ascii_upper_seq("EFI"@) =~= "EFI"@);
    assert(ascii_upper_seq("BOOT"@) =~= "BOOT"@);
    assert(ascii_upper_seq("ROOT"@) =~= "ROOT"@);
    assert(ascii_upper_seq("DATA"@) =~= "DATA"@);
    assert("DATA"@[0] != "BOOT"@[0]);
    assert("DATA"@[0] != "ROOT"@[0]);
    assert("ROOT"@[0] != "BOOT"@[0]);
    assert("DATA"@ != "EFI"@);
    assert("DATA"@ != "BOOT"@);
    assert("DATA"@ != "ROOT"@);
    assert("ROOT"@ != "EFI"@);
    assert("ROOT"@ != "BOOT"@);
    assert("BOOT"@ != "EFI"@);
    let p3 = parts.drop_last();
    let p2 = p3.drop_last();
    let p1 = p2.drop_last();
    assert(p3.last() == parts[2]);
    assert(p2.last() == parts[1]);
    assert(p1.last() == parts[0]);
    assert(named_size(parts, "EFI"@) == named_size(p3, "EFI"@));
    assert(named_size(p3, "EFI"@) == named_size(p2, "EFI"@));
    assert(named_size(p2, "EFI"@) == named_size(p1, "EFI"@));
    assert(named_size(parts, "BOOT"@) == named_size(p3, "BOOT"@));
    assert(named_size(p3, "BOOT"@) == named_size(p2, "BOOT"@));
    assert(named_size(parts, "ROOT"@) == named_size(p3, "ROOT"@));
}

fn find_named_size(parts: &Vec<Partition>, name: &str) -> (r: Option<String>)
    ensures
        r.is_some() == named_size(parts@, name@).is_some(),
        r matches Some(s) ==> s@ == named_size(parts@, name@)->0,
{
    let target = chars_of(name);
    let mut found: Option<String> = None;
    let mut i: usize = 0;
    while i < parts.len()
        invariant
            i <= parts.len(),
            target@ == name@,
            found.is_some() == named_size(parts@.subrange(0, i as int), name@).is_some(),
            found matches Some(s) ==> s@ == named_size(parts@.subrange(0, i as int), name@)->0,
        decreases parts.len() - i,
    {
        let nm = chars_of(parts[i].name.as_str());
        let up = ascii_upper_vec(&nm);
        assert(parts@.subrange(0, i + 1).drop_last() =~= parts@.subrange(0, i as int));
        if vec_eq(&up, &target) {
            found = Some(parts[i].size.clone());
        }
        i += 1;
    }
    assert(parts@.subrange(0, parts.len() as int) =~= parts@);
    found
}

fn err(message: String, field: CustomizeField) -> (r: Result<(), ValidationError>)
    ensures
        r matches Err(e) && e.message == message && e.field == Some(field),
{
    Err(ValidationError { message, field: Some(field) })
}

/// Checks that the plan names EFI, BOOT and ROOT sizes, that EFI and BOOT are
/// at least 512 MiB, that ROOT is an absolute end position beyond the end of
/// BOOT, and reports the first violation with the field to fix.
pub fn validate_partition_plan(plan: &PartitionPlan) -> (r: Result<(), ValidationError>)
    ensures
        match plan_verdict(plan.partitions@) {
            Ok(()) => r is Ok,
            Err((m, f)) => r matches Err(e) && e.message@ == m && e.field == Some(f),
        },
{
    let efi = find_named_size(&plan.partitions, "EFI");
    let boot = find_named_size(&plan.partitions, "BOOT");
    let root = find_named_size(&plan.partitions, "ROOT");
    let efi = match efi {
        None => return err(String::from_str("EFI size is required."), CustomizeField::Efi),
        Some(s) => s,
    };
    let boot = match boot {
        None => return err(String::from_str("BOOT size is required."), CustomizeField::Boot),
        Some(s) => s,
    };
    let root = match root {
        None => return err(String::from_str("ROOT end is required."), CustomizeField::Root),
        Some(s) => s,
    };
    let root_v = chars_of(root.as_str());
    if contains_str(&root_v, "%") {
        return err(
            String::from_str(
                "ROOT end must be an absolute size (e.g., 1800GiB), not a percentage.",
            ),
            CustomizeField::Root,
        );
    }
    let efi_mib = match parse_size_mib(efi.as_str()) {
        Err(m) => return err(concat2("EFI size invalid: ", m.as_str()), CustomizeField::Efi),
        Ok(v) => v,
    };
    let boot_mib = match parse_size_mib(boot.as_str()) {
        Err(m) => return err(concat2("BOOT size invalid: ", m.as_str()), CustomizeField::Boot),
        Ok(v) => v,
    };
    let root_mib = match parse_size_mib(root.as_str()) {
        Err(m) => return err(concat2("ROOT end invalid: ", m.as_str()), CustomizeField::Root),
        Ok(v) => v,
    };
    if efi_mib < 512 {
        return err(String::from_str("EFI must be at least 512MiB."), CustomizeField::Efi);
    }
    if boot_mib < 512 {
        return err(String::from_str("BOOT must be at least 512MiB."), CustomizeField::Boot);
    }
    // `boot_end` is computed in u128 so that huge sizes cannot overflow.
    let boot_end: u128 = efi_mib as u128 + boot_mib as u128;
    if (root_mib as u128) <= boot_end {
        return err(
            String::from_str("ROOT end must be greater than BOOT end."),
            CustomizeField::Root,
        );
    }
    Ok(())
}

/// A plan that passes validation has an EFI and a BOOT partition of at
/// least 512 MiB each and a ROOT end, given as an absolute size, lying
/// beyond the end of BOOT.
pub proof fn law_accepted_plan_is_sane(parts: Seq<Partition>)
    requires
        plan_verdict(parts) is Ok,
    ensures
        named_size(parts, "EFI"@) is Some,
        named_size(parts, "BOOT"@) is Some,
        named_size(parts, "ROOT"@) is Some,
        !contains_seq(named_size(parts, "ROOT"@)->0, "%"@),
        match (
            size_mib(named_size(parts, "EFI"@)->0),
            size_mib(named_size(parts, "BOOT"@)->0),
            size_mib(named_size(parts, "ROOT"@)->0),
        ) {
            (Ok(e), Ok(b), Ok(r)) => e >= 512 && b >= 512 && r > e + b,
            _ => false,
        },
{
}

} // verus!
