//! Parsers for `/proc/meminfo` and `/proc/self/mountinfo`.
use crate::text::{
    chars_of, has_prefix, lex_less, lex_lt, lines, lines_vec, parse_u64_vec, parse_unsigned,
    replace_all, replace_str, split_once, split_once_vec, split_ws, split_ws_vec, starts_with,
    string_of, strip_prefix, strip_prefix_str, str_eq, trim_end_char, views,
};
use vstd::prelude::*;

verus! {

// ---------------------------------------------------------------------------
// meminfo
// ---------------------------------------------------------------------------

/// The text after `p` on the first line that starts with `p`.
pub open spec fn first_field(ls: Seq<Seq<char>>, p: Seq<char>) -> Option<Seq<char>>
    decreases ls.len(),
{
    if ls.len() == 0 {
        None
    } else if strip_prefix(ls[0], p) is Some {
        strip_prefix(ls[0], p)
    } else {
        first_field(ls.drop_first(), p)
    }
}

/// The first whitespace-separated word of `rest`, read as a `u64`.
pub open spec fn first_number(rest: Seq<char>) -> Option<u64> {
    let w = split_ws(rest);
    if w.len() == 0 {
        None
    } else {
        match parse_unsigned(w[0], u64::MAX as nat) {
            Some(n) => Some(n as u64),
            None => None,
        }
    }
}

/// `MemAvailable` when the text has that line, else `MemTotal`.
pub open spec fn mem_available_spec(content: Seq<char>) -> Option<u64> {
    match first_field(lines(content), "MemAvailable:"@) {
        Some(rest) => first_number(rest),
        None => match first_field(lines(content), "MemTotal:"@) {
            Some(rest) => first_number(rest),
            None => None,
        },
    }
}

fn find_field(ls: &Vec<Vec<char>>, p: &str) -> (r: Option<Vec<char>>)
    ensures
        r matches Some(v) ==> first_field(views(ls@), p@) == Some(v@),
        r is None ==> first_field(views(ls@), p@) is None,
{
    let ghost all = views(ls@);
    assert(all.subrange(0, ls.len() as int) =~= all);
    let mut i: usize = 0;
    while i < ls.len()
        invariant
            i <= ls.len(),
            all == views(ls@),
            first_field(all, p@) == first_field(all.subrange(i as int, ls.len() as int), p@),
        decreases ls.len() - i,
    {
        let ghost rest = all.subrange(i as int, ls.len() as int);
        assert(rest[0] == ls@[i as int]@);
        assert(rest.drop_first() =~= all.subrange(i + 1, ls.len() as int));
        let r = strip_prefix_str(&ls[i], p);
        if r.is_some() {
            return r;
        }
        i += 1;
    }
    None
}

fn number_of(rest: &Vec<char>) -> (r: Option<u64>)
    ensures
        r == first_number(rest@),
{
    let w = split_ws_vec(rest);
    if w.len() == 0 {
        None
    } else {
        assert(views(w@)[0] == w@[0]@);
        parse_u64_vec(&w[0])
    }
}

/// Extracts the most relevant memory-available value from `/proc/meminfo`.
///
/// Returns the value in KiB.
pub fn parse_mem_available_kb(content: &str) -> (r: Option<u64>)
    ensures
        r == mem_available_spec(content@),
{
    let text = chars_of(content);
    let ls = lines_vec(&text);
    match find_field(&ls, "MemAvailable:") {
        Some(rest) => number_of(&rest),
        None => match find_field(&ls, "MemTotal:") {
            Some(rest) => number_of(&rest),
            None => None,
        },
    }
}

// ---------------------------------------------------------------------------
// mountinfo
// ---------------------------------------------------------------------------

/// One line of a mountinfo file: where something is mounted.
#[derive(Debug, Clone)]
pub struct MountInfo {
    pub mount_point: String,
}

/// Undoes the octal escapes mountinfo uses for space, tab, newline and
/// backslash.
pub open spec fn unescape_spec(raw: Seq<char>) -> Seq<char> {
    replace_all(
        replace_all(replace_all(replace_all(raw, "\\040"@, " "@), "\\011"@, "\t"@), "\\012"@, "\n"@),
        "\\134"@,
        "\\"@,
    )
}

pub fn unescape_mount_path(raw: &str) -> (r: String)
    ensures
        r@ == unescape_spec(raw@),
{
    proof {
        reveal_strlit("\\040");
        reveal_strlit("\\011");
        reveal_strlit("\\012");
        reveal_strlit("\\134");
    }
    let v = chars_of(raw);
    let a = replace_str(&v, "\\040", " ");
    let b = replace_str(&a, "\\011", "\t");
    let c = replace_str(&b, "\\012", "\n");
    let d = replace_str(&c, "\\134", "\\");
    string_of(&d)
}

/// The part of a mountinfo line before the ` - ` separator (the whole line
/// when it has none).
pub open spec fn pre_part(l: Seq<char>) -> Seq<char> {
    match split_once(l, " - "@) {
        Some(p) => p.0,
        None => l,
    }
}

/// The mount point of a line: its fifth field before the separator.
pub open spec fn line_mount_point(l: Seq<char>) -> Option<Seq<char>> {
    let f = split_ws(pre_part(l));
    if f.len() < 5 {
        None
    } else {
        Some(unescape_spec(f[4]))
    }
}

/// The mount points of the lines that have one, in order.
pub open spec fn mount_points(ls: Seq<Seq<char>>) -> Seq<Seq<char>>
    decreases ls.len(),
{
    if ls.len() == 0 {
        Seq::empty()
    } else {
        let rest = mount_points(ls.drop_last());
        match line_mount_point(ls.last()) {
            Some(m) => rest.push(m),
            None => rest,
        }
    }
}

pub open spec fn mount_info_view(v: Seq<MountInfo>) -> Seq<Seq<char>> {
    v.map_values(|m: MountInfo| m.mount_point@)
}

fn mount_point_of(l: &Vec<char>) -> (r: Option<String>)
    ensures
        r matches Some(s) ==> line_mount_point(l@) == Some(s@),
        r is None ==> line_mount_point(l@) is None,
{
    let sep = chars_of(" - ");
    let pre = match split_once_vec(l, &sep) {
        Some(p) => p.0,
        None => l.clone(),
    };
    let f = split_ws_vec(&pre);
    if f.len() < 5 {
        None
    } else {
        assert(views(f@)[4] == f@[4]@);
        let raw = string_of(&f[4]);
        Some(unescape_mount_path(raw.as_str()))
    }
}

pub fn parse_mountinfo(content: &str) -> (r: Vec<MountInfo>)
    ensures
        mount_info_view(r@) == mount_points(lines(content@)),
{
    let text = chars_of(content);
    let ls = lines_vec(&text);
    let ghost all = lines(content@);
    assert(views(ls@).len() == ls@.len());
    let mut out: Vec<MountInfo> = Vec::new();
    let mut i: usize = 0;
    while i < ls.len()
        invariant
            i <= ls.len(),
            all == views(ls@),
            mount_info_view(out@) == mount_points(all.subrange(0, i as int)),
        decreases ls.len() - i,
    {
        let ghost pre = all.subrange(0, i + 1);
        assert(pre.drop_last() =~= all.subrange(0, i as int));
        assert(pre.last() == ls@[i as int]@);
        let ghost before = mount_info_view(out@);
        match mount_point_of(&ls[i]) {
            Some(mp) => {
                out.push(MountInfo { mount_point: mp });
                assert(mount_info_view(out@) =~= before.push(out@.last().mount_point@));
            },
            None => {},
        }
        i += 1;
    }
    assert(all.subrange(0, ls.len() as int) =~= all);
    out
}

/// A path compared without its trailing slashes (a lone `/` is kept).
pub open spec fn normalize_spec(p: Seq<char>) -> Seq<char> {
    if p.len() > 1 && p.last() == '/' {
        trim_end_char(p, '/')
    } else {
        p
    }
}

fn normalize_path(p: &str) -> (r: Vec<char>)
    ensures
        r@ == normalize_spec(p@),
{
    let mut v = chars_of(p);
    if v.len() > 1 && v[v.len() - 1] == '/' {
        while v.len() > 0 && v[v.len() - 1] == '/'
            invariant
                trim_end_char(v@, '/') == trim_end_char(p@, '/'),
            decreases v.len(),
        {
            v.pop();
        }
    }
    v
}

pub fn is_mounted_from_info(path: &str, entries: &Vec<MountInfo>) -> (r: bool)
    ensures
        r == exists|i: int|
            0 <= i < entries@.len() && normalize_spec(#[trigger] entries@[i].mount_point@)
                == normalize_spec(path@),
{
    let target = normalize_path(path);
    let mut i: usize = 0;
    while i < entries.len()
        invariant
            i <= entries.len(),
            target@ == normalize_spec(path@),
            forall|j: int|
                0 <= j < i ==> normalize_spec(#[trigger] entries@[j].mount_point@) != normalize_spec(path@),
        decreases entries.len() - i,
    {
        let m = normalize_path(entries[i].mount_point.as_str());
        if crate::text::vec_eq(&m, &target) {
            return true;
        }
        i += 1;
    }
    false
}

/// A trailing slash does not change whether a path is mounted: for a
/// non-empty path that is not made only of slashes, `p/` and `p` are found in
/// the same mount entries.
pub proof fn lemma_trailing_slash_ignored(p: Seq<char>, entries: Seq<MountInfo>)
    requires
        p.len() > 0,
        exists|k: int| 0 <= k < p.len() && p[k] != '/',
    ensures
        normalize_spec(p + seq!['/']) == normalize_spec(p),
        (exists|i: int| 0 <= i < entries.len() && normalize_spec(#[trigger] entries[i].mount_point@)
            == normalize_spec(p + seq!['/'])) <==> (exists|i: int|
            0 <= i < entries.len() && normalize_spec(#[trigger] entries[i].mount_point@) == normalize_spec(p)),
{
    let q = p + seq!['/'];
    assert(q.drop_last() =~= p);
    assert(trim_end_char(q, '/') == trim_end_char(p, '/'));
    if !(p.len() > 1 && p.last() == '/') {
        if p.last() == '/' {
            assert(p.len() == 1);
            let k = choose|k: int| 0 <= k < p.len() && p[k] != '/';
            assert(k == 0);
        }
        assert(trim_end_char(p, '/') == p);
    }
}

/// Mount point and source of a mountinfo line, when the line has both
/// (`None` when the separator or a field is missing).
pub open spec fn mount_and_source(l: Seq<char>) -> Option<(Seq<char>, Seq<char>)> {
    match split_once(l, " - "@) {
        None => None,
        Some(p) => {
            let pre = split_ws(p.0);
            let post = split_ws(p.1);
            if pre.len() < 5 || post.len() < 2 {
                None
            } else {
                Some((unescape_spec(pre[4]), post[1]))
            }
        },
    }
}

/// The mount points whose source starts with `prefix`, in line order, with
/// repeats.
pub open spec fn mounts_from(ls: Seq<Seq<char>>, prefix: Seq<char>) -> Seq<Seq<char>>
    decreases ls.len(),
{
    if ls.len() == 0 {
        Seq::empty()
    } else {
        let rest = mounts_from(ls.drop_last(), prefix);
        match mount_and_source(ls.last()) {
            Some(ms) => if has_prefix(ms.1, prefix) {
                rest.push(ms.0)
            } else {
                rest
            },
            None => rest,
        }
    }
}

/// Strictly increasing in byte order: sorted with no repeats.
pub open spec fn strictly_sorted(s: Seq<Seq<char>>) -> bool {
    forall|i: int, j: int| 0 <= i < j < s.len() ==> lex_lt(#[trigger] s[i], #[trigger] s[j])
}

fn mount_and_source_of(l: &Vec<char>) -> (r: Option<(Vec<char>, Vec<char>)>)
    ensures
        r matches Some(p) ==> mount_and_source(l@) == Some((p.0@, p.1@)),
        r is None ==> mount_and_source(l@) is None,
{
    let sep = chars_of(" - ");
    match split_once_vec(l, &sep) {
        None => None,
        Some(p) => {
            let pre = split_ws_vec(&p.0);
            let post = split_ws_vec(&p.1);
            if pre.len() < 5 || post.len() < 2 {
                None
            } else {
                assert(views(pre@)[4] == pre@[4]@);
                assert(views(post@)[1] == post@[1]@);
                let raw = string_of(&pre[4]);
                let mp = chars_of(unescape_mount_path(raw.as_str()).as_str());
                Some((mp, post[1].clone()))
            }
        },
    }
}

/// Inserts `x` into a strictly sorted list unless it is already there.
fn insert_sorted(out: &mut Vec<String>, x: String)
    requires
        strictly_sorted(views_of(old(out)@)),
    ensures
        strictly_sorted(views_of(final(out)@)),
        views_of(final(out)@).to_set() == views_of(old(out)@).to_set().insert(x@),
{
    let xv = chars_of(x.as_str());
    let ghost s = views_of(out@);
    let mut pos: usize = 0;
    loop
        invariant
            pos <= out.len(),
            s == views_of(out@),
            strictly_sorted(s),
            xv@ == x@,
            forall|j: int| 0 <= j < pos ==> lex_lt(#[trigger] s[j], x@),
        ensures
            pos <= out.len(),
            forall|j: int| 0 <= j < pos ==> lex_lt(#[trigger] s[j], x@),
            pos < out.len() ==> !lex_lt(s[pos as int], x@),
        decreases out.len() - pos,
    {
        if pos >= out.len() {
            break;
        }
        let cur = chars_of(out[pos].as_str());
        assert(s[pos as int] == out@[pos as int]@);
        if !lex_less(&cur, &xv) {
            break;
        }
        pos += 1;
    }
    if pos < out.len() {
        let cur = chars_of(out[pos].as_str());
        assert(s[pos as int] == out@[pos as int]@);
        if crate::text::vec_eq(&cur, &xv) {
            assert(s.to_set().insert(x@) =~= s.to_set()) by {
                assert(s.contains(x@));
            }
            return;
        }
    }
    let ghost after_x = pos < s.len() ==> lex_lt(x@, s[pos as int]);
    proof {
        if pos < s.len() {
            crate::text::lemma_lex_total(s[pos as int], x@);
        }
    }
    out.insert(pos, x);
    proof {
        let t = views_of(out@);
        assert(t =~= s.insert(pos as int, x@));
        assert forall|i: int, j: int| 0 <= i < j < t.len() implies lex_lt(#[trigger] t[i], #[trigger] t[j]) by {
            if j < pos {
                assert(t[i] == s[i] && t[j] == s[j]);
            } else if j == pos {
                assert(t[i] == s[i] && t[j] == x@);
            } else if i < pos {
                assert(t[i] == s[i] && t[j] == s[j - 1]);
            } else if i == pos {
                assert(t[i] == x@ && t[j] == s[j - 1]);
                if j - 1 > pos {
                    crate::text::lemma_lex_trans(x@, s[pos as int], s[j - 1]);
                }
            } else {
                assert(t[i] == s[i - 1] && t[j] == s[j - 1]);
            }
        }
        assert(t.to_set() =~= s.to_set().insert(x@)) by {
            assert forall|e: Seq<char>| t.to_set().contains(e) <==> s.to_set().insert(x@).contains(e) by {
                if t.contains(e) {
                    let k = choose|k: int| 0 <= k < t.len() && t[k] == e;
                    if k < pos {
                        assert(s[k] == e);
                    } else if k > pos {
                        assert(s[k - 1] == e);
                    }
                }
                if s.contains(e) {
                    let k = choose|k: int| 0 <= k < s.len() && s[k] == e;
                    if k < pos {
                        assert(t[k] == e);
                    } else {
                        assert(t[k + 1] == e);
                    }
                }
                if e == x@ {
                    assert(t[pos as int] == e);
                }
            }
        }
    }
}

pub open spec fn views_of(v: Seq<String>) -> Seq<Seq<char>> {
    v.map_values(|s: String| s@)
}

/// The mount points of everything mounted from `dev_path` or one of its
/// partitions (sources starting with `dev_path`), sorted, without repeats.
pub fn mounted_under_device(mountinfo: &str, dev_path: &str) -> (r: Vec<String>)
    ensures
        strictly_sorted(views_of(r@)),
        views_of(r@).to_set() == mounts_from(lines(mountinfo@), dev_path@).to_set(),
{
    let text = chars_of(mountinfo);
    let ls = lines_vec(&text);
    let prefix = chars_of(dev_path);
    let ghost all = lines(mountinfo@);
    assert(views(ls@).len() == ls@.len());
    let mut mounts: Vec<String> = Vec::new();
    assert(views_of(mounts@).to_set() =~= mounts_from(all.subrange(0, 0), dev_path@).to_set());
    let mut i: usize = 0;
    while i < ls.len()
        invariant
            i <= ls.len(),
            all == views(ls@),
            prefix@ == dev_path@,
            strictly_sorted(views_of(mounts@)),
            views_of(mounts@).to_set() == mounts_from(all.subrange(0, i as int), dev_path@).to_set(),
        decreases ls.len() - i,
    {
        let ghost pre = all.subrange(0, i + 1);
        assert(pre.drop_last() =~= all.subrange(0, i as int));
        assert(pre.last() == ls@[i as int]@);
        let ghost before = mounts_from(all.subrange(0, i as int), dev_path@);
        match mount_and_source_of(&ls[i]) {
            Some(ms) => {
                if starts_with(&ms.1, &prefix) {
                    insert_sorted(&mut mounts, string_of(&ms.0));
                    proof {
                        before.lemma_push_to_set_commute(ms.0@);
                    }
                }
            },
            None => {},
        }
        i += 1;
    }
    assert(all.subrange(0, ls.len() as int) =~= all);
    mounts
}

/// What `root_mount_source` finds scanning lines from the front: a line
/// without the separator ends the scan with nothing; the first line whose
/// mount point is `/` gives its source (or nothing when the fields after the
/// separator are missing).
pub open spec fn root_source_from(ls: Seq<Seq<char>>) -> Option<Seq<char>>
    decreases ls.len(),
{
    if ls.len() == 0 {
        None
    } else {
        match split_once(ls[0], " - "@) {
            None => None,
            Some(p) => {
                let pre = split_ws(p.0);
                if pre.len() < 5 || unescape_spec(pre[4]) != "/"@ {
                    root_source_from(ls.drop_first())
                } else {
                    let post = split_ws(p.1);
                    if post.len() < 2 {
                        None
                    } else {
                        Some(post[1])
                    }
                }
            },
        }
    }
}

pub fn root_mount_source(mountinfo: &str) -> (r: Option<String>)
    ensures
        r matches Some(s) ==> root_source_from(lines(mountinfo@)) == Some(s@),
        r is None ==> root_source_from(lines(mountinfo@)) is None,
{
    let text = chars_of(mountinfo);
    let ls = lines_vec(&text);
    let sep = chars_of(" - ");
    let ghost all = lines(mountinfo@);
    assert(views(ls@).len() == ls@.len());
    assert(all.subrange(0, ls.len() as int) =~= all);
    let mut i: usize = 0;
    while i < ls.len()
        invariant
            i <= ls.len(),
            all == views(ls@),
            all == lines(mountinfo@),
            sep@ == " - "@,
            root_source_from(all) == root_source_from(all.subrange(i as int, ls.len() as int)),
        decreases ls.len() - i,
    {
        let ghost rest = all.subrange(i as int, ls.len() as int);
        assert(rest[0] == ls@[i as int]@);
        assert(rest.drop_first() =~= all.subrange(i + 1, ls.len() as int));
        let p = match split_once_vec(&ls[i], &sep) {
            Some(p) => p,
            None => {
                assert(root_source_from(rest) is None);
                return None;
            },
        };
        let pre = split_ws_vec(&p.0);
        if pre.len() >= 5 {
            assert(views(pre@)[4] == pre@[4]@);
            let raw = string_of(&pre[4]);
            let mp = unescape_mount_path(raw.as_str());
            if str_eq(mp.as_str(), "/") {
                let post = split_ws_vec(&p.1);
                if post.len() < 2 {
                    assert(root_source_from(rest) is None);
                    return None;
                }
                assert(views(post@)[1] == post@[1]@);
                return Some(string_of(&post[1]));
            }
        }
        i += 1;
    }
    None
}

} // verus!
