//! Parsing helpers for `/etc/os-release`.
use crate::text::{
    chars_of, lines, lines_vec, parse_u32_vec, parse_unsigned, strip_prefix, strip_prefix_str,
    string_of, trim_char, trim_char_vec, trim_ws, trim_ws_vec,
};
use vstd::prelude::*;

verus! {

#[verifier::external_type_specification]
#[verifier::external_body]
pub struct ExAnyhowError(anyhow::Error);

/// What `str::to_lowercase` gives for a text: the Unicode lowercase mapping,
/// character by character, with its context rules.
pub uninterp spec fn lowercase(s: Seq<char>) -> Seq<char>;

/// `str::to_lowercase`.
#[verifier::external_body]
pub(crate) fn to_lowercase(s: &str) -> (r: String)
    ensures
        r@ == lowercase(s@),
{
    s.to_lowercase()
}

/// A value of an os-release line: trimmed, then stripped of double quotes.
pub open spec fn field_value(raw: Seq<char>) -> Seq<char> {
    trim_char(trim_ws(raw), '"')
}

fn field_value_of(raw: &Vec<char>) -> (r: Vec<char>)
    ensures
        r@ == field_value(raw@),
{
    let t = trim_ws_vec(raw);
    trim_char_vec(&t, '"')
}

fn lowered(v: &Vec<char>) -> (r: String)
    ensures
        r@ == lowercase(v@),
{
    let s = string_of(v);
    to_lowercase(s.as_str())
}

/// The first line that starts with `ID=` or `NAME=` (tried in this order on
/// each line), lowercased.
pub open spec fn os_id_fallback(ls: Seq<Seq<char>>) -> Option<Seq<char>>
    decreases ls.len(),
{
    if ls.len() == 0 {
        None
    } else if strip_prefix(ls[0], "ID="@) is Some {
        Some(lowercase(field_value(strip_prefix(ls[0], "ID="@)->0)))
    } else if strip_prefix(ls[0], "NAME="@) is Some {
        Some(lowercase(field_value(strip_prefix(ls[0], "NAME="@)->0)))
    } else {
        os_id_fallback(ls.drop_first())
    }
}

/// The OS id from the first `ID=` or `NAME=` line, lowercased.
pub fn parse_os_id_fallback(content: &str) -> (r: Option<String>)
    ensures
        r matches Some(s) ==> os_id_fallback(lines(content@)) == Some(s@),
        r is None ==> os_id_fallback(lines(content@)) is None,
{
    let text = chars_of(content);
    let ls = lines_vec(&text);
    assert(crate::text::views(ls@).len() == ls@.len());
    assert(lines(content@).subrange(0, ls.len() as int) =~= lines(content@));
    let mut i: usize = 0;
    while i < ls.len()
        invariant
            i <= ls.len(),
            crate::text::views(ls@) == lines(content@),
            os_id_fallback(lines(content@)) == os_id_fallback(lines(content@).subrange(i as int, ls.len() as int)),
        decreases ls.len() - i,
    {
        let ghost rest = lines(content@).subrange(i as int, ls.len() as int);
        assert(rest[0] == ls@[i as int]@);
        assert(rest.drop_first() =~= lines(content@).subrange(i + 1, ls.len() as int));
        if let Some(v) = strip_prefix_str(&ls[i], "ID=") {
            return Some(lowered(&field_value_of(&v)));
        }
        if let Some(v) = strip_prefix_str(&ls[i], "NAME=") {
            return Some(lowered(&field_value_of(&v)));
        }
        i += 1;
    }
    None
}

/// The last `ID=` value and the last `VERSION_ID=` value (as a number, or
/// `None` when it is not one) of the lines read so far.
pub open spec fn os_release_fields(ls: Seq<Seq<char>>) -> (Option<Seq<char>>, Option<u32>)
    decreases ls.len(),
{
    if ls.len() == 0 {
        (None, None)
    } else {
        let (id, ver) = os_release_fields(ls.drop_last());
        let l = ls.last();
        if strip_prefix(l, "ID="@) is Some {
            (Some(lowercase(field_value(strip_prefix(l, "ID="@)->0))), ver)
        } else if strip_prefix(l, "VERSION_ID="@) is Some {
            let raw = field_value(strip_prefix(l, "VERSION_ID="@)->0);
            (id, match parse_unsigned(raw, u32::MAX as nat) {
                Some(n) => Some(n as u32),
                None => None,
            })
        } else {
            (id, ver)
        }
    }
}

/// The id and numeric version that `parse_os_release` reports.
pub open spec fn os_release_spec(content: Seq<char>) -> (Seq<char>, Option<u32>) {
    let (id, ver) = os_release_fields(lines(content));
    let id = match id {
        Some(i) => i,
        None => match os_id_fallback(lines(content)) {
            Some(i) => i,
            None => "unknown"@,
        },
    };
    (id, ver)
}

/// Parses `os-release` content and returns `(id, version_id)`.
///
/// `id` is lowercased. `version_id` is parsed as a number when available.
pub fn parse_os_release(content: &str) -> (r: Result<(String, Option<u32>), anyhow::Error>)
    ensures
        r matches Ok(v) && (v.0@, v.1) == os_release_spec(content@),
{
    let text = chars_of(content);
    let ls = lines_vec(&text);
    let mut id: Option<String> = None;
    let mut version_id: Option<u32> = None;
    assert(crate::text::views(ls@).len() == ls@.len());
    let mut i: usize = 0;
    while i < ls.len()
        invariant
            i <= ls.len(),
            crate::text::views(ls@) == lines(content@),
            os_release_fields(lines(content@).subrange(0, i as int)) == (
                match id {
                    Some(s) => Some(s@),
                    None => None::<Seq<char>>,
                },
                version_id,
            ),
        decreases ls.len() - i,
    {
        let ghost pre = lines(content@).subrange(0, i + 1);
        assert(pre.drop_last() =~= lines(content@).subrange(0, i as int));
        assert(pre.last() == ls@[i as int]@);
        if let Some(v) = strip_prefix_str(&ls[i], "ID=") {
            id = Some(lowered(&field_value_of(&v)));
        } else if let Some(v) = strip_prefix_str(&ls[i], "VERSION_ID=") {
            let raw = field_value_of(&v);
            version_id = parse_u32_vec(&raw);
        }
        i += 1;
    }
    assert(lines(content@).subrange(0, ls.len() as int) =~= lines(content@));
    let id = match id {
        Some(s) => s,
        None => match parse_os_id_fallback(content) {
            Some(s) => s,
            None => String::from_str("unknown"),
        },
    };
    Ok((id, version_id))
}

} // verus!
