//! Trusted paths and extensions: how a requested entry is checked and normalized, and
//! which extension a file path is matched under.

use vstd::prelude::*;
use crate::text::{
    ascii_lower, ascii_lowercase, ascii_lowercase_chars, chars_of, in_class, is_blank,
    str_eq, str_is_blank, string_from_chars, trim, trim_chars, trim_end_chars,
    trim_end_class, trim_start_chars, trim_start_class, CharClass,
};

verus! {

/// The kinds of allowlist entry.
pub open spec fn is_allowlist_type(entry_type: Seq<char>) -> bool {
    entry_type == "path"@ || entry_type == "extension"@
}

/// The stored form of an entry value: an extension is trimmed, loses its leading dots
/// and is ASCII-lowercased; a path is trimmed and loses its trailing slashes.
pub open spec fn normalized_value(entry_type: Seq<char>, value: Seq<char>) -> Seq<char> {
    if entry_type == "extension"@ {
        ascii_lowercase(trim_start_class(trim(value), CharClass::Exactly('.')))
    } else {
        trim_end_class(trim(value), CharClass::Exactly('/'))
    }
}

/// Checks and normalizes a requested allowlist entry; the `Ok` value is what is stored.
/// The type must be path or extension and the value not blank; an expiry must be 1 to
/// 3650 days; the normalized value must not be empty.
pub fn normalize_allowlist_entry(entry_type: &str, value: &str, expires_in_days: Option<i64>) -> (r:
    Result<String, String>)
    ensures
        !is_allowlist_type(entry_type@) || is_blank(value@) ==> (r matches Err(m) && m@
            == "신뢰 항목 형식이 올바르지 않습니다."@),
        is_allowlist_type(entry_type@) && !is_blank(value@) && (expires_in_days matches Some(d)
            && !(1 <= d <= 3650)) ==> (r matches Err(m) && m@ == "만료 기간은 1~3650일이어야 합니다."@),
        is_allowlist_type(entry_type@) && !is_blank(value@) && !(expires_in_days matches Some(d)
            && !(1 <= d <= 3650)) && normalized_value(entry_type@, value@).len() == 0 ==> (r matches Err(m)
            && m@ == "신뢰 항목 값이 비어 있습니다."@),
        r is Ok <==> (is_allowlist_type(entry_type@) && !is_blank(value@) && !(expires_in_days matches Some(
            d,
        ) && !(1 <= d <= 3650)) && normalized_value(entry_type@, value@).len() > 0),
        r matches Ok(v) ==> v@ == normalized_value(entry_type@, value@),
{
    let is_extension = str_eq(entry_type, "extension");
    if !(str_eq(entry_type, "path") || is_extension) || str_is_blank(value) {
        return Err("신뢰 항목 형식이 올바르지 않습니다.".to_owned());
    }
    match expires_in_days {
        Some(days) => {
            if !(1 <= days && days <= 3650) {
                return Err("만료 기간은 1~3650일이어야 합니다.".to_owned());
            }
        },
        None => {},
    }
    let trimmed = trim_chars(&chars_of(value));
    let normalized = if is_extension {
        ascii_lowercase_chars(&trim_start_chars(&trimmed, CharClass::Exactly('.')))
    } else {
        trim_end_chars(&trimmed, CharClass::Exactly('/'))
    };
    if normalized.len() == 0 {
        return Err("신뢰 항목 값이 비어 있습니다.".to_owned());
    }
    Ok(string_from_chars(&normalized))
}

proof fn lemma_trim_start_first(s: Seq<char>, k: CharClass)
    ensures
        trim_start_class(s, k).len() > 0 ==> !in_class(trim_start_class(s, k)[0], k),
    decreases s.len(),
{
    if s.len() > 0 && in_class(s[0], k) {
        lemma_trim_start_first(s.drop_first(), k);
    }
}

proof fn lemma_trim_end_last(s: Seq<char>, k: CharClass)
    ensures
        trim_end_class(s, k).len() > 0 ==> !in_class(trim_end_class(s, k).last(), k),
    decreases s.len(),
{
    if s.len() > 0 && in_class(s.last(), k) {
        lemma_trim_end_last(s.drop_last(), k);
    }
}

/// A stored extension never starts with '.' and is already lowercase; a stored path
/// never ends with '/'.
pub proof fn lemma_normalized_values_are_canonical(entry_type: Seq<char>, value: Seq<char>)
    ensures
        entry_type == "extension"@ && normalized_value(entry_type, value).len() > 0 ==> normalized_value(
            entry_type,
            value,
        )[0] != '.',
        entry_type == "extension"@ ==> ascii_lowercase(normalized_value(entry_type, value))
            == normalized_value(entry_type, value),
        entry_type != "extension"@ && normalized_value(entry_type, value).len() > 0 ==> normalized_value(
            entry_type,
            value,
        ).last() != '/',
{
    let stripped = trim_start_class(trim(value), CharClass::Exactly('.'));
    lemma_trim_start_first(trim(value), CharClass::Exactly('.'));
    lemma_trim_end_last(trim(value), CharClass::Exactly('/'));
    assert(ascii_lowercase(ascii_lowercase(stripped)) =~= ascii_lowercase(stripped));
    if stripped.len() > 0 {
        assert(ascii_lowercase(stripped)[0] == ascii_lower(stripped[0]));
    }
}

proof fn lemma_trim_end_is_prefix(s: Seq<char>, k: CharClass)
    ensures
        trim_end_class(s, k).len() <= s.len(),
        trim_end_class(s, k) == s.take(trim_end_class(s, k).len() as int),
        forall|i: int| trim_end_class(s, k).len() <= i < s.len() ==> in_class(#[trigger] s[i], k),
    decreases s.len(),
{
    if s.len() > 0 && in_class(s.last(), k) {
        lemma_trim_end_is_prefix(s.drop_last(), k);
        let t = trim_end_class(s.drop_last(), k);
        assert(s.drop_last().take(t.len() as int) =~= s.take(t.len() as int));
        assert forall|i: int| t.len() <= i < s.len() implies in_class(#[trigger] s[i], k) by {
            if i < s.len() - 1 {
                assert(s[i] == s.drop_last()[i]);
            }
        }
    } else {
        assert(s.take(s.len() as int) =~= s);
    }
}

proof fn lemma_trim_start_is_suffix(s: Seq<char>, k: CharClass)
    ensures
        trim_start_class(s, k).len() <= s.len(),
        trim_start_class(s, k) == s.skip(s.len() - trim_start_class(s, k).len()),
        forall|i: int| 0 <= i < s.len() - trim_start_class(s, k).len() ==> in_class(#[trigger] s[i], k),
    decreases s.len(),
{
    if s.len() > 0 && in_class(s[0], k) {
        lemma_trim_start_is_suffix(s.drop_first(), k);
        let t = trim_start_class(s.drop_first(), k);
        assert(s.drop_first().skip(s.len() - 1 - t.len()) =~= s.skip(s.len() - t.len()));
        assert forall|i: int| 0 <= i < s.len() - t.len() implies in_class(#[trigger] s[i], k) by {
            if i > 0 {
                assert(s[i] == s.drop_first()[i - 1]);
            }
        }
    } else {
        assert(s.skip(0) =~= s);
    }
}

/// A path entry is stored as the trimmed value with its trailing '/' characters removed
/// and nothing else changed: it is a prefix of the trimmed value, everything cut off is
/// '/', and it does not end with '/'. In particular its letters keep their case.
pub proof fn lemma_path_entry_is_trimmed_value(value: Seq<char>)
    ensures
        ({
            let t = trim(value);
            let stored = normalized_value("path"@, value);
            &&& stored.len() <= t.len()
            &&& stored == t.take(stored.len() as int)
            &&& forall|i: int| stored.len() <= i < t.len() ==> #[trigger] t[i] == '/'
            &&& stored.len() > 0 ==> stored.last() != '/'
        }),
{
    reveal_strlit("path");
    reveal_strlit("extension");
    assert("path"@[0] != "extension"@[0]);
    lemma_trim_end_is_prefix(trim(value), CharClass::Exactly('/'));
    lemma_trim_end_last(trim(value), CharClass::Exactly('/'));
    let t = trim(value);
    let stored = normalized_value("path"@, value);
    assert forall|i: int| stored.len() <= i < t.len() implies #[trigger] t[i] == '/' by {
        assert(in_class(t[i], CharClass::Exactly('/')));
    }
}

/// An extension entry is stored as the trimmed value with its leading '.' characters
/// removed, ASCII-lowercased: the lowercase of a suffix of the trimmed value, where
/// everything cut off is '.', and it does not start with '.'.
pub proof fn lemma_extension_entry_is_lowered_suffix(value: Seq<char>)
    ensures
        ({
            let t = trim(value);
            let stored = normalized_value("extension"@, value);
            let cut = t.len() - stored.len();
            &&& stored.len() <= t.len()
            &&& stored == t.skip(cut).map_values(|c: char| ascii_lower(c))
            &&& forall|i: int| 0 <= i < cut ==> #[trigger] t[i] == '.'
            &&& stored.len() > 0 ==> stored[0] != '.'
        }),
{
    let t = trim(value);
    lemma_trim_start_is_suffix(t, CharClass::Exactly('.'));
    lemma_normalized_values_are_canonical("extension"@, value);
    let stripped = trim_start_class(t, CharClass::Exactly('.'));
    let stored = normalized_value("extension"@, value);
    assert(stored.len() == stripped.len());
    assert forall|i: int| 0 <= i < t.len() - stored.len() implies #[trigger] t[i] == '.' by {
        assert(in_class(t[i], CharClass::Exactly('.')));
    }
}

/// What `Path::extension` yields for `path`: the part of the file name after its last
/// '.', when there is one. Which part is the file name follows the `std::path` rules of
/// the build target (Windows and Unix-like systems differ in separators and prefixes).
pub uninterp spec fn path_extension(path: Seq<char>) -> Option<Seq<char>>;

/// `std::path::Path::extension` on a path given as text. The contract names the result;
/// the rules for file names are those of `std::path`.
#[verifier::external_body]
fn extension_of(path: &str) -> (e: Option<String>)
    ensures
        e is Some <==> path_extension(path@) is Some,
        e matches Some(x) ==> x@ == path_extension(path@)->0,
{
    match std::path::Path::new(path).extension() {
        Some(extension) => match extension.to_str() {
            Some(text) => Some(text.to_owned()),
            None => None,
        },
        None => None,
    }
}

/// The lowercase extension an extension entry must equal to cover `file_path`; empty
/// when the path has none.
pub fn allowlist_extension(file_path: &str) -> (e: String)
    ensures
        e@ == ascii_lowercase(
            match path_extension(file_path@) {
                Some(x) => x,
                None => Seq::empty(),
            },
        ),
{
    match extension_of(file_path) {
        Some(extension) => {
            let lowered = ascii_lowercase_chars(&chars_of(extension.as_str()));
            string_from_chars(&lowered)
        },
        None => {
            let empty: Vec<char> = Vec::new();
            assert(ascii_lowercase(Seq::<char>::empty()) =~= Seq::<char>::empty());
            string_from_chars(&empty)
        },
    }
}

} // verus!
