//! File monitoring: normalized watcher events, the duplicate rule, watch-path checks and
//! the content digest used for integrity baselines.

use vstd::prelude::*;
use sha2::Digest;

verus! {

/// Events on the same path and of the same kind closer than this are duplicates.
pub const EVENT_DEBOUNCE_MS: u64 = 500;

#[derive(Clone, Copy, Debug, PartialEq, Eq, Structural)]
pub enum FileEventKind {
    Created,
    Modified,
    Deleted,
    Renamed,
    MetadataChanged,
    Unknown,
}

/// One watcher event after normalization: which watch saw it, on which path, what kind,
/// and when (milliseconds since the Unix epoch).
#[derive(Debug)]
pub struct NormalizedFileEvent {
    pub monitored_path: String,
    pub path: String,
    pub kind: FileEventKind,
    pub observed_at_ms: u128,
}

/// `a - b`, or 0 when `b` is later than `a`.
pub open spec fn elapsed_ms(a: u128, b: u128) -> int {
    if a >= b {
        a - b
    } else {
        0
    }
}

/// Whether `Path::new(a) == Path::new(b)`: paths are compared component by component, so
/// text that differs only in redundant separators or `.` components names the same path.
/// How text splits into components follows the `std::path` rules of the build target
/// (Windows and Unix-like systems differ in separators and prefixes).
pub uninterp spec fn same_path(a: Seq<char>, b: Seq<char>) -> bool;

/// `<Path as PartialEq>::eq` on two paths given as text. The contract names the result and
/// states what `Path` implementing `Eq` documents: the comparison is an equivalence
/// (identical text is equal, and the relation is symmetric and transitive). How paths split
/// into components is left to `std::path`.
#[verifier::external_body]
pub(crate) fn paths_equal(a: &str, b: &str) -> (r: bool)
    ensures
        r == same_path(a@, b@),
        a@ == b@ ==> r,
        r == same_path(b@, a@),
        forall|c: Seq<char>| r && #[trigger] same_path(b@, c) ==> same_path(a@, c),
{
    std::path::Path::new(a) == std::path::Path::new(b)
}

/// `next` repeats `previous`: same watch, same path (as paths compare), same kind, and at
/// most `EVENT_DEBOUNCE_MS` later.
pub open spec fn spec_is_duplicate(previous: NormalizedFileEvent, next: NormalizedFileEvent) -> bool {
    &&& same_path(previous.monitored_path@, next.monitored_path@)
    &&& same_path(previous.path@, next.path@)
    &&& previous.kind == next.kind
    &&& elapsed_ms(next.observed_at_ms, previous.observed_at_ms) <= EVENT_DEBOUNCE_MS
}

impl NormalizedFileEvent {
    /// A field-by-field copy.
    pub fn duplicate(&self) -> (r: Self)
        ensures
            r == *self,
    {
        NormalizedFileEvent {
            monitored_path: self.monitored_path.clone(),
            path: self.path.clone(),
            kind: self.kind,
            observed_at_ms: self.observed_at_ms,
        }
    }
}

/// `next` repeats `previous` with the very same text for both paths.
pub open spec fn is_literal_repeat(previous: NormalizedFileEvent, next: NormalizedFileEvent) -> bool {
    &&& previous.monitored_path@ == next.monitored_path@
    &&& previous.path@ == next.path@
    &&& previous.kind == next.kind
    &&& elapsed_ms(next.observed_at_ms, previous.observed_at_ms) <= EVENT_DEBOUNCE_MS
}

pub fn is_duplicate(previous: &NormalizedFileEvent, next: &NormalizedFileEvent) -> (r: bool)
    ensures
        r == spec_is_duplicate(*previous, *next),
        is_literal_repeat(*previous, *next) ==> r,
{
    paths_equal(previous.monitored_path.as_str(), next.monitored_path.as_str()) && paths_equal(
        previous.path.as_str(),
        next.path.as_str(),
    ) && previous.kind == next.kind && next.observed_at_ms.saturating_sub(
        previous.observed_at_ms,
    ) <= EVENT_DEBOUNCE_MS as u128
}

/// Events on different paths never suppress each other.
pub proof fn lemma_duplicates_share_path(previous: NormalizedFileEvent, next: NormalizedFileEvent)
    requires
        !same_path(previous.path@, next.path@),
    ensures
        !spec_is_duplicate(previous, next),
{
}

/// An event that arrives more than the debounce interval later is never a duplicate.
pub proof fn lemma_late_event_is_not_duplicate(
    previous: NormalizedFileEvent,
    next: NormalizedFileEvent,
)
    requires
        next.observed_at_ms > previous.observed_at_ms + EVENT_DEBOUNCE_MS,
    ensures
        !spec_is_duplicate(previous, next),
{
}

/// What the file system reports about a path the user asked to watch.
pub struct WatchPathFacts {
    /// The canonical form of the path, when it exists and can be resolved.
    pub canonical: Option<String>,
    pub is_dir: bool,
    /// The canonical path has a parent, i.e. it is not a file-system root.
    pub has_parent: bool,
    /// The canonical path is the user's home directory.
    pub is_home: bool,
    pub is_symlink: bool,
}

/// Decides whether a folder may be watched: it must resolve, be a directory, be neither a
/// root nor the home directory, and not be a symbolic link. Returns the canonical path.
pub fn validate_watch_path(facts: WatchPathFacts) -> (r: Result<String, String>)
    ensures
        facts.canonical is None ==> (r matches Err(m) && m@
            == "경로를 찾을 수 없거나 접근할 수 없습니다."@),
        facts.canonical is Some && !facts.is_dir ==> (r matches Err(m) && m@
            == "폴더만 감시할 수 있습니다."@),
        facts.canonical is Some && facts.is_dir && (!facts.has_parent || facts.is_home) ==> (
        r matches Err(m) && m@ == "시스템 루트 또는 사용자 홈 전체는 감시할 수 없습니다."@),
        facts.canonical is Some && facts.is_dir && facts.has_parent && !facts.is_home
            && facts.is_symlink ==> (r matches Err(m) && m@ == "심볼릭 링크는 감시할 수 없습니다."@),
        r is Ok <==> (facts.canonical is Some && facts.is_dir && facts.has_parent && !facts.is_home
            && !facts.is_symlink),
        r matches Ok(p) ==> p@ == facts.canonical->0@,
{
    match facts.canonical {
        None => Err("경로를 찾을 수 없거나 접근할 수 없습니다.".to_owned()),
        Some(path) => {
            if !facts.is_dir {
                Err("폴더만 감시할 수 있습니다.".to_owned())
            } else if !facts.has_parent || facts.is_home {
                Err("시스템 루트 또는 사용자 홈 전체는 감시할 수 없습니다.".to_owned())
            } else if facts.is_symlink {
                Err("심볼릭 링크는 감시할 수 없습니다.".to_owned())
            } else {
                Ok(path)
            }
        },
    }
}

/// The SHA-256 digest of `data`, as the `sha2` crate computes it.
pub uninterp spec fn sha256_digest(data: Seq<u8>) -> Seq<u8>;

/// `sha2::Sha256::digest`: the 32-byte SHA-256 digest of `data`. The contract names the
/// result and states its length; what the bytes are is left to the crate.
#[verifier::external_body]
fn sha256_bytes(data: &[u8]) -> (d: Vec<u8>)
    ensures
        d@ == sha256_digest(data@),
        d@.len() == 32,
{
    sha2::Sha256::digest(data).to_vec()
}

/// The lowercase hexadecimal digit for `n` (0 to 15).
pub open spec fn hex_digit(n: int) -> char {
    if n < 10 {
        (n + 48) as char
    } else {
        (n + 87) as char
    }
}

/// Two lowercase hex digits per byte, high nibble first: `format!("{:02x}")` on each byte.
pub open spec fn hex_lower(data: Seq<u8>) -> Seq<char>
    decreases data.len(),
{
    if data.len() == 0 {
        Seq::empty()
    } else {
        hex_lower(data.drop_last()).push(hex_digit((data.last() / 16) as int)).push(
            hex_digit((data.last() % 16) as int),
        )
    }
}

fn hex_digit_char(n: u8) -> (c: char)
    requires
        n < 16,
    ensures
        c == hex_digit(n as int),
{
    if n < 10 {
        (n + 48) as char
    } else {
        (n + 87) as char
    }
}

proof fn lemma_hex_lower_len(data: Seq<u8>)
    ensures
        hex_lower(data).len() == 2 * data.len(),
    decreases data.len(),
{
    if data.len() > 0 {
        lemma_hex_lower_len(data.drop_last());
    }
}

/// The SHA-256 of a file's contents as 64 lowercase hex digits.
pub fn sha256_file(contents: &[u8]) -> (h: String)
    ensures
        h@ == hex_lower(sha256_digest(contents@)),
        h@.len() == 64,
{
    let digest = sha256_bytes(contents);
    let mut h = String::new();
    let mut i: usize = 0;
    while i < digest.len()
        invariant
            i <= digest.len(),
            h@ == hex_lower(digest@.take(i as int)),
        decreases digest.len() - i,
    {
        let byte = digest[i];
        crate::text::push_char(&mut h, hex_digit_char(byte / 16));
        crate::text::push_char(&mut h, hex_digit_char(byte % 16));
        i = i + 1;
        assert(digest@.take(i as int).drop_last() =~= digest@.take(i - 1));
    }
    assert(digest@.take(digest.len() as int) =~= digest@);
    proof {
        lemma_hex_lower_len(digest@);
    }
    h
}

} // verus!
