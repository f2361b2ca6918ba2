//! The process list: which running processes match a search, and in which order they are
//! listed. Ordering by CPU share compares floating-point values and is left to the caller.

use vstd::prelude::*;
use crate::text::{chars_of, decimal, push_decimal, str_eq};

verus! {

/// A running process as the list sees it.
pub struct ProcessCandidate {
    pub pid: u32,
    pub name: String,
    pub memory_bytes: u64,
}

/// The order a process list is requested in.
#[derive(Clone, Copy, Debug, PartialEq, Eq, Structural)]
pub enum ProcessOrder {
    /// Highest CPU share first.
    Cpu,
    /// Largest resident memory first.
    Memory,
    /// By name, in `String`'s order.
    Name,
}

/// `"memory"` and `"name"` select those orders; anything else, or nothing, orders by CPU.
pub open spec fn spec_process_order(sort_by: Option<&str>) -> ProcessOrder {
    match sort_by {
        Some(s) => if s@ == "memory"@ {
            ProcessOrder::Memory
        } else if s@ == "name"@ {
            ProcessOrder::Name
        } else {
            ProcessOrder::Cpu
        },
        None => ProcessOrder::Cpu,
    }
}

pub fn process_order(sort_by: Option<&str>) -> (r: ProcessOrder)
    ensures
        r == spec_process_order(sort_by),
{
    match sort_by {
        Some(s) => if str_eq(s, "memory") {
            ProcessOrder::Memory
        } else if str_eq(s, "name") {
            ProcessOrder::Name
        } else {
            ProcessOrder::Cpu
        },
        None => ProcessOrder::Cpu,
    }
}

/// What `str::to_lowercase` returns for the text `s`.
pub uninterp spec fn unicode_lowercase(s: Seq<char>) -> Seq<char>;

/// `str::to_lowercase`. The contract names the result: the Unicode lowercase mapping that
/// std's case tables define is not restated here.
#[verifier::external_body]
fn lowercase_of(s: &str) -> (r: String)
    ensures
        r@ == unicode_lowercase(s@),
{
    s.to_lowercase()
}

/// `needle` occurs in `hay` starting at position `i`.
pub open spec fn occurs_at(hay: Seq<char>, needle: Seq<char>, i: int) -> bool {
    &&& 0 <= i
    &&& i + needle.len() <= hay.len()
    &&& hay.subrange(i, i + needle.len()) == needle
}

/// `needle` occurs somewhere in `hay` (the empty text occurs in every text).
pub open spec fn contains_text(hay: Seq<char>, needle: Seq<char>) -> bool {
    exists|i: int| #[trigger] occurs_at(hay, needle, i)
}

/// Whether `needle` occurs in `hay`.
pub fn chars_contain(hay: &Vec<char>, needle: &Vec<char>) -> (r: bool)
    ensures
        r == contains_text(hay@, needle@),
{
    if needle.len() == 0 {
        assert(hay@.subrange(0, 0) =~= needle@);
        assert(occurs_at(hay@, needle@, 0));
        return true;
    }
    if needle.len() > hay.len() {
        return false;
    }
    let last = hay.len() - needle.len();
    let mut i: usize = 0;
    while i <= last
        invariant
            1 <= needle.len() <= hay.len(),
            last == hay.len() - needle.len(),
            i <= last + 1,
            forall|j: int| 0 <= j < i ==> !#[trigger] occurs_at(hay@, needle@, j),
        decreases last + 1 - i,
    {
        let mut k: usize = 0;
        while k < needle.len() && hay[i + k] == needle[k]
            invariant
                i <= last,
                last == hay.len() - needle.len(),
                k <= needle.len(),
                forall|m: int| 0 <= m < k ==> hay@[i + m] == needle@[m],
            decreases needle.len() - k,
        {
            k = k + 1;
        }
        if k == needle.len() {
            assert(hay@.subrange(i as int, i + needle.len()) =~= needle@);
            assert(occurs_at(hay@, needle@, i as int));
            return true;
        }
        assert(hay@.subrange(i as int, i + needle.len())[k as int] != needle@[k as int]);
        i = i + 1;
    }
    false
}

/// `String`'s order on the texts `a` and `b`: UTF-8 bytes compare as the characters' code
/// points do, so `a` comes first when it is a proper prefix of `b` or, at the first position
/// where they differ, has the smaller character.
pub open spec fn text_precedes(a: Seq<char>, b: Seq<char>) -> bool
    decreases a.len(),
{
    if a.len() == 0 {
        b.len() > 0
    } else if b.len() == 0 {
        false
    } else if a[0] != b[0] {
        (a[0] as u32) < (b[0] as u32)
    } else {
        text_precedes(a.drop_first(), b.drop_first())
    }
}

/// No text comes before itself.
pub proof fn lemma_text_order_irreflexive(a: Seq<char>)
    ensures
        !text_precedes(a, a),
    decreases a.len(),
{
    if a.len() > 0 {
        lemma_text_order_irreflexive(a.drop_first());
    }
}

/// Of two different texts, one comes before the other.
pub proof fn lemma_text_order_total(a: Seq<char>, b: Seq<char>)
    requires
        a != b,
    ensures
        text_precedes(a, b) || text_precedes(b, a),
    decreases a.len(),
{
    if a.len() == 0 {
        assert(b.len() > 0) by {
            if b.len() == 0 {
                assert(a =~= b);
            }
        }
    } else if b.len() > 0 && a[0] != b[0] {
        vstd::utf8::char_u32_cast(a[0], a[0] as u32);
        vstd::utf8::char_u32_cast(b[0], b[0] as u32);
    } else if b.len() > 0 && a[0] == b[0] {
        if a.drop_first() == b.drop_first() {
            assert(a =~= seq![a[0]] + a.drop_first());
            assert(b =~= seq![b[0]] + b.drop_first());
        }
        lemma_text_order_total(a.drop_first(), b.drop_first());
    }
}

/// The order on texts is transitive.
pub proof fn lemma_text_order_transitive(a: Seq<char>, b: Seq<char>, c: Seq<char>)
    requires
        text_precedes(a, b),
        text_precedes(b, c),
    ensures
        text_precedes(a, c),
    decreases a.len(),
{
    if a.len() > 0 && a[0] == b[0] && b[0] == c[0] {
        lemma_text_order_transitive(a.drop_first(), b.drop_first(), c.drop_first());
    }
}

/// Whether `a` comes before `b` in `String`'s order.
pub fn text_precedes_chars(a: &Vec<char>, b: &Vec<char>) -> (r: bool)
    ensures
        r == text_precedes(a@, b@),
{
    let mut i: usize = 0;
    assert(a@.skip(0) =~= a@);
    assert(b@.skip(0) =~= b@);
    while i < a.len() && i < b.len() && a[i] == b[i]
        invariant
            i <= a.len(),
            i <= b.len(),
            text_precedes(a@, b@) == text_precedes(a@.skip(i as int), b@.skip(i as int)),
        decreases a.len() - i,
    {
        assert(a@.skip(i as int).drop_first() =~= a@.skip(i + 1));
        assert(b@.skip(i as int).drop_first() =~= b@.skip(i + 1));
        i = i + 1;
    }
    if i == a.len() {
        i < b.len()
    } else if i == b.len() {
        false
    } else {
        let x = a[i];
        let y = b[i];
        assert(a@.skip(i as int)[0] == x);
        assert(b@.skip(i as int)[0] == y);
        assert(x != y);
        (x as u32) < (y as u32)
    }
}

/// A process matches a search when the search is empty, or occurs in the process's name or
/// in its id written in decimal. `query` and `name` are already lowercased.
pub open spec fn query_matches(query: Seq<char>, name: Seq<char>, pid: u32) -> bool {
    ||| query.len() == 0
    ||| contains_text(name, query)
    ||| contains_text(decimal(pid as nat), query)
}

/// Whether a process with the lowercased name `name` and id `pid` matches the lowercased
/// search `query`.
pub fn matches_query(query: &str, name: &str, pid: u32) -> (r: bool)
    ensures
        r == query_matches(query@, name@, pid),
{
    let q = chars_of(query);
    if q.len() == 0 {
        return true;
    }
    let n = chars_of(name);
    if chars_contain(&n, &q) {
        return true;
    }
    let mut digits = String::new();
    push_decimal(&mut digits, pid as u64);
    assert(digits@ =~= decimal(pid as nat));
    let d = chars_of(digits.as_str());
    chars_contain(&d, &q)
}

/// In the order `order`, candidate `i` is listed before candidate `j`. Ties keep the order
/// the candidates were given in, as a stable sort does; under `Cpu` the given order is kept
/// as it is, for the caller to order by CPU share with a stable sort.
pub open spec fn lists_before(order: ProcessOrder, c: Seq<ProcessCandidate>, i: int, j: int) -> bool {
    match order {
        ProcessOrder::Cpu => i < j,
        ProcessOrder::Memory => c[i].memory_bytes > c[j].memory_bytes || (c[i].memory_bytes
            == c[j].memory_bytes && i < j),
        ProcessOrder::Name => text_precedes(c[i].name@, c[j].name@) || (c[i].name@ == c[j].name@
            && i < j),
    }
}

/// Each listed index comes before every later one.
pub open spec fn listed_in_order(order: ProcessOrder, c: Seq<ProcessCandidate>, listed: Seq<usize>) -> bool {
    forall|a: int, b: int|
        0 <= a < b < listed.len() ==> lists_before(order, c, #[trigger] listed[a] as int, #[trigger] listed[b] as int)
}

/// Listing order is a strict total order on candidate positions.
pub proof fn lemma_listing_order(order: ProcessOrder, c: Seq<ProcessCandidate>, i: int, j: int, k: int)
    ensures
        !lists_before(order, c, i, i),
        i != j ==> lists_before(order, c, i, j) || lists_before(order, c, j, i),
        lists_before(order, c, i, j) && lists_before(order, c, j, k) ==> lists_before(order, c, i, k),
{
    lemma_text_order_irreflexive(c[i].name@);
    if c[i].name@ != c[j].name@ {
        lemma_text_order_total(c[i].name@, c[j].name@);
    }
    if text_precedes(c[i].name@, c[j].name@) && text_precedes(c[j].name@, c[k].name@) {
        lemma_text_order_transitive(c[i].name@, c[j].name@, c[k].name@);
    }
}

/// A list in a listing order names each candidate at most once.
pub proof fn lemma_listed_at_most_once(order: ProcessOrder, c: Seq<ProcessCandidate>, listed: Seq<usize>)
    requires
        listed_in_order(order, c, listed),
    ensures
        forall|a: int, b: int| 0 <= a < b < listed.len() ==> #[trigger] listed[a] != #[trigger] listed[b],
{
    assert forall|a: int, b: int| 0 <= a < b < listed.len() implies #[trigger] listed[a] != #[trigger] listed[b] by {
        lemma_listing_order(order, c, listed[a] as int, listed[a] as int, listed[a] as int);
    }
}

/// Whether candidate `i` is listed before candidate `j` in the order `order`.
fn lists_before_exec(order: ProcessOrder, c: &Vec<ProcessCandidate>, i: usize, j: usize) -> (r: bool)
    requires
        i < c.len(),
        j < c.len(),
    ensures
        r == lists_before(order, c@, i as int, j as int),
{
    match order {
        ProcessOrder::Cpu => i < j,
        ProcessOrder::Memory => c[i].memory_bytes > c[j].memory_bytes || (c[i].memory_bytes
            == c[j].memory_bytes && i < j),
        ProcessOrder::Name => {
            let a = chars_of(c[i].name.as_str());
            let b = chars_of(c[j].name.as_str());
            text_precedes_chars(&a, &b) || (str_eq(c[i].name.as_str(), c[j].name.as_str()) && i < j)
        },
    }
}

/// Inserts `k` into `listed` where the order puts it.
fn insert_in_order(order: ProcessOrder, c: &Vec<ProcessCandidate>, listed: &mut Vec<usize>, k: usize)
    requires
        k < c.len(),
        forall|x: usize| old(listed)@.contains(x) ==> x < c.len() && x != k,
        listed_in_order(order, c@, old(listed)@),
    ensures
        listed_in_order(order, c@, final(listed)@),
        forall|x: usize| final(listed)@.contains(x) <==> (old(listed)@.contains(x) || x == k),
{
    let ghost before = listed@;
    assert forall|a: int| 0 <= a < before.len() implies #[trigger] before[a] < c.len() && before[a] != k by {
        assert(before.contains(before[a]));
    }
    let mut p: usize = 0;
    while p < listed.len() && lists_before_exec(order, c, listed[p], k)
        invariant
            listed@ == before,
            p <= listed.len(),
            k < c.len(),
            forall|a: int| 0 <= a < before.len() ==> #[trigger] before[a] < c.len() && before[a] != k,
            forall|a: int| 0 <= a < p ==> lists_before(order, c@, #[trigger] listed@[a] as int, k as int),
        decreases listed.len() - p,
    {
        p = p + 1;
    }
    proof {
        if p < before.len() {
            assert(before.contains(before[p as int]));
            lemma_listing_order(order, c@, before[p as int] as int, k as int, k as int);
            assert forall|b: int| p <= b < before.len() implies lists_before(order, c@, k as int, #[trigger] before[b] as int) by {
                if b > p {
                    lemma_listing_order(order, c@, k as int, before[p as int] as int, before[b] as int);
                }
            }
        }
    }
    listed.insert(p, k);
    proof {
        let after = listed@;
        assert(after =~= before.insert(p as int, k));
        assert forall|a: int, b: int| 0 <= a < b < after.len() implies lists_before(order, c@, #[trigger] after[a] as int, #[trigger] after[b] as int) by {
            if b < p {
            } else if a < p && b == p {
            } else if a < p && b > p {
                assert(after[b] == before[b - 1]);
                lemma_listing_order(order, c@, after[a] as int, k as int, after[b] as int);
            } else if a == p {
                assert(after[b] == before[b - 1]);
            } else {
                assert(after[a] == before[a - 1]);
                assert(after[b] == before[b - 1]);
            }
        }
        assert forall|x: usize| after.contains(x) <==> (before.contains(x) || x == k) by {
            if after.contains(x) {
                let i = choose|i: int| 0 <= i < after.len() && after[i] == x;
                if i < p {
                    assert(before[i] == x);
                } else if i > p {
                    assert(before[i - 1] == x);
                }
            }
            if before.contains(x) {
                let i = choose|i: int| 0 <= i < before.len() && before[i] == x;
                if i < p {
                    assert(after[i] == x);
                } else {
                    assert(after[i + 1] == x);
                }
            }
            if x == k {
                assert(after[p as int] == k);
            }
        }
    }
}

/// The search a request carries, lowercased; no search is the empty one.
pub open spec fn lowered_query(query: Option<&str>) -> Seq<char> {
    match query {
        Some(q) => unicode_lowercase(q@),
        None => Seq::empty(),
    }
}

/// Candidate `c` is in the list for the search `query`.
pub open spec fn candidate_matches(query: Option<&str>, c: ProcessCandidate) -> bool {
    query_matches(lowered_query(query), unicode_lowercase(c.name@), c.pid)
}

/// The positions of the candidates that match the search, in the requested order: a
/// candidate matches when the lowercased search is empty or occurs in its lowercased name or
/// in its decimal id. Under `"memory"` the largest memory comes first, under `"name"` names
/// come in `String`'s order, and ties (and the CPU order, which the caller applies) keep the
/// order the candidates were given in.
pub fn select_processes(
    query: Option<&str>,
    sort_by: Option<&str>,
    candidates: &Vec<ProcessCandidate>,
) -> (r: Vec<usize>)
    ensures
        forall|k: usize|
            #![trigger r@.contains(k)]
            #![trigger candidates@[k as int]]
            r@.contains(k) <==> (k < candidates.len() && candidate_matches(query, candidates@[k as int])),
        listed_in_order(spec_process_order(sort_by), candidates@, r@),
{
    let q = match query {
        Some(text) => lowercase_of(text),
        None => String::new(),
    };
    let order = process_order(sort_by);
    let mut listed: Vec<usize> = Vec::new();
    let mut k: usize = 0;
    while k < candidates.len()
        invariant
            k <= candidates.len(),
            q@ == lowered_query(query),
            order == spec_process_order(sort_by),
            listed_in_order(order, candidates@, listed@),
            forall|x: usize|
                #![trigger listed@.contains(x)]
                #![trigger candidates@[x as int]]
                listed@.contains(x) <==> (x < k && candidate_matches(query, candidates@[x as int])),
        decreases candidates.len() - k,
    {
        let name = lowercase_of(candidates[k].name.as_str());
        if matches_query(q.as_str(), name.as_str(), candidates[k].pid) {
            insert_in_order(order, candidates, &mut listed, k);
        }
        k = k + 1;
    }
    listed
}

} // verus!
