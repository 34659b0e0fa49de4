//! Drive version history: newest-first ordering, the latest version, paging of
//! version summaries, and the version checks made around updates and restores.

use vstd::prelude::*;
use crate::decimal::{decimal_int, u64_to_decimal};
use crate::domain::{is_internal_error, CanvasProductError, DriveVersionPage, DriveVersionSummary, FileVersion, PageInfo};
use crate::drive_port::opt_chars;
use crate::upload::drive_call_error;
use crate::text::{is_blank, is_blank_spec};

verus! {

broadcast use vstd::seq_lib::group_to_multiset_ensures;

/// Stable insertion of `x` into a newest-first sequence: `x` goes after every
/// version numbered at least as high.
pub open spec fn insert_newest_first(sorted: Seq<FileVersion>, x: FileVersion) -> Seq<FileVersion>
    decreases sorted.len(),
{
    if sorted.len() == 0 {
        seq![x]
    } else if sorted.last().version_no >= x.version_no {
        sorted.push(x)
    } else {
        insert_newest_first(sorted.drop_last(), x).push(sorted.last())
    }
}

/// The versions ordered by descending version number; versions with equal
/// numbers keep their relative order (a stable sort).
pub open spec fn sort_newest_first(s: Seq<FileVersion>) -> Seq<FileVersion>
    decreases s.len(),
{
    if s.len() == 0 {
        seq![]
    } else {
        insert_newest_first(sort_newest_first(s.drop_last()), s.last())
    }
}

/// Version numbers do not increase along `s`.
pub open spec fn is_newest_first(s: Seq<FileVersion>) -> bool {
    forall|i: int, j: int| 0 <= i < j < s.len() ==> s[i].version_no >= s[j].version_no
}

proof fn lemma_insert_at_position(s: Seq<FileVersion>, x: FileVersion, j: int)
    requires
        0 <= j <= s.len(),
        forall|t: int| j <= t < s.len() ==> s[t].version_no < x.version_no,
        j == 0 || s[j - 1].version_no >= x.version_no,
    ensures
        insert_newest_first(s, x) == s.insert(j, x),
    decreases s.len(),
{
    if s.len() == 0 {
        assert(s.insert(j, x) =~= seq![x]);
    } else if s.last().version_no >= x.version_no {
        assert(j == s.len());
        assert(s.insert(j, x) =~= s.push(x));
    } else {
        assert(j < s.len());
        lemma_insert_at_position(s.drop_last(), x, j);
        assert(s.drop_last().insert(j, x).push(s.last()) =~= s.insert(j, x));
    }
}

proof fn lemma_insert_multiset(s: Seq<FileVersion>, x: FileVersion)
    ensures
        insert_newest_first(s, x).to_multiset() == s.to_multiset().insert(x),
    decreases s.len(),
{
    broadcast use vstd::seq_lib::to_multiset_build, vstd::multiset::group_multiset_axioms;

    if s.len() == 0 {
        assert(s.push(x) =~= seq![x]);
    } else if s.last().version_no >= x.version_no {
    } else {
        lemma_insert_multiset(s.drop_last(), x);
        assert(s.drop_last().push(s.last()) =~= s);
        assert(s.to_multiset() =~= s.drop_last().to_multiset().insert(s.last()));
        assert(insert_newest_first(s, x).to_multiset() =~= s.to_multiset().insert(x));
    }
}

proof fn lemma_insert_lower_bound(s: Seq<FileVersion>, x: FileVersion, m: i64)
    requires
        forall|i: int| 0 <= i < s.len() ==> s[i].version_no >= m,
        x.version_no >= m,
    ensures
        forall|i: int|
            0 <= i < insert_newest_first(s, x).len() ==> insert_newest_first(s, x)[i].version_no
                >= m,
        insert_newest_first(s, x).len() == s.len() + 1,
    decreases s.len(),
{
    if s.len() > 0 && s.last().version_no < x.version_no {
        lemma_insert_lower_bound(s.drop_last(), x, m);
    }
}

proof fn lemma_insert_sorted(s: Seq<FileVersion>, x: FileVersion)
    requires
        is_newest_first(s),
    ensures
        is_newest_first(insert_newest_first(s, x)),
    decreases s.len(),
{
    if s.len() > 0 && s.last().version_no < x.version_no {
        let d = s.drop_last();
        lemma_insert_sorted(d, x);
        lemma_insert_lower_bound(d, x, s.last().version_no);
    }
}

/// Law: ordering newest first yields non-increasing version numbers.
pub proof fn law_sort_newest_first_is_ordered(s: Seq<FileVersion>)
    ensures
        is_newest_first(sort_newest_first(s)),
    decreases s.len(),
{
    if s.len() > 0 {
        law_sort_newest_first_is_ordered(s.drop_last());
        lemma_insert_sorted(sort_newest_first(s.drop_last()), s.last());
    }
}

/// Law: ordering newest first keeps exactly the versions it was given.
pub proof fn law_sort_newest_first_is_permutation(s: Seq<FileVersion>)
    ensures
        sort_newest_first(s).to_multiset() == s.to_multiset(),
        sort_newest_first(s).len() == s.len(),
    decreases s.len(),
{
    broadcast use vstd::seq_lib::to_multiset_build, vstd::multiset::group_multiset_axioms;

    if s.len() > 0 {
        law_sort_newest_first_is_permutation(s.drop_last());
        lemma_insert_multiset(sort_newest_first(s.drop_last()), s.last());
        assert(s.drop_last().push(s.last()) =~= s);
        sort_newest_first(s).to_multiset_ensures();
        s.to_multiset_ensures();
    }
}

/// Whether a version carries the number `version_no`.
pub open spec fn numbered(version_no: i64) -> spec_fn(FileVersion) -> bool {
    |v: FileVersion| v.version_no == version_no
}

/// The versions of `s` numbered `version_no`, in their order in `s`.
pub open spec fn versions_numbered(s: Seq<FileVersion>, version_no: i64) -> Seq<FileVersion> {
    s.filter(numbered(version_no))
}

proof fn lemma_numbered_push(t: Seq<FileVersion>, x: FileVersion, no: i64)
    ensures
        versions_numbered(t.push(x), no) == (if x.version_no == no {
            versions_numbered(t, no).push(x)
        } else {
            versions_numbered(t, no)
        }),
{
    t.lemma_filter_push(x, numbered(no));
}

proof fn lemma_insert_keeps_equal_numbers_in_order(t: Seq<FileVersion>, x: FileVersion, no: i64)
    ensures
        versions_numbered(insert_newest_first(t, x), no) == (if x.version_no == no {
            versions_numbered(t, no).push(x)
        } else {
            versions_numbered(t, no)
        }),
    decreases t.len(),
{
    if t.len() == 0 {
        lemma_numbered_push(t, x, no);
        assert(t.push(x) =~= seq![x]);
    } else if t.last().version_no >= x.version_no {
        lemma_numbered_push(t, x, no);
    } else {
        let d = t.drop_last();
        let l = t.last();
        lemma_insert_keeps_equal_numbers_in_order(d, x, no);
        let inserted = insert_newest_first(d, x);
        lemma_numbered_push(inserted, l, no);
        assert(d.push(l) =~= t);
        lemma_numbered_push(d, l, no);
    }
}

/// Law: ordering newest first is stable: the versions sharing a version number
/// keep their relative order.
pub proof fn law_sort_newest_first_is_stable(s: Seq<FileVersion>, version_no: i64)
    ensures
        versions_numbered(sort_newest_first(s), version_no) == versions_numbered(s, version_no),
    decreases s.len(),
{
    if s.len() > 0 {
        let d = s.drop_last();
        law_sort_newest_first_is_stable(d, version_no);
        lemma_insert_keeps_equal_numbers_in_order(sort_newest_first(d), s.last(), version_no);
        assert(d.push(s.last()) =~= s);
        lemma_numbered_push(d, s.last(), version_no);
    } else {
        assert(s =~= seq![]);
    }
}

/// Orders versions newest first (descending version number, stable).
pub fn sort_versions_newest_first(items: Vec<FileVersion>) -> (sorted: Vec<FileVersion>)
    ensures
        sorted@ == sort_newest_first(items@),
{
    let ghost orig = items@;
    let mut rest = items;
    let mut sorted: Vec<FileVersion> = Vec::new();
    let ghost mut k: int = 0;
    while rest.len() > 0
        invariant
            0 <= k <= orig.len(),
            rest@ == orig.skip(k),
            sorted@ == sort_newest_first(orig.take(k)),
        decreases rest.len(),
    {
        let x = rest.remove(0);
        let mut j = sorted.len();
        while j > 0 && sorted[j - 1].version_no < x.version_no
            invariant
                j <= sorted@.len(),
                forall|t: int| j <= t < sorted@.len() ==> sorted@[t].version_no < x.version_no,
            decreases j,
        {
            j = j - 1;
        }
        proof {
            lemma_insert_at_position(sorted@, x, j as int);
            assert(orig.take(k + 1).drop_last() =~= orig.take(k));
            assert(orig.take(k + 1).last() == x);
            assert(orig.skip(k).drop_first() =~= orig.skip(k + 1));
        }
        sorted.insert(j, x);
        proof {
            k = k + 1;
        }
    }
    assert(orig.take(orig.len() as int) =~= orig);
    sorted
}

/// Index `i` holds a highest version number, and no later index does
/// (`Iterator::max_by_key` keeps the last maximum).
pub open spec fn is_latest_index(s: Seq<FileVersion>, i: int) -> bool {
    &&& 0 <= i < s.len()
    &&& forall|k: int| 0 <= k < s.len() ==> s[k].version_no <= s[i].version_no
    &&& forall|k: int| i < k < s.len() ==> s[k].version_no < s[i].version_no
}

/// Only one index holds the latest version.
proof fn lemma_latest_index_unique(s: Seq<FileVersion>, i: int, j: int)
    requires
        is_latest_index(s, i),
        is_latest_index(s, j),
    ensures
        i == j,
{
    if i < j {
        assert(s[j].version_no < s[i].version_no);
        assert(s[i].version_no <= s[j].version_no);
    } else if j < i {
        assert(s[i].version_no < s[j].version_no);
        assert(s[j].version_no <= s[i].version_no);
    }
}

/// The latest version of a non-empty history: the last one with the highest
/// version number.
pub open spec fn latest_version(s: Seq<FileVersion>) -> FileVersion
    recommends
        s.len() > 0,
{
    s[choose|i: int| is_latest_index(s, i)]
}

/// What a lookup answers when a node has no version.
pub const VERSION_NOT_FOUND: &'static str = "Drive file version not found";

/// The latest version of a node: the last one with the highest version number;
/// not found when there is none.
pub fn latest_file_version(versions: Vec<FileVersion>) -> (res: Result<FileVersion, CanvasProductError>)
    ensures
        res is Err <==> versions@.len() == 0,
        res matches Err(e) ==> e matches CanvasProductError::NotFound(m) && m@ == VERSION_NOT_FOUND@,
        res matches Ok(v) ==> exists|i: int| is_latest_index(versions@, i) && v == versions@[i],
        res matches Ok(v) ==> v == latest_version(versions@),
{
    let mut versions = versions;
    let n = versions.len();
    if n == 0 {
        return Err(CanvasProductError::NotFound(String::from_str(VERSION_NOT_FOUND)));
    }
    let mut best: usize = 0;
    let mut i: usize = 1;
    while i < n
        invariant
            n == versions@.len(),
            best < i <= n,
            forall|k: int| 0 <= k < i ==> versions@[k].version_no <= versions@[best as int].version_no,
            forall|k: int| best < k < i ==> versions@[k].version_no < versions@[best as int].version_no,
        decreases n - i,
    {
        if versions[i].version_no >= versions[best].version_no {
            best = i;
        }
        i = i + 1;
    }
    let ghost s = versions@;
    assert(is_latest_index(s, best as int));
    proof {
        let i = choose|i: int| is_latest_index(s, i);
        lemma_latest_index_unique(s, i, best as int);
    }
    let v = versions.swap_remove(best);
    Ok(v)
}

/// The kind of a version: the first one is `initial`, later ones `auto`.
pub open spec fn version_kind_spec(version_no: i64) -> Seq<char> {
    if version_no <= 1 {
        "initial"@
    } else {
        "auto"@
    }
}

/// `summary` describes `version`.
pub open spec fn summarizes(summary: DriveVersionSummary, version: FileVersion) -> bool {
    &&& summary.drive_version_id@ == version.id@
    &&& summary.drive_version_no == version.version_no
    &&& summary.version_kind@ == version_kind_spec(version.version_no)
    &&& summary.version_label is None
    &&& summary.change_summary is None
    &&& summary.created_at@ == version.created_at@
}

/// Law: a history entry calls the first version (numbered 1 or less) `initial`
/// and every later version, numbered 2 or more, `auto`.
pub proof fn law_version_kind(summary: DriveVersionSummary, version: FileVersion)
    requires
        summarizes(summary, version),
    ensures
        version.version_no >= 2 ==> summary.version_kind@ == "auto"@,
        version.version_no <= 1 ==> summary.version_kind@ == "initial"@,
        summary.drive_version_no == version.version_no,
        summary.drive_version_id@ == version.id@,
{
}

/// The history entry for a Drive file version.
pub fn map_file_version_summary(version: &FileVersion) -> (summary: DriveVersionSummary)
    ensures
        summarizes(summary, *version),
{
    DriveVersionSummary {
        drive_version_id: version.id.clone(),
        drive_version_no: version.version_no,
        version_kind: if version.version_no <= 1 {
            String::from_str("initial")
        } else {
            String::from_str("auto")
        },
        version_label: None,
        change_summary: None,
        created_at: version.created_at.clone(),
    }
}

/// A requested page number, with 0 read as 1.
pub open spec fn effective_page(page: u32) -> int {
    if page >= 1 {
        page as int
    } else {
        1
    }
}

/// A requested page size, with 0 read as 1.
pub open spec fn effective_page_size(page_size: u32) -> int {
    if page_size >= 1 {
        page_size as int
    } else {
        1
    }
}

/// Index of the first entry of a page.
pub open spec fn page_start(page: u32, page_size: u32) -> int {
    (effective_page(page) - 1) * effective_page_size(page_size)
}

/// Whether entries follow the page.
pub open spec fn page_has_more(len: nat, page: u32, page_size: u32) -> bool {
    page_start(page, page_size) + effective_page_size(page_size) < len
}

/// The entries of `s` on a page.
pub open spec fn page_window<A>(s: Seq<A>, page: u32, page_size: u32) -> Seq<A> {
    let start = page_start(page, page_size);
    let end = start + effective_page_size(page_size);
    if start >= s.len() {
        Seq::empty()
    } else if end >= s.len() {
        s.subrange(start, s.len() as int)
    } else {
        s.subrange(start, end)
    }
}

/// Inputs on which computing a page overflows `u32`: the page start, or the
/// next page number when more entries follow.
pub open spec fn page_overflows(len: nat, page: u32, page_size: u32) -> bool {
    ||| page_start(page, page_size) > u32::MAX
    ||| (page == u32::MAX && page_has_more(len, page, page_size))
}

/// Whether computing the requested page of a history of `len` versions
/// overflows `u32`.
pub fn page_request_overflows(len: usize, page: u32, page_size: u32) -> (b: bool)
    ensures
        b == page_overflows(len as nat, page, page_size),
{
    let p: u64 = if page >= 1 {
        page as u64
    } else {
        1
    };
    let size: u64 = if page_size >= 1 {
        page_size as u64
    } else {
        1
    };
    assert((p - 1) * size <= 0xffff_ffff_u64 * 0xffff_ffff_u64) by (nonlinear_arith)
        requires
            1 <= p <= 0xffff_ffff,
            1 <= size <= 0xffff_ffff,
    ;
    let start: u64 = (p - 1) * size;
    assert(start == page_start(page, page_size));
    let has_more = (start as u128) + (size as u128) < len as u128;
    start > 0xffff_ffff || (page == 0xffff_ffff && has_more)
}

/// One page of a node's version history, newest first.
pub fn page_of_versions(items: Vec<FileVersion>, page: u32, page_size: u32) -> (res:
    DriveVersionPage)
    requires
        !page_overflows(items@.len(), page, page_size),
    ensures
        ({
            let window = page_window(sort_newest_first(items@), page, page_size);
            &&& res.items@.len() == window.len()
            &&& forall|i: int| 0 <= i < window.len() ==> summarizes(res.items@[i], window[i])
        }),
        res.page_info.page == page,
        res.page_info.page_size == page_size,
        res.page_info.has_more == page_has_more(items@.len(), page, page_size),
        res.page_info.next_cursor matches Some(c) ==> c@ == decimal_int(page + 1),
        res.page_info.next_cursor is Some <==> res.page_info.has_more,
{
    let ghost len = items@.len();
    let sorted = sort_versions_newest_first(items);
    proof {
        law_sort_newest_first_is_permutation(items@);
    }
    let p: u32 = if page >= 1 {
        page
    } else {
        1
    };
    let size: u32 = if page_size >= 1 {
        page_size
    } else {
        1
    };
    assert((p - 1) * size == page_start(page, page_size));
    let start64: u64 = ((p - 1) * size) as u64;
    let end64: u64 = start64 + size as u64;
    let n = sorted.len();
    let has_more = end64 < n as u64;
    let mut summaries: Vec<DriveVersionSummary> = Vec::new();
    let ghost window = page_window(sorted@, page, page_size);
    if start64 < n as u64 {
        let start = start64 as usize;
        let end: usize = if end64 < n as u64 {
            end64 as usize
        } else {
            n
        };
        let mut i = start;
        while i < end
            invariant
                start <= i <= end <= n == sorted@.len(),
                start == page_start(page, page_size),
                window == sorted@.subrange(start as int, end as int),
                summaries@.len() == i - start,
                forall|t: int| 0 <= t < i - start ==> summarizes(summaries@[t], window[t]),
            decreases end - i,
        {
            summaries.push(map_file_version_summary(&sorted[i]));
            i = i + 1;
        }
    }
    let next_cursor = if has_more {
        Some(u64_to_decimal(page as u64 + 1))
    } else {
        None
    };
    DriveVersionPage {
        items: summaries,
        page_info: PageInfo { page, page_size, has_more, next_cursor },
    }
}

/// Law: for a page numbered 1 or more, more entries follow exactly when the next
/// page is not empty.
pub proof fn law_has_more_iff_next_page_nonempty<A>(s: Seq<A>, page: u32, page_size: u32)
    requires
        1 <= page < u32::MAX,
    ensures
        page_has_more(s.len(), page, page_size) <==> page_window(s, (page + 1) as u32, page_size).len()
            > 0,
{
    let size = effective_page_size(page_size);
    assert(page_start((page + 1) as u32, page_size) == page_start(page, page_size) + size) by (nonlinear_arith)
        requires
            page_start((page + 1) as u32, page_size) == (page as int) * size,
            page_start(page, page_size) == (page as int - 1) * size,
    ;
}

/// Pages 1 to `k` of `s`, one after the other.
pub open spec fn pages_through<A>(s: Seq<A>, k: nat, page_size: u32) -> Seq<A>
    decreases k,
{
    if k == 0 {
        Seq::empty()
    } else {
        pages_through(s, (k - 1) as nat, page_size) + page_window(s, k as u32, page_size)
    }
}

/// How many entries pages 1 to `k` hold together.
pub open spec fn pages_prefix_len(len: nat, k: nat, page_size: u32) -> int {
    let end = k * effective_page_size(page_size);
    if end < len {
        end
    } else {
        len as int
    }
}

/// Pages 1 to `k` together are the first entries of `s`, page after page.
proof fn lemma_pages_are_prefix<A>(s: Seq<A>, k: nat, page_size: u32)
    requires
        k <= u32::MAX,
    ensures
        pages_through(s, k, page_size) =~= s.take(pages_prefix_len(s.len(), k, page_size)),
    decreases k,
{
    let size = effective_page_size(page_size);
    if k > 0 {
        lemma_pages_are_prefix(s, (k - 1) as nat, page_size);
        let j = (k - 1) as nat;
        assert(page_start(k as u32, page_size) == j * size);
        assert(j * size + size == k * size && 0 <= j * size) by (nonlinear_arith)
            requires
                k == j + 1,
                size >= 1,
        ;
    }
}

/// Law: once a page says that no entries follow, pages 1 up to it, one after
/// the other, are the whole sequence: every entry appears once, in order.
pub proof fn law_pages_cover_history<A>(s: Seq<A>, k: u32, page_size: u32)
    requires
        1 <= k,
        !page_has_more(s.len(), k, page_size),
    ensures
        pages_through(s, k as nat, page_size) == s,
{
    let size = effective_page_size(page_size);
    lemma_pages_are_prefix(s, k as nat, page_size);
    assert(page_start(k, page_size) + size == (k as nat) * size) by (nonlinear_arith)
        requires
            page_start(k, page_size) == (k - 1) * size,
    ;
    assert(s.take(s.len() as int) =~= s);
}

/// Law: the pages of a version history, read from page 1 until one says that no
/// versions follow, hold every version once, newest first.
pub proof fn law_version_pages_cover_history(vs: Seq<FileVersion>, k: u32, page_size: u32)
    requires
        1 <= k,
        !page_has_more(vs.len(), k, page_size),
    ensures
        pages_through(sort_newest_first(vs), k as nat, page_size) == sort_newest_first(vs),
        is_newest_first(sort_newest_first(vs)),
        sort_newest_first(vs).to_multiset() == vs.to_multiset(),
{
    law_sort_newest_first_is_permutation(vs);
    law_sort_newest_first_is_ordered(vs);
    law_pages_cover_history(sort_newest_first(vs), k, page_size);
}

/// What an update or restore answers when Drive moved on since the page was read.
pub const VERSION_CHANGED: &'static str = "page Drive version has changed";

/// What a restore answers when Drive did not record a newer version.
pub const RESTORE_NOT_ADVANCED: &'static str = "Drive restore did not advance node version";

/// A write that names the version it expects to replace goes ahead only while
/// that version is still the latest one.
pub fn ensure_expected_version(latest: &FileVersion, expected: &str) -> (res: Result<(), CanvasProductError>)
    ensures
        res is Ok <==> latest.id@ == expected@,
        res matches Err(e) ==> e matches CanvasProductError::Conflict(m) && m@ == VERSION_CHANGED@,
{
    if latest.id == String::from_str(expected) {
        Ok(())
    } else {
        Err(CanvasProductError::Conflict(String::from_str(VERSION_CHANGED)))
    }
}

/// A restore succeeds only when the node's latest version number grew.
pub fn ensure_restore_advanced(before: &FileVersion, after: &FileVersion) -> (res: Result<
    (),
    CanvasProductError,
>)
    ensures
        res is Ok <==> after.version_no > before.version_no,
        res matches Err(e) ==> e matches CanvasProductError::Internal(m) && m@ == RESTORE_NOT_ADVANCED@,
{
    if after.version_no <= before.version_no {
        Err(CanvasProductError::Internal(String::from_str(RESTORE_NOT_ADVANCED)))
    } else {
        Ok(())
    }
}

/// The token of the next page: the one Drive gave, unless it is missing or blank.
pub open spec fn next_page_token_spec(token: Option<Seq<char>>) -> Option<Seq<char>> {
    match token {
        Some(t) => if is_blank_spec(Some(t)) {
            None
        } else {
            Some(t)
        },
        None => None,
    }
}

/// The token of the next page of a version listing: a blank token ends it.
pub fn next_version_page_token(token: Option<String>) -> (next: Option<String>)
    ensures
        opt_chars(next) == next_page_token_spec(opt_chars(token)),
{
    match token {
        Some(t) => if is_blank(Some(t.as_str())) {
            None
        } else {
            Some(t)
        },
        None => None,
    }
}

/// How many versions one listing request asks Drive for.
pub const VERSION_LIST_PAGE_SIZE: i64 = 100;

/// One page of a node's version listing, as Drive answers it.
#[derive(Debug)]
pub struct VersionListPage {
    pub items: Vec<FileVersion>,
    pub next_page_token: Option<String>,
}

/// The call a version listing asks for next, or its outcome.
#[derive(Debug)]
pub enum VersionListingAction {
    FetchPage { node_id: String, page_size: i64, page_token: Option<String> },
    Finish(Result<Vec<FileVersion>, CanvasProductError>),
}

/// The listing of every version of the Drive node `node_id`, page by page;
/// `collected` holds the versions of the pages read so far, in order.
#[derive(Debug)]
pub struct VersionListing {
    pub node_id: String,
    pub collected: Vec<FileVersion>,
}

impl VersionListing {
    /// The first step of a listing: its first page.
    pub fn start(node_id: String) -> (res: (VersionListing, VersionListingAction))
        ensures
            res.0.node_id == node_id,
            res.0.collected@.len() == 0,
            res.1 matches VersionListingAction::FetchPage { node_id: n, page_size, page_token } && n
                == node_id && page_size == VERSION_LIST_PAGE_SIZE && page_token is None,
    {
        let action = VersionListingAction::FetchPage {
            node_id: node_id.clone(),
            page_size: VERSION_LIST_PAGE_SIZE,
            page_token: None,
        };
        (VersionListing { node_id, collected: Vec::new() }, action)
    }

    /// Takes in the answer for one page. A failed request ends the listing with
    /// `list Drive file versions: {error}`; a page adds its versions and asks
    /// for the next page while Drive gives a token that is not blank; the
    /// listing then finishes with every version read, in order.
    pub fn on_page(&mut self, page: Result<VersionListPage, String>) -> (action: VersionListingAction)
        ensures
            final(self).node_id == old(self).node_id,
            match page {
                Err(e) => action matches VersionListingAction::Finish(Err(err)) && is_internal_error(
                    err,
                    "list Drive file versions"@ + ": "@ + e@,
                ),
                Ok(p) => match next_page_token_spec(opt_chars(p.next_page_token)) {
                    Some(t) => final(self).collected@ == old(self).collected@ + p.items@ && (
                    action matches VersionListingAction::FetchPage { node_id, page_size, page_token }
                        && node_id == old(self).node_id && page_size == VERSION_LIST_PAGE_SIZE
                        && opt_chars(page_token) == Some(t)),
                    None => action matches VersionListingAction::Finish(Ok(all)) && all@ == old(
                        self,
                    ).collected@ + p.items@,
                },
            },
    {
        match page {
            Err(e) => VersionListingAction::Finish(Err(drive_call_error("list Drive file versions", e.as_str()))),
            Ok(p) => {
                let mut items = p.items;
                self.collected.append(&mut items);
                match next_version_page_token(p.next_page_token) {
                    Some(t) => VersionListingAction::FetchPage {
                        node_id: self.node_id.clone(),
                        page_size: VERSION_LIST_PAGE_SIZE,
                        page_token: Some(t),
                    },
                    None => {
                        let mut all: Vec<FileVersion> = Vec::new();
                        std::mem::swap(&mut all, &mut self.collected);
                        VersionListingAction::Finish(Ok(all))
                    },
                }
            },
        }
    }
}

} // verus!
