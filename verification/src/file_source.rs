//! The paged file accessor.
//!
//! [`FileWatcher`] answers byte-range requests against the active file
//! through a cache of fixed-size pages, keyed by page index.  The accessor
//! owns every decision of the read path: whether a request is well formed,
//! which page it needs, and what a cached page yields.  The application
//! around it performs the disk work the decisions call for — it loads the
//! page a request reports missing and hands the bytes back through
//! [`FileWatcher::insert_page`], opens files and reports the outcome through
//! [`FileWatcher::try_update_active_file`], and forwards filesystem events
//! through [`FileWatcher::handle_fs_event`].

use crate::events::{event_invalidates, spec_event_invalidates, FsEventKind};
use std::collections::HashMap;
use vstd::arithmetic::div_mod::{
    lemma_div_nonincreasing, lemma_div_pos_is_pos, lemma_fundamental_div_mod,
    lemma_mod_division_less_than_divisor,
};
use vstd::prelude::*;

verus! {

broadcast use vstd::std_specs::hash::group_hash_axioms;

/// Page size used when the operating system reports none.
pub const DEFAULT_PAGE_SIZE: usize = 4096;

/// Why a range request failed.
#[derive(Clone, Copy, Debug, PartialEq, Eq, Structural)]
pub enum ReadError {
    /// The request spans two pages; the accessor serves only ranges that lie
    /// inside one page.
    CrossPageRequest,
    /// The start lies at or past the end of the file, or past the end of the
    /// range.
    OutOfRange,
    /// The output buffer cannot hold the computed number of bytes.
    BufferTooSmall,
    /// Loading a page from disk failed; raised by the application when the
    /// load that a [`ReadOutcome::NeedPage`] asked for goes wrong.
    IoFailure,
}

/// Why a path switch failed.  Registration of the directory watch is
/// deliberately absent: its failure is tolerated — the switch still
/// succeeds, live reload is simply unavailable for that path.
#[derive(Clone, Copy, Debug, PartialEq, Eq, Structural)]
pub enum SwitchError {
    /// Expansion failed, the path does not exist, or it is not a regular
    /// file.
    PathInvalid,
    /// The file exists but could not be opened.
    OpenFailed,
}

/// What a range request decided.
#[derive(Clone, Copy, Debug, PartialEq, Eq, Structural)]
pub enum ReadOutcome {
    /// The request was served from the cache; this many bytes were written
    /// to the start of the output buffer.
    Filled(usize),
    /// The page with this index is not cached: load it from disk, hand it to
    /// [`FileWatcher::insert_page`], and repeat the request.
    NeedPage(usize),
    /// The request failed; the output buffer is untouched.
    Failed(ReadError),
}

/// The paged accessor: the active file's path, the configured page size, and
/// the cache of loaded pages.
pub struct FileWatcher {
    page_size: usize,
    active_path: Option<String>,
    content: HashMap<usize, Vec<u8>>,
}

impl FileWatcher {
    /// The configured page size.
    pub closed spec fn spec_page_size(self) -> usize {
        self.page_size
    }

    /// The path of the active file, if one is active.
    pub closed spec fn path(self) -> Option<String> {
        self.active_path
    }

    /// The cached pages, by page index.
    pub closed spec fn pages(self) -> Map<usize, Vec<u8>> {
        self.content@
    }

    /// Well-formed: a positive page size, and no cached page longer than a
    /// page.
    pub open spec fn wf(self) -> bool {
        &&& self.spec_page_size() >= 1
        &&& forall|pn: usize|
            self.pages().contains_key(pn) ==> (#[trigger] self.pages()[pn])@.len()
                <= self.spec_page_size()
    }

    /// The index of the page a byte offset falls in.
    pub open spec fn spec_page_of(self, index: usize) -> int {
        index as int / self.spec_page_size() as int
    }

    /// The index of the page a byte offset falls in, as a cache key.
    pub open spec fn page_key(self, index: usize) -> usize {
        self.spec_page_of(index) as usize
    }

    /// The offset of a byte inside its page.
    pub open spec fn spec_offset_in_page(self, index: usize) -> int {
        index as int % self.spec_page_size() as int
    }

    /// How many bytes the in-page request `[start, end)` yields from a page
    /// `page_len` bytes long: the part of the offset range that lies inside
    /// the page.  A short final page can cut the count below `end - start`,
    /// down to zero.
    pub open spec fn spec_out_len(self, page_len: int, start: usize, end: usize) -> int {
        let so = self.spec_offset_in_page(start);
        let eo_raw = self.spec_offset_in_page(end);
        let eo = if eo_raw < page_len {
            eo_raw
        } else {
            page_len
        };
        if so >= eo {
            0
        } else {
            eo - so
        }
    }

    /// What a range request decides, given the current cache, the file
    /// length, and the length of the output buffer.
    pub open spec fn spec_read_plan(
        self,
        start: usize,
        end: usize,
        file_len: usize,
        buf_len: int,
    ) -> ReadOutcome {
        if self.spec_page_of(start) != self.spec_page_of(end) {
            ReadOutcome::Failed(ReadError::CrossPageRequest)
        } else if start >= file_len || start > end {
            ReadOutcome::Failed(ReadError::OutOfRange)
        } else if !self.pages().contains_key(self.page_key(start)) {
            ReadOutcome::NeedPage(self.page_key(start))
        } else {
            let n = self.spec_out_len(
                self.pages()[self.page_key(start)]@.len() as int,
                start,
                end,
            );
            if buf_len < n {
                ReadOutcome::Failed(ReadError::BufferTooSmall)
            } else {
                ReadOutcome::Filled(n as usize)
            }
        }
    }

    /// Creates an accessor with the operating system's page size, no active
    /// file and an empty cache.  A system that reports no page size gets
    /// [`DEFAULT_PAGE_SIZE`].
    pub fn new() -> (r: Self)
        ensures
            r.wf(),
            r.path() is None,
            r.pages() == Map::<usize, Vec<u8>>::empty(),
    {
        let reported = os_page_size();
        let page_size = if reported == 0 {
            DEFAULT_PAGE_SIZE
        } else {
            reported
        };
        FileWatcher { page_size, active_path: None, content: HashMap::new() }
    }

    /// Creates an accessor with the given page size, no active file and an
    /// empty cache.
    pub fn with_page_size(page_size: usize) -> (r: Self)
        requires
            page_size >= 1,
        ensures
            r.wf(),
            r.spec_page_size() == page_size,
            r.path() is None,
            r.pages() == Map::<usize, Vec<u8>>::empty(),
    {
        FileWatcher { page_size, active_path: None, content: HashMap::new() }
    }

    /// The configured page size.
    pub fn page_size(&self) -> (r: usize)
        ensures
            r == self.spec_page_size(),
    {
        self.page_size
    }

    /// The path of the active file, if one is active.
    pub fn active_path(&self) -> (r: &Option<String>)
        ensures
            *r == self.path(),
    {
        &self.active_path
    }

    /// The page index of a byte offset.
    pub fn index_to_page_number(&self, index: usize) -> (r: usize)
        requires
            self.wf(),
        ensures
            r as int == self.spec_page_of(index),
            r == self.page_key(index),
    {
        proof {
            lemma_div_pos_is_pos(index as int, self.page_size as int);
            lemma_div_nonincreasing(index as int, self.page_size as int);
        }
        index / self.page_size
    }

    /// The offset of a byte inside its page.
    pub fn offset_in_page(&self, index: usize) -> (r: usize)
        requires
            self.wf(),
        ensures
            r as int == self.spec_offset_in_page(index),
            r < self.spec_page_size(),
    {
        proof {
            lemma_mod_division_less_than_divisor(index as int, self.page_size as int);
        }
        index % self.page_size
    }

    /// Whether the page with this index is cached.
    pub fn has_cached_page(&self, page_number: usize) -> (r: bool)
        ensures
            r == self.pages().contains_key(page_number),
    {
        self.content.contains_key(&page_number)
    }

    /// How many pages are cached.
    pub fn cached_page_count(&self) -> (r: usize)
        ensures
            r == self.pages().len(),
    {
        self.content.len()
    }

    /// Stores a freshly loaded page.  The application calls this with the
    /// bytes read from disk for the page a request reported missing; a load
    /// near the end of the file may return fewer bytes than a full page,
    /// never more.
    pub fn insert_page(&mut self, page_number: usize, bytes: Vec<u8>)
        requires
            old(self).wf(),
            bytes@.len() <= old(self).spec_page_size(),
        ensures
            final(self).wf(),
            final(self).spec_page_size() == old(self).spec_page_size(),
            final(self).path() == old(self).path(),
            final(self).pages() == old(self).pages().insert(page_number, bytes),
    {
        self.content.insert(page_number, bytes);
        proof {
            assert forall|pn: usize| self.pages().contains_key(pn) implies (#[trigger] self.pages()[pn])@.len()
                <= self.spec_page_size() by {
                if pn != page_number {
                    assert(old(self).pages().contains_key(pn));
                }
            }
        }
    }

    /// Commits the outcome of opening a new file.  The application expands
    /// and opens the requested path itself; on success it passes the opened
    /// path here, and the accessor replaces the active file and discards
    /// every cached page of the previous one.  On failure it passes the
    /// error and nothing changes: the previous file, if any, stays active
    /// and its cache stays valid.  Returns the newly active path, or the
    /// failure unchanged.
    pub fn try_update_active_file(&mut self, opened: Result<String, SwitchError>) -> (r: Result<
        String,
        SwitchError,
    >)
        requires
            old(self).wf(),
        ensures
            final(self).wf(),
            final(self).spec_page_size() == old(self).spec_page_size(),
            opened is Ok ==> {
                &&& final(self).path() == Some(opened->Ok_0)
                &&& final(self).pages() == Map::<usize, Vec<u8>>::empty()
                &&& r == opened
            },
            opened is Err ==> *final(self) == *old(self) && r == opened,
    {
        match opened {
            Ok(path) => {
                self.content.clear();
                self.active_path = Some(path.clone());
                Ok(path)
            },
            Err(e) => Err(e),
        }
    }

    /// Applies a filesystem event: a relevant one discards every cached
    /// page, so the next read of any range misses and re-fetches fresh bytes
    /// from disk; an irrelevant one — a pure access notification — changes
    /// nothing, and cached pages keep being served.
    pub fn handle_fs_event(&mut self, kind: FsEventKind)
        requires
            old(self).wf(),
        ensures
            final(self).wf(),
            final(self).spec_page_size() == old(self).spec_page_size(),
            final(self).path() == old(self).path(),
            spec_event_invalidates(kind) ==> final(self).pages() == Map::<usize, Vec<u8>>::empty(),
            !spec_event_invalidates(kind) ==> *final(self) == *old(self),
    {
        if event_invalidates(kind) {
            self.content.clear();
        }
    }

    /// Serves the byte range `[start, end)` out of the page cache.
    ///
    /// The request must lie inside one page; one that spans two fails with
    /// [`ReadError::CrossPageRequest`].  A start at or past the end of the
    /// file, or past `end`, fails with [`ReadError::OutOfRange`].  When the
    /// page of `start` is not cached, nothing is written and the caller is
    /// asked for it with [`ReadOutcome::NeedPage`].  Otherwise the part of
    /// the range that the cached page covers — possibly fewer bytes than
    /// requested near the end of a short final page, and never an error on
    /// that account — is copied to the front of `out`, whose length never
    /// changes; a buffer too short for that count fails with
    /// [`ReadError::BufferTooSmall`].  On every outcome but
    /// [`ReadOutcome::Filled`] the buffer is untouched, and no outcome
    /// changes the cache.
    pub fn get_range_within_page(
        &self,
        start: usize,
        end: usize,
        file_len: usize,
        out: &mut Vec<u8>,
    ) -> (r: ReadOutcome)
        requires
            self.wf(),
        ensures
            r == self.spec_read_plan(start, end, file_len, old(out)@.len() as int),
            final(out)@.len() == old(out)@.len(),
            match r {
                ReadOutcome::Filled(n) => {
                    &&& forall|i: int|
                        0 <= i < n ==> final(out)@[i] == self.pages()[self.page_key(start)]@[
                            self.spec_offset_in_page(start) + i
                        ]
                    &&& forall|i: int| n <= i < old(out)@.len() ==> final(out)@[i] == old(out)@[i]
                },
                _ => final(out)@ == old(out)@,
            },
    {
        let page_number = self.index_to_page_number(start);
        if page_number != self.index_to_page_number(end) {
            return ReadOutcome::Failed(ReadError::CrossPageRequest);
        }
        if start >= file_len || start > end {
            return ReadOutcome::Failed(ReadError::OutOfRange);
        }
        match self.content.get(&page_number) {
            None => ReadOutcome::NeedPage(page_number),
            Some(page) => {
                let page_len = page.len();
                let start_offset = self.offset_in_page(start);
                let end_offset_raw = self.offset_in_page(end);
                let end_offset = if end_offset_raw < page_len {
                    end_offset_raw
                } else {
                    page_len
                };
                let output_len = if start_offset >= end_offset {
                    0
                } else {
                    end_offset - start_offset
                };
                if out.len() < output_len {
                    return ReadOutcome::Failed(ReadError::BufferTooSmall);
                }
                let mut i: usize = 0;
                while i < output_len
                    invariant
                        i <= output_len,
                        output_len <= out@.len(),
                        out@.len() == old(out)@.len(),
                        page@.len() == page_len,
                        output_len == 0 || start_offset + output_len <= page@.len(),
                        forall|j: int| 0 <= j < i ==> out@[j] == page@[start_offset + j],
                        forall|j: int| i <= j < out@.len() ==> out@[j] == old(out)@[j],
                    decreases output_len - i,
                {
                    let b = page[start_offset + i];
                    out[i] = b;
                    i += 1;
                }
                ReadOutcome::Filled(output_len)
            },
        }
    }
}

/// The bytes page `pn` of a file holds when the file's contents are `file`:
/// the slice of one page size starting at `pn * page_size`, cut short at the
/// end of the file.  A page entirely past the end is empty.
pub open spec fn page_from_file(file: Seq<u8>, page_size: usize, pn: usize) -> Seq<u8> {
    let len = file.len() as int;
    let lo = if pn * page_size < len {
        pn * page_size
    } else {
        len
    };
    let hi = if (pn + 1) * page_size < len {
        (pn + 1) * page_size
    } else {
        len
    };
    file.subrange(lo, hi)
}

impl FileWatcher {
    /// Every cached page holds exactly the corresponding bytes of `file` —
    /// the state the cache is in when every page was loaded while the file
    /// on disk held `file`.
    pub open spec fn cache_matches_file(self, file: Seq<u8>) -> bool {
        forall|pn: usize|
            self.pages().contains_key(pn) ==> (#[trigger] self.pages()[pn])@ == page_from_file(
                file,
                self.spec_page_size(),
                pn,
            )
    }
}

/// Law: an empty cache holds no stale page of any file — after a path
/// switch or an invalidation, the cache agrees with whatever the file on
/// disk now holds, so every byte served from then on is a byte of that
/// file.
pub proof fn lemma_empty_cache_matches_any_file(w: FileWatcher, file: Seq<u8>)
    requires
        w.pages() == Map::<usize, Vec<u8>>::empty(),
    ensures
        w.cache_matches_file(file),
{
}

/// Law: loading a missing page from the file keeps the cache agreeing with
/// it.  When the accessor's cache matches `file` and a page is inserted
/// whose bytes are that page of `file` — what
/// [`FileWatcher::insert_page`]'s caller read from disk — the grown cache
/// (the state [`FileWatcher::insert_page`] ensures) matches `file` still.
pub proof fn lemma_loaded_page_keeps_cache_matching(
    w: FileWatcher,
    w2: FileWatcher,
    file: Seq<u8>,
    pn: usize,
    bytes: Vec<u8>,
)
    requires
        w.cache_matches_file(file),
        w2.spec_page_size() == w.spec_page_size(),
        w2.pages() == w.pages().insert(pn, bytes),
        bytes@ == page_from_file(file, w.spec_page_size(), pn),
    ensures
        w2.cache_matches_file(file),
{
    assert forall|p: usize| w2.pages().contains_key(p) implies (#[trigger] w2.pages()[p])@
        == page_from_file(file, w2.spec_page_size(), p) by {
        if p != pn {
            assert(w.pages().contains_key(p));
        }
    }
}

/// Law: a valid in-page request that lies inside the file is served in full.
/// When the cache agrees with the file on disk and holds the page of
/// `start`, a request for `[start, end)` with both ends in one page and
/// `end` within the file yields exactly `end - start` bytes, and they are
/// the file's bytes at that offset.
pub proof fn lemma_read_serves_file_bytes(
    w: FileWatcher,
    file: Seq<u8>,
    start: usize,
    end: usize,
    buf_len: int,
)
    requires
        w.wf(),
        w.cache_matches_file(file),
        w.spec_page_of(start) == w.spec_page_of(end),
        start <= end,
        end <= file.len(),
        start < file.len(),
        file.len() <= usize::MAX,
        w.pages().contains_key(w.page_key(start)),
        buf_len >= end - start,
    ensures
        w.spec_read_plan(start, end, file.len() as usize, buf_len) == ReadOutcome::Filled(
            (end - start) as usize,
        ),
        w.pages()[w.page_key(start)]@.subrange(
            w.spec_offset_in_page(start),
            w.spec_offset_in_page(start) + (end - start),
        ) == file.subrange(start as int, end as int),
{
    let ps = w.spec_page_size() as int;
    let pq = w.spec_page_of(start);
    let so = w.spec_offset_in_page(start);
    let eo = w.spec_offset_in_page(end);
    lemma_div_pos_is_pos(start as int, ps);
    lemma_div_nonincreasing(start as int, ps);
    lemma_fundamental_div_mod(start as int, ps);
    lemma_mod_division_less_than_divisor(start as int, ps);
    lemma_fundamental_div_mod(end as int, ps);
    lemma_mod_division_less_than_divisor(end as int, ps);
    assert(start as int == ps * pq + so);
    assert(end as int == ps * pq + eo);
    let pk = w.page_key(start);
    assert(pk as int == pq);
    let len = file.len() as int;
    assert(pk * w.spec_page_size() == ps * pq) by (nonlinear_arith)
        requires
            pk as int == pq,
            ps == w.spec_page_size() as int,
    ;
    assert((pk + 1) * w.spec_page_size() == ps * pq + ps) by (nonlinear_arith)
        requires
            pk as int == pq,
            ps == w.spec_page_size() as int,
    ;
    let page = w.pages()[pk]@;
    assert(page == page_from_file(file, w.spec_page_size(), pk));
    // The page starts inside the file, at the page boundary below `start`.
    assert(ps * pq <= start as int);
    let hi = if ps * pq + ps < len {
        ps * pq + ps
    } else {
        len
    };
    assert(page == file.subrange(ps * pq, hi));
    assert(page.len() == hi - ps * pq);
    // `end` lies within the page's slice, so the read is not cut short.
    assert(end as int <= hi);
    assert(eo <= page.len());
    assert(w.spec_out_len(page.len() as int, start, end) == end - start);
    let served = page.subrange(so, so + (end - start));
    let wanted = file.subrange(start as int, end as int);
    assert forall|i: int| 0 <= i < end - start implies served[i] == wanted[i] by {
        assert(page[so + i] == file[ps * pq + (so + i)]);
    }
    assert(served =~= wanted);
}

/// Law: a cached page is served without touching the disk again.  Once the
/// cache holds the page of `start`, no request for `[start, end)` asks for a
/// page load, whatever the file length or the buffer; and since a read
/// changes neither the cache nor the buffer's length, repeating the same
/// request keeps returning the same outcome and the same bytes.
pub proof fn lemma_cached_read_needs_no_load(
    w: FileWatcher,
    start: usize,
    end: usize,
    file_len: usize,
    buf_len: int,
)
    requires
        w.wf(),
        w.pages().contains_key(w.page_key(start)),
    ensures
        forall|pn: usize| w.spec_read_plan(start, end, file_len, buf_len) != ReadOutcome::NeedPage(
            pn,
        ),
{
}

/// Law: after the cache is cleared — by a relevant filesystem event or a
/// path switch — every valid in-page request misses, so the next bytes
/// served are re-fetched from the changed file rather than a stale page.
pub proof fn lemma_cleared_cache_reloads(
    w: FileWatcher,
    start: usize,
    end: usize,
    file_len: usize,
    buf_len: int,
)
    requires
        w.wf(),
        w.pages() == Map::<usize, Vec<u8>>::empty(),
        w.spec_page_of(start) == w.spec_page_of(end),
        start <= end,
        start < file_len,
    ensures
        w.spec_read_plan(start, end, file_len, buf_len) == ReadOutcome::NeedPage(
            w.page_key(start),
        ),
{
}

/// Relies on page_size::get: reports the operating system's memory page
/// size.  The machine decides the value, so nothing is promised of it.
#[verifier::external_body]
fn os_page_size() -> (r: usize) {
    page_size::get()
}

/// A path with no shell syntax to expand: no `$` anywhere and no leading
/// `~`.  Expanding such a path changes nothing.
pub open spec fn plain_path(s: Seq<char>) -> bool {
    &&& forall|i: int| 0 <= i < s.len() ==> s[i] != '$'
    &&& s.len() == 0 || s[0] != '~'
}

/// Relies on shellexpand::full: expands environment variables (`$VAR`,
/// `${VAR}`) and a leading `~` in a path.  The process environment decides
/// the result, so only the untouched case is stated: an input with no `$`
/// anywhere and no leading `~` comes back unchanged, and cannot fail, since
/// only variable lookups produce errors.
#[verifier::external_body]
fn shell_expand(raw: &String) -> (r: Option<String>)
    ensures
        r is None ==> !plain_path(raw@),
        r matches Some(e) ==> plain_path(raw@) ==> e@ == raw@,
{
    match shellexpand::full(raw.as_str()) {
        Ok(expanded) => Some(expanded.to_string()),
        Err(_) => None,
    }
}

/// Expands shell syntax in a raw path.  An input the expansion cannot handle
/// yields the empty string, which names no file, so the open that follows
/// fails and the previous active file stays in place.
pub fn expand_path(raw: &String) -> (r: String)
    ensures
        plain_path(raw@) ==> r@ == raw@,
{
    match shell_expand(raw) {
        Some(expanded) => expanded,
        None => String::new(),
    }
}

} // verus!

