//! Looking a name up in a FAT directory.
//!
//! A directory is a run of 32-byte entries. A long name stands in front of
//! the entry that it names, in pieces of thirteen characters, last piece
//! first. Names are compared without regard to the case of ASCII letters,
//! and with the white space at both ends left out.

use crate::bytes::le_u16;
use crate::error::FsError;
use crate::fat::ClusterId;
use crate::inode::is_directory_entry;
use crate::inode::DirectoryEntry;
use crate::inode::Inode;
use crate::inode::ENTRY_LEN;
use vstd::prelude::*;
use vstd::slice::slice_subrange;

verus! {

/// The longest name that the pieces of a long name can make up.
pub const NAME_MAX: usize = 256;

/// The number of characters in one piece of a long name.
pub const PIECE_LEN: usize = 13;

/// Whether `b` is ASCII white space.
pub open spec fn is_space(b: u8) -> bool {
    b == 0x20 || (0x09 <= b <= 0x0d)
}

/// `b` in lower case, if it is an ASCII letter in upper case; `b` itself
/// otherwise.
pub open spec fn lower(b: u8) -> u8 {
    if 0x41 <= b <= 0x5a {
        (b + 32) as u8
    } else {
        b
    }
}

/// The first place at or after `i` that holds no white space, or the
/// length of `s`.
pub open spec fn skip_spaces(s: Seq<u8>, i: int) -> int
    decreases s.len() - i,
{
    if 0 <= i < s.len() && is_space(s[i]) {
        skip_spaces(s, i + 1)
    } else {
        i
    }
}

/// The place just after the last character before `j` that is no white
/// space, but not below `lo`.
pub open spec fn drop_spaces(s: Seq<u8>, lo: int, j: int) -> int
    decreases j,
{
    if 0 <= lo < j <= s.len() && is_space(s[j - 1]) {
        drop_spaces(s, lo, j - 1)
    } else {
        j
    }
}

/// `s` without the white space at its ends.
pub open spec fn trimmed(s: Seq<u8>) -> Seq<u8> {
    let lo = skip_spaces(s, 0);
    s.subrange(lo, drop_spaces(s, lo, s.len() as int))
}

/// Whether two names are the same but for the case of ASCII letters.
pub open spec fn same_name(a: Seq<u8>, b: Seq<u8>) -> bool {
    a.len() == b.len() && forall|i: int| 0 <= i < a.len() ==> lower(a[i]) == lower(b[i])
}

/// Where in an entry character `index` of a piece of a long name stands.
pub open spec fn piece_place(index: int) -> int {
    if index < 5 {
        1 + 2 * index
    } else if index < 11 {
        14 + 2 * (index - 5)
    } else {
        28 + 2 * (index - 11)
    }
}

/// Whether a character of a piece belongs to the name: it is ASCII and not
/// the filler.
pub open spec fn counts(b: u8) -> bool {
    b != 0 && b < 0x80
}

/// The name so far: the bytes that the pieces have left, and how many
/// characters they have brought.
pub struct NameBuffer {
    pub bytes: Seq<u8>,
    pub len: nat,
}

/// The buffer before any piece.
pub open spec fn empty_buffer() -> NameBuffer {
    NameBuffer { bytes: Seq::new(NAME_MAX as nat, |i: int| 0u8), len: 0 }
}

/// Where in the name the piece belongs, given the first byte of its
/// entry: pieces are numbered from one, and the last piece is marked with
/// bit 6.
pub open spec fn piece_offset(ordering: u8) -> int {
    (((ordering - 1) as u8) & 0xbf) * PIECE_LEN
}

/// Whether the piece has a number and lies within the longest name.
pub open spec fn piece_fits(ordering: u8) -> bool {
    ordering >= 1 && piece_offset(ordering) + PIECE_LEN <= NAME_MAX
}

/// The buffer after the first `n` characters of the piece in `chunk` have
/// been looked at, and how many of them belonged to the name. They go into
/// the buffer one after the other from the place of the piece on.
pub open spec fn with_piece(buffer: NameBuffer, chunk: Seq<u8>, n: int) -> (NameBuffer, int)
    decreases n,
{
    if n <= 0 {
        (buffer, 0)
    } else {
        let (before, taken) = with_piece(buffer, chunk, n - 1);
        let b = chunk[piece_place(n - 1)];
        if counts(b) {
            (
                NameBuffer {
                    bytes: before.bytes.update(piece_offset(chunk[0]) + taken, b),
                    len: before.len + 1,
                },
                taken + 1,
            )
        } else {
            (before, taken)
        }
    }
}

/// What the search of a directory comes to, as the place of an entry.
pub enum SearchOutcome {
    /// Entry `0` of the directory is the one that the name names.
    FoundAt(int),
    /// Entry `0` of the directory is the directory in which the search has
    /// to go on.
    DescendAt(int),
    NotFound,
    Malformed,
}

/// What the search of a directory comes to.
#[derive(Debug, Clone, Copy)]
pub enum DirSearch {
    /// The entry that the name names.
    Found(DirectoryEntry),
    /// The directory in which the search has to go on with the rest of the
    /// path.
    Descend(DirectoryEntry),
    /// The directory holds no such name.
    NotFound,
    /// The directory holds a long name that is out of bounds.
    Malformed,
}

/// The bytes of entry `i` of a directory.
pub open spec fn entry_bytes(data: Seq<u8>, i: int) -> Seq<u8> {
    data.subrange(i * ENTRY_LEN, (i + 1) * ENTRY_LEN)
}

/// The search of the directory `data` from entry `i` on for the name
/// `part`, with the pieces of a long name that stood before entry `i` in
/// `buffer`; `more` says that the path goes on after `part`.
///
/// Empty entries and volume labels are passed over. A piece of a long name
/// goes into the buffer. An entry for a directory is the one that is
/// sought if the name in the buffer is `part`; a path that goes on is
/// followed into it. An entry for a file is the one that is sought if the
/// path ends with `part` and the name in the buffer is `part`. An entry
/// that is not the one empties the buffer.
pub open spec fn search_from(data: Seq<u8>, i: int, buffer: NameBuffer, part: Seq<u8>, more: bool) -> SearchOutcome
    decreases data.len() - i * ENTRY_LEN,
{
    if i < 0 || (i + 1) * ENTRY_LEN > data.len() {
        SearchOutcome::NotFound
    } else {
        let chunk = entry_bytes(data, i);
        let attributes = chunk[11];
        if attributes == 0 || attributes == 0x08 {
            search_from(data, i + 1, buffer, part, more)
        } else if buffer.len > NAME_MAX {
            SearchOutcome::Malformed
        } else {
            let matches = same_name(
                trimmed(part),
                trimmed(buffer.bytes.subrange(0, buffer.len as int)),
            );
            if attributes & 0x10 != 0 {
                if matches {
                    if more {
                        SearchOutcome::DescendAt(i)
                    } else {
                        SearchOutcome::FoundAt(i)
                    }
                } else {
                    search_from(data, i + 1, empty_buffer(), part, more)
                }
            } else if attributes == 0x0f {
                if !piece_fits(chunk[0]) {
                    SearchOutcome::Malformed
                } else {
                    search_from(
                        data,
                        i + 1,
                        with_piece(buffer, chunk, PIECE_LEN as int).0,
                        part,
                        more,
                    )
                }
            } else {
                if !more && matches {
                    SearchOutcome::FoundAt(i)
                } else {
                    search_from(data, i + 1, empty_buffer(), part, more)
                }
            }
        }
    }
}

/// Whether `found` is what `outcome` says, with the entry read out of the
/// directory.
pub open spec fn search_agrees(data: Seq<u8>, outcome: SearchOutcome, found: DirSearch) -> bool {
    match outcome {
        SearchOutcome::FoundAt(i) => found matches DirSearch::Found(entry) && is_directory_entry(
            entry_bytes(data, i),
            entry,
        ),
        SearchOutcome::DescendAt(i) => found matches DirSearch::Descend(entry)
            && is_directory_entry(entry_bytes(data, i), entry),
        SearchOutcome::NotFound => found is NotFound,
        SearchOutcome::Malformed => found is Malformed,
    }
}

fn is_space_byte(b: u8) -> (r: bool)
    ensures
        r == is_space(b),
{
    b == 0x20 || (0x09 <= b && b <= 0x0d)
}

fn lower_byte(b: u8) -> (r: u8)
    ensures
        r == lower(b),
{
    if 0x41 <= b && b <= 0x5a {
        b + 32
    } else {
        b
    }
}

/// Where the name in the first `len` bytes of `s` starts and ends once the
/// white space at its ends is left out.
fn trim_bounds(s: &[u8], len: usize) -> (r: (usize, usize))
    requires
        len <= s@.len(),
    ensures
        r.0 <= r.1 <= len,
        s@.subrange(r.0 as int, r.1 as int) == trimmed(s@.subrange(0, len as int)),
{
    let ghost whole = s@.subrange(0, len as int);
    let mut lo: usize = 0;
    while lo < len && is_space_byte(s[lo])
        invariant
            lo <= len <= s@.len(),
            whole == s@.subrange(0, len as int),
            skip_spaces(whole, lo as int) == skip_spaces(whole, 0),
        decreases len - lo,
    {
        lo += 1;
    }
    let mut hi: usize = len;
    while hi > lo && is_space_byte(s[hi - 1])
        invariant
            lo <= hi <= len <= s@.len(),
            whole == s@.subrange(0, len as int),
            lo == skip_spaces(whole, 0),
            drop_spaces(whole, lo as int, hi as int) == drop_spaces(whole, lo as int, len as int),
        decreases hi,
    {
        hi -= 1;
    }
    assert(s@.subrange(lo as int, hi as int) =~= whole.subrange(lo as int, hi as int));
    (lo, hi)
}

/// Whether the stretch of `a` and the stretch of `b` hold the same name.
fn same_stretch(a: &[u8], a_lo: usize, a_hi: usize, b: &[u8], b_lo: usize, b_hi: usize) -> (r: bool)
    requires
        a_lo <= a_hi <= a@.len(),
        b_lo <= b_hi <= b@.len(),
    ensures
        r == same_name(a@.subrange(a_lo as int, a_hi as int), b@.subrange(b_lo as int, b_hi as int)),
{
    if a_hi - a_lo != b_hi - b_lo {
        return false;
    }
    let n: usize = a_hi - a_lo;
    let ghost x = a@.subrange(a_lo as int, a_hi as int);
    let ghost y = b@.subrange(b_lo as int, b_hi as int);
    let mut i: usize = 0;
    while i < n
        invariant
            i <= n,
            n == a_hi - a_lo,
            n == b_hi - b_lo,
            a_hi <= a@.len(),
            b_hi <= b@.len(),
            x == a@.subrange(a_lo as int, a_hi as int),
            y == b@.subrange(b_lo as int, b_hi as int),
            forall|j: int| 0 <= j < i ==> lower(x[j]) == lower(y[j]),
        decreases n - i,
    {
        if lower_byte(a[a_lo + i]) != lower_byte(b[b_lo + i]) {
            assert(lower(x[i as int]) != lower(y[i as int]));
            return false;
        }
        i += 1;
    }
    true
}

/// A buffer for a name, with nothing in it.
fn zeroed_name() -> (r: Vec<u8>)
    ensures
        r@ == empty_buffer().bytes,
{
    let mut r: Vec<u8> = Vec::new();
    let mut i: usize = 0;
    while i < NAME_MAX
        invariant
            i <= NAME_MAX,
            r@.len() == i,
            forall|j: int| 0 <= j < i ==> r@[j] == 0,
        decreases NAME_MAX - i,
    {
        r.push(0);
        i += 1;
    }
    assert(r@ =~= empty_buffer().bytes);
    r
}

fn piece_place_of(index: usize) -> (r: usize)
    requires
        index < PIECE_LEN,
    ensures
        r == piece_place(index as int),
        r < ENTRY_LEN,
{
    if index < 5 {
        1 + 2 * index
    } else if index < 11 {
        14 + 2 * (index - 5)
    } else {
        28 + 2 * (index - 11)
    }
}

/// Searches the directory `data` for the name `part`; `more` says that
/// the path goes on after `part`.
pub fn search_directory(data: &[u8], part: &[u8], more: bool) -> (r: DirSearch)
    ensures
        search_agrees(data@, search_from(data@, 0, empty_buffer(), part@, more), r),
        r is Descend ==> more,
{
    let ghost goal = search_from(data@, 0, empty_buffer(), part@, more);
    let entries: usize = data.len() / ENTRY_LEN;
    let (part_lo, part_hi) = trim_bounds(part, part.len());
    assert(part@.subrange(0, part@.len() as int) =~= part@);
    let mut name: Vec<u8> = zeroed_name();
    let mut name_len: usize = 0;
    let mut i: usize = 0;
    while i < entries
        invariant
            i <= entries,
            entries == data@.len() as int / (ENTRY_LEN as int),
            data@.len() <= usize::MAX,
            part_lo <= part_hi <= part@.len(),
            part@.subrange(part_lo as int, part_hi as int) == trimmed(part@),
            name@.len() == NAME_MAX,
            name_len <= i * PIECE_LEN,
            goal == search_from(data@, 0, empty_buffer(), part@, more),
            search_from(data@, i as int, NameBuffer { bytes: name@, len: name_len as nat }, part@, more)
                == goal,
        decreases entries - i,
    {
        let chunk = slice_subrange(data, i * ENTRY_LEN, (i + 1) * ENTRY_LEN);
        assert(chunk@ == entry_bytes(data@, i as int));
        let attributes: u8 = chunk[11];
        if attributes == 0 || attributes == 0x08 {
            i += 1;
            continue ;
        }
        if name_len > NAME_MAX {
            return DirSearch::Malformed;
        }
        if attributes == 0x0f && attributes & 0x10 == 0 {
            let ordering: u8 = chunk[0];
            if ordering < 1 {
                return DirSearch::Malformed;
            }
            let offset: usize = ((ordering - 1) & 0xbf) as usize * PIECE_LEN;
            if offset + PIECE_LEN > NAME_MAX {
                return DirSearch::Malformed;
            }
            let ghost before = NameBuffer { bytes: name@, len: name_len as nat };
            let mut n: usize = 0;
            let mut taken: usize = 0;
            while n < PIECE_LEN
                invariant
                    n <= PIECE_LEN,
                    taken <= n,
                    chunk@.len() == ENTRY_LEN,
                    offset == piece_offset(chunk@[0]),
                    offset + PIECE_LEN <= NAME_MAX,
                    name@.len() == NAME_MAX,
                    name_len <= i * PIECE_LEN + n,
                    i < entries,
                    entries * ENTRY_LEN <= usize::MAX,
                    with_piece(before, chunk@, n as int) == (
                        NameBuffer { bytes: name@, len: name_len as nat },
                        taken as int,
                    ),
                decreases PIECE_LEN - n,
            {
                let b: u8 = chunk[piece_place_of(n)];
                if b != 0 && b < 0x80 {
                    name.set(offset + taken, b);
                    name_len += 1;
                    taken += 1;
                }
                n += 1;
            }
            i += 1;
            continue ;
        }
        let (name_lo, name_hi) = trim_bounds(name.as_slice(), name_len);
        let matches = same_stretch(part, part_lo, part_hi, name.as_slice(), name_lo, name_hi);
        let is_dir = attributes & 0x10 != 0;
        if matches && (is_dir || !more) {
            match Inode::try_from(chunk) {
                Ok(Inode::Dir(entry)) => {
                    if more {
                        return DirSearch::Descend(entry);
                    }
                    return DirSearch::Found(entry);
                },
                Ok(Inode::File(entry)) => {
                    return DirSearch::Found(entry);
                },
                _ => {
                    return DirSearch::Malformed;
                },
            }
        }
        name = zeroed_name();
        name_len = 0;
        i += 1;
    }
    DirSearch::NotFound
}

/// The first place at or after `i` that holds no slash, or the length of
/// `path`.
pub open spec fn skip_slashes(path: Seq<u8>, i: int) -> int
    decreases path.len() - i,
{
    if 0 <= i < path.len() && path[i] == 0x2f {
        skip_slashes(path, i + 1)
    } else {
        i
    }
}

/// The first place at or after `i` that holds a slash, or the length of
/// `path`.
pub open spec fn find_slash(path: Seq<u8>, i: int) -> int
    decreases path.len() - i,
{
    if 0 <= i < path.len() && path[i] != 0x2f {
        find_slash(path, i + 1)
    } else {
        i
    }
}

/// Where the first part of the path at or after `from` starts and ends, if
/// there is one. Parts are what stands between slashes, and no part is
/// empty.
pub open spec fn next_part_spec(path: Seq<u8>, from: int) -> Option<(int, int)> {
    let start = skip_slashes(path, from);
    if start >= path.len() {
        None
    } else {
        Some((start, find_slash(path, start)))
    }
}

/// Finds the first part of the path at or after `from`.
pub fn next_part(path: &[u8], from: usize) -> (r: Option<(usize, usize)>)
    requires
        from <= path@.len(),
    ensures
        match r {
            Some((start, end)) => next_part_spec(path@, from as int) == Some(
                (start as int, end as int),
            ) && from <= start < end <= path@.len(),
            None => next_part_spec(path@, from as int) is None,
        },
{
    let mut start: usize = from;
    while start < path.len() && path[start] == 0x2f
        invariant
            from <= start <= path@.len(),
            skip_slashes(path@, start as int) == skip_slashes(path@, from as int),
        decreases path@.len() - start,
    {
        start += 1;
    }
    if start >= path.len() {
        return None;
    }
    let mut end: usize = start + 1;
    while end < path.len() && path[end] != 0x2f
        invariant
            start < end <= path@.len(),
            path@[start as int] != 0x2f,
            find_slash(path@, end as int) == find_slash(path@, start as int),
        decreases path@.len() - end,
    {
        end += 1;
    }
    Some((start, end))
}

/// How far the search for a path has come: the cluster of the directory to
/// search next, and the part of the path to search it for.
#[derive(Debug, Clone, Copy, PartialEq, Eq, Structural)]
pub struct EntryWalk {
    pub cluster: ClusterId,
    pub start: usize,
    pub end: usize,
}

/// What the search for a path needs next.
#[derive(Debug, Clone, Copy)]
pub enum WalkStep {
    /// The first two sectors of the directory at the given cluster.
    Read(EntryWalk),
    /// Nothing: the search has come to its end.
    Done(Result<DirectoryEntry, FsError>),
}

/// Starts the search for `path` in the root directory, which stands at
/// `root_cluster`. A path without a part names nothing.
pub fn entry_of(path: &[u8], root_cluster: ClusterId) -> (r: Option<EntryWalk>)
    ensures
        match next_part_spec(path@, 0) {
            Some((start, end)) => r == Some(
                EntryWalk { cluster: root_cluster, start: start as usize, end: end as usize },
            ),
            None => r is None,
        },
{
    match next_part(path, 0) {
        Some((start, end)) => Some(EntryWalk { cluster: root_cluster, start, end }),
        None => None,
    }
}

/// The first cluster of what the entry in `bytes` names.
pub open spec fn first_cluster(bytes: Seq<u8>) -> int {
    le_u16(bytes, 26) + 65536 * le_u16(bytes, 20)
}

/// What `step` has to be, given what the search of the directory came to.
pub open spec fn step_agrees(path: Seq<u8>, walk: EntryWalk, data: Seq<u8>, step: WalkStep) -> bool {
    let more = next_part_spec(path, walk.end as int);
    match search_from(
        data,
        0,
        empty_buffer(),
        path.subrange(walk.start as int, walk.end as int),
        more is Some,
    ) {
        SearchOutcome::FoundAt(i) => step matches WalkStep::Done(Ok(entry)) && is_directory_entry(
            entry_bytes(data, i),
            entry,
        ),
        SearchOutcome::DescendAt(i) => step matches WalkStep::Read(next) && next.cluster
            == first_cluster(entry_bytes(data, i)) && more == Some(
            (next.start as int, next.end as int),
        ),
        SearchOutcome::NotFound => step matches WalkStep::Done(Err(e)) && e == FsError::NotFound,
        SearchOutcome::Malformed => step matches WalkStep::Done(Err(e)) && e == FsError::ReadError,
    }
}

/// Takes the search one directory further: `data` is what was read from
/// the directory that `walk` names.
pub fn entry_of_step(path: &[u8], walk: EntryWalk, data: &[u8]) -> (r: WalkStep)
    requires
        walk.start <= walk.end <= path@.len(),
    ensures
        step_agrees(path@, walk, data@, r),
{
    let part = slice_subrange(path, walk.start, walk.end);
    let rest = next_part(path, walk.end);
    let found = search_directory(data, part, rest.is_some());
    proof {
        let more = next_part_spec(path@, walk.end as int);
        assert(rest.is_some() == (more is Some));
        assert(part@ == path@.subrange(walk.start as int, walk.end as int));
    }
    let ghost outcome = search_from(
        data@,
        0,
        empty_buffer(),
        path@.subrange(walk.start as int, walk.end as int),
        next_part_spec(path@, walk.end as int) is Some,
    );
    assert(search_agrees(data@, outcome, found));
    let step = match found {
        DirSearch::Found(entry) => WalkStep::Done(Ok(entry)),
        DirSearch::Descend(entry) => {
            match rest {
                Some((start, end)) => WalkStep::Read(
                    EntryWalk { cluster: entry.cluster_id(), start, end },
                ),
                None => WalkStep::Done(Ok(entry)),
            }
        },
        DirSearch::NotFound => WalkStep::Done(Err(FsError::NotFound)),
        DirSearch::Malformed => WalkStep::Done(Err(FsError::ReadError)),
    };
    step
}

} // verus!
