//! One decoded change record, and the decoding of the wire form the
//! kernel queue delivers: a fixed 16-byte header — watch identifier,
//! category mask, sequence cookie, name length, each a little-endian
//! 32-bit field — followed by `name length` bytes of NUL-padded name.
use vstd::prelude::*;
use vstd::utf8::{decode_utf8, valid_utf8};

use crate::masks::{
    has_bits, IN_ACCESS, IN_ATTRIB, IN_CLOSE, IN_CLOSE_NOWRITE, IN_CLOSE_WRITE, IN_CREATE,
    IN_DELETE, IN_DELETE_SELF, IN_IGNORED, IN_ISDIR, IN_MODIFY, IN_MOVED_FROM, IN_MOVED_TO,
    IN_MOVE, IN_MOVE_SELF, IN_OPEN, IN_Q_OVERFLOW, IN_UNMOUNT,
};

verus! {

/// Every way an operation of this library can fail.
#[derive(Clone, Copy, Debug, PartialEq, Eq)]
pub enum Error {
    /// An underlying system call failed; carries the platform error code
    /// verbatim. Recoverable.
    OsError(i32),
    /// The channel yielded zero bytes: it was closed on the far side.
    /// Recoverable, and distinct from a failure.
    EndOfStream,
    /// A record's name bytes are not valid UTF-8. Fatal: the kernel and
    /// this wrapper no longer agree on the record contract.
    InvalidEncoding,
    /// An underlying call or the byte stream broke its documented
    /// contract (for instance a truncated record). Fatal: continuing
    /// could misinterpret every byte that follows.
    InternalInvariantViolation,
}

/// The size in bytes of a record's fixed header.
pub const HEADER_SIZE: usize = 16;

/// The little-endian 32-bit field starting at byte `off`.
pub open spec fn le32_at(b: Seq<u8>, off: int) -> u32
    recommends
        0 <= off,
        off + 4 <= b.len(),
{
    (b[off] as u32) | ((b[off + 1] as u32) << 8u32) | ((b[off + 2] as u32) << 16u32) | ((b[off
        + 3] as u32) << 24u32)
}

/// The value of a 32-bit field read back as a signed number
/// (two's complement).
pub open spec fn signed32(x: u32) -> int {
    if x < 0x8000_0000 {
        x as int
    } else {
        x as int - 0x1_0000_0000
    }
}

/// The watch identifier a record's header declares.
pub open spec fn rec_wd(b: Seq<u8>) -> int {
    signed32(le32_at(b, 0))
}

/// The category mask a record's header declares.
pub open spec fn rec_mask(b: Seq<u8>) -> u32 {
    le32_at(b, 4)
}

/// The sequence cookie a record's header declares.
pub open spec fn rec_cookie(b: Seq<u8>) -> u32 {
    le32_at(b, 8)
}

/// The name length a record's header declares.
pub open spec fn rec_len(b: Seq<u8>) -> int {
    le32_at(b, 12) as int
}

/// The whole size of a record on the wire: header plus declared name.
pub open spec fn rec_size(b: Seq<u8>) -> int {
    HEADER_SIZE + rec_len(b)
}

/// Whether the bytes begin with one complete record: a whole header,
/// followed by at least as many bytes as the header declares.
pub open spec fn complete_record(b: Seq<u8>) -> bool {
    b.len() >= HEADER_SIZE && rec_size(b) <= b.len()
}

/// The index of the first NUL byte, or the length when there is none.
pub open spec fn first_zero(b: Seq<u8>) -> int
    decreases b.len(),
{
    if b.len() == 0 {
        0
    } else if b[0] == 0 {
        0
    } else {
        1 + first_zero(b.skip(1))
    }
}

/// The prefix of the bytes up to (not including) the first NUL:
/// a declared name with its NUL padding taken off.
pub open spec fn trim_nul(b: Seq<u8>) -> Seq<u8> {
    b.take(first_zero(b))
}

/// The name a record carries: the declared bytes after the header,
/// with the NUL padding taken off.
pub open spec fn rec_name(b: Seq<u8>) -> Seq<u8>
    recommends
        complete_record(b),
{
    trim_nul(b.subrange(HEADER_SIZE as int, rec_size(b)))
}

/// What `first_zero` returns is a well-placed boundary: everything
/// before it is nonzero, and it sits on a NUL unless there is none.
pub proof fn lemma_first_zero(b: Seq<u8>)
    ensures
        0 <= first_zero(b) <= b.len(),
        forall|j: int| 0 <= j < first_zero(b) ==> b[j] != 0,
        first_zero(b) < b.len() ==> b[first_zero(b)] == 0,
    decreases b.len(),
{
    if b.len() == 0 {
    } else if b[0] == 0 {
    } else {
        lemma_first_zero(b.skip(1));
        assert(forall|j: int| 1 <= j < first_zero(b) ==> b[j] == b.skip(1)[j - 1]);
    }
}

/// Any boundary with those two properties is `first_zero`.
pub proof fn lemma_first_zero_is(b: Seq<u8>, i: int)
    requires
        0 <= i <= b.len(),
        forall|j: int| 0 <= j < i ==> b[j] != 0,
        i < b.len() ==> b[i] == 0,
    ensures
        first_zero(b) == i,
    decreases b.len(),
{
    if b.len() == 0 {
    } else if b[0] == 0 {
        assert(i == 0);
    } else {
        assert(i >= 1);
        assert(forall|j: int| 0 <= j < i - 1 ==> b.skip(1)[j] == b[j + 1]);
        lemma_first_zero_is(b.skip(1), i - 1);
    }
}

/// A header that declares name length zero carries the empty name,
/// whatever bytes follow the header.
pub proof fn lemma_zero_length_name(b: Seq<u8>)
    requires
        complete_record(b),
        rec_len(b) == 0,
    ensures
        rec_name(b) =~= Seq::<u8>::empty(),
{
    assert(b.subrange(HEADER_SIZE as int, rec_size(b)) =~= Seq::<u8>::empty());
    lemma_first_zero(b.subrange(HEADER_SIZE as int, rec_size(b)));
}

/// Reads the little-endian 32-bit field starting at byte `off`.
fn le32(v: &Vec<u8>, off: usize) -> (r: u32)
    requires
        off + 4 <= v@.len(),
    ensures
        r == le32_at(v@, off as int),
{
    assert(off + 4 <= v.len());
    let b0 = v[off] as u32;
    let b1 = v[off + 1] as u32;
    let b2 = v[off + 2] as u32;
    let b3 = v[off + 3] as u32;
    b0 | (b1 << 8u32) | (b2 << 16u32) | (b3 << 24u32)
}

/// Reinterprets a 32-bit field as a signed number (two's complement).
fn to_signed32(x: u32) -> (r: i32)
    ensures
        r as int == signed32(x),
{
    if x < 0x8000_0000 {
        x as i32
    } else {
        let wide: i64 = (x as i64) - 0x1_0000_0000i64;
        wide as i32
    }
}

/// One decoded notification event: the watch it concerns, the raw
/// category mask, the sequence cookie that pairs the two halves of a
/// rename, and an owned copy of the associated name. A fully
/// self-contained immutable value: it holds no reference back into any
/// read buffer, so it outlives the channel that produced it.
#[derive(Clone, Debug)]
pub struct Event {
    /// The identifier of the watch this record concerns.
    pub wd: i32,
    /// The raw category bitmask.
    pub mask: u32,
    /// The sequence cookie correlating paired rename records.
    pub cookie: u32,
    /// The record's owned copy of its name bytes, NUL padding already
    /// taken off.
    pub name_bytes: Vec<u8>,
}

impl Event {
    /// The name bytes this record owns, NUL padding already taken off.
    pub open spec fn name_view(&self) -> Seq<u8> {
        self.name_bytes@
    }

    /// Builds a record from decoded header fields and the declared name
    /// bytes; the name keeps only what stands before the first NUL.
    pub fn new(wd: i32, mask: u32, cookie: u32, name: Vec<u8>) -> (ev: Event)
        ensures
            ev.wd == wd,
            ev.mask == mask,
            ev.cookie == cookie,
            ev.name_view() == trim_nul(name@),
    {
        let mut name_bytes = name;
        let mut i: usize = 0;
        while i < name_bytes.len() && name_bytes[i] != 0
            invariant
                i <= name_bytes@.len(),
                forall|j: int| 0 <= j < i ==> name_bytes@[j] != 0,
            decreases name_bytes@.len() - i,
        {
            i = i + 1;
        }
        proof {
            lemma_first_zero_is(name_bytes@, i as int);
        }
        name_bytes.truncate(i);
        Event { wd, mask, cookie, name_bytes }
    }

    /// The decoded name: empty when the record declared no name, else
    /// the declared bytes before their NUL padding, as text. Bytes that
    /// are not valid UTF-8 are a broken kernel contract, surfaced as the
    /// fatal `InvalidEncoding`.
    pub fn name(&self) -> (r: Result<String, Error>)
        ensures
            valid_utf8(self.name_view()) ==> (r matches Ok(s) && s@ == decode_utf8(
                self.name_view(),
            )),
            !valid_utf8(self.name_view()) ==> r == Err::<String, Error>(Error::InvalidEncoding),
            self.name_view().len() == 0 ==> (r matches Ok(s) && s@ =~= Seq::<char>::empty()),
    {
        let bytes = clone_bytes(&self.name_bytes);
        match utf8_to_string(bytes) {
            Some(s) => Ok(s),
            None => Err(Error::InvalidEncoding),
        }
    }

    /// A file was read.
    pub fn access(&self) -> (r: bool)
        ensures
            r == has_bits(self.mask, IN_ACCESS),
    {
        self.mask & IN_ACCESS > 0
    }

    /// A file was written to.
    pub fn modify(&self) -> (r: bool)
        ensures
            r == has_bits(self.mask, IN_MODIFY),
    {
        self.mask & IN_MODIFY > 0
    }

    /// Metadata changed.
    pub fn attrib(&self) -> (r: bool)
        ensures
            r == has_bits(self.mask, IN_ATTRIB),
    {
        self.mask & IN_ATTRIB > 0
    }

    /// A file opened for writing was closed.
    pub fn close_write(&self) -> (r: bool)
        ensures
            r == has_bits(self.mask, IN_CLOSE_WRITE),
    {
        self.mask & IN_CLOSE_WRITE > 0
    }

    /// A file not opened for writing was closed.
    pub fn close_nowrite(&self) -> (r: bool)
        ensures
            r == has_bits(self.mask, IN_CLOSE_NOWRITE),
    {
        self.mask & IN_CLOSE_NOWRITE > 0
    }

    /// A file was opened.
    pub fn open(&self) -> (r: bool)
        ensures
            r == has_bits(self.mask, IN_OPEN),
    {
        self.mask & IN_OPEN > 0
    }

    /// A file was moved out of a watched directory.
    pub fn moved_from(&self) -> (r: bool)
        ensures
            r == has_bits(self.mask, IN_MOVED_FROM),
    {
        self.mask & IN_MOVED_FROM > 0
    }

    /// A file was moved into a watched directory.
    pub fn moved_to(&self) -> (r: bool)
        ensures
            r == has_bits(self.mask, IN_MOVED_TO),
    {
        self.mask & IN_MOVED_TO > 0
    }

    /// A file or directory was created.
    pub fn create(&self) -> (r: bool)
        ensures
            r == has_bits(self.mask, IN_CREATE),
    {
        self.mask & IN_CREATE > 0
    }

    /// A file or directory was deleted.
    pub fn delete(&self) -> (r: bool)
        ensures
            r == has_bits(self.mask, IN_DELETE),
    {
        self.mask & IN_DELETE > 0
    }

    /// The watched path itself was deleted.
    pub fn delete_self(&self) -> (r: bool)
        ensures
            r == has_bits(self.mask, IN_DELETE_SELF),
    {
        self.mask & IN_DELETE_SELF > 0
    }

    /// The watched path itself was moved.
    pub fn move_self(&self) -> (r: bool)
        ensures
            r == has_bits(self.mask, IN_MOVE_SELF),
    {
        self.mask & IN_MOVE_SELF > 0
    }

    /// Any move: the union group of moved-from and moved-to.
    pub fn moved(&self) -> (r: bool)
        ensures
            r == has_bits(self.mask, IN_MOVE),
    {
        self.mask & IN_MOVE > 0
    }

    /// Any close: the union group of close-write and close-nowrite.
    pub fn close(&self) -> (r: bool)
        ensures
            r == has_bits(self.mask, IN_CLOSE),
    {
        self.mask & IN_CLOSE > 0
    }

    /// The subject of the event is a directory.
    pub fn is_dir(&self) -> (r: bool)
        ensures
            r == has_bits(self.mask, IN_ISDIR),
    {
        self.mask & IN_ISDIR > 0
    }

    /// The filesystem holding the watched path was unmounted.
    pub fn unmount(&self) -> (r: bool)
        ensures
            r == has_bits(self.mask, IN_UNMOUNT),
    {
        self.mask & IN_UNMOUNT > 0
    }

    /// The kernel's event queue overflowed.
    pub fn queue_overflow(&self) -> (r: bool)
        ensures
            r == has_bits(self.mask, IN_Q_OVERFLOW),
    {
        self.mask & IN_Q_OVERFLOW > 0
    }

    /// The watch was removed by the kernel.
    pub fn ignored(&self) -> (r: bool)
        ensures
            r == has_bits(self.mask, IN_IGNORED),
    {
        self.mask & IN_IGNORED > 0
    }
}

/// Whether `ev` holds exactly what the first record of the bytes `b`
/// declares.
pub open spec fn matches_record(ev: Event, b: Seq<u8>) -> bool {
    &&& ev.wd as int == rec_wd(b)
    &&& ev.mask == rec_mask(b)
    &&& ev.cookie == rec_cookie(b)
    &&& ev.name_view() == rec_name(b)
}

/// Decodes the one record at the head of the buffer: the fixed header
/// first, then exactly the declared name bytes, never more. Returns the
/// record and the count of bytes it occupied; a buffer that holds no
/// complete record is a broken stream.
pub fn decode_record(buf: &Vec<u8>) -> (r: Result<(Event, usize), Error>)
    ensures
        complete_record(buf@) ==> (r matches Ok(p) && matches_record(p.0, buf@) && p.1 == rec_size(
            buf@,
        )),
        !complete_record(buf@) ==> r == Err::<(Event, usize), Error>(
            Error::InternalInvariantViolation,
        ),
{
    if buf.len() < HEADER_SIZE {
        return Err(Error::InternalInvariantViolation);
    }
    let declared = le32(buf, 12) as usize;
    if declared > buf.len() - HEADER_SIZE {
        return Err(Error::InternalInvariantViolation);
    }
    let total: usize = HEADER_SIZE + declared;
    let wd = to_signed32(le32(buf, 0));
    let mask = le32(buf, 4);
    let cookie = le32(buf, 8);
    let mut name: Vec<u8> = Vec::new();
    let mut i: usize = HEADER_SIZE;
    while i < total
        invariant
            HEADER_SIZE <= i <= total,
            total == rec_size(buf@),
            total <= buf@.len(),
            name@ =~= buf@.subrange(HEADER_SIZE as int, i as int),
        decreases total - i,
    {
        name.push(buf[i]);
        i = i + 1;
    }
    assert(name@ =~= buf@.subrange(HEADER_SIZE as int, rec_size(buf@)));
    let ev = Event::new(wd, mask, cookie, name);
    Ok((ev, total))
}

/// Whether the bytes hold a whole number of complete records, packed
/// one after the other; what a well-behaved kernel queue hands a single
/// read call.
pub open spec fn wf_queue(b: Seq<u8>) -> bool
    decreases b.len(),
{
    if b.len() == 0 {
        true
    } else if !complete_record(b) {
        false
    } else {
        wf_queue(b.skip(rec_size(b)))
    }
}

/// A nonempty well-formed queue begins with a complete record, and what
/// follows that record is well formed again.
pub proof fn lemma_wf_queue_head(b: Seq<u8>)
    requires
        wf_queue(b),
        b.len() > 0,
    ensures
        complete_record(b),
        wf_queue(b.skip(rec_size(b))),
{
}

/// Tests whether the bytes hold a whole number of complete records.
pub fn is_wf_queue(v: &Vec<u8>) -> (r: bool)
    ensures
        r == wf_queue(v@),
{
    let n = v.len();
    let mut off: usize = 0;
    proof {
        assert(v@.skip(0) =~= v@);
    }
    while off < n
        invariant
            off <= n,
            n == v@.len(),
            wf_queue(v@) == wf_queue(v@.skip(off as int)),
        decreases n - off,
    {
        if n - off < HEADER_SIZE {
            proof {
                assert(!complete_record(v@.skip(off as int)));
            }
            return false;
        }
        let declared = le32(v, off + 12) as usize;
        proof {
            lemma_le32_skip(v@, off as int);
        }
        if declared > n - off - HEADER_SIZE {
            proof {
                assert(!complete_record(v@.skip(off as int)));
            }
            return false;
        }
        proof {
            assert(complete_record(v@.skip(off as int)));
            assert(v@.skip(off as int).skip(rec_size(v@.skip(off as int)))
                =~= v@.skip(off + HEADER_SIZE + declared));
        }
        off = off + HEADER_SIZE + declared;
    }
    proof {
        assert(v@.skip(off as int) =~= Seq::<u8>::empty());
    }
    true
}

/// The name length a record declares is read off the same bytes whether
/// the record stands at the head of the whole or of the suffix at `off`.
pub proof fn lemma_le32_skip(b: Seq<u8>, off: int)
    requires
        0 <= off,
        off + HEADER_SIZE <= b.len(),
    ensures
        rec_len(b.skip(off)) == le32_at(b, off + 12) as int,
{
    assert(b.skip(off)[12] == b[off + 12] && b.skip(off)[13] == b[off + 13] && b.skip(off)[14]
        == b[off + 14] && b.skip(off)[15] == b[off + 15]);
}

/// Relies on String::from_utf8: it returns the string holding exactly
/// the given bytes when they are a valid UTF-8 encoding, and refuses
/// them otherwise.
#[verifier::external_body]
fn utf8_to_string(v: Vec<u8>) -> (r: Option<String>)
    ensures
        r matches Some(s) ==> valid_utf8(v@) && s@ == decode_utf8(v@),
        r is None ==> !valid_utf8(v@),
{
    match String::from_utf8(v) {
        Ok(s) => Some(s),
        Err(_) => None,
    }
}

/// Copies a byte vector.
fn clone_bytes(v: &Vec<u8>) -> (r: Vec<u8>)
    ensures
        r@ == v@,
{
    let mut out: Vec<u8> = Vec::new();
    let mut i: usize = 0;
    while i < v.len()
        invariant
            i <= v@.len(),
            out@ =~= v@.subrange(0, i as int),
        decreases v@.len() - i,
    {
        out.push(v[i]);
        i = i + 1;
    }
    proof {
        assert(out@ =~= v@);
    }
    out
}

} // verus!

