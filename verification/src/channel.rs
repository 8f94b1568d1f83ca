//! The notification channel: it owns the kernel queue's descriptor,
//! registers and removes watches, reads and decodes one record per
//! call, and releases the descriptor on close. Every operation on a
//! closed channel fails with the platform's bad-descriptor code rather
//! than touching a stale handle.
use vstd::prelude::*;
use vstd::slice::slice_index_get;
use vstd::string::StringSliceAdditionalSpecFns;

use crate::record::{
    decode_record, lemma_wf_queue_head, matches_record, rec_size, wf_queue, Error, Event,
};

verus! {

/// An opaque watch identifier, scoped to the channel that returned it.
pub type Watch = i32;

/// The platform's code for an operation on a bad descriptor; what every
/// operation on a closed channel returns, chosen by this wrapper without
/// a kernel call.
pub const EBADF: i32 = 9;

/// The platform's code for an invalid argument; what a watch path with
/// an embedded NUL byte is rejected with, before any kernel call.
pub const EINVAL: i32 = 22;

/// How many bytes one read call asks the kernel queue for: room for a
/// header and the longest name a record can carry.
pub const READ_BUFFER_SIZE: usize = 4096;

#[verifier::external_type_specification]
#[verifier::external_body]
pub struct ExOwnedFd(rustix::fd::OwnedFd);

/// Relies on rustix::fs::inotify::init (inotify_init1): on success the
/// kernel allocates one notification queue and returns its descriptor;
/// on failure the platform error code comes back.
#[verifier::external_body]
fn sys_inotify_init(flags: u32) -> (r: Result<rustix::fd::OwnedFd, i32>)
{
    rustix::fs::inotify::init(rustix::fs::inotify::CreateFlags::from_bits_retain(flags)).map_err(
        |e| e.raw_os_error(),
    )
}

/// Relies on rustix::fd::AsRawFd::as_raw_fd: it reads the descriptor's
/// number without affecting the descriptor.
#[verifier::external_body]
fn sys_fd_number(h: &rustix::fd::OwnedFd) -> (r: i32)
{
    rustix::fd::AsRawFd::as_raw_fd(h)
}

/// Relies on rustix::fs::inotify::add_watch (inotify_add_watch): on
/// success the kernel returns a nonnegative watch descriptor, the same
/// one again when the path is already watched on this queue; on failure
/// the platform error code comes back. A path with an embedded NUL is
/// refused with the invalid-argument code before any kernel call.
#[verifier::external_body]
fn sys_add_watch(h: &rustix::fd::OwnedFd, path: &str, mask: u32) -> (r: Result<i32, i32>)
    ensures
        r matches Ok(wd) ==> wd >= 0,
{
    rustix::fs::inotify::add_watch(
        h,
        path,
        rustix::fs::inotify::WatchFlags::from_bits_retain(mask),
    ).map_err(|e| e.raw_os_error())
}

/// Relies on rustix::fs::inotify::remove_watch (inotify_rm_watch): the
/// call either succeeds or hands back the platform error code; its typed
/// result leaves no third outcome to escalate.
#[verifier::external_body]
fn sys_remove_watch(h: &rustix::fd::OwnedFd, wd: i32) -> (r: Result<(), i32>)
{
    rustix::fs::inotify::remove_watch(h, wd).map_err(|e| e.raw_os_error())
}

/// Relies on rustix::io::read (read(2)): it blocks until data, end of
/// stream or an error; on success it fills a prefix of the buffer and
/// returns that prefix's length, zero meaning end of stream. What the
/// bytes hold depends on the machine's state, so nothing is claimed of
/// them.
#[verifier::external_body]
fn sys_read(h: &rustix::fd::OwnedFd, buf: &mut Vec<u8>) -> (r: Result<usize, i32>)
    ensures
        r matches Ok(n) ==> n <= old(buf)@.len() && final(buf)@.len() == old(buf)@.len(),
{
    rustix::io::read(h, buf.as_mut_slice()).map_err(|e| e.raw_os_error())
}

/// Relies on nix::unistd::close (close(2)): it releases the descriptor
/// and reports success or the platform error code; either way the
/// descriptor is gone afterwards.
#[verifier::external_body]
fn sys_close(h: rustix::fd::OwnedFd) -> (r: Result<(), i32>)
{
    match nix::unistd::close(h) {
        Ok(()) => Ok(()),
        Err(e) => Err(e as i32),
    }
}

/// Whether the path's byte encoding holds an embedded NUL, which no
/// kernel path may carry.
pub open spec fn has_nul(s: &str) -> bool {
    exists|i: int| 0 <= i < s.spec_bytes().len() && s.spec_bytes()[i] == 0
}

/// Tests whether the path's byte encoding holds an embedded NUL.
fn contains_nul_byte(s: &str) -> (r: bool)
    ensures
        r == has_nul(s),
{
    let bytes = s.as_bytes();
    let n = bytes.len();
    let mut i: usize = 0;
    while i < n
        invariant
            i <= n,
            n == bytes@.len(),
            bytes@ == s.spec_bytes(),
            forall|j: int| 0 <= j < i ==> bytes@[j] != 0,
        decreases n - i,
    {
        if *slice_index_get(bytes, i) == 0 {
            return true;
        }
        i = i + 1;
    }
    false
}

/// Whether the record `ev`, with the channel left as `fin`, is what
/// serving the head of some well-formed, nonempty byte run looks like:
/// all a caller can know of a record born from a fresh kernel read.
pub open spec fn fresh_serve(ev: Event, fin: INotify) -> bool {
    exists|data: Seq<u8>| served_from(ev, fin, data)
}

/// Whether the record `ev` is the first record of the well-formed,
/// nonempty byte run `data`, with everything after that record left
/// waiting in the channel `fin`: what one read call that returned
/// `data` serves.
pub open spec fn served_from(ev: Event, fin: INotify, data: Seq<u8>) -> bool {
    wf_queue(data) && data.len() > 0 && matches_record(ev, data) && fin.pending_view()
        == data.skip(rec_size(data))
}

/// A notification channel: the exclusive owner of one kernel queue
/// descriptor, valid from a successful open until close and never
/// reused after close. Bytes a read returned but not yet decoded wait
/// in an internal queue, so one underlying read may serve several
/// record reads.
pub struct INotify {
    handle: Option<rustix::fd::OwnedFd>,
    fd_num: i32,
    pending: Vec<u8>,
}

impl INotify {
    /// Whether the channel still owns its descriptor.
    pub closed spec fn is_open(&self) -> bool {
        self.handle is Some
    }

    /// The bytes read from the kernel but not yet decoded.
    pub closed spec fn pending_view(&self) -> Seq<u8> {
        self.pending@
    }

    /// The descriptor's number.
    pub closed spec fn fd_view(&self) -> i32 {
        self.fd_num
    }

    /// The descriptor's number, for inspection; the descriptor itself is
    /// owned and released by this channel alone.
    pub fn fd(&self) -> (r: i32)
        ensures
            r == self.fd_view(),
    {
        self.fd_num
    }

    /// The channel's invariant: what waits in the internal queue is a
    /// whole number of complete records.
    pub open spec fn inv(&self) -> bool {
        wf_queue(self.pending_view())
    }

    /// Opens a channel with the no-special-behavior configuration.
    pub fn init() -> (r: Result<INotify, Error>)
        ensures
            r matches Ok(ch) ==> ch.is_open() && ch.inv() && ch.pending_view().len() == 0,
            r matches Err(e) ==> e is OsError,
    {
        INotify::init_with_flags(0)
    }

    /// Opens a channel, handing the configuration flags to the kernel
    /// call; fails with the platform's error code when the kernel
    /// refuses. Side effect: allocates one kernel queue and one
    /// descriptor, owned by the returned channel.
    pub fn init_with_flags(flags: u32) -> (r: Result<INotify, Error>)
        ensures
            r matches Ok(ch) ==> ch.is_open() && ch.inv() && ch.pending_view().len() == 0,
            r matches Err(e) ==> e is OsError,
    {
        match sys_inotify_init(flags) {
            Ok(h) => {
                let fd = sys_fd_number(&h);
                Ok(INotify { handle: Some(h), fd_num: fd, pending: Vec::new() })
            },
            Err(code) => Err(Error::OsError(code)),
        }
    }

    /// Registers interest in `path_name` for the categories in `mask`
    /// and returns the watch's identifier, the same one again when the
    /// path is already watched by this channel. A path with an embedded
    /// NUL byte is rejected before any kernel call; an invalid mask or
    /// path is rejected by the kernel and surfaced as the platform's
    /// error. On a closed channel: the bad-descriptor error, with no
    /// kernel call.
    pub fn add_watch(&self, path_name: &str, mask: u32) -> (r: Result<Watch, Error>)
        ensures
            !self.is_open() ==> r == Err::<Watch, Error>(Error::OsError(EBADF)),
            self.is_open() && has_nul(path_name) ==> r == Err::<Watch, Error>(
                Error::OsError(EINVAL),
            ),
            r matches Ok(wd) ==> self.is_open() && !has_nul(path_name) && wd >= 0,
            r matches Err(e) ==> e is OsError,
    {
        let h = match &self.handle {
            Some(h) => h,
            None => {
                return Err(Error::OsError(EBADF));
            },
        };
        if contains_nul_byte(path_name) {
            return Err(Error::OsError(EINVAL));
        }
        match sys_add_watch(h, path_name, mask) {
            Ok(wd) => Ok(wd),
            Err(code) => Err(Error::OsError(code)),
        }
    }

    /// Removes the watch behind the identifier. The kernel refuses an
    /// identifier that is not currently valid on this queue — one
    /// already removed, or one another channel issued — and that refusal
    /// is surfaced as the platform's error. On a closed channel: the
    /// bad-descriptor error, with no kernel call.
    pub fn rm_watch(&self, watch: Watch) -> (r: Result<(), Error>)
        ensures
            !self.is_open() ==> r == Err::<(), Error>(Error::OsError(EBADF)),
            r matches Err(e) ==> e is OsError,
    {
        let h = match &self.handle {
            Some(h) => h,
            None => {
                return Err(Error::OsError(EBADF));
            },
        };
        match sys_remove_watch(h, watch) {
            Ok(()) => Ok(()),
            Err(code) => Err(Error::OsError(code)),
        }
    }

    /// Blocks until one record is available and returns it decoded.
    /// Records already read but not yet decoded are served first, so a
    /// read that returned several packed records feeds several calls.
    /// Zero bytes from the kernel is the end of the stream, a distinct
    /// recoverable outcome; a read error is the platform's error; bytes
    /// that do not form complete records break the stream's documented
    /// contract and are dropped with the fatal invariant-violation
    /// error. On a closed channel: the bad-descriptor error, with no
    /// kernel call and never stale data.
    pub fn event(&mut self) -> (r: Result<Event, Error>)
        requires
            old(self).inv(),
        ensures
            final(self).inv(),
            final(self).is_open() == old(self).is_open(),
            final(self).fd_view() == old(self).fd_view(),
            !old(self).is_open() ==> r == Err::<Event, Error>(Error::OsError(EBADF))
                && final(self).pending_view() == old(self).pending_view(),
            old(self).is_open() && old(self).pending_view().len() > 0 ==> (r matches Ok(ev)
                && matches_record(ev, old(self).pending_view()) && final(self).pending_view()
                == old(self).pending_view().skip(rec_size(old(self).pending_view()))),
            (old(self).is_open() && old(self).pending_view().len() == 0) ==> (r matches Ok(ev)
                ==> fresh_serve(ev, *final(self))),
            r == Err::<Event, Error>(Error::EndOfStream) ==> final(self).pending_view().len() == 0
                && old(self).pending_view().len() == 0,
    {
        match &self.handle {
            Some(_) => {},
            None => {
                return Err(Error::OsError(EBADF));
            },
        }
        if self.pending.len() == 0 {
            let mut buf: Vec<u8> = vec_zeroes(READ_BUFFER_SIZE);
            let n = {
                let h = match &self.handle {
                    Some(h) => h,
                    None => {
                        return Err(Error::OsError(EBADF));
                    },
                };
                match sys_read(h, &mut buf) {
                    Ok(n) => n,
                    Err(code) => {
                        return Err(Error::OsError(code));
                    },
                }
            };
            if n == 0 {
                return Err(Error::EndOfStream);
            }
            buf.truncate(n);
            self.pending = buf;
            if !crate::record::is_wf_queue(&self.pending) {
                self.pending = Vec::new();
                return Err(Error::InternalInvariantViolation);
            }
        }
        proof {
            lemma_wf_queue_head(self.pending@);
        }
        let ghost data = self.pending@;
        let r = decode_record(&self.pending);
        match r {
            Ok((ev, n)) => {
                drain_front(&mut self.pending, n);
                proof {
                    lemma_wf_queue_head(data);
                    assert(self.pending@ =~= data.skip(rec_size(data)));
                    assert(served_from(ev, *self, data));
                    assert(fresh_serve(ev, *self));
                }
                Ok(ev)
            },
            Err(e) => {
                proof {
                    assert(false);
                }
                Err(e)
            },
        }
    }

    /// Releases the descriptor. Afterwards the channel is closed for
    /// good: every later operation, this one included, fails with the
    /// bad-descriptor error and nothing waits in the internal queue.
    pub fn close(&mut self) -> (r: Result<(), Error>)
        ensures
            !final(self).is_open(),
            final(self).inv(),
            final(self).pending_view().len() == 0,
            final(self).fd_view() == old(self).fd_view(),
            !old(self).is_open() ==> r == Err::<(), Error>(Error::OsError(EBADF)),
            r matches Err(e) ==> e is OsError,
    {
        self.pending = Vec::new();
        let prev = self.handle.take();
        match prev {
            None => Err(Error::OsError(EBADF)),
            Some(h) => {
                match sys_close(h) {
                    Ok(()) => Ok(()),
                    Err(code) => Err(Error::OsError(code)),
                }
            },
        }
    }
}

/// Builds a zero-filled buffer of the given length.
fn vec_zeroes(n: usize) -> (r: Vec<u8>)
    ensures
        r@.len() == n,
{
    let mut out: Vec<u8> = Vec::new();
    let mut i: usize = 0;
    while i < n
        invariant
            i <= n,
            out@.len() == i,
        decreases n - i,
    {
        out.push(0u8);
        i = i + 1;
    }
    out
}

/// Takes the first `n` bytes off the front of the vector.
fn drain_front(v: &mut Vec<u8>, n: usize)
    requires
        n <= old(v)@.len(),
    ensures
        final(v)@ == old(v)@.skip(n as int),
{
    let mut rest: Vec<u8> = Vec::new();
    let len = v.len();
    let mut j: usize = n;
    while j < len
        invariant
            n <= j <= len,
            len == v@.len(),
            v@ == old(v)@,
            rest@ =~= v@.subrange(n as int, j as int),
        decreases len - j,
    {
        rest.push(v[j]);
        j = j + 1;
    }
    proof {
        assert(rest@ =~= old(v)@.skip(n as int));
    }
    *v = rest;
}

} // verus!
