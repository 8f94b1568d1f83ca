//! Tests of the channel against a live kernel queue, and of the mask
//! constants against the platform's own values.
use inotify::{Error, INotify, EBADF, EINVAL};
use inotify::{
    IN_ACCESS, IN_ATTRIB, IN_CLOSE, IN_CLOSE_NOWRITE, IN_CLOSE_WRITE, IN_CREATE, IN_DELETE,
    IN_DELETE_SELF, IN_IGNORED, IN_ISDIR, IN_MODIFY, IN_MOVE, IN_MOVED_FROM, IN_MOVED_TO,
    IN_MOVE_SELF, IN_OPEN, IN_Q_OVERFLOW, IN_UNMOUNT,
};

use rustix::fs::{Mode, OFlags};

fn make_dir(path: &str) {
    let _ = rustix::fs::mkdir(path, Mode::from_bits_truncate(0o755));
}

fn make_file(path: &str) {
    let fd = rustix::fs::open(
        path,
        OFlags::CREATE | OFlags::WRONLY | OFlags::TRUNC,
        Mode::from_bits_truncate(0o644),
    )
    .unwrap();
    drop(fd);
}

fn remove_file(path: &str) {
    let _ = rustix::fs::unlink(path);
}

#[test]
fn constants_match_the_platform() {
    assert_eq!(IN_ACCESS, libc::IN_ACCESS);
    assert_eq!(IN_MODIFY, libc::IN_MODIFY);
    assert_eq!(IN_ATTRIB, libc::IN_ATTRIB);
    assert_eq!(IN_CLOSE_WRITE, libc::IN_CLOSE_WRITE);
    assert_eq!(IN_CLOSE_NOWRITE, libc::IN_CLOSE_NOWRITE);
    assert_eq!(IN_OPEN, libc::IN_OPEN);
    assert_eq!(IN_MOVED_FROM, libc::IN_MOVED_FROM);
    assert_eq!(IN_MOVED_TO, libc::IN_MOVED_TO);
    assert_eq!(IN_CREATE, libc::IN_CREATE);
    assert_eq!(IN_DELETE, libc::IN_DELETE);
    assert_eq!(IN_DELETE_SELF, libc::IN_DELETE_SELF);
    assert_eq!(IN_MOVE_SELF, libc::IN_MOVE_SELF);
    assert_eq!(IN_UNMOUNT, libc::IN_UNMOUNT);
    assert_eq!(IN_Q_OVERFLOW, libc::IN_Q_OVERFLOW);
    assert_eq!(IN_IGNORED, libc::IN_IGNORED);
    assert_eq!(IN_CLOSE, libc::IN_CLOSE);
    assert_eq!(IN_MOVE, libc::IN_MOVE);
    assert_eq!(IN_ISDIR, libc::IN_ISDIR);
    assert_eq!(EBADF, libc::EBADF);
    assert_eq!(EINVAL, libc::EINVAL);
}

#[test]
fn open_gives_distinct_descriptors() {
    let mut a = INotify::init().unwrap();
    let mut b = INotify::init().unwrap();
    assert_ne!(a.fd(), b.fd());
    a.close().unwrap();
    b.close().unwrap();
}

#[test]
fn add_watch_rejects_a_nonexistent_path() {
    let mut ch = INotify::init().unwrap();
    let r = ch.add_watch("/tmp/inotify_no_such_path_anywhere", IN_CREATE);
    assert!(matches!(r, Err(Error::OsError(_))));
    ch.close().unwrap();
}

#[test]
fn add_watch_then_remove_succeeds() {
    let mut ch = INotify::init().unwrap();
    let wd = ch.add_watch("/tmp", IN_CREATE | IN_DELETE).unwrap();
    assert!(wd >= 0);
    ch.rm_watch(wd).unwrap();
    ch.close().unwrap();
}

#[test]
fn removing_a_watch_twice_fails_the_second_time() {
    let mut ch = INotify::init().unwrap();
    let wd = ch.add_watch("/tmp", IN_CREATE).unwrap();
    ch.rm_watch(wd).unwrap();
    let r = ch.rm_watch(wd);
    assert!(matches!(r, Err(Error::OsError(_))));
    ch.close().unwrap();
}

#[test]
fn add_watch_rejects_an_embedded_nul() {
    let mut ch = INotify::init().unwrap();
    let r = ch.add_watch("/tmp/with\0nul", IN_CREATE);
    assert_eq!(r.unwrap_err(), Error::OsError(EINVAL));
    ch.close().unwrap();
}

#[test]
fn watching_a_directory_end_to_end() {
    let dir = "/tmp/inotify_end_to_end_dir";
    let file = "/tmp/inotify_end_to_end_dir/fresh.txt";
    make_dir(dir);
    remove_file(file);

    let mut ch = INotify::init().unwrap();
    ch.add_watch(dir, IN_CREATE | IN_DELETE).unwrap();

    make_file(file);
    let ev = ch.event().unwrap();
    assert!(ev.create());
    assert_eq!(ev.name().unwrap(), "fresh.txt");

    remove_file(file);
    let ev = ch.event().unwrap();
    assert!(ev.delete());
    assert_eq!(ev.name().unwrap(), "fresh.txt");

    ch.close().unwrap();
}

#[test]
fn rename_pairs_share_a_cookie() {
    let dir = "/tmp/inotify_rename_dir";
    let from = "/tmp/inotify_rename_dir/old_name";
    let to = "/tmp/inotify_rename_dir/new_name";
    make_dir(dir);
    remove_file(from);
    remove_file(to);
    make_file(from);

    let mut ch = INotify::init().unwrap();
    ch.add_watch(dir, IN_MOVED_FROM | IN_MOVED_TO).unwrap();

    rustix::fs::rename(from, to).unwrap();
    let away = ch.event().unwrap();
    assert!(away.moved_from());
    assert!(away.moved());
    assert_eq!(away.name().unwrap(), "old_name");
    let into = ch.event().unwrap();
    assert!(into.moved_to());
    assert_eq!(into.name().unwrap(), "new_name");
    assert_eq!(away.cookie, into.cookie);

    remove_file(to);
    ch.close().unwrap();
}

#[test]
fn every_operation_fails_after_close() {
    let mut ch = INotify::init().unwrap();
    let wd = ch.add_watch("/tmp", IN_CREATE).unwrap();
    ch.close().unwrap();

    assert_eq!(ch.event().unwrap_err(), Error::OsError(EBADF));
    assert_eq!(
        ch.add_watch("/tmp", IN_CREATE).unwrap_err(),
        Error::OsError(EBADF)
    );
    assert_eq!(ch.rm_watch(wd).unwrap_err(), Error::OsError(EBADF));
    assert_eq!(ch.close().unwrap_err(), Error::OsError(EBADF));
}

#[test]
fn watching_the_same_path_again_updates_in_place() {
    let mut ch = INotify::init().unwrap();
    let first = ch.add_watch("/tmp", IN_CREATE).unwrap();
    let second = ch.add_watch("/tmp", IN_CREATE | IN_DELETE).unwrap();
    assert_eq!(first, second);
    ch.rm_watch(second).unwrap();
    ch.close().unwrap();
}
