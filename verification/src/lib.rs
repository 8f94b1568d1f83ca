//! A wrapper around the kernel's filesystem change-notification queue:
//! a channel is opened, watches on filesystem paths are registered against
//! it, and discrete change records are then read from it one at a time,
//! each decoded from its wire form into an owned, safely accessible value.
pub mod channel;
pub mod masks;
pub mod record;

pub use masks::{
    IN_ACCESS, IN_MODIFY, IN_ATTRIB, IN_CLOSE_WRITE, IN_CLOSE_NOWRITE, IN_OPEN, IN_MOVED_FROM,
    IN_MOVED_TO, IN_CREATE, IN_DELETE, IN_DELETE_SELF, IN_MOVE_SELF, IN_UNMOUNT, IN_Q_OVERFLOW,
    IN_IGNORED, IN_CLOSE, IN_MOVE, IN_ISDIR,
};
pub use channel::{INotify, Watch, EBADF, EINVAL};
pub use record::{Error, Event};
