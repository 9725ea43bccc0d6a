//! Readiness notification over Linux `epoll`, verified.
//!
//! The library decides and computes; it performs no system call. Whatever has
//! to be asked of the kernel is a [`Request`](request::Request), and whatever
//! the kernel answers is a [`Reply`](request::Reply). A driver performs the
//! requests one at a time and hands the replies back.

pub mod event;
pub mod events;
pub mod flags;
pub mod kernel_laws;
pub mod notifier;
pub mod poller;
pub mod request;
pub mod setup;
pub mod setup_laws;
pub mod time;
pub mod wait;
pub mod wait_laws;
