//! Host-side fd tracking and asynchronous completion bridge of a sandbox:
//! wait queues, per-fd epoll reconciliation, the fd table and the ring manager.
#![allow(non_snake_case)]
#![allow(non_upper_case_globals)]

pub mod waiter;
pub mod fileinfo;
pub mod uring_mgr;
