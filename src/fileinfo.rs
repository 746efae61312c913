//! Per-host-fd bookkeeping: wait info with its epoll reconciliation, socket
//! classification, the fd table and the I/O manager that owns it.
use std::collections::BTreeMap;
use vstd::prelude::*;

use crate::waiter::{events_of, from_linux, notify_all, EventMask, EventMaskFromLinux, Queue, Waiter};

verus! {

pub const EPOLL_CTL_ADD: i32 = 1;
pub const EPOLL_CTL_DEL: i32 = 2;
pub const EPOLL_CTL_MOD: i32 = 3;

/// Edge-triggered delivery, always requested from epoll.
pub const EPOLLET: u64 = 0x8000_0000;

/// The epoll operation that moves registration from `cur` to `desired`,
/// or `None` where the registered mask already covers what is wanted.
pub open spec fn update_op(cur: u64, desired: u64) -> Option<i32> {
    if cur == 0 {
        if desired != 0 {
            Some(EPOLL_CTL_ADD)
        } else {
            None
        }
    } else if desired == 0 {
        Some(EPOLL_CTL_DEL)
    } else if desired | cur == cur {
        None
    } else {
        Some(EPOLL_CTL_MOD)
    }
}

/// The stored mask after an update from `cur` towards `desired`.
pub open spec fn update_mask(cur: u64, desired: u64) -> u64 {
    if update_op(cur, desired) is Some {
        desired
    } else {
        cur
    }
}

/// One `epoll_ctl` call to issue: epoll fd, target fd, operation and mask.
#[derive(Clone, Copy, Debug, PartialEq, Eq)]
pub struct EpollCtlArgs {
    pub epollfd: i32,
    pub fd: i32,
    pub op: i32,
    pub mask: u64,
}

/// The wait state of one host fd: the guest queue it wakes and the mask
/// registered with host epoll (0: not registered).
#[derive(Debug)]
pub struct FdWaitIntern {
    pub queue: Queue,
    pub mask: EventMask,
}

pub ghost struct WaitView {
    pub queue: Seq<Waiter>,
    pub mask: u64,
}

#[derive(Debug)]
pub struct FdWaitInfo(pub FdWaitIntern);

impl View for FdWaitInfo {
    type V = WaitView;

    open spec fn view(&self) -> WaitView {
        WaitView { queue: self.0.queue@, mask: self.0.mask }
    }
}

impl Clone for FdWaitInfo {
    fn clone(&self) -> (r: FdWaitInfo)
        ensures
            r@ == self@,
    {
        FdWaitInfo(FdWaitIntern { queue: self.0.queue.clone(), mask: self.0.mask })
    }
}

impl FdWaitInfo {
    pub fn New(queue: Queue, mask: EventMask) -> (r: FdWaitInfo)
        ensures
            r@ == (WaitView { queue: queue@, mask }),
    {
        FdWaitInfo(FdWaitIntern { queue, mask })
    }

    /// Reconciles the registered mask with the queue's events and
    /// `extraMask`. The stored mask moves to its new value at once; the
    /// result is the epoll call that brings the host registration there,
    /// or `None` where no call is needed.
    pub fn UpdateFDAsync(&mut self, fd: i32, epollfd: i32, extraMask: EventMask) -> (r: Option<
        EpollCtlArgs,
    >)
        ensures
            ({
                let desired = events_of(old(self)@.queue) | extraMask;
                &&& final(self)@.queue == old(self)@.queue
                &&& final(self)@.mask == update_mask(old(self)@.mask, desired)
                &&& r == match update_op(old(self)@.mask, desired) {
                    Some(op) => Some(EpollCtlArgs { epollfd, fd, op, mask: desired | EPOLLET }),
                    None => None,
                }
            }),
    {
        let mask = self.0.queue.Events() | extraMask;
        let op: i32;
        if self.0.mask == 0 {
            if mask != 0 {
                op = EPOLL_CTL_ADD;
            } else {
                return None;
            }
        } else {
            if mask == 0 {
                op = EPOLL_CTL_DEL;
            } else {
                if mask | self.0.mask == self.0.mask {
                    return None;
                }
                op = EPOLL_CTL_MOD;
            }
        }
        self.0.mask = mask;
        Some(EpollCtlArgs { epollfd, fd, op, mask: mask | EPOLLET })
    }

    /// Wakes the waiters of the queue for the host event mask `mask`.
    pub fn Notify(&mut self, mask: EventMask)
        ensures
            final(self)@.mask == old(self)@.mask,
            final(self)@.queue == notify_all(old(self)@.queue, from_linux(mask as u32)),
    {
        self.0.queue.Notify(EventMaskFromLinux(mask as u32));
    }
}

/// Address of a plain socket.
#[derive(Clone, Copy, Debug, Default, PartialEq, Eq)]
pub struct SocketInfo {
    pub ipAddr: u32,
    pub port: u16,
}

/// An async socket: its own queue of waiters, layered above the fd's.
#[derive(Debug)]
pub struct AsyncSocketInfo {
    pub queue: Queue,
}

impl AsyncSocketInfo {
    /// Wakes the socket's own waiters for the host event mask `mask`.
    pub fn Notify(&mut self, mask: EventMask)
        ensures
            final(self).queue@ == notify_all(old(self).queue@, from_linux(mask as u32)),
    {
        self.queue.Notify(EventMaskFromLinux(mask as u32));
    }
}

/// An RDMA listening socket.
#[derive(Clone, Copy, Debug, PartialEq, Eq)]
pub struct RDMAServerSock {
    pub fd: i32,
}

/// An RDMA data socket.
#[derive(Clone, Copy, Debug, PartialEq, Eq)]
pub struct RDMADataSock {
    pub fd: i32,
}

impl RDMAServerSock {
    /// A completion on the listening socket wakes the fd's waiters.
    pub fn Notify(&self, mask: EventMask, waitinfo: &mut FdWaitInfo)
        ensures
            final(waitinfo)@.mask == old(waitinfo)@.mask,
            final(waitinfo)@.queue == notify_all(old(waitinfo)@.queue, from_linux(mask as u32)),
    {
        waitinfo.Notify(mask);
    }
}

impl RDMADataSock {
    /// A completion on the data socket wakes the fd's waiters.
    pub fn Notify(&self, mask: EventMask, waitinfo: &mut FdWaitInfo)
        ensures
            final(waitinfo)@.mask == old(waitinfo)@.mask,
            final(waitinfo)@.queue == notify_all(old(waitinfo)@.queue, from_linux(mask as u32)),
    {
        waitinfo.Notify(mask);
    }
}

/// What a tracked host fd is, which decides how its events are delivered.
#[derive(Debug)]
pub enum SockInfo {
    File,
    Socket(SocketInfo),
    AsyncSocket(AsyncSocketInfo),
    RDMAServerSocket(RDMAServerSock),
    RDMADataSocket(RDMADataSock),
    RDMAContext,
}

pub ghost enum SockView {
    File,
    Socket(SocketInfo),
    AsyncSocket(Seq<Waiter>),
    RDMAServerSocket(RDMAServerSock),
    RDMADataSocket(RDMADataSock),
    RDMAContext,
}

impl View for SockInfo {
    type V = SockView;

    open spec fn view(&self) -> SockView {
        match self {
            SockInfo::File => SockView::File,
            SockInfo::Socket(s) => SockView::Socket(*s),
            SockInfo::AsyncSocket(a) => SockView::AsyncSocket(a.queue@),
            SockInfo::RDMAServerSocket(s) => SockView::RDMAServerSocket(*s),
            SockInfo::RDMADataSocket(s) => SockView::RDMADataSocket(*s),
            SockInfo::RDMAContext => SockView::RDMAContext,
        }
    }
}

impl Clone for SockInfo {
    fn clone(&self) -> (r: SockInfo)
        ensures
            r@ == self@,
    {
        match self {
            SockInfo::File => SockInfo::File,
            SockInfo::Socket(s) => SockInfo::Socket(*s),
            SockInfo::AsyncSocket(a) => SockInfo::AsyncSocket(
                AsyncSocketInfo { queue: a.queue.clone() },
            ),
            SockInfo::RDMAServerSocket(s) => SockInfo::RDMAServerSocket(*s),
            SockInfo::RDMADataSocket(s) => SockInfo::RDMADataSocket(*s),
            SockInfo::RDMAContext => SockInfo::RDMAContext,
        }
    }
}

impl SockInfo {
    /// Delivers the host event mask `eventmask` by the path of the fd's kind:
    /// files, plain and RDMA sockets wake the fd's waiters, an async socket
    /// wakes its own, and an RDMA completion context is polled elsewhere.
    pub fn Notify(&mut self, eventmask: EventMask, waitinfo: &mut FdWaitInfo)
        ensures
            final(waitinfo)@.mask == old(waitinfo)@.mask,
            ({
                let ev = from_linux(eventmask as u32);
                match old(self)@ {
                    SockView::AsyncSocket(q) => {
                        &&& final(self)@ == SockView::AsyncSocket(notify_all(q, ev))
                        &&& final(waitinfo)@ == old(waitinfo)@
                    },
                    SockView::RDMAContext => {
                        &&& final(self)@ == old(self)@
                        &&& final(waitinfo)@ == old(waitinfo)@
                    },
                    _ => {
                        &&& final(self)@ == old(self)@
                        &&& final(waitinfo)@.queue == notify_all(old(waitinfo)@.queue, ev)
                    },
                }
            }),
    {
        match self {
            SockInfo::File => {
                waitinfo.Notify(eventmask);
            },
            SockInfo::Socket(_) => {
                waitinfo.Notify(eventmask);
            },
            SockInfo::AsyncSocket(asyncSocket) => {
                asyncSocket.Notify(eventmask);
            },
            SockInfo::RDMAServerSocket(sock) => sock.Notify(eventmask, waitinfo),
            SockInfo::RDMADataSocket(sock) => sock.Notify(eventmask, waitinfo),
            SockInfo::RDMAContext => {},
        }
    }
}

/// What is known of one host fd.
#[derive(Debug)]
pub struct FdInfoIntern {
    pub fd: i32,
    pub waitInfo: FdWaitInfo,
    pub flags: i32,
    pub sockInfo: SockInfo,
}

pub ghost struct FdInfoView {
    pub fd: i32,
    pub wait: WaitView,
    pub flags: i32,
    pub sock: SockView,
}

#[derive(Debug)]
pub struct FdInfo(pub FdInfoIntern);

impl View for FdInfo {
    type V = FdInfoView;

    open spec fn view(&self) -> FdInfoView {
        FdInfoView {
            fd: self.0.fd,
            wait: self.0.waitInfo@,
            flags: self.0.flags,
            sock: self.0.sockInfo@,
        }
    }
}

impl Clone for FdInfo {
    fn clone(&self) -> (r: FdInfo)
        ensures
            r@ == self@,
    {
        FdInfo(
            FdInfoIntern {
                fd: self.0.fd,
                waitInfo: self.0.waitInfo.clone(),
                flags: self.0.flags,
                sockInfo: self.0.sockInfo.clone(),
            },
        )
    }
}

impl FdInfo {
    /// A record for host fd `fd`, with its wait info, open flags and kind.
    pub fn New(fd: i32, waitInfo: FdWaitInfo, flags: i32, sockInfo: SockInfo) -> (r: FdInfo)
        ensures
            r@ == (FdInfoView { fd, wait: waitInfo@, flags, sock: sockInfo@ }),
    {
        FdInfo(FdInfoIntern { fd, waitInfo, flags, sockInfo })
    }

    pub fn UpdateWaitInfo(&mut self, waitInfo: FdWaitInfo)
        ensures
            final(self)@ == (FdInfoView { wait: waitInfo@, ..old(self)@ }),
    {
        self.0.waitInfo = waitInfo;
    }
}

/// The fd table: host fd to the record of that fd.
#[derive(Debug)]
pub struct FdTbl {
    pub map: BTreeMap<i32, FdInfo>,
}

impl View for FdTbl {
    type V = Map<i32, FdInfoView>;

    open spec fn view(&self) -> Map<i32, FdInfoView> {
        self.map@.map_values(|i: FdInfo| i@)
    }
}

impl FdTbl {
    /// Each record is filed under its own fd.
    pub open spec fn wf(&self) -> bool {
        forall|fd: i32| #[trigger] self@.contains_key(fd) ==> self@[fd].fd == fd
    }

    /// An empty table.
    pub fn New() -> (r: FdTbl)
        ensures
            r@ == Map::<i32, FdInfoView>::empty(),
            r.wf(),
    {
        let r = FdTbl { map: BTreeMap::new() };
        assert(r@ =~= Map::<i32, FdInfoView>::empty());
        r
    }

    /// Files `info` under its fd; returns the record it replaces, if any.
    pub fn Add(&mut self, info: FdInfo) -> (r: Option<FdInfo>)
        requires
            old(self).wf(),
        ensures
            final(self).wf(),
            final(self)@ == old(self)@.insert(info@.fd, info@),
            r is Some <==> old(self)@.contains_key(info@.fd),
            r matches Some(p) ==> p@ == old(self)@[info@.fd],
    {
        let ghost v = info@;
        let r = self.map.insert(info.0.fd, info);
        assert(self@ =~= old(self)@.insert(v.fd, v));
        r
    }

    /// The record of `fd`, if the table holds one.
    pub fn Get(&self, fd: i32) -> (r: Option<FdInfo>)
        ensures
            r is Some <==> self@.contains_key(fd),
            r matches Some(i) ==> i@ == self@[fd],
    {
        match self.map.get(&fd) {
            None => None,
            Some(fdInfo) => Some(fdInfo.clone()),
        }
    }

    /// Takes the record of `fd` out of the table.
    pub fn Remove(&mut self, fd: i32) -> (r: Option<FdInfo>)
        requires
            old(self).wf(),
        ensures
            final(self).wf(),
            final(self)@ == old(self)@.remove(fd),
            r is Some <==> old(self)@.contains_key(fd),
            r matches Some(i) ==> i@ == old(self)@[fd],
    {
        let r = self.map.remove(&fd);
        assert(self@ =~= old(self)@.remove(fd));
        r
    }

    pub fn Contains(&self, fd: i32) -> (r: bool)
        ensures
            r == self@.contains_key(fd),
    {
        self.map.contains_key(&fd)
    }
}

/// Host epoll fd of a manager that has not been bound to one yet.
pub const EPOLLFD_UNSET: i32 = -1;

/// Owner of the fd table, the host epoll fd and the eventfd that wakes
/// the polling loop.
#[derive(Debug)]
pub struct IOMgr {
    pub fdTbl: FdTbl,
    pub eventfd: i32,
    pub epollfd: i32,
}

impl IOMgr {
    /// A manager with an empty table, waking its poller through `eventfd`.
    pub fn New(eventfd: i32) -> (r: IOMgr)
        ensures
            r.fdTbl@ == Map::<i32, FdInfoView>::empty(),
            r.fdTbl.wf(),
            r.eventfd == eventfd,
            r.epollfd == EPOLLFD_UNSET,
    {
        IOMgr { fdTbl: FdTbl::New(), eventfd, epollfd: EPOLLFD_UNSET }
    }

    /// Binds the manager to the host epoll fd `hostEpollWaitfd`.
    pub fn InitPollHostEpoll(&mut self, hostEpollWaitfd: i32)
        ensures
            final(self).epollfd == hostEpollWaitfd,
            final(self).fdTbl@ == old(self).fdTbl@,
            final(self).eventfd == old(self).eventfd,
    {
        self.epollfd = hostEpollWaitfd;
    }

    pub fn Epollfd(&self) -> (r: i32)
        ensures
            r == self.epollfd,
    {
        self.epollfd
    }

    /// The record of host fd `fd`, if it is tracked.
    pub fn GetByHost(&self, fd: i32) -> (r: Option<FdInfo>)
        ensures
            r is Some <==> self.fdTbl@.contains_key(fd),
            r matches Some(i) ==> i@ == self.fdTbl@[fd],
    {
        self.fdTbl.Get(fd)
    }
}

/// The stored mask after a run of updates from `cur`; each call is the
/// queue's events and the extra mask it was made with.
pub open spec fn run_mask(cur: u64, calls: Seq<(u64, u64)>) -> u64
    decreases calls.len(),
{
    if calls.len() == 0 {
        cur
    } else {
        update_mask(run_mask(cur, calls.drop_last()), calls.last().0 | calls.last().1)
    }
}

/// The call of a run, from `cur`, that last led to an epoll call.
pub open spec fn last_applied(cur: u64, calls: Seq<(u64, u64)>) -> Option<(u64, u64)>
    decreases calls.len(),
{
    if calls.len() == 0 {
        None
    } else if update_op(run_mask(cur, calls.drop_last()), calls.last().0 | calls.last().1) is Some {
        Some(calls.last())
    } else {
        last_applied(cur, calls.drop_last())
    }
}

/// The mask handed to epoll by the last epoll call of a run from `cur`.
pub open spec fn last_kernel_mask(cur: u64, calls: Seq<(u64, u64)>) -> Option<u64>
    decreases calls.len(),
{
    if calls.len() == 0 {
        None
    } else {
        let desired = calls.last().0 | calls.last().1;
        if update_op(run_mask(cur, calls.drop_last()), desired) is Some {
            Some(desired | EPOLLET)
        } else {
            last_kernel_mask(cur, calls.drop_last())
        }
    }
}

/// After any run of updates the stored mask is the queue's events joined
/// with the extra mask of the last call that was applied, and with the
/// edge-triggered bit it is the mask last handed to epoll. With no call
/// applied, the mask is the one the run started from.
pub proof fn lemma_mask_matches_kernel(cur: u64, calls: Seq<(u64, u64)>)
    ensures
        match last_applied(cur, calls) {
            Some(c) => {
                &&& run_mask(cur, calls) == c.0 | c.1
                &&& last_kernel_mask(cur, calls) == Some(run_mask(cur, calls) | EPOLLET)
            },
            None => {
                &&& run_mask(cur, calls) == cur
                &&& last_kernel_mask(cur, calls) is None
            },
        },
    decreases calls.len(),
{
    if calls.len() > 0 {
        lemma_mask_matches_kernel(cur, calls.drop_last());
    }
}

/// Two updates in a row with the same queue events and extra mask make
/// at most one epoll call: the second one changes nothing.
pub proof fn lemma_update_idempotent(cur: u64, events: u64, extra: u64)
    ensures
        update_op(update_mask(cur, events | extra), events | extra) is None,
        update_mask(update_mask(cur, events | extra), events | extra) == update_mask(
            cur,
            events | extra,
        ),
{
    let d = events | extra;
    assert(d | d == d) by (bit_vector);
}

/// A change to the fd table: a record filed, or an fd taken out.
pub ghost enum TblOp {
    Add(FdInfoView),
    Remove(i32),
}

pub open spec fn op_fd(op: TblOp) -> i32 {
    match op {
        TblOp::Add(i) => i.fd,
        TblOp::Remove(fd) => fd,
    }
}

/// The table after `ops`, each as `FdTbl::Add` and `FdTbl::Remove` state it.
pub open spec fn apply_ops(m: Map<i32, FdInfoView>, ops: Seq<TblOp>) -> Map<i32, FdInfoView>
    decreases ops.len(),
{
    if ops.len() == 0 {
        m
    } else {
        let prev = apply_ops(m, ops.drop_last());
        match ops.last() {
            TblOp::Add(i) => prev.insert(i.fd, i),
            TblOp::Remove(fd) => prev.remove(fd),
        }
    }
}

/// Whether the last change in `ops` that concerns `f` files a record.
pub open spec fn added_last(ops: Seq<TblOp>, f: i32) -> bool
    decreases ops.len(),
{
    if ops.len() == 0 {
        false
    } else if op_fd(ops.last()) == f {
        ops.last() is Add
    } else {
        added_last(ops.drop_last(), f)
    }
}

/// From an empty table, an fd is found after a run of changes exactly when
/// it was added and not removed since.
pub proof fn lemma_found_iff_added(ops: Seq<TblOp>, f: i32)
    ensures
        apply_ops(Map::empty(), ops).contains_key(f) <==> added_last(ops, f),
    decreases ops.len(),
{
    if ops.len() > 0 {
        lemma_found_iff_added(ops.drop_last(), f);
    }
}

} // verus!
