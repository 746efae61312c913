//! The ring manager: the kernel I/O rings of the host, their shared
//! direct file table, and the kernel calls made on them.
use vstd::prelude::*;

verus! {

/// Capacity of the direct file table shared by every ring.
pub const FDS_SIZE: usize = 8192;

pub const IORING_REGISTER_FILES: u32 = 2;
pub const IORING_UNREGISTER_FILES: u32 = 3;
pub const IORING_REGISTER_EVENTFD: u32 = 4;
pub const IORING_REGISTER_FILES_UPDATE: u32 = 6;

pub const IORING_ENTER_SQ_WAKEUP: u32 = 2;

/// Idle time, in milliseconds, of a ring's kernel submission thread.
pub const SQPOLL_IDLE: u32 = 10;

/// Largest submission depth: the completion depth, twice as large, must fit in a `u32`.
pub const MAX_URING_SIZE: usize = 0x7fff_ffff;

#[derive(Clone, Copy, Debug, PartialEq, Eq)]
pub enum Error {
    /// A kernel call failed with this error number.
    SysError(i32),
}

/// The error number carried by a failed kernel call's return value; the
/// lowest value, whose negation does not fit, gives the largest number.
pub open spec fn errno_of(ret: i32) -> i32 {
    if ret == i32::MIN {
        i32::MAX
    } else {
        (-ret) as i32
    }
}

/// Reads a kernel call's return value: a negative one is an error number.
pub fn KernelResult(ret: i32) -> (r: Result<i32, Error>)
    ensures
        ret >= 0 ==> r == Ok::<i32, Error>(ret),
        ret < 0 ==> r == Err::<i32, Error>(Error::SysError(errno_of(ret))),
{
    if ret < 0 {
        let code: i32 = if ret == i32::MIN {
            i32::MAX
        } else {
            -ret
        };
        Err(Error::SysError(code))
    } else {
        Ok(ret)
    }
}

/// The result of one registration call on one ring.
pub fn RegisterOne(ret: i32) -> (r: Result<(), Error>)
    ensures
        ret >= 0 ==> r == Ok::<(), Error>(()),
        ret < 0 ==> r == Err::<(), Error>(Error::SysError(errno_of(ret))),
{
    match KernelResult(ret) {
        Ok(_) => Ok(()),
        Err(e) => Err(e),
    }
}

/// How one ring is set up: submission and completion depth, and the idle
/// time and processor of its kernel submission thread.
#[derive(Clone, Copy, Debug, PartialEq, Eq)]
pub struct RingParams {
    pub entries: u32,
    pub cq_entries: u32,
    pub sq_thread_idle: u32,
    pub sq_thread_cpu: u32,
}

/// The set-up of the ring that runs its submission thread on processor `cpu`.
pub open spec fn ring_params(size: usize, cpu: u32) -> RingParams {
    RingParams {
        entries: size as u32,
        cq_entries: (2 * size) as u32,
        sq_thread_idle: SQPOLL_IDLE,
        sq_thread_cpu: cpu,
    }
}

/// How many rings a manager with `dedicated` dedicated processors runs.
pub open spec fn ring_count(dedicated: usize) -> int {
    if dedicated == 0 {
        1
    } else {
        dedicated as int
    }
}

/// One `io_uring_enter` call to issue.
#[derive(Clone, Copy, Debug, PartialEq, Eq)]
pub struct EnterArgs {
    pub fd: i32,
    pub to_submit: u32,
    pub min_complete: u32,
    pub flags: u32,
}

/// One `io_uring_register` call to issue.
#[derive(Clone, Copy, Debug, PartialEq, Eq)]
pub struct RegisterArgs {
    pub fd: i32,
    pub opcode: u32,
    pub arg: u64,
    pub nr_args: u32,
}

/// Ring `fd`, set up as `params`, to be laid out into the caller's
/// submission and completion regions.
#[derive(Clone, Copy, Debug, PartialEq, Eq)]
pub struct SetupArgs {
    pub fd: i32,
    pub params: RingParams,
    pub submission: u64,
    pub completion: u64,
}

/// What a registration across the rings does next.
#[derive(Clone, Copy, Debug, PartialEq, Eq)]
pub enum RegisterStep {
    /// Issue this call and hand its return value back.
    Call(RegisterArgs),
    /// The registration is over, with this result.
    Done(Result<(), Error>),
}

/// The index of the first negative value of `rets` from index `i` on.
pub open spec fn first_failure_from(rets: Seq<i32>, i: int) -> Option<int>
    decreases rets.len() - i,
{
    if i < 0 || i >= rets.len() {
        None
    } else if rets[i] < 0 {
        Some(i)
    } else {
        first_failure_from(rets, i + 1)
    }
}

/// What registering `opcode` across the rings `ringfds` does next, after
/// calls that returned `rets`: stop at the first failure, else call the
/// next ring, else succeed.
pub open spec fn register_step(
    ringfds: Seq<i32>,
    opcode: u32,
    arg: u64,
    nr_args: u32,
    rets: Seq<i32>,
) -> RegisterStep {
    match first_failure_from(rets, 0) {
        Some(k) => RegisterStep::Done(Err(Error::SysError(errno_of(rets[k])))),
        None => if rets.len() < ringfds.len() {
            RegisterStep::Call(RegisterArgs { fd: ringfds[rets.len() as int], opcode, arg, nr_args })
        } else {
            RegisterStep::Done(Ok(()))
        },
    }
}

/// The sum of `s`.
pub open spec fn sum(s: Seq<usize>) -> int
    decreases s.len(),
{
    if s.len() == 0 {
        0
    } else {
        sum(s.drop_last()) + s.last()
    }
}

pub struct UringMgr {
    /// The fd of each ring, in order of creation.
    pub uringfds: Vec<i32>,
    /// Signalled by every ring on a completion.
    pub eventfd: i32,
    /// The direct file table: entry `i` is `i` or -1 (unused).
    pub fds: Vec<i32>,
    /// The set-up of each ring, in order of creation.
    pub rings: Vec<RingParams>,
    /// Submission depth of every ring.
    pub uringSize: usize,
}

impl UringMgr {
    pub open spec fn wf(&self) -> bool {
        &&& self.fds@.len() == FDS_SIZE
        &&& forall|i: int|
            0 <= i < self.fds@.len() ==> #[trigger] self.fds@[i] == -1 || self.fds@[i] == i
        &&& self.uringfds@.len() == self.rings@.len()
        &&& self.uringSize <= MAX_URING_SIZE
    }

    /// A manager with no ring yet, signalled through `eventfd`, whose
    /// rings will be `size` deep, with every file table entry unused.
    pub fn New(size: usize, eventfd: i32) -> (r: UringMgr)
        requires
            size <= MAX_URING_SIZE,
        ensures
            r.wf(),
            r.uringfds@.len() == 0,
            r.eventfd == eventfd,
            r.uringSize == size,
            forall|i: int| 0 <= i < FDS_SIZE ==> #[trigger] r.fds@[i] == -1,
    {
        let mut fds: Vec<i32> = Vec::with_capacity(FDS_SIZE);
        let mut i: usize = 0;
        while i < FDS_SIZE
            invariant
                i <= FDS_SIZE,
                fds@.len() == i,
                forall|k: int| 0 <= k < i ==> #[trigger] fds@[k] == -1,
            decreases FDS_SIZE - i,
        {
            fds.push(-1);
            i = i + 1;
        }
        UringMgr { uringfds: Vec::new(), eventfd, fds, rings: Vec::new(), uringSize: size }
    }

    /// The number of completions waiting across the rings, where `lens`
    /// holds each ring's count.
    pub fn CompleteLen(&self, lens: &Vec<usize>) -> (r: usize)
        requires
            lens@.len() == self.rings@.len(),
            sum(lens@) <= usize::MAX,
        ensures
            r == sum(lens@),
    {
        let mut cnt: usize = 0;
        let mut i: usize = 0;
        while i < lens.len()
            invariant
                i <= lens@.len(),
                cnt == sum(lens@.take(i as int)),
                sum(lens@) <= usize::MAX,
            decreases lens@.len() - i,
        {
            assert(lens@.take(i as int + 1).drop_last() =~= lens@.take(i as int));
            proof {
                lemma_sum_prefix(lens@, i as int + 1);
            }
            cnt = cnt + lens[i];
            i = i + 1;
        }
        assert(lens@.take(i as int) =~= lens@);
        cnt
    }

    /// The number of completion entries available across the rings, where
    /// `lens` holds each ring's count.
    pub fn CompletEntries(&self, lens: &Vec<usize>) -> (r: usize)
        requires
            lens@.len() == self.rings@.len(),
            sum(lens@) <= usize::MAX,
        ensures
            r == sum(lens@),
    {
        self.CompleteLen(lens)
    }

    pub fn Eventfd(&self) -> (r: i32)
        ensures
            r == self.eventfd,
    {
        self.eventfd
    }

    /// The set-up of each ring to create: one ring on processor 0 where
    /// no processor is dedicated, else one ring per dedicated processor,
    /// on processors 0, 1, ...
    pub fn Init(&self, DedicateUringCnt: usize) -> (r: Vec<RingParams>)
        requires
            self.wf(),
        ensures
            r@.len() == ring_count(DedicateUringCnt),
            forall|i: int| 0 <= i < r@.len() ==> #[trigger] r@[i] == ring_params(self.uringSize, i as u32),
    {
        let n: usize = if DedicateUringCnt == 0 {
            1
        } else {
            DedicateUringCnt
        };
        let mut r: Vec<RingParams> = Vec::new();
        let mut i: usize = 0;
        while i < n
            invariant
                i <= n,
                n == ring_count(DedicateUringCnt),
                self.uringSize <= MAX_URING_SIZE,
                r@.len() == i,
                forall|k: int| 0 <= k < i ==> #[trigger] r@[k] == ring_params(self.uringSize, k as u32),
            decreases n - i,
        {
            r.push(RingParams {
                entries: self.uringSize as u32,
                cq_entries: (2 * self.uringSize) as u32,
                sq_thread_idle: SQPOLL_IDLE,
                sq_thread_cpu: i as u32,
            });
            i = i + 1;
        }
        r
    }

    /// Records a ring that was created with `params` and has fd `fd`.
    pub fn AddRing(&mut self, fd: i32, params: RingParams)
        requires
            old(self).wf(),
        ensures
            final(self).wf(),
            final(self).uringfds@ == old(self).uringfds@.push(fd),
            final(self).rings@ == old(self).rings@.push(params),
            final(self).fds@ == old(self).fds@,
            final(self).eventfd == old(self).eventfd,
            final(self).uringSize == old(self).uringSize,
    {
        self.uringfds.push(fd);
        self.rings.push(params);
    }

    /// Binds the queues of ring `idx` to the regions at `submission` and
    /// `completion`.
    pub fn Setup(&self, idx: usize, submission: u64, completion: u64) -> (r: SetupArgs)
        requires
            self.wf(),
            idx < self.uringfds@.len(),
        ensures
            r == (SetupArgs {
                fd: self.uringfds@[idx as int],
                params: self.rings@[idx as int],
                submission,
                completion,
            }),
    {
        SetupArgs { fd: self.uringfds[idx], params: self.rings[idx], submission, completion }
    }

    /// The call that flushes `toSumbit` entries of ring `idx` and waits for
    /// `minComplete` completions.
    pub fn Enter(&self, idx: usize, toSumbit: u32, minComplete: u32, flags: u32) -> (r: EnterArgs)
        requires
            idx < self.uringfds@.len(),
        ensures
            r == (EnterArgs {
                fd: self.uringfds@[idx as int],
                to_submit: toSumbit,
                min_complete: minComplete,
                flags,
            }),
    {
        EnterArgs { fd: self.uringfds[idx], to_submit: toSumbit, min_complete: minComplete, flags }
    }

    /// The call that wakes the kernel submission thread of ring `idx`, or,
    /// with a nonzero `minComplete`, waits for that many completions.
    pub fn Wake(&self, idx: usize, minComplete: usize) -> (r: EnterArgs)
        requires
            idx < self.uringfds@.len(),
        ensures
            r == (EnterArgs {
                fd: self.uringfds@[idx as int],
                to_submit: 1,
                min_complete: minComplete as u32,
                flags: if minComplete == 0 {
                    IORING_ENTER_SQ_WAKEUP
                } else {
                    0
                },
            }),
    {
        let fd = self.uringfds[idx];
        if minComplete == 0 {
            EnterArgs { fd, to_submit: 1, min_complete: minComplete as u32, flags: IORING_ENTER_SQ_WAKEUP }
        } else {
            EnterArgs { fd, to_submit: 1, min_complete: minComplete as u32, flags: 0 }
        }
    }

    /// The next step of registering `opcode` on every ring in turn, where
    /// `rets` holds the return values of the calls made so far. The first
    /// failure ends the registration with its error; no later ring is
    /// called.
    pub fn Register(&self, opcode: u32, arg: u64, nrArgs: u32, rets: &Vec<i32>) -> (r: RegisterStep)
        ensures
            r == register_step(self.uringfds@, opcode, arg, nrArgs, rets@),
    {
        let mut i: usize = 0;
        while i < rets.len()
            invariant
                i <= rets@.len(),
                first_failure_from(rets@, 0) == first_failure_from(rets@, i as int),
            decreases rets@.len() - i,
        {
            if rets[i] < 0 {
                return RegisterStep::Done(RegisterOne(rets[i]));
            }
            i = i + 1;
        }
        if rets.len() < self.uringfds.len() {
            RegisterStep::Call(
                RegisterArgs { fd: self.uringfds[rets.len()], opcode, arg, nr_args: nrArgs },
            )
        } else {
            RegisterStep::Done(Ok(()))
        }
    }

    /// The next step of unregistering the file table from every ring.
    pub fn UnRegisterFile(&self, rets: &Vec<i32>) -> (r: RegisterStep)
        ensures
            r == register_step(self.uringfds@, IORING_UNREGISTER_FILES, 0, 0, rets@),
    {
        self.Register(IORING_UNREGISTER_FILES, 0, 0, rets)
    }

    /// Marks file table entry `fd` as used by `fd`. The update is then
    /// registered on every ring from offset `fd`.
    pub fn Addfd(&mut self, fd: i32)
        requires
            old(self).wf(),
            0 <= fd < FDS_SIZE,
        ensures
            final(self).wf(),
            final(self).fds@ == old(self).fds@.update(fd as int, fd),
            final(self).uringfds@ == old(self).uringfds@,
            final(self).rings@ == old(self).rings@,
    {
        self.fds.set(fd as usize, fd);
    }

    /// Marks file table entry `fd` as unused. The update is then registered
    /// on every ring from offset `fd`.
    pub fn Removefd(&mut self, fd: i32)
        requires
            old(self).wf(),
            0 <= fd < FDS_SIZE,
        ensures
            final(self).wf(),
            final(self).fds@ == old(self).fds@.update(fd as int, -1i32),
            final(self).uringfds@ == old(self).uringfds@,
            final(self).rings@ == old(self).rings@,
    {
        self.fds.set(fd as usize, -1);
    }
}

proof fn lemma_sum_prefix(s: Seq<usize>, n: int)
    requires
        0 <= n <= s.len(),
    ensures
        sum(s.take(n)) <= sum(s),
    decreases s.len(),
{
    if n < s.len() {
        assert(s.drop_last().take(n) =~= s.take(n));
        lemma_sum_prefix(s.drop_last(), n);
    } else {
        assert(s.take(n) =~= s);
    }
}

/// Marking an entry used and then unused leaves it unused.
pub proof fn lemma_add_then_remove(fds: Seq<i32>, f: i32)
    requires
        0 <= f < fds.len(),
    ensures
        fds.update(f as int, f).update(f as int, -1i32)[f as int] == -1,
{
}

} // verus!
