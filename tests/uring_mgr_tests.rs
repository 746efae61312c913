use qvisor_io::uring_mgr::{
    EnterArgs, Error, KernelResult, RegisterArgs, RegisterOne, RegisterStep, RingParams, UringMgr,
    FDS_SIZE, IORING_ENTER_SQ_WAKEUP, IORING_REGISTER_EVENTFD, IORING_UNREGISTER_FILES, SQPOLL_IDLE,
};

fn mgr_with_rings(n: usize) -> UringMgr {
    let mut u = UringMgr::New(64, 9);
    let plan = u.Init(n);
    for (i, p) in plan.into_iter().enumerate() {
        u.AddRing(100 + i as i32, p);
    }
    u
}

#[test]
fn new_table_is_unused() {
    let u = UringMgr::New(32, 5);
    assert_eq!(u.fds.len(), FDS_SIZE);
    assert!(u.fds.iter().all(|&f| f == -1));
    assert_eq!(u.Eventfd(), 5);
    assert!(u.uringfds.is_empty());
}

#[test]
fn init_without_dedicated_makes_one_ring() {
    let u = UringMgr::New(64, 9);
    let plan = u.Init(0);
    assert_eq!(
        plan,
        vec![RingParams { entries: 64, cq_entries: 128, sq_thread_idle: SQPOLL_IDLE, sq_thread_cpu: 0 }]
    );
}

#[test]
fn init_with_four_dedicated_makes_four_rings() {
    let u = UringMgr::New(64, 9);
    let plan = u.Init(4);
    assert_eq!(plan.len(), 4);
    for (i, p) in plan.iter().enumerate() {
        assert_eq!(p.sq_thread_cpu, i as u32);
        assert_eq!(p.entries, 64);
        assert_eq!(p.cq_entries, 128);
    }
}

#[test]
fn add_then_remove_fd() {
    let mut u = UringMgr::New(8, 1);
    u.Addfd(0);
    u.Addfd(FDS_SIZE as i32 - 1);
    assert_eq!(u.fds[0], 0);
    assert_eq!(u.fds[FDS_SIZE - 1], FDS_SIZE as i32 - 1);
    u.Removefd(0);
    assert_eq!(u.fds[0], -1);
    assert_eq!(u.fds[FDS_SIZE - 1], FDS_SIZE as i32 - 1);
}

#[test]
fn kernel_result_reads_errors() {
    assert_eq!(KernelResult(5), Ok(5));
    assert_eq!(KernelResult(0), Ok(0));
    assert_eq!(KernelResult(-22), Err(Error::SysError(22)));
    assert_eq!(KernelResult(i32::MIN), Err(Error::SysError(i32::MAX)));
    assert_eq!(RegisterOne(3), Ok(()));
    assert_eq!(RegisterOne(-9), Err(Error::SysError(9)));
}

#[test]
fn enter_and_wake_args() {
    let u = mgr_with_rings(2);
    assert_eq!(
        u.Enter(1, 4, 2, 1),
        EnterArgs { fd: 101, to_submit: 4, min_complete: 2, flags: 1 }
    );
    assert_eq!(
        u.Wake(0, 0),
        EnterArgs { fd: 100, to_submit: 1, min_complete: 0, flags: IORING_ENTER_SQ_WAKEUP }
    );
    assert_eq!(u.Wake(1, 3), EnterArgs { fd: 101, to_submit: 1, min_complete: 3, flags: 0 });
}

#[test]
fn register_visits_every_ring() {
    let u = mgr_with_rings(3);
    let mut rets = Vec::new();
    let mut called = Vec::new();
    loop {
        match u.Register(IORING_REGISTER_EVENTFD, 77, 1, &rets) {
            RegisterStep::Call(a) => {
                assert_eq!(a, RegisterArgs { fd: a.fd, opcode: IORING_REGISTER_EVENTFD, arg: 77, nr_args: 1 });
                called.push(a.fd);
                rets.push(0);
            }
            RegisterStep::Done(r) => {
                assert_eq!(r, Ok(()));
                break;
            }
        }
    }
    assert_eq!(called, vec![100, 101, 102]);
}

#[test]
fn register_stops_at_first_failure() {
    let u = mgr_with_rings(3);
    assert_eq!(u.Register(IORING_REGISTER_EVENTFD, 0, 1, &vec![0, -16]), RegisterStep::Done(Err(Error::SysError(16))));
    assert_eq!(u.Register(IORING_REGISTER_EVENTFD, 0, 1, &vec![-1, -16]), RegisterStep::Done(Err(Error::SysError(1))));
}

#[test]
fn unregister_files_on_every_ring() {
    let u = mgr_with_rings(2);
    assert_eq!(
        u.UnRegisterFile(&vec![]),
        RegisterStep::Call(RegisterArgs { fd: 100, opcode: IORING_UNREGISTER_FILES, arg: 0, nr_args: 0 })
    );
    assert_eq!(
        u.UnRegisterFile(&vec![0]),
        RegisterStep::Call(RegisterArgs { fd: 101, opcode: IORING_UNREGISTER_FILES, arg: 0, nr_args: 0 })
    );
    assert_eq!(u.UnRegisterFile(&vec![0, 0]), RegisterStep::Done(Ok(())));
}

#[test]
fn no_rings_register_is_done() {
    let u = UringMgr::New(8, 1);
    assert_eq!(u.Register(IORING_REGISTER_EVENTFD, 0, 1, &vec![]), RegisterStep::Done(Ok(())));
}

#[test]
fn completion_counts_sum_rings() {
    let u = mgr_with_rings(3);
    assert_eq!(u.CompleteLen(&vec![2, 0, 5]), 7);
    assert_eq!(u.CompletEntries(&vec![1, 1, 1]), 3);
    assert_eq!(u.CompleteLen(&vec![0, 0, 0]), 0);
}

#[test]
fn setup_names_the_ring() {
    let u = mgr_with_rings(2);
    let s = u.Setup(1, 0x1000, 0x2000);
    assert_eq!(s.fd, 101);
    assert_eq!(s.params.sq_thread_cpu, 1);
    assert_eq!(s.submission, 0x1000);
    assert_eq!(s.completion, 0x2000);
}
