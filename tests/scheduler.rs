use tasksched::config::{
    MAX_SYSCALL_NUM, SYSCALL_EXIT, SYSCALL_GET_TIME, SYSCALL_TASK_INFO, SYSCALL_YIELD,
};
use tasksched::manager::ReadyQueue;
use tasksched::processor::{
    current_task, current_trap_cx, current_user_token, get_syscall_times, get_task_time,
    increase_syscall_time, mmap, run_tasks, schedule, take_current_task, translate_useraddr,
    unmmap, MemoryRequest, Processor,
};
use tasksched::syscall::{sys_exit, sys_get_time, sys_task_info, sys_yield, TimeVal, ERR_BAD_ADDRESS};
use tasksched::task::{TaskContext, TaskControlBlock, TaskStatus};

fn task(id: usize) -> TaskControlBlock {
    let mut cx = TaskContext::zero_init();
    cx.ra = 0x1000 + id;
    cx.sp = 0x8000 + id;
    TaskControlBlock::new(id, cx, 100 + id, 200 + id)
}

fn queue_ids(q: &ReadyQueue) -> Vec<usize> {
    q.tasks.iter().map(|t| t.id).collect()
}

fn running_id(p: &Processor) -> usize {
    current_task(p).unwrap().id
}

#[test]
fn three_tasks_yield_once_then_exit() {
    let mut q = ReadyQueue::new();
    let mut p = Processor::new();
    for id in [1, 2, 3] {
        q.push(task(id));
    }
    let mut order = Vec::new();
    let mut now = 10;
    for expected_queue in [vec![2, 3, 1], vec![3, 1, 2], vec![1, 2, 3]] {
        assert!(run_tasks(&mut p, &mut q, now).is_some());
        order.push(running_id(&p));
        assert_eq!(sys_yield(&mut p, &mut q), 0);
        assert_eq!(queue_ids(&q), expected_queue);
        now += 10;
    }
    for expected_queue in [vec![2, 3], vec![3], vec![]] {
        assert!(run_tasks(&mut p, &mut q, now).is_some());
        order.push(running_id(&p));
        let gone = sys_exit(&mut p, 0);
        assert_eq!(gone.status, TaskStatus::Exited);
        assert_eq!(queue_ids(&q), expected_queue);
        now += 10;
    }
    assert_eq!(order, vec![1, 2, 3, 1, 2, 3]);
    assert!(run_tasks(&mut p, &mut q, now).is_none());
    assert!(current_task(&p).is_none());
}

#[test]
fn fifo_round_robin_over_many_rounds() {
    let mut q = ReadyQueue::new();
    let mut p = Processor::new();
    for id in 0..5 {
        q.push(task(id));
    }
    let mut order = Vec::new();
    for _ in 0..15 {
        run_tasks(&mut p, &mut q, 1).unwrap();
        order.push(running_id(&p));
        sys_yield(&mut p, &mut q);
    }
    let expected: Vec<usize> = (0..15).map(|i| i % 5).collect();
    assert_eq!(order, expected);
}

#[test]
fn run_tasks_switches_into_incoming_context() {
    let mut q = ReadyQueue::new();
    let mut p = Processor::new();
    q.push(task(4));
    let cx = run_tasks(&mut p, &mut q, 3).unwrap();
    assert_eq!(cx.ra, 0x1004);
    assert_eq!(cx.sp, 0x8004);
    let t = current_task(&p).unwrap();
    assert_eq!(t.status, TaskStatus::Running);
    assert_eq!(q.len(), 0);
}

#[test]
fn run_tasks_with_empty_queue_reports_idle() {
    let mut q = ReadyQueue::new();
    let mut p = Processor::new();
    assert!(run_tasks(&mut p, &mut q, 0).is_none());
    assert!(run_tasks(&mut p, &mut q, 5).is_none());
    assert!(take_current_task(&mut p).is_none());
}

#[test]
fn start_time_is_stamped_once() {
    let mut q = ReadyQueue::new();
    let mut p = Processor::new();
    q.push(task(1));
    q.push(task(2));
    run_tasks(&mut p, &mut q, 0).unwrap();
    assert_eq!(current_task(&p).unwrap().start_time, Some(0));
    sys_yield(&mut p, &mut q);
    run_tasks(&mut p, &mut q, 7).unwrap();
    assert_eq!(current_task(&p).unwrap().start_time, Some(7));
    sys_yield(&mut p, &mut q);
    for now in [20, 30, 40, 50] {
        run_tasks(&mut p, &mut q, now).unwrap();
        let t = current_task(&p).unwrap();
        let expected = if t.id == 1 { 0 } else { 7 };
        assert_eq!(t.start_time, Some(expected));
        sys_yield(&mut p, &mut q);
    }
}

#[test]
fn syscall_counts_follow_each_task() {
    let mut q = ReadyQueue::new();
    let mut p = Processor::new();
    q.push(task(1));
    q.push(task(2));
    // task 1 calls get_time three times, task 2 once, interleaved by yields
    run_tasks(&mut p, &mut q, 0).unwrap();
    sys_get_time(&mut p, true, 5, 0).unwrap();
    sys_get_time(&mut p, true, 6, 0).unwrap();
    sys_yield(&mut p, &mut q);
    run_tasks(&mut p, &mut q, 1).unwrap();
    sys_get_time(&mut p, true, 7, 0).unwrap();
    sys_yield(&mut p, &mut q);
    run_tasks(&mut p, &mut q, 2).unwrap();
    assert_eq!(running_id(&p), 1);
    sys_get_time(&mut p, true, 8, 0).unwrap();
    let info = sys_task_info(&mut p, true, 9).unwrap();
    assert_eq!(info.syscall_times[SYSCALL_GET_TIME], 3);
    assert_eq!(info.syscall_times[SYSCALL_YIELD], 1);
    assert_eq!(info.syscall_times[SYSCALL_TASK_INFO], 1);
    assert_eq!(info.syscall_times[SYSCALL_EXIT], 0);
    sys_yield(&mut p, &mut q);
    run_tasks(&mut p, &mut q, 3).unwrap();
    assert_eq!(running_id(&p), 2);
    let counts = get_syscall_times(&p).unwrap();
    assert_eq!(counts[SYSCALL_GET_TIME], 1);
    assert_eq!(counts[SYSCALL_YIELD], 1);
    assert_eq!(counts.iter().map(|c| *c as u64).sum::<u64>(), 2);
}

#[test]
fn increase_syscall_time_counts_current_task_only() {
    let mut p = Processor::new();
    increase_syscall_time(&mut p, 3);
    assert!(get_syscall_times(&p).is_none());
    let mut q = ReadyQueue::new();
    q.push(task(9));
    run_tasks(&mut p, &mut q, 0).unwrap();
    for _ in 0..4 {
        increase_syscall_time(&mut p, 3);
    }
    p.increase_syscall_time(MAX_SYSCALL_NUM - 1);
    let counts = p.get_syscall_times().unwrap();
    assert_eq!(counts[3], 4);
    assert_eq!(counts[MAX_SYSCALL_NUM - 1], 1);
    assert_eq!(counts[2], 0);
}

#[test]
fn syscall_counter_stays_at_largest_value() {
    let mut t = task(1);
    t.syscall_times[SYSCALL_YIELD] = u32::MAX - 1;
    let mut p = Processor::new();
    p.current = Some(t);
    p.increase_syscall_time(SYSCALL_YIELD);
    assert_eq!(p.get_syscall_times().unwrap()[SYSCALL_YIELD], u32::MAX);
    p.increase_syscall_time(SYSCALL_YIELD);
    assert_eq!(p.get_syscall_times().unwrap()[SYSCALL_YIELD], u32::MAX);
}

#[test]
fn task_info_time_is_elapsed_since_first_run() {
    let mut q = ReadyQueue::new();
    let mut p = Processor::new();
    q.push(task(1));
    run_tasks(&mut p, &mut q, 100).unwrap();
    let a = sys_task_info(&mut p, true, 130).unwrap();
    assert_eq!(a.time, 30);
    assert_eq!(a.status, TaskStatus::Running);
    let b = sys_task_info(&mut p, true, 250).unwrap();
    assert_eq!(b.time, 150);
    assert!(b.time >= a.time);
    assert_eq!(b.syscall_times[SYSCALL_TASK_INFO], 2);
    assert_eq!(get_task_time(&p, 400), Some(300));
    assert_eq!(p.get_task_time(100), Some(0));
}

#[test]
fn task_info_to_unmapped_destination_fails() {
    let mut q = ReadyQueue::new();
    let mut p = Processor::new();
    q.push(task(1));
    run_tasks(&mut p, &mut q, 0).unwrap();
    assert!(matches!(sys_task_info(&mut p, false, 5), Err(ERR_BAD_ADDRESS)));
    assert_eq!(get_syscall_times(&p).unwrap()[SYSCALL_TASK_INFO], 1);
}

#[test]
fn get_time_splits_microseconds() {
    let mut p = Processor::new();
    assert_eq!(sys_get_time(&mut p, true, 3_500_123, 0), Ok(TimeVal { sec: 3, usec: 500_123 }));
    assert_eq!(sys_get_time(&mut p, true, 0, 0), Ok(TimeVal { sec: 0, usec: 0 }));
    assert_eq!(sys_get_time(&mut p, true, 999_999, 7), Ok(TimeVal { sec: 0, usec: 999_999 }));
    assert_eq!(sys_get_time(&mut p, true, 1_000_000, 0), Ok(TimeVal { sec: 1, usec: 0 }));
}

#[test]
fn get_time_is_monotone() {
    let mut p = Processor::new();
    let mut last = TimeVal { sec: 0, usec: 0 };
    for us in [0usize, 1, 999_999, 1_000_000, 1_000_001, 2_999_999, 3_000_000, 10_000_000] {
        let tv = sys_get_time(&mut p, true, us, 0).unwrap();
        assert!((tv.sec, tv.usec) >= (last.sec, last.usec));
        assert_eq!(tv.sec * 1_000_000 + tv.usec, us);
        last = tv;
    }
}

#[test]
fn get_time_to_unmapped_destination_fails() {
    let mut q = ReadyQueue::new();
    let mut p = Processor::new();
    q.push(task(1));
    run_tasks(&mut p, &mut q, 0).unwrap();
    assert_eq!(sys_get_time(&mut p, false, 42, 0), Err(ERR_BAD_ADDRESS));
    assert_eq!(get_syscall_times(&p).unwrap()[SYSCALL_GET_TIME], 1);
}

#[test]
fn exit_removes_task_for_good() {
    let mut q = ReadyQueue::new();
    let mut p = Processor::new();
    q.push(task(1));
    q.push(task(2));
    run_tasks(&mut p, &mut q, 0).unwrap();
    let gone = sys_exit(&mut p, -3);
    assert_eq!(gone.id, 1);
    assert_eq!(gone.status, TaskStatus::Exited);
    assert_eq!(gone.syscall_times[SYSCALL_EXIT], 1);
    assert!(current_task(&p).is_none());
    assert!(!q.contains(1));
    run_tasks(&mut p, &mut q, 1).unwrap();
    assert_eq!(running_id(&p), 2);
    sys_yield(&mut p, &mut q);
    run_tasks(&mut p, &mut q, 2).unwrap();
    assert_eq!(running_id(&p), 2);
}

#[test]
fn memory_requests_target_current_address_space() {
    let mut q = ReadyQueue::new();
    let mut p = Processor::new();
    assert_eq!(mmap(&p, 0x1000, 0x2000, 3), None);
    assert_eq!(current_user_token(&p), None);
    q.push(task(5));
    run_tasks(&mut p, &mut q, 0).unwrap();
    assert_eq!(
        mmap(&p, 0x1000, 0x2000, 3),
        Some(MemoryRequest::Mmap { token: 105, start: 0x1000, len: 0x2000, port: 3 })
    );
    assert_eq!(
        unmmap(&p, 0x1000, 0x2000),
        Some(MemoryRequest::Munmap { token: 105, start: 0x1000, len: 0x2000 })
    );
    assert_eq!(
        translate_useraddr(&p, 0x1234),
        Some(MemoryRequest::Translate { token: 105, ptr: 0x1234 })
    );
    assert_eq!(current_user_token(&p), Some(105));
    assert_eq!(current_trap_cx(&p), Some(205));
}

#[test]
fn schedule_returns_idle_context() {
    let mut p = Processor::new();
    p.idle_task_cx.ra = 77;
    p.idle_task_cx.sp = 88;
    let cx = schedule(&p);
    assert_eq!(cx.ra, 77);
    assert_eq!(cx.sp, 88);
    assert_eq!(cx.s, [0usize; 12]);
}

#[test]
fn take_current_empties_the_seat() {
    let mut q = ReadyQueue::new();
    let mut p = Processor::new();
    q.push(task(6));
    run_tasks(&mut p, &mut q, 0).unwrap();
    let t = take_current_task(&mut p).unwrap();
    assert_eq!(t.id, 6);
    assert!(p.current().is_none());
    assert!(p.take_current().is_none());
}

#[test]
fn new_task_starts_with_zero_counters() {
    let t = task(3);
    assert_eq!(t.status, TaskStatus::UnInit);
    assert_eq!(t.start_time, None);
    assert!(t.syscall_times.iter().all(|c| *c == 0));
    let mut q = ReadyQueue::new();
    q.push(t);
    assert_eq!(q.tasks[0].status, TaskStatus::Ready);
    assert!(q.contains(3));
    assert!(!q.contains(4));
}
