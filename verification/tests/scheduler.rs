use microsched::config::MAX_STACK_SIZE;
use microsched::config::MAX_TASKS;
use microsched::config::STACK_FRAME_WORDS;
use microsched::errors::KernelError;
use microsched::helper::get_msb;
use microsched::privilege::check_privileged;
use microsched::scheduler::Scheduler;

const ENTRY: u32 = 0x0800_1234;
const ARG: u32 = 0x2000_0040;

#[test]
fn msb_exact_values() {
    assert_eq!(get_msb(0), 0);
    assert_eq!(get_msb(1), 0);
    assert_eq!(get_msb(0b101), 2);
    assert_eq!(get_msb(0b0010_1011), 5);
    assert_eq!(get_msb(0x8000_0000), 31);
    assert_eq!(get_msb(0xFFFF_FFFF), 31);
}

#[test]
fn new_scheduler_defaults() {
    let s = Scheduler::new();
    assert_eq!(s.curr_pid, 0);
    assert!(!s.is_running);
    assert!(!s.is_preemptive);
    assert!(!s.started);
    assert_eq!(s.active_tasks, 1);
    assert_eq!(s.blocked_tasks, 0);
    assert_eq!(s.threads.len(), MAX_TASKS);
    assert_eq!(s.stacks.len(), MAX_TASKS);
    for i in 0..MAX_TASKS {
        assert!(s.get_tcb(i).is_none());
        assert_eq!(s.stacks[i].len(), MAX_STACK_SIZE);
    }
    assert!(s.get_tcb(MAX_TASKS).is_none());
}

#[test]
fn init_creates_idle_task() {
    let mut s = Scheduler::new();
    s.init(true, ENTRY, ARG);
    assert!(s.is_preemptive);
    assert_eq!(s.active_tasks & 1, 1);
    let tcb = s.get_tcb(0).expect("idle task must be present after init");
    assert_eq!(tcb.sp, MAX_STACK_SIZE - 16);
}

#[test]
fn create_task_marks_priority_ready() {
    let mut s = Scheduler::new();
    s.init(false, ENTRY, ARG);
    for p in [1usize, 3, 5] {
        assert!(s.create_task(p, ENTRY, ARG).is_ok());
        assert_eq!((s.active_tasks >> p) & 1, 1, "created priority must be active");
        assert_eq!((s.blocked_tasks >> p) & 1, 0, "created priority must not be blocked");
    }
}

#[test]
fn create_task_out_of_range_fails() {
    let mut s = Scheduler::new();
    s.init(false, ENTRY, ARG);
    assert_eq!(s.create_task(MAX_TASKS, ENTRY, ARG), Err(KernelError::DoesNotExist));
    assert_eq!(s.create_task(100, ENTRY, ARG), Err(KernelError::DoesNotExist));
}

#[test]
fn frame_on_minimum_stack_succeeds() {
    let s = Scheduler::new();
    let mut stack = vec![0u32; STACK_FRAME_WORDS];
    let tcb = s.create_tcb(&mut stack, ENTRY, ARG).expect("minimum-size stack must suffice");
    assert_eq!(tcb.sp, STACK_FRAME_WORDS - 16);
}

#[test]
fn frame_below_minimum_fails() {
    let s = Scheduler::new();
    let mut stack = vec![0u32; STACK_FRAME_WORDS - 1];
    assert_eq!(s.create_tcb(&mut stack, ENTRY, ARG), Err(KernelError::StackTooSmall));
    assert!(stack.iter().all(|w| *w == 0), "a failed creation must leave the region untouched");
}

#[test]
fn frame_round_trip() {
    let s = Scheduler::new();
    let mut stack = vec![0u32; MAX_STACK_SIZE];
    let tcb = s.create_tcb(&mut stack, ENTRY, ARG).unwrap();
    let sp = tcb.sp;
    assert_eq!(sp, MAX_STACK_SIZE - 16);
    // restoring the frame means popping the designated offsets back off
    assert_eq!(stack[sp + 15], 1 << 24, "status register word");
    assert_eq!(stack[sp + 14], ENTRY, "resume program counter");
    assert_eq!(stack[sp + 8], ARG, "first-argument register slot");
    // all other words of the region stay zeroed
    for (i, w) in stack.iter().enumerate() {
        if i != sp + 15 && i != sp + 14 && i != sp + 8 {
            assert_eq!(*w, 0);
        }
    }
}

#[test]
fn scenario_block_and_release() {
    let mut s = Scheduler::new();
    s.init(false, ENTRY, ARG);
    assert_eq!(s.active_tasks, 0b1);
    for p in [1usize, 3, 5] {
        s.create_task(p, ENTRY, ARG).unwrap();
    }
    assert_eq!(s.active_tasks, 0b0010_1011);
    assert_eq!(s.get_HT(), 5);
    s.block_tasks(1 << 3);
    assert_eq!(s.get_HT(), 5);
    s.block_tasks(1 << 5);
    assert_eq!(s.get_HT(), 1);
    s.unblock_tasks((1 << 3) | (1 << 5));
    assert_eq!(s.get_HT(), 5);
}

#[test]
fn scenario_same_priority_overwrites() {
    let mut s = Scheduler::new();
    s.init(false, ENTRY, ARG);
    let first_entry: u32 = 0x0800_0001;
    let second_entry: u32 = 0x0800_0002;
    s.create_task(2, first_entry, 0x10).unwrap();
    assert!(s.create_task(2, second_entry, 0x20).is_ok());
    // the second creation replaced the first occupant's frame
    assert_eq!(s.stacks[2][MAX_STACK_SIZE - 2], second_entry);
    assert_eq!(s.stacks[2][MAX_STACK_SIZE - 8], 0x20);
    let tcb = s.get_tcb(2).expect("slot must stay occupied");
    assert_eq!(tcb.sp, MAX_STACK_SIZE - 16);
    assert_eq!((s.active_tasks >> 2) & 1, 1);
}

#[test]
fn idle_selected_when_nothing_else_ready() {
    let mut s = Scheduler::new();
    s.init(false, ENTRY, ARG);
    assert_eq!(s.get_HT(), 0);
    // even blocking every priority, the idle task included, resolves to 0
    s.create_task(4, ENTRY, ARG).unwrap();
    s.block_tasks(0xFFFF_FFFF);
    assert_eq!(s.get_HT(), 0);
}

#[test]
fn blocking_never_clears_idle_active_bit() {
    let mut s = Scheduler::new();
    s.init(false, ENTRY, ARG);
    s.block_tasks(0xFFFF_FFFF);
    s.unblock_tasks(0xFFFF_FFFF);
    s.block_tasks(0b1);
    s.release(&0xA0);
    assert_eq!(s.active_tasks & 1, 1);
}

#[test]
fn release_sets_active_bits() {
    let mut s = Scheduler::new();
    s.init(false, ENTRY, ARG);
    s.release(&0b1_0000);
    assert_eq!(s.active_tasks, 0b1_0001);
}

#[test]
fn block_unblock_exact_masks() {
    let mut s = Scheduler::new();
    s.init(false, ENTRY, ARG);
    s.block_tasks(0b1010);
    assert_eq!(s.blocked_tasks, 0b1010);
    s.unblock_tasks(0b10);
    assert_eq!(s.blocked_tasks, 0b1000);
}

#[test]
fn privilege_guard_decision() {
    assert_eq!(check_privileged(true), Ok(()));
    assert_eq!(check_privileged(false), Err(KernelError::AccessDenied));
}

#[test]
fn start_kernel_marks_running() {
    let mut s = Scheduler::new();
    s.init(true, ENTRY, ARG);
    assert_eq!(s.start_kernel(), Ok(()));
    assert!(s.is_running);
}

#[test]
fn highest_ready_is_a_ready_priority() {
    let mut s = Scheduler::new();
    s.init(false, ENTRY, ARG);
    for p in [1usize, 2, 6] {
        s.create_task(p, ENTRY, ARG).unwrap();
    }
    s.block_tasks(1 << 6);
    let ht = s.get_HT();
    let ready = s.active_tasks & !s.blocked_tasks;
    assert_eq!((ready >> ht) & 1, 1, "selected priority must be ready");
    for j in (ht + 1)..32 {
        assert_eq!((ready >> j) & 1, 0, "no higher priority may be ready");
    }
    assert_eq!(ht, 2);
}
