//! The scheduler core: the task control block table, the readiness and
//! blocking bitmasks, the stack-frame initializer, and the highest-ready
//! selection that the external context-switch trampoline consumes.
//!
//! Addresses are modeled as plain words: a task's entry point and argument
//! are carried as 32-bit values, and a stack pointer is the word index within
//! that task's private stack region at which its saved context begins. The
//! hardware-facing layer converts between these words and real pointers.

use vstd::prelude::*;

use crate::config::MAX_STACK_SIZE;
use crate::config::MAX_TASKS;
use crate::config::STACK_FRAME_WORDS;
use crate::errors::KernelError;
use crate::helper::bit_is_set;
use crate::helper::get_msb;
use crate::helper::is_msb;
use crate::helper::lemma_or_preserves_idle_bit;
use crate::helper::lemma_or_sets_bit;

verus! {

/// A single task's persisted state: the word index, within that task's
/// private stack region, at which its saved execution context begins. This is
/// the only state the scheduler must keep across a context switch; every
/// other register lives transiently in the stack frame itself.
#[derive(Clone, Copy, Debug, PartialEq, Eq, Structural)]
pub struct TaskControlBlock {
    pub sp: usize,
}

/// The scheduler: exclusive owner of the task table, both readiness
/// bitmasks, and the per-priority stack regions. A task's priority is also
/// its identity and its index into every fixed-size table.
pub struct Scheduler {
    /// Priority of the task presently executing (or about to resume).
    pub curr_pid: usize,
    /// Whether the scheduler is actively dispatching.
    pub is_running: bool,
    /// One slot per priority; `None` until a task is created there.
    pub threads: Vec<Option<TaskControlBlock>>,
    /// Bit `p` set: the task at priority `p` has yielded the right to run
    /// until explicitly released.
    pub blocked_tasks: u32,
    /// Bit `p` set: a task has been created at priority `p` and is eligible
    /// to run (whether or not it is currently blocked).
    pub active_tasks: u32,
    /// Whether the periodic timer may force a switch.
    pub is_preemptive: bool,
    /// Whether the kernel has been started.
    pub started: bool,
    /// One statically reserved stack region per priority, never shared and
    /// never reused across priorities.
    pub stacks: Vec<Vec<u32>>,
}

/// The register image that the hardware exception-return sequence pops when
/// a task is first resumed, written at fixed offsets from the top of the
/// task's stack: the status register value enabling normal execution at the
/// top, the entry address below it as the resume program counter, and the
/// argument in the first-argument register slot. Every other word of the
/// region is left as it was.
pub open spec fn frame_written(new_stack: Seq<u32>, prev_stack: Seq<u32>, entry: u32, arg: u32) -> bool {
    let n = prev_stack.len() as int;
    &&& new_stack.len() == n
    &&& n >= STACK_FRAME_WORDS
    &&& new_stack[n - 1] == 1u32 << 24u32
    &&& new_stack[n - 2] == entry
    &&& new_stack[n - 8] == arg
    &&& forall|k: int|
        0 <= k < n && k != n - 1 && k != n - 2 && k != n - 8 ==> new_stack[k] == prev_stack[k]
}

impl Scheduler {
    /// Structural well-formedness: the tables have one slot per priority,
    /// each stack region has its reserved length, the current task is a
    /// valid priority, and the idle task's bit is set in the active mask, so
    /// the ready set can always resolve to priority 0.
    pub open spec fn wf(self) -> bool {
        &&& self.threads@.len() == MAX_TASKS
        &&& self.stacks@.len() == MAX_TASKS
        &&& forall|i: int| 0 <= i < MAX_TASKS ==> (#[trigger] self.stacks@[i])@.len() == MAX_STACK_SIZE
        &&& self.curr_pid < MAX_TASKS
        &&& self.active_tasks & 1u32 == 1u32
    }

    /// The effective ready set: created and not currently blocked.
    pub open spec fn ready_mask(self) -> u32 {
        self.active_tasks & !self.blocked_tasks
    }

    /// A freshly constructed scheduler: empty task table, zeroed stack
    /// regions, nothing blocked, and the idle task's bit already reserved in
    /// the active mask.
    pub fn new() -> (s: Scheduler)
        ensures
            s.wf(),
            s.curr_pid == 0,
            !s.is_running,
            !s.is_preemptive,
            !s.started,
            s.active_tasks == 1u32,
            s.blocked_tasks == 0u32,
            forall|i: int| 0 <= i < MAX_TASKS ==> (#[trigger] s.threads@[i]) is None,
            forall|i: int, k: int|
                0 <= i < MAX_TASKS && 0 <= k < MAX_STACK_SIZE ==> (#[trigger] s.stacks@[i]@[k]) == 0u32,
    {
        let mut threads: Vec<Option<TaskControlBlock>> = Vec::new();
        while threads.len() < MAX_TASKS
            invariant
                threads@.len() <= MAX_TASKS,
                forall|i: int| 0 <= i < threads@.len() ==> (#[trigger] threads@[i]) is None,
            decreases MAX_TASKS - threads@.len(),
        {
            threads.push(None);
        }
        let mut stacks: Vec<Vec<u32>> = Vec::new();
        while stacks.len() < MAX_TASKS
            invariant
                stacks@.len() <= MAX_TASKS,
                forall|i: int| 0 <= i < stacks@.len() ==> (#[trigger] stacks@[i])@.len() == MAX_STACK_SIZE,
                forall|i: int, k: int|
                    0 <= i < stacks@.len() && 0 <= k < MAX_STACK_SIZE ==> (#[trigger] stacks@[i]@[k]) == 0u32,
            decreases MAX_TASKS - stacks@.len(),
        {
            let mut region: Vec<u32> = Vec::new();
            while region.len() < MAX_STACK_SIZE
                invariant
                    region@.len() <= MAX_STACK_SIZE,
                    forall|k: int| 0 <= k < region@.len() ==> (#[trigger] region@[k]) == 0u32,
                decreases MAX_STACK_SIZE - region@.len(),
            {
                region.push(0u32);
            }
            stacks.push(region);
        }
        proof {
            assert(1u32 & 1u32 == 1u32) by (bit_vector);
        }
        Scheduler {
            curr_pid: 0,
            is_running: false,
            threads,
            blocked_tasks: 0u32,
            active_tasks: 1u32,
            is_preemptive: false,
            started: false,
            stacks,
        }
    }

    /// Initializes the switcher: records the preemption mode and creates the
    /// always-present idle task at priority 0. The idle slot's stack region
    /// is never below the minimum frame size, so this cannot fail.
    pub fn init(&mut self, is_preemptive: bool, idle_entry: u32, idle_arg: u32)
        requires
            old(self).wf(),
        ensures
            final(self).wf(),
            final(self).is_preemptive == is_preemptive,
            final(self).active_tasks == old(self).active_tasks | 1u32,
            final(self).active_tasks & 1u32 == 1u32,
            final(self).threads@[0] matches Some(tcb) && tcb.sp + 16 == MAX_STACK_SIZE,
            frame_written(final(self).stacks@[0]@, old(self).stacks@[0]@, idle_entry, idle_arg),
            final(self).blocked_tasks == old(self).blocked_tasks,
            forall|i: int| 0 < i < MAX_TASKS ==> final(self).threads@[i] == old(self).threads@[i],
            forall|i: int| 0 < i < MAX_TASKS ==> final(self).stacks@[i] == old(self).stacks@[i],
            final(self).curr_pid == old(self).curr_pid,
            final(self).is_running == old(self).is_running,
            final(self).started == old(self).started,
    {
        self.is_preemptive = is_preemptive;
        proof {
            assert(1u32 << 0u32 == 1u32) by (bit_vector);
        }
        match self.create_task(0, idle_entry, idle_arg) {
            Ok(()) => {}
            Err(_) => {
                proof {
                    // priority 0 is in range and its region has the reserved
                    // length, so creation cannot have failed
                    assert(false);
                }
            }
        }
    }

    /// Marks the scheduler as actively dispatching. The timer collaborator
    /// that drives preemption is external; arming it is not part of the
    /// scheduling logic. Always succeeds: there is no re-entrancy guard.
    pub fn start_kernel(&mut self) -> (r: Result<(), KernelError>)
        ensures
            r is Ok,
            final(self).is_running,
            final(self).active_tasks == old(self).active_tasks,
            final(self).blocked_tasks == old(self).blocked_tasks,
            final(self).threads == old(self).threads,
            final(self).stacks == old(self).stacks,
            final(self).curr_pid == old(self).curr_pid,
            final(self).is_preemptive == old(self).is_preemptive,
            final(self).started == old(self).started,
            old(self).wf() ==> final(self).wf(),
    {
        self.is_running = true;
        Ok(())
    }

    /// Creates a task: validates the priority, writes the initial exception
    /// frame into that priority's own stack region, stores the resulting
    /// control block in the table — overwriting any previous occupant of the
    /// slot — and marks the priority eligible to run in the active mask.
    ///
    /// Succeeds exactly on priorities below [`MAX_TASKS`]; every region is
    /// at least the minimum frame size, so `StackTooSmall` cannot arise
    /// here. Creation never touches the blocked mask, so a priority that was
    /// not blocked before is ready as soon as its creation returns.
    pub fn create_task(&mut self, priority: usize, entry: u32, arg: u32) -> (r: Result<
        (),
        KernelError,
    >)
        requires
            old(self).wf(),
        ensures
            final(self).wf(),
            r is Ok <==> priority < MAX_TASKS,
            r is Ok ==> ({
                &&& final(self).threads@[priority as int] matches Some(tcb) && tcb.sp + 16
                    == MAX_STACK_SIZE
                &&& frame_written(
                    final(self).stacks@[priority as int]@,
                    old(self).stacks@[priority as int]@,
                    entry,
                    arg,
                )
                &&& final(self).active_tasks == old(self).active_tasks | (1u32 << (
                priority as u32))
                &&& bit_is_set(final(self).active_tasks, priority as u32)
                &&& forall|i: int|
                    0 <= i < MAX_TASKS && i != priority ==> final(self).threads@[i] == old(
                        self,
                    ).threads@[i]
                &&& forall|i: int|
                    0 <= i < MAX_TASKS && i != priority ==> final(self).stacks@[i] == old(
                        self,
                    ).stacks@[i]
            }),
            r matches Err(e) ==> e == KernelError::DoesNotExist && *final(self) == *old(self),
            final(self).blocked_tasks == old(self).blocked_tasks,
            !bit_is_set(old(self).blocked_tasks, priority as u32) ==> !bit_is_set(
                final(self).blocked_tasks,
                priority as u32,
            ),
            final(self).curr_pid == old(self).curr_pid,
            final(self).is_running == old(self).is_running,
            final(self).is_preemptive == old(self).is_preemptive,
            final(self).started == old(self).started,
    {
        if priority >= MAX_TASKS {
            return Err(KernelError::DoesNotExist);
        }
        let mut stack = self.stacks.remove(priority);
        let res = self.create_tcb(&mut stack, entry, arg);
        self.stacks.insert(priority, stack);
        proof {
            let p = priority as int;
            let s0 = old(self).stacks@;
            let s1 = s0.remove(p);
            assert(res is Ok);
            assert(self.stacks@.len() == s0.len());
            assert(self.stacks@[p] == stack);
            assert forall|i: int| 0 <= i < MAX_TASKS && i != p implies self.stacks@[i] == s0[i] by {
                if i < p {
                    assert(s1[i] == s0[i]);
                    assert(self.stacks@[i] == s1[i]);
                } else {
                    assert(s1[i - 1] == s0[i]);
                    assert(self.stacks@[i] == s1[i - 1]);
                }
            }
            assert forall|i: int|
                0 <= i < MAX_TASKS implies (#[trigger] self.stacks@[i])@.len()
                == MAX_STACK_SIZE by {
                if i != p {
                    assert(self.stacks@[i] == s0[i]);
                }
            }
        }
        match res {
            Ok(tcb) => {
                match self.insert_tcb(priority, tcb) {
                    Ok(()) => {}
                    Err(e) => {
                        return Err(e);
                    }
                }
                self.active_tasks = self.active_tasks | (1u32 << (priority as u32));
                proof {
                    lemma_or_sets_bit(old(self).active_tasks, priority as u32);
                    lemma_or_preserves_idle_bit(
                        old(self).active_tasks,
                        1u32 << (priority as u32),
                    );
                }
                Ok(())
            },
            Err(_) => {
                proof {
                    // the region held the full reserved length, so the frame
                    // initializer cannot have rejected it
                    assert(false);
                }
                Err(KernelError::DoesNotExist)
            },
        }
    }

    /// Writes the minimal register image that the hardware exception-return
    /// path expects into `stack` and returns the control block holding the
    /// resulting stack pointer: the word index 16 slots below the top, just
    /// under the written frame. Resuming a never-yet-run task is thereby the
    /// same operation as resuming a preempted one: pop a frame, return from
    /// the exception. Fails exactly when the region is below the minimum
    /// usable frame size, leaving the region untouched.
    pub fn create_tcb(&self, stack: &mut Vec<u32>, entry: u32, arg: u32) -> (r: Result<
        TaskControlBlock,
        KernelError,
    >)
        ensures
            r is Ok <==> old(stack)@.len() >= STACK_FRAME_WORDS,
            r matches Ok(tcb) ==> frame_written(final(stack)@, old(stack)@, entry, arg)
                && tcb.sp + 16 == old(stack)@.len(),
            r matches Err(e) ==> e == KernelError::StackTooSmall && final(stack)@ == old(stack)@,
    {
        if stack.len() < STACK_FRAME_WORDS {
            return Err(KernelError::StackTooSmall);
        }
        let idx = stack.len() - 1;
        stack[idx] = 1u32 << 24u32;  // status register: normal execution state
        stack[idx - 1] = entry;  // resume program counter
        stack[idx - 7] = arg;  // first-argument register slot
        let sp = stack.len() - 16;
        Ok(TaskControlBlock { sp })
    }

    /// Stores a control block at a priority slot, overwriting any previous
    /// occupant: priority doubles as identity, so creating at an occupied
    /// priority replaces the old task. Fails exactly on out-of-range slots.
    pub fn insert_tcb(&mut self, idx: usize, tcb: TaskControlBlock) -> (r: Result<
        (),
        KernelError,
    >)
        requires
            old(self).wf(),
        ensures
            final(self).wf(),
            r is Ok <==> idx < MAX_TASKS,
            r is Ok ==> final(self).threads@ == old(self).threads@.update(idx as int, Some(tcb)),
            r matches Err(e) ==> e == KernelError::DoesNotExist && *final(self) == *old(self),
            final(self).active_tasks == old(self).active_tasks,
            final(self).blocked_tasks == old(self).blocked_tasks,
            final(self).stacks == old(self).stacks,
            final(self).curr_pid == old(self).curr_pid,
            final(self).is_running == old(self).is_running,
            final(self).is_preemptive == old(self).is_preemptive,
            final(self).started == old(self).started,
    {
        if idx >= MAX_TASKS {
            return Err(KernelError::DoesNotExist);
        }
        self.threads[idx] = Some(tcb);
        Ok(())
    }

    /// Removes a set of tasks from the ready set in one atomic word write:
    /// every bit of `tasks_mask` is ORed into the blocked mask. The active
    /// mask is untouched, so blocking can never unmake a created task.
    pub fn block_tasks(&mut self, tasks_mask: u32)
        ensures
            final(self).blocked_tasks == old(self).blocked_tasks | tasks_mask,
            final(self).active_tasks == old(self).active_tasks,
            final(self).threads == old(self).threads,
            final(self).stacks == old(self).stacks,
            final(self).curr_pid == old(self).curr_pid,
            final(self).is_running == old(self).is_running,
            final(self).is_preemptive == old(self).is_preemptive,
            final(self).started == old(self).started,
            old(self).wf() ==> final(self).wf(),
    {
        self.blocked_tasks = self.blocked_tasks | tasks_mask;
    }

    /// Returns a set of tasks to the ready set in one atomic word write:
    /// every bit of `tasks_mask` is cleared from the blocked mask.
    pub fn unblock_tasks(&mut self, tasks_mask: u32)
        ensures
            final(self).blocked_tasks == old(self).blocked_tasks & !tasks_mask,
            final(self).active_tasks == old(self).active_tasks,
            final(self).threads == old(self).threads,
            final(self).stacks == old(self).stacks,
            final(self).curr_pid == old(self).curr_pid,
            final(self).is_running == old(self).is_running,
            final(self).is_preemptive == old(self).is_preemptive,
            final(self).started == old(self).started,
            old(self).wf() ==> final(self).wf(),
    {
        self.blocked_tasks = self.blocked_tasks & !tasks_mask;
    }

    /// Marks a set of tasks eligible to run: every bit of `tasks_mask` is
    /// ORed into the active mask. Bits are only ever set here, so the idle
    /// task's bit survives any release.
    pub fn release(&mut self, tasks_mask: &u32)
        ensures
            final(self).active_tasks == old(self).active_tasks | *tasks_mask,
            final(self).blocked_tasks == old(self).blocked_tasks,
            final(self).threads == old(self).threads,
            final(self).stacks == old(self).stacks,
            final(self).curr_pid == old(self).curr_pid,
            final(self).is_running == old(self).is_running,
            final(self).is_preemptive == old(self).is_preemptive,
            final(self).started == old(self).started,
            old(self).wf() ==> final(self).wf(),
    {
        self.active_tasks = self.active_tasks | *tasks_mask;
        proof {
            if old(self).wf() {
                lemma_or_preserves_idle_bit(old(self).active_tasks, *tasks_mask);
            }
        }
    }

    /// The scheduling decision: the highest-priority ready task. Returns the
    /// index of the most significant set bit of the ready mask — the
    /// numerically largest ready priority — and falls back to the idle
    /// task's priority 0 when the ready mask is empty.
    #[allow(non_snake_case)]
    pub fn get_HT(&self) -> (r: usize)
        ensures
            r < 32,
            self.ready_mask() == 0 ==> r == 0,
            self.ready_mask() != 0 ==> is_msb(self.ready_mask(), r as u32),
    {
        let mask: u32 = self.active_tasks & !self.blocked_tasks;
        get_msb(mask)
    }

    /// Read access to a priority slot, for the trampoline to fetch a stack
    /// pointer during a switch. `None` for out-of-range priorities and for
    /// slots where no task has been created.
    pub fn get_tcb(&self, priority: usize) -> (r: Option<TaskControlBlock>)
        requires
            self.wf(),
        ensures
            priority < MAX_TASKS ==> r == self.threads@[priority as int],
            priority >= MAX_TASKS ==> r is None,
    {
        if priority >= MAX_TASKS {
            None
        } else {
            self.threads[priority]
        }
    }
}

/// A successful creation marks its priority ready: the relation that
/// `create_task` establishes between the old and the new mask state sets the
/// priority's bit in the active mask and — since creation never writes the
/// blocked mask — leaves it clear in the blocked mask whenever it was clear
/// before.
pub proof fn lemma_create_task_marks_ready(pre: Scheduler, post: Scheduler, p: usize)
    requires
        p < MAX_TASKS,
        post.active_tasks == pre.active_tasks | (1u32 << (p as u32)),
        post.blocked_tasks == pre.blocked_tasks,
        !bit_is_set(pre.blocked_tasks, p as u32),
    ensures
        bit_is_set(post.active_tasks, p as u32),
        !bit_is_set(post.blocked_tasks, p as u32),
{
    lemma_or_sets_bit(pre.active_tasks, p as u32);
}

/// The idle task is always present: blocking and unblocking touch only the
/// blocked mask, and releasing only sets bits, so no sequence of these
/// operations can clear bit 0 of the active mask once it is set.
pub proof fn lemma_idle_bit_never_cleared(pre: Scheduler, post: Scheduler)
    requires
        pre.active_tasks & 1u32 == 1u32,
        post.active_tasks == pre.active_tasks || (exists|m: u32|
            post.active_tasks == pre.active_tasks | m),
    ensures
        post.active_tasks & 1u32 == 1u32,
{
    if post.active_tasks != pre.active_tasks {
        let m = choose|m: u32| post.active_tasks == pre.active_tasks | m;
        lemma_or_preserves_idle_bit(pre.active_tasks, m);
    }
}

/// Round-trip through the frame initializer: reading the resume state back
/// at the documented offsets from the returned stack pointer yields exactly
/// the status word, entry address and argument that were written in.
pub proof fn lemma_frame_round_trip(
    new_stack: Seq<u32>,
    prev_stack: Seq<u32>,
    entry: u32,
    arg: u32,
    sp: int,
)
    requires
        frame_written(new_stack, prev_stack, entry, arg),
        sp + 16 == prev_stack.len(),
    ensures
        new_stack[sp + 15] == 1u32 << 24u32,
        new_stack[sp + 14] == entry,
        new_stack[sp + 8] == arg,
{
}

} // verus!
