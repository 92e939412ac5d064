//! Kernel tasks and the bookkeeping of a task switch.
//!
//! A task owns a stack. While the task does not run, the top of what it has
//! pushed is a *switch frame*: the six callee-saved registers and, above
//! them, the address where the task resumes. The raw exchange of stack
//! pointers is the caller's business; what stands here is everything that
//! is decided before and after it.

use crate::addr::Aligned;
use crate::addr::VirtAddr;
use crate::bits::bit_is_set;
use crate::bits::get_bit;
use crate::bits::set_bit;
use crate::bits::with_bit;
use vstd::prelude::*;

verus! {

/// The size of one word on a task's stack.
pub const STACK_WORD: u64 = 8;

/// The number of words that seeding a new task pushes: the switch frame
/// and, above it, the address of the handler for a task that returns.
pub const SEED_WORDS: u64 = 8;

/// The length of the stack that a new task gets by default.
pub const TASK_DEFAULT_STACK_LEN: u64 = 4096 * 16;

/// A task's flags: bit 0 says that the task runs, bit 1 that it is dead.
#[derive(Debug, Clone, Copy)]
pub struct TaskFlags(u64);

impl TaskFlags {
    pub closed spec fn view(&self) -> u64 {
        self.0
    }

    /// Flags with nothing set.
    pub fn new() -> (r: Self)
        ensures
            r@ == 0,
    {
        TaskFlags(0)
    }

    pub open spec fn running(&self) -> bool {
        bit_is_set(self@, 0)
    }

    pub open spec fn dead(&self) -> bool {
        bit_is_set(self@, 1)
    }

    /// The flags as one word.
    pub fn bits(&self) -> (r: u64)
        ensures
            r == self@,
    {
        self.0
    }

    pub fn is_running_set(&self) -> (r: bool)
        ensures
            r == self.running(),
    {
        get_bit(self.0, 0)
    }

    pub fn set_running_flag(&mut self, flag: bool)
        ensures
            final(self)@ == with_bit(old(self)@, 0, flag),
    {
        self.0 = set_bit(self.0, 0, flag);
    }

    pub fn is_dead_set(&self) -> (r: bool)
        ensures
            r == self.dead(),
    {
        get_bit(self.0, 1)
    }

    pub fn set_dead_flag(&mut self, flag: bool)
        ensures
            final(self)@ == with_bit(old(self)@, 1, flag),
    {
        self.0 = set_bit(self.0, 1, flag);
    }
}

/// What a switch saves on the stack of the task that it leaves, lowest
/// address first.
#[derive(Debug, Clone, Copy, PartialEq, Eq, Structural)]
pub struct SwitchFrame {
    pub rbx: u64,
    pub rbp: u64,
    pub r12: u64,
    pub r13: u64,
    pub r14: u64,
    pub r15: u64,
    /// Where the task resumes.
    pub resume: u64,
}

impl SwitchFrame {
    /// The frame as it lies in memory, lowest address first.
    pub open spec fn words_spec(self) -> Seq<u64> {
        seq![self.rbx, self.rbp, self.r12, self.r13, self.r14, self.r15, self.resume]
    }

    /// The frame that seven words in memory hold.
    pub open spec fn from_words_spec(words: Seq<u64>) -> SwitchFrame {
        SwitchFrame {
            rbx: words[0],
            rbp: words[1],
            r12: words[2],
            r13: words[3],
            r14: words[4],
            r15: words[5],
            resume: words[6],
        }
    }

    /// The frame of a task that has never run: every register zero, and
    /// execution resumes at `entry`.
    pub fn seeded(entry: u64) -> (r: Self)
        ensures
            r == (SwitchFrame { rbx: 0, rbp: 0, r12: 0, r13: 0, r14: 0, r15: 0, resume: entry }),
    {
        SwitchFrame { rbx: 0, rbp: 0, r12: 0, r13: 0, r14: 0, r15: 0, resume: entry }
    }

    pub fn words(&self) -> (r: [u64; 7])
        ensures
            r@ == self.words_spec(),
    {
        let r = [self.rbx, self.rbp, self.r12, self.r13, self.r14, self.r15, self.resume];
        assert(r@ =~= self.words_spec());
        r
    }

    pub fn from_words(words: &[u64; 7]) -> (r: Self)
        ensures
            r == Self::from_words_spec(words@),
    {
        SwitchFrame {
            rbx: words[0],
            rbp: words[1],
            r12: words[2],
            r13: words[3],
            r14: words[4],
            r15: words[5],
            resume: words[6],
        }
    }

    /// What is saved is what is restored: a frame written to memory and
    /// read back is the same frame.
    pub proof fn lemma_round_trip(self)
        ensures
            Self::from_words_spec(self.words_spec()) == self,
            self.words_spec().len() == 7,
    {
    }
}

/// The stack of a task: `len` bytes from `stack_bottom` up, and the stack
/// pointer that was saved when the task last stopped.
#[derive(Debug)]
pub struct TaskStack {
    stack_bottom: VirtAddr<Aligned<8>>,
    rsp: u64,
    len: u64,
}

impl TaskStack {
    pub closed spec fn bottom(&self) -> int {
        self.stack_bottom@ as int
    }

    pub closed spec fn saved_rsp(&self) -> int {
        self.rsp as int
    }

    pub closed spec fn length(&self) -> int {
        self.len as int
    }

    /// The address just above the stack.
    pub open spec fn top(&self) -> int {
        self.bottom() + self.length()
    }

    #[verifier::type_invariant]
    spec fn inv(&self) -> bool {
        &&& self.stack_bottom@ + self.len <= u64::MAX
        &&& self.stack_bottom@ <= self.rsp <= self.stack_bottom@ + self.len
    }

    /// Takes over `len` bytes of memory at `allocation` as an empty stack.
    pub fn new(allocation: VirtAddr<Aligned<8>>, len: u64) -> (r: Self)
        requires
            allocation@ + len <= u64::MAX,
        ensures
            r.bottom() == allocation@,
            r.length() == len,
            r.saved_rsp() == allocation@ + len,
    {
        Self { stack_bottom: allocation, rsp: allocation.get() + len, len }
    }

    /// The lowest address of the stack.
    pub fn stack_bottom(&self) -> (r: u64)
        ensures
            r == self.bottom(),
            self.top() <= u64::MAX,
            self.bottom() <= self.saved_rsp() <= self.top(),
    {
        proof {
            use_type_invariant(self);
        }
        self.stack_bottom.get()
    }

    /// The number of bytes of the stack.
    pub fn len(&self) -> (r: u64)
        ensures
            r == self.length(),
    {
        self.len
    }

    /// The stack pointer that was saved last.
    pub fn rsp(&self) -> (r: u64)
        ensures
            r == self.saved_rsp(),
    {
        self.rsp
    }

    /// Records the stack pointer at which the task stopped.
    pub fn save_rsp(&mut self, rsp: u64)
        requires
            old(self).bottom() <= rsp <= old(self).top(),
        ensures
            final(self).bottom() == old(self).bottom(),
            final(self).length() == old(self).length(),
            final(self).saved_rsp() == rsp,
    {
        proof {
            use_type_invariant(&*self);
        }
        self.rsp = rsp;
    }
}

/// What the code around a switch has to do next.
#[derive(Debug, Clone, Copy, PartialEq, Eq, Structural)]
pub enum SwitchAction {
    /// Exchange the stack pointers of the two tasks.
    Swap,
    /// Both ends of the switch are one task: leave the stack pointer alone.
    Stay,
    /// The processor's stack pointer is outside the stack of the task that
    /// is said to run. Nothing can be trusted any more: stop the kernel and
    /// report these addresses.
    Fault { rsp: u64, expected_bottom: u64, expected_top: u64 },
}

/// What leaving a task asks of its caller.
#[derive(Debug, Clone, Copy, PartialEq, Eq, Structural)]
pub struct SwitchPlan {
    /// Whether the address space of the task has to be loaded first.
    pub load_address_space: bool,
    pub action: SwitchAction,
}

/// A unit of execution in the kernel, which hands the processor to other
/// tasks by switching stacks.
#[derive(Debug)]
pub struct Task {
    stack: TaskStack,
    task_flags: TaskFlags,
}

impl Task {
    pub closed spec fn stack(&self) -> TaskStack {
        self.stack
    }

    pub closed spec fn flags(&self) -> TaskFlags {
        self.task_flags
    }

    /// Whether `rsp` points into the stack of the task.
    pub open spec fn within_stack(&self, rsp: u64) -> bool {
        self.stack().bottom() <= rsp < self.stack().top()
    }

    /// The words that seeding writes below the top of the stack, lowest
    /// address first: the frame of a task that resumes at `start`, then the
    /// address to which `start` would return.
    pub open spec fn seed_words(start: u64, ret_call: u64) -> Seq<u64> {
        SwitchFrame { rbx: 0, rbp: 0, r12: 0, r13: 0, r14: 0, r15: 0, resume: start }.words_spec().push(
            ret_call,
        )
    }

    /// Creates a task on `stack` whose first switch resumes at `start`.
    /// Should `start` ever return, it returns to `ret_call`. With the task
    /// come the words that the caller has to write to the stack, starting
    /// at the task's saved stack pointer.
    pub fn new(stack: TaskStack, start: u64, ret_call: u64) -> (r: (Self, [u64; 8]))
        requires
            stack.length() >= SEED_WORDS * STACK_WORD,
            stack.saved_rsp() == stack.top(),
        ensures
            r.0.stack().bottom() == stack.bottom(),
            r.0.stack().length() == stack.length(),
            r.0.stack().saved_rsp() == stack.top() - SEED_WORDS * STACK_WORD,
            r.0.flags()@ == 0,
            r.1@ == Self::seed_words(start, ret_call),
    {
        let mut stack = stack;
        let bottom = stack.stack_bottom();
        let top: u64 = bottom + stack.len();
        stack.save_rsp(top - SEED_WORDS * STACK_WORD);
        let frame = SwitchFrame::seeded(start);
        let words = [
            frame.rbx,
            frame.rbp,
            frame.r12,
            frame.r13,
            frame.r14,
            frame.r15,
            frame.resume,
            ret_call,
        ];
        assert(words@ =~= Self::seed_words(start, ret_call));
        (Task { stack, task_flags: TaskFlags::new() }, words)
    }

    /// The stack pointer that was saved when the task last stopped.
    pub fn saved_rsp(&self) -> (r: u64)
        ensures
            r == self.stack().saved_rsp(),
    {
        self.stack.rsp()
    }

    /// Records the stack pointer at which the task stopped.
    pub fn save_rsp(&mut self, rsp: u64)
        requires
            old(self).stack().bottom() <= rsp <= old(self).stack().top(),
        ensures
            final(self).stack().bottom() == old(self).stack().bottom(),
            final(self).stack().length() == old(self).stack().length(),
            final(self).stack().saved_rsp() == rsp,
            final(self).flags() == old(self).flags(),
    {
        self.stack.save_rsp(rsp);
    }

    /// The flags of the task.
    pub fn task_flags(&self) -> (r: TaskFlags)
        ensures
            r == self.flags(),
    {
        self.task_flags
    }

    /// Whether the task is the one that runs, given the processor's stack
    /// pointer.
    pub fn is_current(&self, current_rsp: u64) -> (r: bool)
        ensures
            r == self.within_stack(current_rsp),
    {
        self.is_within_stack(current_rsp)
    }

    /// Whether `rsp` points into the stack of the task.
    pub fn is_within_stack(&self, rsp: u64) -> (r: bool)
        ensures
            r == self.within_stack(rsp),
    {
        let stack_bottom: u64 = self.stack.stack_bottom();
        let stack_top: u64 = stack_bottom + self.stack.len();
        stack_bottom <= rsp && rsp < stack_top
    }

    /// The address just above the stack.
    pub fn stack_top(&self) -> (r: VirtAddr)
        ensures
            r@ == self.stack().top(),
    {
        let stack_bottom: u64 = self.stack.stack_bottom();
        VirtAddr::from(stack_bottom + self.stack.len())
    }

    /// What to do just before the switch away from the task: the task no
    /// longer runs, and its address space is loaded unless it is loaded
    /// already.
    pub fn switch_prelude(&mut self, address_space_loaded: bool) -> (load: bool)
        ensures
            final(self).stack() == old(self).stack(),
            final(self).flags()@ == with_bit(old(self).flags()@, 0, false),
            load == !address_space_loaded,
    {
        self.task_flags.set_running_flag(false);
        !address_space_loaded
    }

    /// What to do just after the switch back to the task: the task runs
    /// again, and the stack for entries into the kernel is the top of its
    /// stack, which is handed back.
    pub fn switch_epilogue(&mut self) -> (top: VirtAddr)
        ensures
            final(self).stack() == old(self).stack(),
            final(self).flags()@ == with_bit(old(self).flags()@, 0, true),
            top@ == old(self).stack().top(),
    {
        self.task_flags.set_running_flag(true);
        self.stack_top()
    }

    /// The first half of a switch from the task to another: everything up
    /// to the exchange of stack pointers. `same_task` says that the switch
    /// leads back to the same task.
    pub fn switch_task(&mut self, current_rsp: u64, address_space_loaded: bool, same_task: bool) -> (r:
        SwitchPlan)
        ensures
            final(self).stack() == old(self).stack(),
            final(self).flags()@ == with_bit(old(self).flags()@, 0, false),
            r.load_address_space == !address_space_loaded,
            r.action == if !old(self).within_stack(current_rsp) {
                (SwitchAction::Fault {
                    rsp: current_rsp,
                    expected_bottom: old(self).stack().bottom() as u64,
                    expected_top: old(self).stack().top() as u64,
                })
            } else if same_task {
                SwitchAction::Stay
            } else {
                SwitchAction::Swap
            },
    {
        let load_address_space = self.switch_prelude(address_space_loaded);
        let action = if !self.is_current(current_rsp) {
            SwitchAction::Fault {
                rsp: current_rsp,
                expected_bottom: self.stack.stack_bottom(),
                expected_top: self.stack_top().get(),
            }
        } else if same_task {
            SwitchAction::Stay
        } else {
            SwitchAction::Swap
        };
        SwitchPlan { load_address_space, action }
    }

    /// The second half of a switch: control has come back to the task. The
    /// answer is the top of the stack for entries into the kernel, or
    /// nothing if the processor's stack pointer is not on the task's
    /// stack, which is fatal.
    pub fn switch_return(&mut self, current_rsp: u64) -> (r: Option<VirtAddr>)
        ensures
            final(self).stack() == old(self).stack(),
            old(self).within_stack(current_rsp) ==> r is Some && r->Some_0@ == old(self).stack().top()
                && final(self).flags()@ == with_bit(old(self).flags()@, 0, true),
            !old(self).within_stack(current_rsp) ==> r is None && final(self).flags() == old(
                self,
            ).flags(),
    {
        if !self.is_current(current_rsp) {
            return None;
        }
        Some(self.switch_epilogue())
    }

    /// The bootstrap switch, which has no task to come from: the task is
    /// made ready to run, and the answer says whether its address space has
    /// to be loaded and where the stack for entries into the kernel is.
    pub fn switch_first(&mut self, address_space_loaded: bool) -> (r: (bool, VirtAddr))
        ensures
            final(self).stack() == old(self).stack(),
            final(self).flags()@ == with_bit(with_bit(old(self).flags()@, 0, false), 0, true),
            r.0 == !address_space_loaded,
            r.1@ == old(self).stack().top(),
    {
        let load = self.switch_prelude(address_space_loaded);
        let top = self.switch_epilogue();
        (load, top)
    }
}

/// A freshly made task finds its own saved stack pointer on its stack,
/// and no address outside the stack's range is on it.
pub proof fn lemma_stack_bounds(task: Task, rsp: u64)
    requires
        task.stack().length() >= SEED_WORDS * STACK_WORD,
        task.stack().top() <= u64::MAX,
        task.stack().saved_rsp() == task.stack().top() - SEED_WORDS * STACK_WORD,
    ensures
        task.within_stack(task.stack().saved_rsp() as u64),
        rsp < task.stack().bottom() || rsp >= task.stack().top() ==> !task.within_stack(rsp),
{
}

} // verus!
