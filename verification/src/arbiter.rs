//! Sharing by priority ceiling. Every resource has a ceiling: the highest
//! priority of any task that uses it. A context that takes a resource runs
//! at that ceiling until it gives the resource back, so that no task that
//! uses the same resource can start meanwhile, while tasks above the
//! ceiling still can.

use vstd::prelude::*;

verus! {

use crate::scheduler::{ceiling, is_ceiling, ResourceId, Task, RESOURCES};

/// What a frame of the arbiter's stack records.
#[derive(Clone, Copy, Debug, PartialEq, Eq, Structural)]
pub enum FrameKind {
    /// A task was set going and preempted what ran before.
    Context,
    /// The running context took a resource.
    Lock(ResourceId),
}

/// One frame of the arbiter's stack: what happened, the priority at which
/// the processor runs since, and the priority of the task that runs.
#[derive(Clone, Copy, Debug, PartialEq, Eq, Structural)]
pub struct Frame {
    pub kind: FrameKind,
    pub priority: u8,
    pub base: u8,
}

/// Why the arbiter refused a step.
#[derive(Clone, Copy, Debug, PartialEq, Eq, Structural)]
pub enum ArbiterError {
    /// The resource's ceiling lies below the priority of the task that
    /// asks for it: the task table does not let that task use it.
    CeilingViolation,
    /// The running context holds the resource already.
    AlreadyHeld,
    /// The resource was never put in its cell.
    Uninitialized,
    /// The resource to give back is not the one taken last.
    NotInnermost,
    /// A context cannot end while it holds a resource.
    LockHeld,
    /// No context is there to end.
    NothingRunning,
}

/// The priority at which the processor runs below frame `i`: zero, the
/// background's, below the first frame.
pub open spec fn level_before(frames: Seq<Frame>, i: int) -> u8 {
    if i <= 0 {
        0
    } else {
        frames[i - 1].priority
    }
}

/// The priority of the task that runs below frame `i`.
pub open spec fn base_before(frames: Seq<Frame>, i: int) -> u8 {
    if i <= 0 {
        0
    } else {
        frames[i - 1].base
    }
}

/// Whether frame `i` came about by the rules: a context starts only above
/// the priority that the processor runs at, and a resource is taken only by
/// a task not above its ceiling, which raises the processor to that ceiling.
pub open spec fn frame_ok(ceilings: Seq<u8>, frames: Seq<Frame>, i: int) -> bool {
    let frame = frames[i];
    &&& frame.base <= frame.priority
    &&& match frame.kind {
        FrameKind::Context => {
            &&& frame.base == frame.priority
            &&& frame.priority > level_before(frames, i)
        },
        FrameKind::Lock(resource) => {
            let ceiling = ceilings[resource.index() as int];
            &&& frame.base == base_before(frames, i)
            &&& frame.base <= ceiling
            &&& frame.priority == if ceiling > level_before(frames, i) {
                ceiling
            } else {
                level_before(frames, i)
            }
        },
    }
}

/// How a frame `i` relates to a frame `j` above it: the processor's
/// priority never falls, the two belong to one context or `j` to a context
/// that preempted `i`'s, and no resource is taken twice.
pub open spec fn ordered(frames: Seq<Frame>, i: int, j: int) -> bool {
    &&& frames[i].priority <= frames[j].priority
    &&& frames[i].base == frames[j].base || frames[i].priority < frames[j].base
    &&& frames[i].kind is Lock ==> frames[i].kind != frames[j].kind
}

/// Whether a stack of frames came about by the rules.
pub open spec fn stack_wf(ceilings: Seq<u8>, frames: Seq<Frame>) -> bool {
    &&& ceilings.len() == RESOURCES
    &&& forall|i: int| 0 <= i < frames.len() ==> #[trigger] frame_ok(ceilings, frames, i)
    &&& forall|i: int, j: int| 0 <= i < j < frames.len() ==> #[trigger] ordered(frames, i, j)
}

/// Whether some context holds `resource`.
pub open spec fn locked(frames: Seq<Frame>, resource: ResourceId) -> bool {
    exists|i: int| 0 <= i < frames.len() && (#[trigger] frames[i]).kind == FrameKind::Lock(resource)
}

/// The one place where a shared resource lives. It is filled at start-up;
/// from then on what is in it is reached through the arbiter, by one
/// context at a time.
pub struct SharedCell<T> {
    slot: Option<T>,
    resource: ResourceId,
}

impl<T> SharedCell<T> {
    /// What the cell holds, if it was ever filled.
    pub closed spec fn content(&self) -> Option<T> {
        self.slot
    }

    /// The resource that the cell stands for.
    pub closed spec fn spec_resource(&self) -> ResourceId {
        self.resource
    }

    /// A cell for `resource` that holds `content`.
    pub fn new(resource: ResourceId, content: T) -> (cell: Self)
        ensures
            cell.resource() == resource,
            cell.content() == Some(content),
    {
        SharedCell { slot: Some(content), resource }
    }

    /// A cell for `resource` that holds nothing yet.
    pub fn vacant(resource: ResourceId) -> (cell: Self)
        ensures
            cell.resource() == resource,
            cell.content() is None,
    {
        SharedCell { slot: None, resource }
    }

    /// Puts `content` into the cell and hands out what was there before.
    /// This is for start-up, before any context shares the cell.
    pub fn install(&mut self, content: T) -> (before: Option<T>)
        ensures
            final(self).resource() == old(self).resource(),
            final(self).content() == Some(content),
            before == old(self).content(),
    {
        let before = self.slot.take();
        self.slot = Some(content);
        before
    }

    /// The resource that the cell stands for.
    #[verifier::when_used_as_spec(spec_resource)]
    pub fn resource(&self) -> (resource: ResourceId)
        ensures
            resource == self.resource(),
    {
        self.resource
    }

    /// Whether the cell was ever filled.
    pub fn is_initialized(&self) -> (filled: bool)
        ensures
            filled == self.content() is Some,
    {
        self.slot.is_some()
    }
}

/// The arbiter: the ceilings of the resources, and the stack of contexts
/// that preempted one another with the resources they hold.
pub struct Arbiter {
    ceilings: Vec<u8>,
    frames: Vec<Frame>,
    held: Vec<bool>,
}

impl Arbiter {
    /// The ceiling of each resource, by the resource's index.
    pub closed spec fn ceilings(&self) -> Seq<u8> {
        self.ceilings@
    }

    /// The stack: what preempted what, and what was taken, oldest first.
    pub closed spec fn frames(&self) -> Seq<Frame> {
        self.frames@
    }

    /// For each resource, by its index, whether it is noted as held.
    pub closed spec fn flags(&self) -> Seq<bool> {
        self.held@
    }

    /// The invariant: the stack came about by the rules, and a resource is
    /// noted as held where some frame holds it.
    pub open spec fn wf(&self) -> bool {
        &&& stack_wf(self.ceilings(), self.frames())
        &&& self.flags().len() == RESOURCES
        &&& forall|resource: ResourceId|
            self.flags()[resource.index() as int] == #[trigger] locked(self.frames(), resource)
    }

    /// The ceiling of `resource`.
    pub open spec fn spec_ceiling(&self, resource: ResourceId) -> u8 {
        self.ceilings()[resource.index() as int]
    }

    /// The priority at which the processor runs.
    pub open spec fn spec_priority(&self) -> u8 {
        level_before(self.frames(), self.frames().len() as int)
    }

    /// The priority of the task that runs.
    pub open spec fn spec_base_priority(&self) -> u8 {
        base_before(self.frames(), self.frames().len() as int)
    }

    /// Whether some context holds `resource`.
    pub open spec fn spec_is_held(&self, resource: ResourceId) -> bool {
        locked(self.frames(), resource)
    }

    /// Why the running context may not take `resource`, if it may not.
    pub open spec fn refusal(&self, resource: ResourceId) -> Option<ArbiterError> {
        if self.ceiling(resource) < self.base_priority() {
            Some(ArbiterError::CeilingViolation)
        } else if self.is_held(resource) {
            Some(ArbiterError::AlreadyHeld)
        } else {
            None
        }
    }

    /// An arbiter for the task table `tasks`, with the background running
    /// and nothing held.
    pub fn new(tasks: &Vec<Task>) -> (arbiter: Self)
        ensures
            arbiter.wf(),
            arbiter.frames().len() == 0,
            forall|resource: ResourceId|
                is_ceiling(tasks@, resource, #[trigger] arbiter.ceiling(resource)),
    {
        let mut ceilings: Vec<u8> = Vec::new();
        ceilings.push(ceiling(tasks, ResourceId::StopWatch));
        ceilings.push(ceiling(tasks, ResourceId::CartEncoder));
        ceilings.push(ceiling(tasks, ResourceId::PendulumEncoder));
        ceilings.push(ceiling(tasks, ResourceId::MotorDriver));
        let mut held: Vec<bool> = Vec::new();
        held.push(false);
        held.push(false);
        held.push(false);
        held.push(false);
        let arbiter = Arbiter { ceilings, frames: Vec::new(), held };
        assert forall|resource: ResourceId|
            is_ceiling(tasks@, resource, #[trigger] arbiter.ceiling(resource)) by {
            match resource {
                ResourceId::StopWatch => {},
                ResourceId::CartEncoder => {},
                ResourceId::PendulumEncoder => {},
                ResourceId::MotorDriver => {},
            }
        }
        arbiter
    }

    /// The ceiling of `resource`.
    #[verifier::when_used_as_spec(spec_ceiling)]
    pub fn ceiling(&self, resource: ResourceId) -> (ceiling: u8)
        requires
            self.wf(),
        ensures
            ceiling == self.ceiling(resource),
    {
        self.ceilings[resource.index()]
    }

    /// The priority at which the processor runs: that of the running task,
    /// or the highest ceiling of what is held, whichever is higher.
    #[verifier::when_used_as_spec(spec_priority)]
    pub fn priority(&self) -> (priority: u8)
        ensures
            priority == self.priority(),
    {
        if self.frames.len() == 0 {
            0
        } else {
            self.frames[self.frames.len() - 1].priority
        }
    }

    /// The priority of the task that runs.
    #[verifier::when_used_as_spec(spec_base_priority)]
    pub fn base_priority(&self) -> (priority: u8)
        ensures
            priority == self.base_priority(),
    {
        if self.frames.len() == 0 {
            0
        } else {
            self.frames[self.frames.len() - 1].base
        }
    }

    /// Whether nothing runs but the background, which then holds nothing.
    pub fn is_idle(&self) -> (idle: bool)
        ensures
            idle == (self.frames().len() == 0),
    {
        self.frames.len() == 0
    }

    /// Whether some context holds `resource`.
    #[verifier::when_used_as_spec(spec_is_held)]
    pub fn is_held(&self, resource: ResourceId) -> (held: bool)
        requires
            self.wf(),
        ensures
            held == self.is_held(resource),
    {
        self.held[resource.index()]
    }

    /// A task of priority `priority` asks to run. It starts, and preempts
    /// what runs, where its priority is above the processor's; otherwise it
    /// stays pending and nothing changes.
    pub fn preempt(&mut self, priority: u8) -> (started: bool)
        requires
            old(self).wf(),
        ensures
            final(self).wf(),
            final(self).ceilings() == old(self).ceilings(),
            started == (priority > old(self).priority()),
            final(self).frames() == if started {
                old(self).frames().push(
                    Frame { kind: FrameKind::Context, priority, base: priority },
                )
            } else {
                old(self).frames()
            },
    {
        if priority <= self.priority() {
            return false;
        }
        let frame = Frame { kind: FrameKind::Context, priority, base: priority };
        self.frames.push(frame);
        proof {
            lemma_push_keeps_rules(old(self).ceilings(), old(self).frames(), frame);
            assert forall|resource: ResourceId|
                self.flags()[resource.index() as int] == #[trigger] locked(
                    self.frames(),
                    resource,
                ) by {
                lemma_push_locked(old(self).frames(), frame, resource);
            }
        }
        true
    }

    /// The running context ends, and what it preempted goes on.
    pub fn complete(&mut self) -> (outcome: Result<(), ArbiterError>)
        requires
            old(self).wf(),
        ensures
            final(self).wf(),
            final(self).ceilings() == old(self).ceilings(),
            outcome == if old(self).frames().len() == 0 {
                Err::<(), ArbiterError>(ArbiterError::NothingRunning)
            } else if old(self).frames().last().kind is Lock {
                Err::<(), ArbiterError>(ArbiterError::LockHeld)
            } else {
                Ok::<(), ArbiterError>(())
            },
            final(self).frames() == if outcome is Ok {
                old(self).frames().drop_last()
            } else {
                old(self).frames()
            },
    {
        let depth: usize = self.frames.len();
        if depth == 0 {
            return Err(ArbiterError::NothingRunning);
        }
        match self.frames[depth - 1].kind {
            FrameKind::Lock(_) => Err(ArbiterError::LockHeld),
            FrameKind::Context => {
                self.frames.pop();
                proof {
                    lemma_pop_keeps_rules(old(self).ceilings(), old(self).frames());
                    assert forall|resource: ResourceId|
                        self.flags()[resource.index() as int] == #[trigger] locked(
                            self.frames(),
                            resource,
                        ) by {
                        lemma_pop_locked(old(self).frames(), resource);
                    }
                }
                Ok(())
            },
        }
    }

    /// The running context takes `resource`. The processor then runs at
    /// the resource's ceiling, if it did not run higher already. A task
    /// above the ceiling is refused, and so is taking a resource twice.
    pub fn lock(&mut self, resource: ResourceId) -> (outcome: Result<(), ArbiterError>)
        requires
            old(self).wf(),
        ensures
            final(self).wf(),
            final(self).ceilings() == old(self).ceilings(),
            outcome == match old(self).refusal(resource) {
                Some(error) => Err::<(), ArbiterError>(error),
                None => Ok::<(), ArbiterError>(()),
            },
            final(self).frames() == if outcome is Ok {
                old(self).frames().push(
                    Frame {
                        kind: FrameKind::Lock(resource),
                        priority: if old(self).ceiling(resource) > old(self).priority() {
                            old(self).ceiling(resource)
                        } else {
                            old(self).priority()
                        },
                        base: old(self).base_priority(),
                    },
                )
            } else {
                old(self).frames()
            },
    {
        let index: usize = resource.index();
        let ceiling: u8 = self.ceilings[index];
        let base: u8 = self.base_priority();
        let level: u8 = self.priority();
        if ceiling < base {
            return Err(ArbiterError::CeilingViolation);
        }
        if self.held[index] {
            return Err(ArbiterError::AlreadyHeld);
        }
        let frame = Frame {
            kind: FrameKind::Lock(resource),
            priority: if ceiling > level {
                ceiling
            } else {
                level
            },
            base,
        };
        self.frames.push(frame);
        self.held.set(index, true);
        proof {
            assert(!locked(old(self).frames(), resource));
            lemma_push_keeps_rules(old(self).ceilings(), old(self).frames(), frame);
            assert forall|other: ResourceId|
                self.flags()[other.index() as int] == #[trigger] locked(self.frames(), other) by {
                lemma_push_locked(old(self).frames(), frame, other);
                assert(old(self).flags()[other.index() as int] == locked(
                    old(self).frames(),
                    other,
                ));
            }
        }
        Ok(())
    }

    /// The running context gives `resource` back, which must be the one it
    /// took last. The processor runs again at the priority it had before
    /// the resource was taken.
    pub fn unlock(&mut self, resource: ResourceId) -> (outcome: Result<(), ArbiterError>)
        requires
            old(self).wf(),
        ensures
            final(self).wf(),
            final(self).ceilings() == old(self).ceilings(),
            outcome == if old(self).frames().len() > 0 && old(self).frames().last().kind
                == FrameKind::Lock(resource) {
                Ok::<(), ArbiterError>(())
            } else {
                Err::<(), ArbiterError>(ArbiterError::NotInnermost)
            },
            final(self).frames() == if outcome is Ok {
                old(self).frames().drop_last()
            } else {
                old(self).frames()
            },
    {
        let depth: usize = self.frames.len();
        if depth == 0 {
            return Err(ArbiterError::NotInnermost);
        }
        if self.frames[depth - 1].kind != FrameKind::Lock(resource) {
            return Err(ArbiterError::NotInnermost);
        }
        self.frames.pop();
        self.held.set(resource.index(), false);
        proof {
            lemma_pop_keeps_rules(old(self).ceilings(), old(self).frames());
            assert forall|other: ResourceId|
                self.flags()[other.index() as int] == #[trigger] locked(self.frames(), other) by {
                lemma_pop_locked(old(self).frames(), other);
                assert(old(self).flags()[other.index() as int] == locked(
                    old(self).frames(),
                    other,
                ));
            }
        }
        Ok(())
    }

    /// Runs `f` on what `cell` holds, with the cell's resource taken for
    /// just that long, and puts what `f` gives back into the cell. `f` has
    /// the content to itself: it receives it and hands back what is to
    /// take its place, together with its result.
    pub fn with_lock<T, R, F: FnOnce(T) -> (T, R)>(
        &mut self,
        cell: &mut SharedCell<T>,
        f: F,
    ) -> (outcome: Result<R, ArbiterError>)
        requires
            old(self).wf(),
            old(cell).content() matches Some(content) ==> call_requires(f, (content,)),
        ensures
            final(self).wf(),
            final(self).ceilings() == old(self).ceilings(),
            final(self).frames() == old(self).frames(),
            final(cell).resource() == old(cell).resource(),
            outcome is Err ==> final(cell).content() == old(cell).content(),
            match (old(self).refusal(old(cell).resource()), old(cell).content()) {
                (Some(error), _) => outcome matches Err(e) && e == error,
                (None, None) => outcome matches Err(ArbiterError::Uninitialized),
                (None, Some(content)) => outcome matches Ok(result) && final(cell).content()
                    matches Some(after) && call_ensures(f, (content,), (after, result)),
            },
    {
        let resource = cell.resource;
        match self.lock(resource) {
            Err(error) => Err(error),
            Ok(()) => {
                let outcome = match cell.slot.take() {
                    None => Err(ArbiterError::Uninitialized),
                    Some(content) => {
                        let (content, result) = f(content);
                        cell.slot = Some(content);
                        Ok(result)
                    },
                };
                let released = self.unlock(resource);
                assert(released is Ok);
                assert(self.frames() =~= old(self).frames());
                outcome
            },
        }
    }
}

/// A frame pushed by the rules keeps the stack within the rules.
proof fn lemma_push_keeps_rules(ceilings: Seq<u8>, frames: Seq<Frame>, frame: Frame)
    requires
        stack_wf(ceilings, frames),
        frame_ok(ceilings, frames.push(frame), frames.len() as int),
        frame.kind matches FrameKind::Lock(resource) ==> !locked(frames, resource),
    ensures
        stack_wf(ceilings, frames.push(frame)),
{
    let grown = frames.push(frame);
    let top = frames.len() as int;
    assert forall|i: int| 0 <= i < grown.len() implies #[trigger] frame_ok(ceilings, grown, i) by {
        if i < top {
            assert(frame_ok(ceilings, frames, i));
        }
    }
    assert forall|i: int, j: int| 0 <= i < j < grown.len() implies #[trigger] ordered(
        grown,
        i,
        j,
    ) by {
        if j < top {
            assert(ordered(frames, i, j));
        } else {
            assert(frame_ok(ceilings, frames, top - 1));
            if i < top - 1 {
                assert(ordered(frames, i, top - 1));
            }
            if frames[i].kind is Lock && frames[i].kind == frame.kind {
                assert(frames[i].kind == FrameKind::Lock(frames[i].kind->Lock_0));
            }
        }
    }
}

/// Taking the top frame off keeps the stack within the rules.
proof fn lemma_pop_keeps_rules(ceilings: Seq<u8>, frames: Seq<Frame>)
    requires
        stack_wf(ceilings, frames),
        frames.len() > 0,
    ensures
        stack_wf(ceilings, frames.drop_last()),
{
    let shrunk = frames.drop_last();
    assert forall|i: int| 0 <= i < shrunk.len() implies #[trigger] frame_ok(
        ceilings,
        shrunk,
        i,
    ) by {
        assert(frame_ok(ceilings, frames, i));
    }
    assert forall|i: int, j: int| 0 <= i < j < shrunk.len() implies #[trigger] ordered(
        shrunk,
        i,
        j,
    ) by {
        assert(ordered(frames, i, j));
    }
}

/// After a push, a resource is held where it was held before or the new
/// frame takes it.
proof fn lemma_push_locked(frames: Seq<Frame>, frame: Frame, resource: ResourceId)
    ensures
        locked(frames.push(frame), resource) == (locked(frames, resource) || frame.kind
            == FrameKind::Lock(resource)),
{
    let grown = frames.push(frame);
    if locked(frames, resource) {
        let i = choose|i: int|
            0 <= i < frames.len() && (#[trigger] frames[i]).kind == FrameKind::Lock(resource);
        assert(grown[i].kind == FrameKind::Lock(resource));
    }
    if frame.kind == FrameKind::Lock(resource) {
        assert(grown[frames.len() as int].kind == FrameKind::Lock(resource));
    }
    if locked(grown, resource) {
        let i = choose|i: int|
            0 <= i < grown.len() && (#[trigger] grown[i]).kind == FrameKind::Lock(resource);
        if i < frames.len() {
            assert(frames[i].kind == FrameKind::Lock(resource));
        }
    }
}

/// After the top frame is taken off a stack within the rules, a resource is
/// held where it was held before and the top frame did not hold it.
proof fn lemma_pop_locked(frames: Seq<Frame>, resource: ResourceId)
    requires
        frames.len() > 0,
        forall|i: int, j: int| 0 <= i < j < frames.len() ==> #[trigger] ordered(frames, i, j),
    ensures
        locked(frames.drop_last(), resource) == (locked(frames, resource) && frames.last().kind
            != FrameKind::Lock(resource)),
{
    let shrunk = frames.drop_last();
    let top = frames.len() - 1;
    if locked(shrunk, resource) {
        let i = choose|i: int|
            0 <= i < shrunk.len() && (#[trigger] shrunk[i]).kind == FrameKind::Lock(resource);
        assert(frames[i].kind == FrameKind::Lock(resource));
        assert(ordered(frames, i, top));
    }
    if locked(frames, resource) && frames.last().kind != FrameKind::Lock(resource) {
        let i = choose|i: int|
            0 <= i < frames.len() && (#[trigger] frames[i]).kind == FrameKind::Lock(resource);
        assert(shrunk[i].kind == FrameKind::Lock(resource));
    }
}

/// A context that keeps to the ceiling rule never finds a resource in
/// the hands of another context. If the running task is not above the
/// ceiling of a resource, then whatever frame holds that resource belongs
/// to the running context itself: every context that was preempted while
/// it held the resource was preempted by tasks above the ceiling only.
pub proof fn lemma_holder_is_running_context(arbiter: Arbiter, resource: ResourceId, i: int)
    requires
        arbiter.wf(),
        0 <= i < arbiter.frames().len(),
        arbiter.frames()[i].kind == FrameKind::Lock(resource),
        arbiter.ceiling(resource) >= arbiter.base_priority(),
    ensures
        arbiter.frames()[i].base == arbiter.base_priority(),
        forall|k: int|
            i < k < arbiter.frames().len() ==> !((#[trigger] arbiter.frames()[k]).kind
                is Context),
{
    let frames = arbiter.frames();
    let top = frames.len() - 1;
    assert(frame_ok(arbiter.ceilings(), frames, i));
    if i < top {
        assert(ordered(frames, i, top));
    }
    assert forall|k: int| i < k < frames.len() implies !((#[trigger] frames[k]).kind
        is Context) by {
        assert(frame_ok(arbiter.ceilings(), frames, k));
        if i < k - 1 {
            assert(ordered(frames, i, k - 1));
        }
        if k < top {
            assert(ordered(frames, k, top));
        }
    }
}

/// A context that has just started finds free every resource that the
/// ceiling rule lets it take: what is held below it is held by contexts
/// that it could only preempt from above the ceiling.
pub proof fn lemma_new_context_finds_resource_free(arbiter: Arbiter, resource: ResourceId)
    requires
        arbiter.wf(),
        arbiter.frames().len() > 0,
        arbiter.frames().last().kind is Context,
        arbiter.ceiling(resource) >= arbiter.base_priority(),
    ensures
        !arbiter.is_held(resource),
        arbiter.refusal(resource) is None,
{
    if arbiter.is_held(resource) {
        let frames = arbiter.frames();
        let i = choose|i: int|
            0 <= i < frames.len() && (#[trigger] frames[i]).kind == FrameKind::Lock(resource);
        lemma_holder_is_running_context(arbiter, resource, i);
        assert(!(frames[frames.len() - 1].kind is Context));
    }
}

/// While a resource is held, the processor runs at its ceiling or above,
/// so that no task that uses the resource can start: each of them has a
/// priority at or below the ceiling, and only a priority above the
/// processor's preempts.
pub proof fn lemma_held_resource_blocks_its_tasks(
    arbiter: Arbiter,
    tasks: Seq<Task>,
    resource: ResourceId,
    t: int,
)
    requires
        arbiter.wf(),
        arbiter.is_held(resource),
        is_ceiling(tasks, resource, arbiter.ceiling(resource)),
        0 <= t < tasks.len(),
        tasks[t].claims(resource),
    ensures
        arbiter.priority() >= arbiter.ceiling(resource),
        tasks[t].priority <= arbiter.priority(),
{
    let frames = arbiter.frames();
    let top = frames.len() - 1;
    let i = choose|i: int|
        0 <= i < frames.len() && (#[trigger] frames[i]).kind == FrameKind::Lock(resource);
    assert(frame_ok(arbiter.ceilings(), frames, i));
    if i < top {
        assert(ordered(frames, i, top));
    }
}

/// No resource is held twice: at most one frame of the stack holds it.
pub proof fn lemma_one_holder(arbiter: Arbiter, resource: ResourceId, i: int, j: int)
    requires
        arbiter.wf(),
        0 <= i < arbiter.frames().len(),
        0 <= j < arbiter.frames().len(),
        arbiter.frames()[i].kind == FrameKind::Lock(resource),
        arbiter.frames()[j].kind == FrameKind::Lock(resource),
    ensures
        i == j,
{
    let frames = arbiter.frames();
    if i < j {
        assert(ordered(frames, i, j));
    } else if j < i {
        assert(ordered(frames, j, i));
    }
}

/// A task that claims a resource in the task table keeps to the ceiling
/// rule for it: the ceiling is at least the task's priority.
pub proof fn lemma_claim_is_within_ceiling(
    tasks: Seq<Task>,
    resource: ResourceId,
    ceiling: u8,
    t: int,
)
    requires
        is_ceiling(tasks, resource, ceiling),
        0 <= t < tasks.len(),
        tasks[t].claims(resource),
    ensures
        tasks[t].priority <= ceiling,
{
}

} // verus!
