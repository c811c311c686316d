//! The command bridge's hand-off queue: a FIFO of color commands with one
//! of two backpressure policies. An unbounded queue accepts everything; a
//! bounded queue drops the newest command when full, so an enqueue never
//! blocks and never evicts an older entry.

use vstd::prelude::*;

use crate::ColorCommand;

verus! {

/// How the queue answers an enqueue when it is full.
#[derive(Debug, Clone, Copy, PartialEq, Eq, Structural)]
pub enum QueuePolicy {
    /// Every enqueue is accepted; the queue grows as needed. For producer
    /// contexts that tolerate unbounded memory but must never stall.
    UnboundedAccept,
    /// At most `capacity` commands are held; an enqueue into a full queue
    /// discards the new command and still returns at once. Required where
    /// the producer is a hard-real-time call site.
    BoundedDropNewest { capacity: usize },
}

/// Whether a queue of length `len` under `policy` accepts one more command.
pub open spec fn accepts(policy: QueuePolicy, len: nat) -> bool {
    match policy {
        QueuePolicy::UnboundedAccept => true,
        QueuePolicy::BoundedDropNewest { capacity } => len < capacity,
    }
}

/// What one enqueue leaves in the queue: the command appended when
/// accepted, the queue unchanged when it is dropped.
pub open spec fn enqueue_model(
    policy: QueuePolicy,
    q: Seq<ColorCommand>,
    cmd: ColorCommand,
) -> Seq<ColorCommand> {
    if accepts(policy, q.len()) {
        q.push(cmd)
    } else {
        q
    }
}

/// What a whole stream of enqueues, with no dequeue in between, leaves in
/// the queue.
pub open spec fn enqueue_all(
    policy: QueuePolicy,
    q: Seq<ColorCommand>,
    cmds: Seq<ColorCommand>,
) -> Seq<ColorCommand>
    decreases cmds.len(),
{
    if cmds.len() == 0 {
        q
    } else {
        enqueue_all(policy, enqueue_model(policy, q, cmds[0]), cmds.drop_first())
    }
}

/// A FIFO of color commands under one backpressure policy. Commands come
/// out in enqueue order; the queue never reorders.
pub struct CommandQueue {
    items: Vec<ColorCommand>,
    policy: QueuePolicy,
}

impl View for CommandQueue {
    type V = Seq<ColorCommand>;

    closed spec fn view(&self) -> Seq<ColorCommand> {
        self.items@
    }
}

impl CommandQueue {
    pub closed spec fn queue_policy(&self) -> QueuePolicy {
        self.policy
    }

    /// A bounded queue never holds more than its capacity.
    pub open spec fn wf(&self) -> bool {
        match self.queue_policy() {
            QueuePolicy::UnboundedAccept => true,
            QueuePolicy::BoundedDropNewest { capacity } => self@.len() <= capacity,
        }
    }

    pub fn new_unbounded() -> (q: CommandQueue)
        ensures
            q.wf(),
            q@ == Seq::<ColorCommand>::empty(),
            q.queue_policy() == QueuePolicy::UnboundedAccept,
    {
        CommandQueue { items: Vec::new(), policy: QueuePolicy::UnboundedAccept }
    }

    pub fn new_bounded(capacity: usize) -> (q: CommandQueue)
        ensures
            q.wf(),
            q@ == Seq::<ColorCommand>::empty(),
            q.queue_policy() == (QueuePolicy::BoundedDropNewest { capacity }),
    {
        CommandQueue { items: Vec::new(), policy: QueuePolicy::BoundedDropNewest { capacity } }
    }

    pub fn len(&self) -> (n: usize)
        ensures
            n == self@.len(),
    {
        self.items.len()
    }

    /// The producer-side call: returns at once, never blocks and never
    /// fails. The command is appended when the policy accepts it and
    /// silently dropped otherwise; `accepted` only reports which happened.
    pub fn enqueue(&mut self, cmd: ColorCommand) -> (accepted: bool)
        requires
            old(self).wf(),
        ensures
            final(self).wf(),
            final(self).queue_policy() == old(self).queue_policy(),
            accepted == accepts(old(self).queue_policy(), old(self)@.len()),
            final(self)@ == enqueue_model(old(self).queue_policy(), old(self)@, cmd),
    {
        match self.policy {
            QueuePolicy::UnboundedAccept => {
                self.items.push(cmd);
                true
            },
            QueuePolicy::BoundedDropNewest { capacity } => {
                if self.items.len() < capacity {
                    self.items.push(cmd);
                    true
                } else {
                    false
                }
            },
        }
    }

    /// The consumer-side call: hands out the oldest command, strictly in
    /// enqueue order.
    pub fn dequeue(&mut self) -> (r: Option<ColorCommand>)
        requires
            old(self).wf(),
        ensures
            final(self).wf(),
            final(self).queue_policy() == old(self).queue_policy(),
            old(self)@.len() == 0 ==> r is None && final(self)@ == old(self)@,
            old(self)@.len() > 0 ==> r == Some(old(self)@[0]) && final(self)@ == old(
                self,
            )@.drop_first(),
    {
        if self.items.len() == 0 {
            None
        } else {
            let cmd = self.items.remove(0);
            proof {
                assert(self.items@ =~= old(self)@.drop_first());
            }
            Some(cmd)
        }
    }
}

proof fn lemma_enqueue_all_preserves_bound(
    capacity: usize,
    q: Seq<ColorCommand>,
    cmds: Seq<ColorCommand>,
)
    requires
        q.len() <= capacity,
    ensures
        enqueue_all(QueuePolicy::BoundedDropNewest { capacity }, q, cmds).len() <= capacity,
    decreases cmds.len(),
{
    if cmds.len() > 0 {
        let policy = QueuePolicy::BoundedDropNewest { capacity };
        lemma_enqueue_all_preserves_bound(capacity, enqueue_model(policy, q, cmds[0]), cmds.drop_first());
    }
}

/// Law: enqueuing any stream of commands into an empty bounded-drop-newest
/// queue while the consumer is stalled (no dequeue in between) leaves at
/// most `capacity` commands in the queue, however long the stream; so at
/// most `capacity` of them can ever be delivered to the consumer.
pub proof fn lemma_drop_newest_bounds_delivery(capacity: usize, cmds: Seq<ColorCommand>)
    ensures
        enqueue_all(
            QueuePolicy::BoundedDropNewest { capacity },
            Seq::<ColorCommand>::empty(),
            cmds,
        ).len() <= capacity,
{
    lemma_enqueue_all_preserves_bound(capacity, Seq::<ColorCommand>::empty(), cmds);
}

} // verus!
