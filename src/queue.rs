//! The linked-list queue. Each operation is a small machine: it names the
//! next store command, takes the store's reply, and decides what follows,
//! so one core serves blocking and non-blocking callers alike.
use vstd::prelude::*;
use crate::element::{opt_view, ElementView, QueueElement};
use crate::keys::{
    element_key, element_key_of, first_key, first_key_of, last_key, last_key_of, lock_key,
    lock_key_of,
};
use crate::lock::{QueueLock, DEFAULT_RETRY_INTERVAL};
use crate::store::{opt_command_view, Command, CommandView, Reply, ReplyView};

verus! {

/// Where a push stands.
#[derive(Debug)]
pub enum PushPhase {
    WriteElement,
    ReadFirst,
    WriteFirst,
    ReadLast,
    ReadTail { tail_id: String },
    LinkTail { tail_id: String, tail: QueueElement },
    WriteLast,
    Done,
}

pub enum PushPhaseView {
    WriteElement,
    ReadFirst,
    WriteFirst,
    ReadLast,
    ReadTail { tail_id: Seq<char> },
    LinkTail { tail_id: Seq<char>, tail: ElementView },
    WriteLast,
    Done,
}

impl View for PushPhase {
    type V = PushPhaseView;

    open spec fn view(&self) -> PushPhaseView {
        match self {
            PushPhase::WriteElement => PushPhaseView::WriteElement,
            PushPhase::ReadFirst => PushPhaseView::ReadFirst,
            PushPhase::WriteFirst => PushPhaseView::WriteFirst,
            PushPhase::ReadLast => PushPhaseView::ReadLast,
            PushPhase::ReadTail { tail_id } => PushPhaseView::ReadTail { tail_id: tail_id@ },
            PushPhase::LinkTail { tail_id, tail } => PushPhaseView::LinkTail {
                tail_id: tail_id@,
                tail: tail@,
            },
            PushPhase::WriteLast => PushPhaseView::WriteLast,
            PushPhase::Done => PushPhaseView::Done,
        }
    }
}

/// The command a push issues in phase `ph` for element `e` of queue `name`.
pub open spec fn push_command(name: Seq<char>, e: ElementView, ph: PushPhaseView) -> Option<
    CommandView,
> {
    match ph {
        PushPhaseView::WriteElement => Some(
            CommandView::WriteElement { key: element_key_of(name, e.id), element: e },
        ),
        PushPhaseView::ReadFirst => Some(CommandView::Read { key: first_key_of(name) }),
        PushPhaseView::WriteFirst => Some(
            CommandView::Write { key: first_key_of(name), value: e.id },
        ),
        PushPhaseView::ReadLast => Some(CommandView::Read { key: last_key_of(name) }),
        PushPhaseView::ReadTail { tail_id } => Some(
            CommandView::ReadElement { key: element_key_of(name, tail_id) },
        ),
        PushPhaseView::LinkTail { tail_id, tail } => Some(
            CommandView::WriteElement { key: element_key_of(name, tail_id), element: tail },
        ),
        PushPhaseView::WriteLast => Some(CommandView::Write { key: last_key_of(name), value: e.id }),
        PushPhaseView::Done => None,
    }
}

/// The phase a push moves to after reply `r`: the head pointer is set only
/// on an empty queue, and the old tail, when there is one, is linked to `e`.
pub open spec fn push_advance(e: ElementView, ph: PushPhaseView, r: ReplyView) -> PushPhaseView {
    match ph {
        PushPhaseView::WriteElement => PushPhaseView::ReadFirst,
        PushPhaseView::ReadFirst => match r {
            ReplyView::Value(Some(_)) => PushPhaseView::ReadLast,
            _ => PushPhaseView::WriteFirst,
        },
        PushPhaseView::WriteFirst => PushPhaseView::ReadLast,
        PushPhaseView::ReadLast => match r {
            ReplyView::Value(Some(t)) => PushPhaseView::ReadTail { tail_id: t },
            _ => PushPhaseView::WriteLast,
        },
        PushPhaseView::ReadTail { tail_id } => match r {
            ReplyView::Element(Some(t)) => PushPhaseView::LinkTail {
                tail_id,
                tail: ElementView { next: Some(e.id), ..t },
            },
            _ => PushPhaseView::WriteLast,
        },
        PushPhaseView::LinkTail { .. } => PushPhaseView::WriteLast,
        PushPhaseView::WriteLast => PushPhaseView::Done,
        PushPhaseView::Done => PushPhaseView::Done,
    }
}

/// One push in progress.
#[derive(Debug)]
pub struct PushOp {
    pub queue_name: String,
    pub element: QueueElement,
    pub phase: PushPhase,
}

impl PushOp {
    /// A push of `element`, which becomes the new tail.
    pub fn new(queue_name: String, element: QueueElement) -> (r: PushOp)
        ensures
            r.queue_name@ == queue_name@,
            r.element@ == element@,
            r.phase@ == PushPhaseView::WriteElement,
    {
        PushOp { queue_name, element, phase: PushPhase::WriteElement }
    }

    pub fn is_done(&self) -> (r: bool)
        ensures
            r == (self.phase@ == PushPhaseView::Done),
    {
        match self.phase {
            PushPhase::Done => true,
            _ => false,
        }
    }

    /// The next command to send, or `None` once the push is complete.
    pub fn command(&self) -> (r: Option<Command>)
        ensures
            opt_command_view(r) == push_command(self.queue_name@, self.element@, self.phase@),
    {
        let name = self.queue_name.as_str();
        match &self.phase {
            PushPhase::WriteElement => Some(
                Command::WriteElement {
                    key: element_key(name, self.element.id.as_str()),
                    element: QueueElement {
                        id: self.element.id.clone(),
                        data: self.element.data.clone(),
                        next: self.element.get_next(),
                    },
                },
            ),
            PushPhase::ReadFirst => Some(Command::Read { key: first_key(name) }),
            PushPhase::WriteFirst => Some(
                Command::Write { key: first_key(name), value: self.element.id.clone() },
            ),
            PushPhase::ReadLast => Some(Command::Read { key: last_key(name) }),
            PushPhase::ReadTail { tail_id } => Some(
                Command::ReadElement { key: element_key(name, tail_id.as_str()) },
            ),
            PushPhase::LinkTail { tail_id, tail } => Some(
                Command::WriteElement {
                    key: element_key(name, tail_id.as_str()),
                    element: QueueElement {
                        id: tail.id.clone(),
                        data: tail.data.clone(),
                        next: tail.get_next(),
                    },
                },
            ),
            PushPhase::WriteLast => Some(
                Command::Write { key: last_key(name), value: self.element.id.clone() },
            ),
            PushPhase::Done => None,
        }
    }

    /// Takes the reply to the last command and moves on.
    pub fn advance(&mut self, reply: Reply)
        ensures
            final(self).queue_name == old(self).queue_name,
            final(self).element == old(self).element,
            final(self).phase@ == push_advance(old(self).element@, old(self).phase@, reply@),
    {
        let mut phase = PushPhase::Done;
        std::mem::swap(&mut self.phase, &mut phase);
        let next = match phase {
            PushPhase::WriteElement => PushPhase::ReadFirst,
            PushPhase::ReadFirst => match reply {
                Reply::Value(Some(_)) => PushPhase::ReadLast,
                _ => PushPhase::WriteFirst,
            },
            PushPhase::WriteFirst => PushPhase::ReadLast,
            PushPhase::ReadLast => match reply {
                Reply::Value(Some(t)) => PushPhase::ReadTail { tail_id: t },
                _ => PushPhase::WriteLast,
            },
            PushPhase::ReadTail { tail_id } => match reply {
                Reply::Element(Some(t)) => {
                    let mut tail = t;
                    tail.set_next(Some(self.element.id.clone()));
                    PushPhase::LinkTail { tail_id, tail }
                },
                _ => PushPhase::WriteLast,
            },
            PushPhase::LinkTail { .. } => PushPhase::WriteLast,
            PushPhase::WriteLast => PushPhase::Done,
            PushPhase::Done => PushPhase::Done,
        };
        self.phase = next;
    }
}

/// Where a pop stands.
#[derive(Debug)]
pub enum PopPhase {
    ReadFirst,
    ReadHead { head_id: String },
    ClearFirst { head_id: String, data: String },
    ClearLast { head_id: String, data: String },
    AdvanceFirst { head_id: String, next_id: String, data: String },
    DeleteHead { head_id: String, data: String },
    Finished { result: Option<String> },
}

pub enum PopPhaseView {
    ReadFirst,
    ReadHead { head_id: Seq<char> },
    ClearFirst { head_id: Seq<char>, data: Seq<char> },
    ClearLast { head_id: Seq<char>, data: Seq<char> },
    AdvanceFirst { head_id: Seq<char>, next_id: Seq<char>, data: Seq<char> },
    DeleteHead { head_id: Seq<char>, data: Seq<char> },
    Finished { result: Option<Seq<char>> },
}

impl View for PopPhase {
    type V = PopPhaseView;

    open spec fn view(&self) -> PopPhaseView {
        match self {
            PopPhase::ReadFirst => PopPhaseView::ReadFirst,
            PopPhase::ReadHead { head_id } => PopPhaseView::ReadHead { head_id: head_id@ },
            PopPhase::ClearFirst { head_id, data } => PopPhaseView::ClearFirst {
                head_id: head_id@,
                data: data@,
            },
            PopPhase::ClearLast { head_id, data } => PopPhaseView::ClearLast {
                head_id: head_id@,
                data: data@,
            },
            PopPhase::AdvanceFirst { head_id, next_id, data } => PopPhaseView::AdvanceFirst {
                head_id: head_id@,
                next_id: next_id@,
                data: data@,
            },
            PopPhase::DeleteHead { head_id, data } => PopPhaseView::DeleteHead {
                head_id: head_id@,
                data: data@,
            },
            PopPhase::Finished { result } => PopPhaseView::Finished { result: opt_view(*result) },
        }
    }
}

/// The command a pop issues in phase `ph` on queue `name`.
pub open spec fn pop_command(name: Seq<char>, ph: PopPhaseView) -> Option<CommandView> {
    match ph {
        PopPhaseView::ReadFirst => Some(CommandView::Read { key: first_key_of(name) }),
        PopPhaseView::ReadHead { head_id } => Some(
            CommandView::ReadElement { key: element_key_of(name, head_id) },
        ),
        PopPhaseView::ClearFirst { .. } => Some(CommandView::Delete { key: first_key_of(name) }),
        PopPhaseView::ClearLast { .. } => Some(CommandView::Delete { key: last_key_of(name) }),
        PopPhaseView::AdvanceFirst { next_id, .. } => Some(
            CommandView::Write { key: first_key_of(name), value: next_id },
        ),
        PopPhaseView::DeleteHead { head_id, .. } => Some(
            CommandView::Delete { key: element_key_of(name, head_id) },
        ),
        PopPhaseView::Finished { .. } => None,
    }
}

/// The phase a pop moves to after reply `r`: an absent head pointer or a
/// missing head record ends it with nothing; a head without successor empties
/// the queue, any other head hands its place to its successor.
pub open spec fn pop_advance(ph: PopPhaseView, r: ReplyView) -> PopPhaseView {
    match ph {
        PopPhaseView::ReadFirst => match r {
            ReplyView::Value(Some(h)) => PopPhaseView::ReadHead { head_id: h },
            _ => PopPhaseView::Finished { result: None },
        },
        PopPhaseView::ReadHead { head_id } => match r {
            ReplyView::Element(Some(e)) => match e.next {
                None => PopPhaseView::ClearFirst { head_id, data: e.data },
                Some(n) => PopPhaseView::AdvanceFirst { head_id, next_id: n, data: e.data },
            },
            _ => PopPhaseView::Finished { result: None },
        },
        PopPhaseView::ClearFirst { head_id, data } => PopPhaseView::ClearLast { head_id, data },
        PopPhaseView::ClearLast { head_id, data } => PopPhaseView::DeleteHead { head_id, data },
        PopPhaseView::AdvanceFirst { head_id, data, .. } => PopPhaseView::DeleteHead {
            head_id,
            data,
        },
        PopPhaseView::DeleteHead { data, .. } => PopPhaseView::Finished { result: Some(data) },
        PopPhaseView::Finished { result } => PopPhaseView::Finished { result },
    }
}

/// One pop in progress.
#[derive(Debug)]
pub struct PopOp {
    pub queue_name: String,
    pub phase: PopPhase,
}

impl PopOp {
    pub fn new(queue_name: String) -> (r: PopOp)
        ensures
            r.queue_name@ == queue_name@,
            r.phase@ == PopPhaseView::ReadFirst,
    {
        PopOp { queue_name, phase: PopPhase::ReadFirst }
    }

    pub fn is_done(&self) -> (r: bool)
        ensures
            r == (self.phase@ is Finished),
    {
        match self.phase {
            PopPhase::Finished { .. } => true,
            _ => false,
        }
    }

    /// The payload popped, once the pop is complete; `None` for an empty queue.
    pub fn result(&self) -> (r: Option<String>)
        ensures
            opt_view(r) == match self.phase@ {
                PopPhaseView::Finished { result } => result,
                _ => None,
            },
    {
        match &self.phase {
            PopPhase::Finished { result } => match result {
                Some(d) => Some(d.clone()),
                None => None,
            },
            _ => None,
        }
    }

    /// The next command to send, or `None` once the pop is complete.
    pub fn command(&self) -> (r: Option<Command>)
        ensures
            opt_command_view(r) == pop_command(self.queue_name@, self.phase@),
    {
        let name = self.queue_name.as_str();
        match &self.phase {
            PopPhase::ReadFirst => Some(Command::Read { key: first_key(name) }),
            PopPhase::ReadHead { head_id } => Some(
                Command::ReadElement { key: element_key(name, head_id.as_str()) },
            ),
            PopPhase::ClearFirst { .. } => Some(Command::Delete { key: first_key(name) }),
            PopPhase::ClearLast { .. } => Some(Command::Delete { key: last_key(name) }),
            PopPhase::AdvanceFirst { next_id, .. } => Some(
                Command::Write { key: first_key(name), value: next_id.clone() },
            ),
            PopPhase::DeleteHead { head_id, .. } => Some(
                Command::Delete { key: element_key(name, head_id.as_str()) },
            ),
            PopPhase::Finished { .. } => None,
        }
    }

    /// Takes the reply to the last command and moves on.
    pub fn advance(&mut self, reply: Reply)
        ensures
            final(self).queue_name == old(self).queue_name,
            final(self).phase@ == pop_advance(old(self).phase@, reply@),
    {
        let mut phase = PopPhase::Finished { result: None };
        std::mem::swap(&mut self.phase, &mut phase);
        let next = match phase {
            PopPhase::ReadFirst => match reply {
                Reply::Value(Some(h)) => PopPhase::ReadHead { head_id: h },
                _ => PopPhase::Finished { result: None },
            },
            PopPhase::ReadHead { head_id } => match reply {
                Reply::Element(Some(e)) => match e.next {
                    None => PopPhase::ClearFirst { head_id, data: e.data },
                    Some(n) => PopPhase::AdvanceFirst { head_id, next_id: n, data: e.data },
                },
                _ => PopPhase::Finished { result: None },
            },
            PopPhase::ClearFirst { head_id, data } => PopPhase::ClearLast { head_id, data },
            PopPhase::ClearLast { head_id, data } => PopPhase::DeleteHead { head_id, data },
            PopPhase::AdvanceFirst { head_id, data, .. } => PopPhase::DeleteHead { head_id, data },
            PopPhase::DeleteHead { data, .. } => PopPhase::Finished { result: Some(data) },
            PopPhase::Finished { result } => PopPhase::Finished { result },
        };
        self.phase = next;
    }
}

/// A FIFO queue kept in the shared store under the name `queue_name`.
#[derive(Debug, Clone)]
pub struct RedisQueue {
    pub queue_name: String,
    pub retry_interval: Option<u64>,
}

impl RedisQueue {
    pub fn new(queue_name: String) -> (r: RedisQueue)
        ensures
            r.queue_name@ == queue_name@,
            r.retry_interval is None,
    {
        RedisQueue { queue_name, retry_interval: None }
    }

    /// The lock that every push and pop on this queue runs under.
    pub fn get_lock(&self) -> (r: QueueLock)
        ensures
            r.queue_name@ == self.queue_name@,
            r.retry_interval == match self.retry_interval {
                Some(i) => i,
                None => DEFAULT_RETRY_INTERVAL,
            },
            !r.held,
    {
        QueueLock::new(self.queue_name.clone(), self.retry_interval)
    }

    /// A push of `item` under a freshly generated element id.
    pub fn push(&self, item: String) -> (r: PushOp)
        ensures
            r.queue_name@ == self.queue_name@,
            r.element.data@ == item@,
            r.element.next is None,
            r.element.id@.len() == 36,
            r.phase@ == PushPhaseView::WriteElement,
    {
        PushOp::new(self.queue_name.clone(), QueueElement::new(item))
    }

    /// A pop of the head element.
    pub fn pop(&self) -> (r: PopOp)
        ensures
            r.queue_name@ == self.queue_name@,
            r.phase@ == PopPhaseView::ReadFirst,
    {
        PopOp::new(self.queue_name.clone())
    }
}

/// The queue's pointers and lock as one client observed them.
#[derive(Debug, Clone)]
pub struct QueueState {
    pub head: Option<String>,
    pub tail: Option<String>,
    pub locked: bool,
}

pub open spec fn value_of(r: ReplyView) -> Option<Seq<char>> {
    match r {
        ReplyView::Value(v) => v,
        _ => None,
    }
}

fn reply_value(r: &Reply) -> (v: Option<String>)
    ensures
        opt_view(v) == value_of(r@),
{
    match r {
        Reply::Value(Some(t)) => Some(t.clone()),
        _ => None,
    }
}

impl QueueState {
    /// The state read back by the commands of `RedisQueue::state_commands`, in order.
    pub fn from_replies(head: &Reply, tail: &Reply, lock: &Reply) -> (r: QueueState)
        ensures
            opt_view(r.head) == value_of(head@),
            opt_view(r.tail) == value_of(tail@),
            r.locked == (value_of(lock@) is Some),
    {
        let locked = match reply_value(lock) {
            Some(_) => true,
            None => false,
        };
        QueueState { head: reply_value(head), tail: reply_value(tail), locked }
    }

    pub fn is_empty(&self) -> (r: bool)
        ensures
            r == (self.head is None && self.tail is None),
    {
        self.head.is_none() && self.tail.is_none()
    }

    /// Head and tail pointers are set together or not at all.
    pub fn is_consistent(&self) -> (r: bool)
        ensures
            r == (self.head is Some <==> self.tail is Some),
    {
        self.head.is_some() == self.tail.is_some()
    }
}

impl RedisQueue {
    /// Reads of the head pointer, the tail pointer and the lock key.
    pub fn state_commands(&self) -> (r: (Command, Command, Command))
        ensures
            r.0@ == (CommandView::Read { key: first_key_of(self.queue_name@) }),
            r.1@ == (CommandView::Read { key: last_key_of(self.queue_name@) }),
            r.2@ == (CommandView::Read { key: lock_key_of(self.queue_name@) }),
    {
        let name = self.queue_name.as_str();
        (
            Command::Read { key: first_key(name) },
            Command::Read { key: last_key(name) },
            Command::Read { key: lock_key(name) },
        )
    }
}

} // verus!
