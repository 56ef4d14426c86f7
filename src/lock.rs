//! The distributed lock: one key per queue, taken by writing a fresh token
//! where the key is absent, released by deleting the key.
use vstd::prelude::*;
use crate::element::fresh_id;
use crate::keys::{lock_key, lock_key_of};
use crate::store::{execute, text_at, Command, CommandView, Reply, ReplyView, StoreModel};

verus! {

/// The retry interval, in milliseconds, when none is configured.
pub const DEFAULT_RETRY_INTERVAL: u64 = 100;

/// The lock of one queue, as one client holds it.
///
/// A caller runs `begin`, then sends `acquire_command` and hands the reply to
/// `try_lock` until that answers `true`, sleeping `retry_interval`
/// milliseconds between attempts; after the critical section it sends the
/// command that `unlock` returns.
#[derive(Debug, Clone)]
pub struct QueueLock {
    pub queue_name: String,
    pub retry_interval: u64,
    /// The token of the current acquisition attempt.
    pub token: String,
    /// Whether the last reply showed this client as the owner.
    pub held: bool,
}

impl QueueLock {
    pub fn new(queue_name: String, retry_interval: Option<u64>) -> (r: QueueLock)
        ensures
            r.queue_name@ == queue_name@,
            r.retry_interval == match retry_interval {
                Some(i) => i,
                None => DEFAULT_RETRY_INTERVAL,
            },
            !r.held,
    {
        let retry_interval = match retry_interval {
            Some(i) => i,
            None => DEFAULT_RETRY_INTERVAL,
        };
        QueueLock { queue_name, retry_interval, token: String::new(), held: false }
    }

    pub fn get_lock_name(&self) -> (r: String)
        ensures
            r@ == lock_key_of(self.queue_name@),
    {
        lock_key(self.queue_name.as_str())
    }

    /// Starts an acquisition with a fresh token.
    pub fn begin(&mut self)
        ensures
            final(self).queue_name == old(self).queue_name,
            final(self).retry_interval == old(self).retry_interval,
            final(self).token@.len() == 36,
            !final(self).held,
    {
        self.token = fresh_id();
        self.held = false;
    }

    /// One attempt: write the token where the lock key is absent.
    pub fn acquire_command(&self) -> (r: Command)
        ensures
            r@ == (CommandView::WriteIfAbsent {
                key: lock_key_of(self.queue_name@),
                value: self.token@,
            }),
    {
        Command::WriteIfAbsent { key: self.get_lock_name(), value: self.token.clone() }
    }

    /// Ownership is acquired exactly when the store now holds this attempt's token.
    pub fn try_lock(&mut self, reply: &Reply) -> (r: bool)
        ensures
            r == (reply@ == ReplyView::Value(Some(old(self).token@))),
            final(self).held == r,
            final(self).queue_name == old(self).queue_name,
            final(self).retry_interval == old(self).retry_interval,
            final(self).token == old(self).token,
    {
        let acquired = match reply {
            Reply::Value(Some(v)) => *v == self.token,
            _ => false,
        };
        self.held = acquired;
        acquired
    }

    /// Release: delete the lock key, whoever holds it.
    pub fn unlock(&mut self) -> (r: Command)
        ensures
            r@ == (CommandView::Delete { key: lock_key_of(old(self).queue_name@) }),
            !final(self).held,
            final(self).queue_name == old(self).queue_name,
            final(self).retry_interval == old(self).retry_interval,
            final(self).token == old(self).token,
    {
        self.held = false;
        Command::Delete { key: self.get_lock_name() }
    }
}

/// Mutual exclusion: while the lock key holds one client's token, an attempt
/// with any other token fails and leaves the store as it was; once the holder
/// has released, the next attempt succeeds.
pub proof fn lemma_lock_exclusive(s: StoreModel, name: Seq<char>, holder: Seq<char>, other: Seq<char>)
    requires
        text_at(s, lock_key_of(name)) == Some(holder),
        holder != other,
    ensures
        execute(s, CommandView::WriteIfAbsent { key: lock_key_of(name), value: other }).0 == s,
        execute(s, CommandView::WriteIfAbsent { key: lock_key_of(name), value: other }).1
            != ReplyView::Value(Some(other)),
        ({
            let released = execute(s, CommandView::Delete { key: lock_key_of(name) }).0;
            let (after, reply) = execute(
                released,
                CommandView::WriteIfAbsent { key: lock_key_of(name), value: other },
            );
            &&& reply == ReplyView::Value(Some(other))
            &&& text_at(after, lock_key_of(name)) == Some(other)
        }),
{
}

/// The shared parameters a lock is made from.
#[derive(Debug, Clone)]
pub struct QueueLockBuilder {
    pub queue_name: Option<String>,
    pub retry_interval: Option<u64>,
}

impl QueueLockBuilder {
    pub fn default() -> (r: QueueLockBuilder)
        ensures
            r.queue_name is None,
            r.retry_interval is None,
    {
        QueueLockBuilder { queue_name: None, retry_interval: None }
    }

    pub fn with_queue_name(self, queue_name: String) -> (r: QueueLockBuilder)
        ensures
            r.queue_name matches Some(n) && n@ == queue_name@,
            r.retry_interval == self.retry_interval,
    {
        QueueLockBuilder { queue_name: Some(queue_name), ..self }
    }

    pub fn with_retry_interval(self, retry_interval: u64) -> (r: QueueLockBuilder)
        ensures
            r.queue_name == self.queue_name,
            r.retry_interval == Some(retry_interval),
    {
        QueueLockBuilder { retry_interval: Some(retry_interval), ..self }
    }

    /// The lock, or `None` when no queue name was given.
    pub fn build(self) -> (r: Option<QueueLock>)
        ensures
            r is Some <==> self.queue_name is Some,
            r matches Some(l) ==> {
                &&& self.queue_name matches Some(n) && l.queue_name@ == n@
                &&& l.retry_interval == match self.retry_interval {
                    Some(i) => i,
                    None => DEFAULT_RETRY_INTERVAL,
                }
                &&& !l.held
            },
    {
        match self.queue_name {
            Some(n) => Some(QueueLock::new(n, self.retry_interval)),
            None => None,
        }
    }
}

} // verus!
