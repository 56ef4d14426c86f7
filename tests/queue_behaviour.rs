use std::collections::HashMap;

use redis_queue::element::QueueElement;
use redis_queue::keys::{element_key, first_key, last_key, lock_key};
use redis_queue::lock::{QueueLock, QueueLockBuilder};
use redis_queue::queue::{PopOp, PushOp, QueueState, RedisQueue};
use redis_queue::store::{Command, Reply};

#[derive(Clone, Debug)]
enum Entry {
    Text(String),
    Record(QueueElement),
}

/// An in-process stand-in for the shared store.
#[derive(Default)]
struct MemoryStore {
    entries: HashMap<String, Entry>,
}


impl MemoryStore {
    fn execute(&mut self, command: Command) -> Reply {
        match command {
            Command::Read { key } => match self.entries.get(&key) {
                Some(Entry::Text(t)) => Reply::Value(Some(t.clone())),
                _ => Reply::Value(None),
            },
            Command::ReadElement { key } => match self.entries.get(&key) {
                Some(Entry::Record(e)) => Reply::Element(Some(e.clone())),
                _ => Reply::Element(None),
            },
            Command::Write { key, value } => {
                self.entries.insert(key, Entry::Text(value));
                Reply::Done
            }
            Command::WriteElement { key, element } => {
                self.entries.insert(key, Entry::Record(element));
                Reply::Done
            }
            Command::Delete { key } => {
                self.entries.remove(&key);
                Reply::Done
            }
            Command::WriteIfAbsent { key, value } => match self.entries.get(&key) {
                Some(Entry::Text(t)) => Reply::Value(Some(t.clone())),
                Some(Entry::Record(_)) => Reply::Value(None),
                None => {
                    self.entries.insert(key, Entry::Text(value.clone()));
                    Reply::Value(Some(value))
                }
            },
        }
    }

    fn text(&self, key: &str) -> Option<String> {
        match self.entries.get(key) {
            Some(Entry::Text(t)) => Some(t.clone()),
            _ => None,
        }
    }

    fn record(&self, key: &str) -> Option<QueueElement> {
        match self.entries.get(key) {
            Some(Entry::Record(e)) => Some(e.clone()),
            _ => None,
        }
    }

    fn acquire(&mut self, lock: &mut QueueLock) {
        lock.begin();
        loop {
            let reply = self.execute(lock.acquire_command());
            if lock.try_lock(&reply) {
                return;
            }
        }
    }

    fn locked<R>(&mut self, lock: &mut QueueLock, f: impl FnOnce(&mut MemoryStore) -> R) -> R {
        self.acquire(lock);
        let result = f(self);
        let release = lock.unlock();
        self.execute(release);
        result
    }

    fn run_push(&mut self, op: &mut PushOp) {
        while let Some(command) = op.command() {
            let reply = self.execute(command);
            op.advance(reply);
        }
    }

    fn run_pop(&mut self, op: &mut PopOp) -> Option<String> {
        while let Some(command) = op.command() {
            let reply = self.execute(command);
            op.advance(reply);
        }
        op.result()
    }

    fn push(&mut self, queue: &RedisQueue, item: &str) -> String {
        let mut lock = queue.get_lock();
        let mut op = queue.push(item.to_string());
        let id = op.element.get_id();
        self.locked(&mut lock, |store| store.run_push(&mut op));
        assert!(op.is_done());
        id
    }

    fn pop(&mut self, queue: &RedisQueue) -> Option<String> {
        let mut lock = queue.get_lock();
        let mut op = queue.pop();
        let result = self.locked(&mut lock, |store| store.run_pop(&mut op));
        assert!(op.is_done());
        result
    }
}

#[test]
fn initialize_redis_queue() {
    let queue = RedisQueue::new("initialize_redis_queue".to_string());
    assert_eq!(queue.queue_name, "initialize_redis_queue");
}

#[test]
fn test_push_pop_to_redis_queue() {
    let mut store = MemoryStore::default();
    let queue = RedisQueue::new("test_push_pop_to_redis_queue".to_string());
    let item = "test".to_string();
    store.push(&queue, &item);
    let result = store.pop(&queue).unwrap();
    assert_eq!(result, item);
}

#[test]
fn test_initialize_queue_lock() {
    let queue_lock = QueueLock::new("test".to_string(), None);
    assert_eq!(queue_lock.get_lock_name(), "redis-queue:test:lock".to_string());
}

#[test]
fn test_lock() {
    let mut store = MemoryStore::default();
    let mut queue_lock = QueueLock::new("test".to_string(), None);
    let result: u8 = store.locked(&mut queue_lock, |_| 0);
    assert_eq!(result, 0);
    assert_eq!(store.text("redis-queue:test:lock"), None);
}

#[test]
fn test_queue_builder() {
    let queue_lock = QueueLockBuilder::default()
        .with_queue_name("test".to_string())
        .with_retry_interval(100)
        .build()
        .unwrap();
    assert_eq!(queue_lock.get_lock_name(), "redis-queue:test:lock".to_string());
    assert_eq!(queue_lock.retry_interval, 100);
}

#[test]
fn builder_without_queue_name_builds_nothing() {
    assert!(QueueLockBuilder::default().with_retry_interval(5).build().is_none());
}

#[test]
fn default_retry_interval_is_100_ms() {
    assert_eq!(QueueLock::new("q".to_string(), None).retry_interval, 100);
    assert_eq!(QueueLock::new("q".to_string(), Some(7)).retry_interval, 7);
}

#[test]
fn key_names() {
    assert_eq!(lock_key("orders"), "redis-queue:orders:lock");
    assert_eq!(first_key("orders"), "redis-queue:orders:state:first");
    assert_eq!(last_key("orders"), "redis-queue:orders:state:last");
    assert_eq!(element_key("orders", "abc"), "redis-queue:orders:element:abc");
}

#[test]
fn scenario_interleaved_push_pop() {
    let mut store = MemoryStore::default();
    let queue = RedisQueue::new("scenario".to_string());
    store.push(&queue, "a");
    store.push(&queue, "b");
    assert_eq!(store.pop(&queue), Some("a".to_string()));
    store.push(&queue, "c");
    assert_eq!(store.pop(&queue), Some("b".to_string()));
    assert_eq!(store.pop(&queue), Some("c".to_string()));
    assert_eq!(store.pop(&queue), None);
}

#[test]
fn pushes_come_back_in_order() {
    let mut store = MemoryStore::default();
    let queue = RedisQueue::new("fifo".to_string());
    let items: Vec<String> = (0..20).map(|i| format!("item-{}", i)).collect();
    for item in &items {
        store.push(&queue, item);
    }
    for item in &items {
        assert_eq!(store.pop(&queue), Some(item.clone()));
    }
    assert_eq!(store.pop(&queue), None);
}

#[test]
fn hundred_pushes_then_pops() {
    let mut store = MemoryStore::default();
    let queue = RedisQueue::new("hundred".to_string());
    for _ in 0..100 {
        store.push(&queue, "test");
    }
    let records = store.entries.keys().filter(|k| k.starts_with("redis-queue:hundred:element:")).count();
    assert_eq!(records, 100);
    for _ in 0..100 {
        assert_eq!(store.pop(&queue), Some("test".to_string()));
    }
    assert!(store.entries.is_empty());
}

#[test]
fn pop_on_empty_queue_leaves_pointers_unset() {
    let mut store = MemoryStore::default();
    let queue = RedisQueue::new("empty".to_string());
    assert_eq!(store.pop(&queue), None);
    assert_eq!(store.text("redis-queue:empty:state:first"), None);
    assert_eq!(store.text("redis-queue:empty:state:last"), None);
    store.push(&queue, "x");
    assert_eq!(store.pop(&queue), Some("x".to_string()));
    assert_eq!(store.pop(&queue), None);
    assert!(store.entries.is_empty());
}

#[test]
fn push_links_previous_tail() {
    let mut store = MemoryStore::default();
    let queue = RedisQueue::new("links".to_string());
    let first = store.push(&queue, "one");
    assert_eq!(store.text("redis-queue:links:state:first"), Some(first.clone()));
    assert_eq!(store.text("redis-queue:links:state:last"), Some(first.clone()));
    let tail = store.record(&element_key("links", &first)).unwrap();
    assert_eq!(tail.get_next(), None);
    let second = store.push(&queue, "two");
    assert_eq!(store.text("redis-queue:links:state:first"), Some(first.clone()));
    assert_eq!(store.text("redis-queue:links:state:last"), Some(second.clone()));
    let old_tail = store.record(&element_key("links", &first)).unwrap();
    assert_eq!(old_tail.get_next(), Some(second.clone()));
    let new_tail = store.record(&element_key("links", &second)).unwrap();
    assert_eq!(new_tail.get_next(), None);
    assert_eq!(new_tail.get_data(), "two");
    assert_eq!(new_tail.get_id(), second);
}

#[test]
fn missing_head_record_reads_as_empty() {
    let mut store = MemoryStore::default();
    let queue = RedisQueue::new("broken".to_string());
    store.execute(Command::Write { key: first_key("broken"), value: "gone".to_string() });
    assert_eq!(store.pop(&queue), None);
    assert_eq!(store.text("redis-queue:broken:state:first"), Some("gone".to_string()));
}

#[test]
fn queues_with_different_names_do_not_mix() {
    let mut store = MemoryStore::default();
    let left = RedisQueue::new("left".to_string());
    let right = RedisQueue::new("right".to_string());
    store.push(&left, "l1");
    store.push(&right, "r1");
    store.push(&left, "l2");
    assert_eq!(store.pop(&right), Some("r1".to_string()));
    assert_eq!(store.pop(&right), None);
    assert_eq!(store.pop(&left), Some("l1".to_string()));
    assert_eq!(store.pop(&left), Some("l2".to_string()));
}

#[test]
fn lock_excludes_a_second_holder_until_release() {
    let mut store = MemoryStore::default();
    let mut counter: u32 = 0;
    let mut first = QueueLock::new("shared".to_string(), None);
    let mut second = QueueLock::new("shared".to_string(), None);
    first.begin();
    second.begin();
    assert_ne!(first.token, second.token);
    let reply = store.execute(first.acquire_command());
    assert!(first.try_lock(&reply));
    let seen_by_first = counter;
    let reply = store.execute(second.acquire_command());
    assert!(!second.try_lock(&reply));
    assert!(!second.held);
    counter = seen_by_first + 1;
    store.execute(first.unlock());
    let reply = store.execute(second.acquire_command());
    assert!(second.try_lock(&reply));
    assert_eq!(counter, 1);
    counter += 1;
    store.execute(second.unlock());
    assert_eq!(counter, 2);
    assert_eq!(store.text("redis-queue:shared:lock"), None);
}

#[test]
fn try_lock_needs_own_token() {
    let mut lock = QueueLock::new("t".to_string(), None);
    lock.begin();
    assert!(!lock.try_lock(&Reply::Value(Some("someone-else".to_string()))));
    assert!(!lock.try_lock(&Reply::Value(None)));
    assert!(!lock.try_lock(&Reply::Done));
    let own = lock.token.clone();
    assert!(lock.try_lock(&Reply::Value(Some(own))));
    assert!(lock.held);
}

#[test]
fn fresh_element_ids_are_uuids() {
    let a = QueueElement::new("x".to_string());
    let b = QueueElement::new("x".to_string());
    assert_eq!(a.get_id().len(), 36);
    assert_ne!(a.get_id(), b.get_id());
    assert_eq!(a.get_id().matches('-').count(), 4);
    assert_eq!(a.get_next(), None);
}

#[test]
fn element_accessors() {
    let mut e = QueueElement::with_id("id1".to_string(), "payload".to_string());
    assert_eq!(e.get_id(), "id1");
    assert_eq!(e.get_data(), "payload");
    e.set_next(Some("id2".to_string()));
    assert_eq!(e.get_next(), Some("id2".to_string()));
    e.set_next(None);
    assert_eq!(e.get_next(), None);
}

#[test]
fn queue_state_from_store_reads() {
    let mut store = MemoryStore::default();
    let queue = RedisQueue::new("state".to_string());
    let (h, t, l) = queue.state_commands();
    let state = QueueState::from_replies(&store.execute(h), &store.execute(t), &store.execute(l));
    assert!(state.is_empty());
    assert!(state.is_consistent());
    assert!(!state.locked);
    let id = store.push(&queue, "v");
    let mut lock = queue.get_lock();
    store.acquire(&mut lock);
    let (h, t, l) = queue.state_commands();
    let state = QueueState::from_replies(&store.execute(h), &store.execute(t), &store.execute(l));
    assert_eq!(state.head, Some(id.clone()));
    assert_eq!(state.tail, Some(id));
    assert!(state.locked);
    assert!(state.is_consistent());
    assert!(!state.is_empty());
    let half = QueueState { head: Some("x".to_string()), tail: None, locked: false };
    assert!(!half.is_consistent());
}
