//! The key-value store as the queue sees it: the operations it asks for,
//! the answers it gets back, and a model of how the store answers.
use vstd::prelude::*;
use crate::element::{opt_view, ElementView, QueueElement};

verus! {

/// One operation on the shared store.
#[derive(Debug)]
pub enum Command {
    /// Read a plain string value.
    Read { key: String },
    /// Read and decode an element record.
    ReadElement { key: String },
    /// Overwrite a plain string value.
    Write { key: String, value: String },
    /// Encode and overwrite an element record.
    WriteElement { key: String, element: QueueElement },
    /// Remove a key.
    Delete { key: String },
    /// Write `value` only where `key` is absent; answer the value stored afterwards.
    WriteIfAbsent { key: String, value: String },
}

/// The store's answer to one command.
#[derive(Debug)]
pub enum Reply {
    /// A write or a delete went through.
    Done,
    /// The string found (`Read`, `WriteIfAbsent`).
    Value(Option<String>),
    /// The record found and decoded (`ReadElement`).
    Element(Option<QueueElement>),
}

pub enum CommandView {
    Read { key: Seq<char> },
    ReadElement { key: Seq<char> },
    Write { key: Seq<char>, value: Seq<char> },
    WriteElement { key: Seq<char>, element: ElementView },
    Delete { key: Seq<char> },
    WriteIfAbsent { key: Seq<char>, value: Seq<char> },
}

pub enum ReplyView {
    Done,
    Value(Option<Seq<char>>),
    Element(Option<ElementView>),
}

impl View for Command {
    type V = CommandView;

    open spec fn view(&self) -> CommandView {
        match self {
            Command::Read { key } => CommandView::Read { key: key@ },
            Command::ReadElement { key } => CommandView::ReadElement { key: key@ },
            Command::Write { key, value } => CommandView::Write { key: key@, value: value@ },
            Command::WriteElement { key, element } => CommandView::WriteElement {
                key: key@,
                element: element@,
            },
            Command::Delete { key } => CommandView::Delete { key: key@ },
            Command::WriteIfAbsent { key, value } => CommandView::WriteIfAbsent {
                key: key@,
                value: value@,
            },
        }
    }
}

pub open spec fn opt_element_view(o: Option<QueueElement>) -> Option<ElementView> {
    match o {
        Some(e) => Some(e@),
        None => None,
    }
}

impl View for Reply {
    type V = ReplyView;

    open spec fn view(&self) -> ReplyView {
        match self {
            Reply::Done => ReplyView::Done,
            Reply::Value(v) => ReplyView::Value(opt_view(*v)),
            Reply::Element(e) => ReplyView::Element(opt_element_view(*e)),
        }
    }
}

pub open spec fn opt_command_view(o: Option<Command>) -> Option<CommandView> {
    match o {
        Some(c) => Some(c@),
        None => None,
    }
}

/// What a key of the store holds: a plain string or an element record.
pub enum Stored {
    Text(Seq<char>),
    Record(ElementView),
}

/// The whole store: the value held under each present key.
pub type StoreModel = Map<Seq<char>, Stored>;

pub open spec fn text_at(s: StoreModel, key: Seq<char>) -> Option<Seq<char>> {
    if s.contains_key(key) {
        match s[key] {
            Stored::Text(t) => Some(t),
            Stored::Record(_) => None,
        }
    } else {
        None
    }
}

pub open spec fn record_at(s: StoreModel, key: Seq<char>) -> Option<ElementView> {
    if s.contains_key(key) {
        match s[key] {
            Stored::Record(e) => Some(e),
            Stored::Text(_) => None,
        }
    } else {
        None
    }
}

/// The store after `c`, and its answer: single-key operations, each atomic.
pub open spec fn execute(s: StoreModel, c: CommandView) -> (StoreModel, ReplyView) {
    match c {
        CommandView::Read { key } => (s, ReplyView::Value(text_at(s, key))),
        CommandView::ReadElement { key } => (s, ReplyView::Element(record_at(s, key))),
        CommandView::Write { key, value } => (s.insert(key, Stored::Text(value)), ReplyView::Done),
        CommandView::WriteElement { key, element } => (
            s.insert(key, Stored::Record(element)),
            ReplyView::Done,
        ),
        CommandView::Delete { key } => (s.remove(key), ReplyView::Done),
        CommandView::WriteIfAbsent { key, value } => if s.contains_key(key) {
            (s, ReplyView::Value(text_at(s, key)))
        } else {
            (s.insert(key, Stored::Text(value)), ReplyView::Value(Some(value)))
        },
    }
}

} // verus!
