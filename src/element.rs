//! The record of one queue element: its id, its payload and the id of the
//! element enqueued after it.
use vstd::prelude::*;

verus! {

/// Relies on uuid::Uuid::new_v4 and its Display impl: a random version-4
/// uuid, written as 36 hyphenated lower-case hex characters.
#[verifier::external_body]
pub(crate) fn fresh_id() -> (r: String)
    ensures
        r@.len() == 36,
{
    uuid::Uuid::new_v4().to_string()
}

/// The view of an optional string.
pub open spec fn opt_view(o: Option<String>) -> Option<Seq<char>> {
    match o {
        Some(s) => Some(s@),
        None => None,
    }
}

/// What a record holds, as mathematical values.
pub struct ElementView {
    pub id: Seq<char>,
    pub data: Seq<char>,
    pub next: Option<Seq<char>>,
}

/// One node of the linked list; `next == None` marks the tail.
#[derive(Debug, Clone)]
pub struct QueueElement {
    pub id: String,
    pub data: String,
    pub next: Option<String>,
}

impl View for QueueElement {
    type V = ElementView;

    open spec fn view(&self) -> ElementView {
        ElementView { id: self.id@, data: self.data@, next: opt_view(self.next) }
    }
}

impl QueueElement {
    /// A new element with a freshly generated id and no successor.
    pub fn new(data: String) -> (r: QueueElement)
        ensures
            r.data@ == data@,
            r.next is None,
            r.id@.len() == 36,
    {
        QueueElement { id: fresh_id(), data, next: None }
    }

    /// A new element with the given id and no successor.
    pub fn with_id(id: String, data: String) -> (r: QueueElement)
        ensures
            r@ == (ElementView { id: id@, data: data@, next: None }),
    {
        QueueElement { id, data, next: None }
    }

    pub fn get_id(&self) -> (r: String)
        ensures
            r@ == self.id@,
    {
        self.id.clone()
    }

    pub fn get_data(&self) -> (r: String)
        ensures
            r@ == self.data@,
    {
        self.data.clone()
    }

    pub fn set_next(&mut self, next: Option<String>)
        ensures
            final(self)@ == (ElementView { next: opt_view(next), ..old(self)@ }),
    {
        self.next = next;
    }

    pub fn get_next(&self) -> (r: Option<String>)
        ensures
            opt_view(r) == opt_view(self.next),
    {
        match &self.next {
            Some(n) => Some(n.clone()),
            None => None,
        }
    }
}

} // verus!
