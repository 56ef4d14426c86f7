//! Names of the keys that one queue occupies in the shared store.
use vstd::prelude::*;
use vstd::string::StringExecFns;

verus! {

/// `redis-queue:<name>:`, the part that every key of a queue starts with.
pub open spec fn namespace_of(name: Seq<char>) -> Seq<char> {
    "redis-queue:"@ + name + ":"@
}

pub open spec fn lock_key_of(name: Seq<char>) -> Seq<char> {
    namespace_of(name) + "lock"@
}

pub open spec fn first_key_of(name: Seq<char>) -> Seq<char> {
    namespace_of(name) + "state:first"@
}

pub open spec fn last_key_of(name: Seq<char>) -> Seq<char> {
    namespace_of(name) + "state:last"@
}

pub open spec fn element_key_of(name: Seq<char>, id: Seq<char>) -> Seq<char> {
    namespace_of(name) + "element:"@ + id
}

fn namespace(name: &str) -> (r: String)
    ensures
        r@ == namespace_of(name@),
{
    let mut key = String::from_str("redis-queue:");
    key.append(name);
    key.append(":");
    key
}

/// The key that holds the token of the lock's current owner.
pub fn lock_key(name: &str) -> (r: String)
    ensures
        r@ == lock_key_of(name@),
{
    let mut key = namespace(name);
    key.append("lock");
    key
}

/// The key that holds the id of the queue's head element.
pub fn first_key(name: &str) -> (r: String)
    ensures
        r@ == first_key_of(name@),
{
    let mut key = namespace(name);
    key.append("state:first");
    key
}

/// The key that holds the id of the queue's tail element.
pub fn last_key(name: &str) -> (r: String)
    ensures
        r@ == last_key_of(name@),
{
    let mut key = namespace(name);
    key.append("state:last");
    key
}

/// The key under which the record of element `id` is stored.
pub fn element_key(name: &str, id: &str) -> (r: String)
    ensures
        r@ == element_key_of(name@, id@),
{
    let mut key = namespace(name);
    key.append("element:");
    key.append(id);
    key
}

/// The four kinds of key of one queue never collide, and element keys
/// determine the element id.
pub proof fn lemma_keys_distinct(name: Seq<char>, id: Seq<char>, other: Seq<char>)
    ensures
        first_key_of(name) != last_key_of(name),
        first_key_of(name) != element_key_of(name, id),
        last_key_of(name) != element_key_of(name, id),
        lock_key_of(name) != first_key_of(name),
        lock_key_of(name) != last_key_of(name),
        lock_key_of(name) != element_key_of(name, id),
        element_key_of(name, id) == element_key_of(name, other) ==> id == other,
{
    reveal_strlit("redis-queue:");
    reveal_strlit(":");
    reveal_strlit("lock");
    reveal_strlit("state:first");
    reveal_strlit("state:last");
    reveal_strlit("element:");
    let p = namespace_of(name);
    let k = p.len() as int;
    assert(first_key_of(name)[k] == 's');
    assert(last_key_of(name)[k] == 's');
    assert(first_key_of(name)[k + 6] == 'f');
    assert(last_key_of(name)[k + 6] == 'l');
    assert(element_key_of(name, id)[k] == 'e');
    assert(lock_key_of(name)[k] == 'l');
    let q = p + "element:"@;
    if element_key_of(name, id) == element_key_of(name, other) {
        assert(id =~= element_key_of(name, id).subrange(q.len() as int, element_key_of(name, id).len() as int));
        assert(other =~= element_key_of(name, other).subrange(q.len() as int, element_key_of(name, other).len() as int));
    }
}

} // verus!
