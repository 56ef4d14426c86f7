//! What the queue machines do to the store, proved against the store model:
//! the list stays well formed, a push appends, a pop takes the head, and the
//! queue hands its payloads back in the order they came in.
use vstd::prelude::*;
use crate::element::ElementView;
use crate::keys::{element_key_of, first_key_of, last_key_of, lemma_keys_distinct, lock_key_of};
use crate::queue::{pop_advance, pop_command, push_advance, push_command, PopPhaseView, PushPhaseView};
use crate::store::{execute, record_at, text_at, StoreModel, Stored};

verus! {

/// The state after running a push from phase `ph` for at most `fuel` commands.
pub open spec fn run_push(
    name: Seq<char>,
    e: ElementView,
    ph: PushPhaseView,
    s: StoreModel,
    fuel: nat,
) -> (PushPhaseView, StoreModel)
    decreases fuel,
{
    if fuel == 0 {
        (ph, s)
    } else {
        match push_command(name, e, ph) {
            None => (ph, s),
            Some(c) => run_push(name, e, push_advance(e, ph, execute(s, c).1), execute(s, c).0, (fuel - 1) as nat),
        }
    }
}

/// The state after running a pop from phase `ph` for at most `fuel` commands.
pub open spec fn run_pop(name: Seq<char>, ph: PopPhaseView, s: StoreModel, fuel: nat) -> (
    PopPhaseView,
    StoreModel,
)
    decreases fuel,
{
    if fuel == 0 {
        (ph, s)
    } else {
        match pop_command(name, ph) {
            None => (ph, s),
            Some(c) => run_pop(name, pop_advance(ph, execute(s, c).1), execute(s, c).0, (fuel - 1) as nat),
        }
    }
}

/// No push or pop sends more commands than this.
pub open spec fn op_steps() -> nat {
    7
}

/// The store after a complete push of `e`.
pub open spec fn push_outcome(s: StoreModel, name: Seq<char>, e: ElementView) -> StoreModel {
    run_push(name, e, PushPhaseView::WriteElement, s, op_steps()).1
}

/// The store after a complete pop, and the payload it returned.
pub open spec fn pop_outcome(s: StoreModel, name: Seq<char>) -> (StoreModel, Option<Seq<char>>) {
    let (ph, s2) = run_pop(name, PopPhaseView::ReadFirst, s, op_steps());
    (
        s2,
        match ph {
            PopPhaseView::Finished { result } => result,
            _ => None,
        },
    )
}

pub open spec fn next_in(ids: Seq<Seq<char>>, i: int) -> Option<Seq<char>> {
    if i + 1 < ids.len() {
        Some(ids[i + 1])
    } else {
        None
    }
}

/// The record of `ids[i]` exists, carries that id, and points at `ids[i + 1]`
/// (at nothing for the last one).
pub open spec fn links(s: StoreModel, name: Seq<char>, ids: Seq<Seq<char>>, i: int) -> bool {
    match record_at(s, element_key_of(name, ids[i])) {
        Some(r) => r.id == ids[i] && r.next == next_in(ids, i),
        None => false,
    }
}

/// Queue `name` in store `s` is the list `ids`, head first: distinct ids,
/// head and tail pointers set together (and only when the list is not empty),
/// each record linked to the next, and no element record outside the list.
pub open spec fn is_chain(s: StoreModel, name: Seq<char>, ids: Seq<Seq<char>>) -> bool {
    &&& ids.no_duplicates()
    &&& if ids.len() == 0 {
        !s.contains_key(first_key_of(name)) && !s.contains_key(last_key_of(name))
    } else {
        text_at(s, first_key_of(name)) == Some(ids[0]) && text_at(s, last_key_of(name)) == Some(
            ids.last(),
        )
    }
    &&& forall|i: int| 0 <= i < ids.len() ==> #[trigger] links(s, name, ids, i)
    &&& forall|id: Seq<char>| #[trigger] s.contains_key(element_key_of(name, id)) ==> ids.contains(id)
}

pub open spec fn data_at(s: StoreModel, name: Seq<char>, id: Seq<char>) -> Seq<char> {
    match record_at(s, element_key_of(name, id)) {
        Some(r) => r.data,
        None => Seq::empty(),
    }
}

/// The payloads of the list `ids`, head first.
pub open spec fn contents(s: StoreModel, name: Seq<char>, ids: Seq<Seq<char>>) -> Seq<Seq<char>> {
    ids.map_values(|id: Seq<char>| data_at(s, name, id))
}

/// An element that a push may add: its id has no record yet and it has no successor.
pub open spec fn is_fresh(s: StoreModel, name: Seq<char>, e: ElementView) -> bool {
    &&& e.next is None
    &&& !s.contains_key(element_key_of(name, e.id))
}

/// A push appends: the new element becomes the tail, with no successor; the
/// previous tail, if any, now points at it; the payloads gain `e.data` at the
/// back; and the push completes within `op_steps()` commands.
pub proof fn lemma_push_appends(s: StoreModel, name: Seq<char>, ids: Seq<Seq<char>>, e: ElementView)
    requires
        is_chain(s, name, ids),
        is_fresh(s, name, e),
    ensures
        run_push(name, e, PushPhaseView::WriteElement, s, op_steps()).0 == PushPhaseView::Done,
        is_chain(push_outcome(s, name, e), name, ids.push(e.id)),
        contents(push_outcome(s, name, e), name, ids.push(e.id)) == contents(s, name, ids).push(e.data),
        record_at(push_outcome(s, name, e), element_key_of(name, e.id)) == Some(e),
        text_at(push_outcome(s, name, e), last_key_of(name)) == Some(e.id),
        ids.len() > 0 ==> record_at(push_outcome(s, name, e), element_key_of(name, ids.last()))
            == Some(ElementView { next: Some(e.id), ..record_at(s, element_key_of(name, ids.last())).unwrap() }),
{
    reveal_with_fuel(run_push, 8);
    lemma_keys_distinct(name, e.id, e.id);
    let ek = element_key_of(name, e.id);
    let fk = first_key_of(name);
    let lk = last_key_of(name);
    let out = push_outcome(s, name, e);
    let nids = ids.push(e.id);
    assert forall|i: int| 0 <= i < ids.len() implies ids[i] != e.id by {
        assert(links(s, name, ids, i));
    }
    assert(!ids.contains(e.id));
    let s1 = s.insert(ek, Stored::Record(e));
    if ids.len() == 0 {
        let s2 = s1.insert(fk, Stored::Text(e.id));
        let s3 = s2.insert(lk, Stored::Text(e.id));
        assert(out == s3);
        assert forall|i: int| 0 <= i < nids.len() implies #[trigger] links(out, name, nids, i) by {
            assert(i == 0);
        }
        assert forall|id: Seq<char>| #[trigger] out.contains_key(element_key_of(name, id)) implies nids.contains(id) by {
            lemma_keys_distinct(name, id, e.id);
            assert(nids[0] == e.id);
        }
        assert(contents(out, name, nids) =~= contents(s, name, ids).push(e.data));
    } else {
        let t = ids.last();
        let n = ids.len() as int;
        assert(links(s, name, ids, n - 1));
        lemma_keys_distinct(name, t, e.id);
        let rt = record_at(s, element_key_of(name, t)).unwrap();
        let rt2 = ElementView { next: Some(e.id), ..rt };
        let s2 = s1.insert(element_key_of(name, t), Stored::Record(rt2));
        let s3 = s2.insert(lk, Stored::Text(e.id));
        assert(out == s3);
        assert forall|i: int| 0 <= i < nids.len() implies #[trigger] links(out, name, nids, i) by {
            if i < n - 1 {
                assert(links(s, name, ids, i));
                lemma_keys_distinct(name, ids[i], e.id);
                lemma_keys_distinct(name, ids[i], t);
            }
        }
        assert forall|id: Seq<char>| #[trigger] out.contains_key(element_key_of(name, id)) implies nids.contains(id) by {
            lemma_keys_distinct(name, id, e.id);
            lemma_keys_distinct(name, id, t);
            if id != e.id && id != t {
                assert(s.contains_key(element_key_of(name, id)));
                let j = choose|j: int| 0 <= j < ids.len() && ids[j] == id;
                assert(nids[j] == id);
            } else if id == e.id {
                assert(nids[n] == id);
            } else {
                assert(nids[n - 1] == id);
            }
        }
        assert forall|i: int| 0 <= i < n implies #[trigger] data_at(out, name, ids[i]) == data_at(s, name, ids[i]) by {
            lemma_keys_distinct(name, ids[i], e.id);
            lemma_keys_distinct(name, ids[i], t);
        }
        assert(contents(out, name, nids) =~= contents(s, name, ids).push(e.data)) by {
            assert forall|i: int| 0 <= i < nids.len() implies #[trigger] contents(out, name, nids)[i] == contents(s, name, ids).push(e.data)[i] by {
                if i < n {
                    assert(data_at(out, name, ids[i]) == data_at(s, name, ids[i]));
                }
            }
        }
    }
}

/// A pop on an empty queue returns nothing and changes nothing: head and
/// tail pointers stay unset.
pub proof fn lemma_pop_empty(s: StoreModel, name: Seq<char>)
    requires
        is_chain(s, name, Seq::empty()),
    ensures
        pop_outcome(s, name) == (s, None::<Seq<char>>),
        is_chain(pop_outcome(s, name).0, name, Seq::empty()),
        !pop_outcome(s, name).0.contains_key(first_key_of(name)),
        !pop_outcome(s, name).0.contains_key(last_key_of(name)),
{
    reveal_with_fuel(run_pop, 8);
}

/// A pop on a non-empty queue returns the head's payload, removes the head's
/// record, and leaves the rest of the list in order.
pub proof fn lemma_pop_front(s: StoreModel, name: Seq<char>, ids: Seq<Seq<char>>)
    requires
        is_chain(s, name, ids),
        ids.len() > 0,
    ensures
        pop_outcome(s, name).1 == Some(contents(s, name, ids)[0]),
        is_chain(pop_outcome(s, name).0, name, ids.drop_first()),
        contents(pop_outcome(s, name).0, name, ids.drop_first()) == contents(s, name, ids).drop_first(),
        !pop_outcome(s, name).0.contains_key(element_key_of(name, ids[0])),
{
    reveal_with_fuel(run_pop, 8);
    let h = ids[0];
    let n = ids.len() as int;
    let rest = ids.drop_first();
    lemma_keys_distinct(name, h, h);
    assert(links(s, name, ids, 0));
    let rh = record_at(s, element_key_of(name, h)).unwrap();
    let out = pop_outcome(s, name).0;
    let fk = first_key_of(name);
    let lk = last_key_of(name);
    let hk = element_key_of(name, h);
    if n == 1 {
        assert(out == s.remove(fk).remove(lk).remove(hk));
    } else {
        assert(out == s.insert(fk, Stored::Text(ids[1])).remove(hk));
        assert(links(s, name, ids, n - 1));
    }
    assert forall|i: int| 0 <= i < rest.len() implies #[trigger] links(out, name, rest, i) by {
        assert(links(s, name, ids, i + 1));
        lemma_keys_distinct(name, ids[i + 1], h);
        assert(ids[i + 1] != h);
    }
    assert forall|id: Seq<char>| #[trigger] out.contains_key(element_key_of(name, id)) implies rest.contains(id) by {
        lemma_keys_distinct(name, id, h);
        assert(s.contains_key(element_key_of(name, id)));
        let j = choose|j: int| 0 <= j < ids.len() && ids[j] == id;
        assert(j != 0);
        assert(rest[j - 1] == id);
    }
    assert forall|i: int| 0 <= i < rest.len() implies #[trigger] data_at(out, name, rest[i]) == data_at(s, name, rest[i]) by {
        lemma_keys_distinct(name, ids[i + 1], h);
        assert(ids[i + 1] != h);
    }
    assert(contents(out, name, rest) =~= contents(s, name, ids).drop_first());
}

/// The store after pushing each of `es`, in order, one complete push at a time.
pub open spec fn push_all(s: StoreModel, name: Seq<char>, es: Seq<ElementView>) -> StoreModel
    decreases es.len(),
{
    if es.len() == 0 {
        s
    } else {
        push_all(push_outcome(s, name, es[0]), name, es.drop_first())
    }
}

/// What `k` complete pops in a row return.
pub open spec fn pop_times(s: StoreModel, name: Seq<char>, k: nat) -> Seq<Option<Seq<char>>>
    decreases k,
{
    if k == 0 {
        Seq::empty()
    } else {
        seq![pop_outcome(s, name).1] + pop_times(pop_outcome(s, name).0, name, (k - 1) as nat)
    }
}

pub open spec fn ids_of(es: Seq<ElementView>) -> Seq<Seq<char>> {
    es.map_values(|e: ElementView| e.id)
}

pub open spec fn payloads_of(es: Seq<ElementView>) -> Seq<Seq<char>> {
    es.map_values(|e: ElementView| e.data)
}

/// Elements that a run of pushes may add: distinct ids, none with a record yet.
pub open spec fn all_fresh(s: StoreModel, name: Seq<char>, es: Seq<ElementView>) -> bool {
    &&& ids_of(es).no_duplicates()
    &&& forall|i: int| 0 <= i < es.len() ==> #[trigger] is_fresh(s, name, es[i])
}

proof fn lemma_push_all(s: StoreModel, name: Seq<char>, ids: Seq<Seq<char>>, es: Seq<ElementView>)
    requires
        is_chain(s, name, ids),
        all_fresh(s, name, es),
    ensures
        is_chain(push_all(s, name, es), name, ids + ids_of(es)),
        contents(push_all(s, name, es), name, ids + ids_of(es)) == contents(s, name, ids)
            + payloads_of(es),
    decreases es.len(),
{
    if es.len() == 0 {
        assert(ids + ids_of(es) =~= ids);
        assert(contents(s, name, ids) + payloads_of(es) =~= contents(s, name, ids));
    } else {
        let e0 = es[0];
        let rest = es.drop_first();
        assert(is_fresh(s, name, e0));
        lemma_push_appends(s, name, ids, e0);
        let s1 = push_outcome(s, name, e0);
        let ids1 = ids.push(e0.id);
        assert forall|i: int| 0 <= i < rest.len() implies #[trigger] is_fresh(s1, name, rest[i]) by {
            let e = es[i + 1];
            assert(is_fresh(s, name, e));
            if s1.contains_key(element_key_of(name, e.id)) {
                assert(ids1.contains(e.id));
                if ids.contains(e.id) {
                    let j = choose|j: int| 0 <= j < ids.len() && ids[j] == e.id;
                    assert(links(s, name, ids, j));
                } else {
                    assert(ids1[ids.len() as int] == e.id);
                    assert(ids_of(es)[0] == ids_of(es)[i + 1]);
                }
            }
        }
        assert(ids_of(rest) =~= ids_of(es).drop_first());
        lemma_push_all(s1, name, ids1, rest);
        assert(ids1 + ids_of(rest) =~= ids + ids_of(es));
        assert(contents(s, name, ids).push(e0.data) + payloads_of(rest) =~= contents(s, name, ids)
            + payloads_of(es));
    }
}

proof fn lemma_pop_times(s: StoreModel, name: Seq<char>, ids: Seq<Seq<char>>)
    requires
        is_chain(s, name, ids),
    ensures
        pop_times(s, name, ids.len()) == contents(s, name, ids).map_values(
            |d: Seq<char>| Some(d),
        ),
    decreases ids.len(),
{
    if ids.len() > 0 {
        lemma_pop_front(s, name, ids);
        let s1 = pop_outcome(s, name).0;
        lemma_pop_times(s1, name, ids.drop_first());
        assert(pop_times(s, name, ids.len()) =~= contents(s, name, ids).map_values(
            |d: Seq<char>| Some(d),
        ));
    } else {
        assert(pop_times(s, name, ids.len()) =~= contents(s, name, ids).map_values(
            |d: Seq<char>| Some(d),
        ));
    }
}

/// First in, first out: on an empty queue, pushes of `es` followed by as many
/// pops return the payloads of `es` in the order they were pushed.
pub proof fn lemma_fifo(s: StoreModel, name: Seq<char>, es: Seq<ElementView>)
    requires
        is_chain(s, name, Seq::empty()),
        all_fresh(s, name, es),
    ensures
        pop_times(push_all(s, name, es), name, es.len()) == payloads_of(es).map_values(
            |d: Seq<char>| Some(d),
        ),
{
    lemma_push_all(s, name, Seq::empty(), es);
    let full = push_all(s, name, es);
    assert(Seq::<Seq<char>>::empty() + ids_of(es) =~= ids_of(es));
    assert(contents(s, name, Seq::empty()) + payloads_of(es) =~= payloads_of(es));
    lemma_pop_times(full, name, ids_of(es));
}

/// Pushes serialized by the lock, in whatever order they won it, leave one
/// record per pushed element and nothing else: the list runs from head to
/// tail through exactly those elements, each once.
pub proof fn lemma_serialized_pushes(s: StoreModel, name: Seq<char>, es: Seq<ElementView>)
    requires
        is_chain(s, name, Seq::empty()),
        all_fresh(s, name, es),
    ensures
        is_chain(push_all(s, name, es), name, ids_of(es)),
        Set::new(|id: Seq<char>| push_all(s, name, es).contains_key(element_key_of(name, id)))
            == ids_of(es).to_set(),
        ids_of(es).to_set().len() == es.len(),
{
    lemma_push_all(s, name, Seq::empty(), es);
    let full = push_all(s, name, es);
    assert(Seq::<Seq<char>>::empty() + ids_of(es) =~= ids_of(es));
    assert forall|id: Seq<char>| ids_of(es).contains(id) implies #[trigger] full.contains_key(
        element_key_of(name, id),
    ) by {
        let j = choose|j: int| 0 <= j < ids_of(es).len() && ids_of(es)[j] == id;
        assert(links(full, name, ids_of(es), j));
    }
    assert(Set::new(|id: Seq<char>| full.contains_key(element_key_of(name, id))) =~= ids_of(
        es,
    ).to_set());
    ids_of(es).unique_seq_to_set();
}

/// In a well-formed queue the head and tail pointers are set together, and
/// exactly when the list is not empty.
pub proof fn lemma_pointers_together(s: StoreModel, name: Seq<char>, ids: Seq<Seq<char>>)
    requires
        is_chain(s, name, ids),
    ensures
        (text_at(s, first_key_of(name)) is Some) == (text_at(s, last_key_of(name)) is Some),
        (text_at(s, first_key_of(name)) is Some) == (ids.len() > 0),
{
}

/// A head pointer whose record is missing reads as an empty queue: the pop
/// returns nothing and leaves the store as it found it.
pub proof fn lemma_pop_missing_head(s: StoreModel, name: Seq<char>, head: Seq<char>)
    requires
        text_at(s, first_key_of(name)) == Some(head),
        record_at(s, element_key_of(name, head)) is None,
    ensures
        pop_outcome(s, name) == (s, None::<Seq<char>>),
{
    reveal_with_fuel(run_pop, 8);
}

/// No command of a push or a pop changes who holds the lock: a client that
/// took the lock keeps it for its whole critical section, and only its own
/// release ends it.
pub proof fn lemma_ops_keep_lock(
    s: StoreModel,
    name: Seq<char>,
    e: ElementView,
    push_ph: PushPhaseView,
    pop_ph: PopPhaseView,
)
    ensures
        push_command(name, e, push_ph) matches Some(c) ==> text_at(execute(s, c).0, lock_key_of(name))
            == text_at(s, lock_key_of(name)),
        pop_command(name, pop_ph) matches Some(c) ==> text_at(execute(s, c).0, lock_key_of(name))
            == text_at(s, lock_key_of(name)),
{
    lemma_keys_distinct(name, e.id, e.id);
    match push_ph {
        PushPhaseView::ReadTail { tail_id } => lemma_keys_distinct(name, tail_id, tail_id),
        PushPhaseView::LinkTail { tail_id, .. } => lemma_keys_distinct(name, tail_id, tail_id),
        _ => {},
    }
    match pop_ph {
        PopPhaseView::ReadHead { head_id } => lemma_keys_distinct(name, head_id, head_id),
        PopPhaseView::DeleteHead { head_id, .. } => lemma_keys_distinct(name, head_id, head_id),
        _ => {},
    }
}

} // verus!
