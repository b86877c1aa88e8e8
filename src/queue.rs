//! The queue of pending raw intents.

use crossbeam_queue::SegQueue;
use vstd::multiset::Multiset;
use vstd::prelude::*;

verus! {

#[verifier::external_type_specification]
#[verifier::external_body]
#[verifier::reject_recursive_types(T)]
pub struct ExSegQueue<T>(SegQueue<T>);

/// The items held by a `SegQueue` of strings, head first.
pub uninterp spec fn seg_items(q: SegQueue<String>) -> Seq<Seq<char>>;

/// Relies on `SegQueue::new`: the new queue is empty.
#[verifier::external_body]
fn seg_new() -> (q: SegQueue<String>)
    ensures
        seg_items(q) == Seq::<Seq<char>>::empty(),
{
    SegQueue::new()
}

/// Relies on `SegQueue::push`: the value goes to the tail. Exclusive access
/// means no other thread pushes or pops in between.
#[verifier::external_body]
fn seg_push(q: &mut SegQueue<String>, value: String)
    ensures
        seg_items(*final(q)) == seg_items(*old(q)).push(value@),
{
    q.push(value)
}

/// Relies on `SegQueue::pop`: the head leaves the queue, or `None` when it is
/// empty. Exclusive access means no other thread pushes or pops in between.
#[verifier::external_body]
fn seg_pop(q: &mut SegQueue<String>) -> (r: Option<String>)
    ensures
        seg_items(*old(q)).len() == 0 ==> r is None && seg_items(*final(q)) == seg_items(*old(q)),
        seg_items(*old(q)).len() > 0 ==> r is Some && r->0@ == seg_items(*old(q))[0]
            && seg_items(*final(q)) == seg_items(*old(q)).drop_first(),
{
    q.pop()
}

/// The text held by an optional string.
pub open spec fn text_of(o: Option<String>) -> Option<Seq<char>> {
    match o {
        Some(s) => Some(s@),
        None => None,
    }
}

/// Relies on `SegQueue::is_empty`: whether the queue holds no item. The
/// queue is private to `IntentQueue`, which pushes and pops only through
/// `&mut`, so nothing changes it while it is read.
#[verifier::external_body]
fn seg_is_empty(q: &SegQueue<String>) -> (r: bool)
    ensures
        r == (seg_items(*q).len() == 0),
{
    q.is_empty()
}

/// What a pop does to a queue holding `items`: the value handed out and the
/// items that stay.
pub open spec fn pop_step(items: Seq<Seq<char>>) -> (Option<Seq<char>>, Seq<Seq<char>>) {
    if items.len() == 0 {
        (None, items)
    } else {
        (Some(items[0]), items.drop_first())
    }
}

/// An unbounded first-in first-out queue of raw intent payloads.
pub struct IntentQueue {
    items: SegQueue<String>,
}

impl View for IntentQueue {
    type V = Seq<Seq<char>>;

    closed spec fn view(&self) -> Seq<Seq<char>> {
        seg_items(self.items)
    }
}

impl IntentQueue {
    /// An empty queue.
    pub fn new() -> (q: IntentQueue)
        ensures
            q@ == Seq::<Seq<char>>::empty(),
    {
        IntentQueue { items: seg_new() }
    }

    /// Appends `raw` at the tail.
    pub fn push(&mut self, raw: String)
        ensures
            final(self)@ == old(self)@.push(raw@),
    {
        seg_push(&mut self.items, raw);
    }

    /// Whether no item is pending.
    pub fn is_empty(&self) -> (r: bool)
        ensures
            r == (self@.len() == 0),
    {
        seg_is_empty(&self.items)
    }

    /// Removes and returns the oldest item, or `None` when the queue is empty.
    pub fn pop(&mut self) -> (r: Option<String>)
        ensures
            text_of(r) == pop_step(old(self)@).0,
            final(self)@ == pop_step(old(self)@).1,
    {
        seg_pop(&mut self.items)
    }
}

/// Hands a raw intent delivered by the operating system to the queue.
pub fn push_new_intent(queue: &mut IntentQueue, raw_intent: String)
    ensures
        final(queue)@ == old(queue)@.push(raw_intent@),
{
    queue.push(raw_intent);
}

/// Takes the oldest pending raw intent, if there is one.
pub fn pop_intent(queue: &mut IntentQueue) -> (r: Option<String>)
    ensures
        text_of(r) == pop_step(old(queue)@).0,
        final(queue)@ == pop_step(old(queue)@).1,
{
    queue.pop()
}

/// The items of a queue holding `items` after `values` are pushed one by
/// one, in order.
pub open spec fn push_all(items: Seq<Seq<char>>, values: Seq<Seq<char>>) -> Seq<Seq<char>>
    decreases values.len(),
{
    if values.len() == 0 {
        items
    } else {
        push_all(items.push(values[0]), values.drop_first())
    }
}

/// What `n` pops in a row hand out, in order, from a queue holding `items`.
pub open spec fn pop_all(items: Seq<Seq<char>>, n: nat) -> Seq<Option<Seq<char>>>
    decreases n,
{
    if n == 0 {
        Seq::empty()
    } else {
        seq![pop_step(items).0] + pop_all(pop_step(items).1, (n - 1) as nat)
    }
}

/// Pushing values one by one appends them in order.
proof fn lemma_push_all(items: Seq<Seq<char>>, values: Seq<Seq<char>>)
    ensures
        push_all(items, values) == items + values,
    decreases values.len(),
{
    if values.len() > 0 {
        lemma_push_all(items.push(values[0]), values.drop_first());
        assert(items.push(values[0]) + values.drop_first() =~= items + values);
    } else {
        assert(items + values =~= items);
    }
}

/// As many pops as there are items hand out every item once, oldest first.
proof fn lemma_pop_all(items: Seq<Seq<char>>)
    ensures
        pop_all(items, items.len()) == items.map_values(|v: Seq<char>| Some(v)),
    decreases items.len(),
{
    if items.len() > 0 {
        lemma_pop_all(items.drop_first());
        assert(seq![Some(items[0])] + items.drop_first().map_values(|v: Seq<char>| Some(v))
            =~= items.map_values(|v: Seq<char>| Some(v)));
    } else {
        assert(pop_all(items, 0) =~= items.map_values(|v: Seq<char>| Some(v)));
    }
}

/// On a queue that starts empty, `n` pushes followed by `n` pops hand back
/// exactly the pushed values, each once and in the order they were pushed,
/// and leave the queue empty; a further pop finds nothing.
pub proof fn lemma_pushes_then_pops(values: Seq<Seq<char>>)
    ensures
        pop_all(push_all(Seq::empty(), values), values.len()) == values.map_values(
            |v: Seq<char>| Some(v),
        ),
        pop_step(Seq::<Seq<char>>::empty()) == (None::<Seq<char>>, Seq::<Seq<char>>::empty()),
{
    lemma_push_all(Seq::empty(), values);
    assert(Seq::<Seq<char>>::empty() + values =~= values);
    lemma_pop_all(values);
}

/// One operation on the queue, by any thread.
pub enum QueueOp {
    Push(Seq<char>),
    Pop,
}

/// The values pushed by `ops`, in order.
pub open spec fn pushed_values(ops: Seq<QueueOp>) -> Seq<Seq<char>>
    decreases ops.len(),
{
    if ops.len() == 0 {
        Seq::empty()
    } else {
        match ops.last() {
            QueueOp::Push(v) => pushed_values(ops.drop_last()).push(v),
            QueueOp::Pop => pushed_values(ops.drop_last()),
        }
    }
}

/// Running `ops` one after the other on a queue holding `items`: the values
/// the pops hand out, in order, and the items that stay.
pub open spec fn run_ops(items: Seq<Seq<char>>, ops: Seq<QueueOp>) -> (
    Seq<Seq<char>>,
    Seq<Seq<char>>,
)
    decreases ops.len(),
{
    if ops.len() == 0 {
        (Seq::empty(), items)
    } else {
        let (out, rest) = run_ops(items, ops.drop_last());
        match ops.last() {
            QueueOp::Push(v) => (out, rest.push(v)),
            QueueOp::Pop => match pop_step(rest).0 {
                Some(x) => (out.push(x), pop_step(rest).1),
                None => (out, rest),
            },
        }
    }
}

/// However pushes and pops interleave, nothing is lost and nothing is handed
/// out twice: what the pops hand out together with what stays in the queue
/// is, counted with multiplicity, what it held plus what was pushed.
pub proof fn lemma_no_loss_no_duplication(items: Seq<Seq<char>>, ops: Seq<QueueOp>)
    ensures
        run_ops(items, ops).0.to_multiset().add(run_ops(items, ops).1.to_multiset())
            == items.to_multiset().add(pushed_values(ops).to_multiset()),
    decreases ops.len(),
{
    broadcast use vstd::seq_lib::group_to_multiset_ensures;
    broadcast use vstd::multiset::group_multiset_axioms;

    if ops.len() == 0 {
        assert(run_ops(items, ops).0.to_multiset() =~= Multiset::empty());
        assert(pushed_values(ops).to_multiset() =~= Multiset::empty());
        assert(run_ops(items, ops).0.to_multiset().add(run_ops(items, ops).1.to_multiset())
            =~= items.to_multiset().add(pushed_values(ops).to_multiset()));
    } else {
        lemma_no_loss_no_duplication(items, ops.drop_last());
        let (out, rest) = run_ops(items, ops.drop_last());
        match ops.last() {
            QueueOp::Push(v) => {
                let before = pushed_values(ops.drop_last());
                assert(pushed_values(ops) == before.push(v));
                assert(rest.push(v).to_multiset() == rest.to_multiset().insert(v));
                assert(before.push(v).to_multiset() == before.to_multiset().insert(v));
                assert(out.to_multiset().add(rest.to_multiset()) == items.to_multiset().add(
                    before.to_multiset(),
                ));
                assert forall|z: Seq<char>|
                    #![auto]
                    out.to_multiset().add(rest.push(v).to_multiset()).count(z)
                        == items.to_multiset().add(before.push(v).to_multiset()).count(z) by {
                    assert(out.to_multiset().add(rest.to_multiset()).count(z)
                        == items.to_multiset().add(before.to_multiset()).count(z));
                }
                assert(out.to_multiset().add(rest.push(v).to_multiset()) =~= items.to_multiset().add(
                    pushed_values(ops).to_multiset(),
                ));
            },
            QueueOp::Pop => {
                if rest.len() > 0 {
                    let x = rest[0];
                    assert(rest.drop_first() =~= rest.remove(0));
                    assert(rest.to_multiset().contains(x));
                    assert(out.push(x).to_multiset().add(rest.drop_first().to_multiset())
                        =~= out.to_multiset().add(rest.to_multiset()));
                }
            },
        }
    }
}

} // verus!
