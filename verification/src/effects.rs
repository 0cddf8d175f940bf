//! Reading a `HostLog`: the events a call added to it, and how the events of
//! consecutive calls join.
use vstd::prelude::*;

use crate::host::HostEvent;

verus! {

/// Whether `after` is `before` with events added at its end.
pub open spec fn extends(before: Seq<HostEvent>, after: Seq<HostEvent>) -> bool {
    before.len() <= after.len() && after.take(before.len() as int) == before
}

/// The events added to `before` to give `after`.
pub open spec fn added(before: Seq<HostEvent>, after: Seq<HostEvent>) -> Seq<HostEvent> {
    after.skip(before.len() as int)
}

/// A log extends itself by nothing.
pub proof fn lemma_nothing_added(a: Seq<HostEvent>)
    ensures
        extends(a, a),
        added(a, a) == Seq::<HostEvent>::empty(),
{
    assert(a.take(a.len() as int) =~= a);
    assert(added(a, a) =~= Seq::<HostEvent>::empty());
}

/// One event added.
pub proof fn lemma_one_added(a: Seq<HostEvent>, e: HostEvent)
    ensures
        extends(a, a.push(e)),
        added(a, a.push(e)) == seq![e],
{
    assert(a.push(e).take(a.len() as int) =~= a);
    assert(added(a, a.push(e)) =~= seq![e]);
}

/// The events added over two consecutive calls are those of the first, then
/// those of the second.
pub proof fn lemma_added_joins(a: Seq<HostEvent>, b: Seq<HostEvent>, c: Seq<HostEvent>)
    requires
        extends(a, b),
        extends(b, c),
    ensures
        extends(a, c),
        added(a, c) == added(a, b) + added(b, c),
        added(a, c).take(added(a, b).len() as int) == added(a, b),
        added(a, c).skip(added(a, b).len() as int) == added(b, c),
{
    assert(c.take(b.len() as int).take(a.len() as int) =~= c.take(a.len() as int));
    assert(added(a, c) =~= added(a, b) + added(b, c));
    assert((added(a, b) + added(b, c)).take(added(a, b).len() as int) =~= added(a, b));
    assert((added(a, b) + added(b, c)).skip(added(a, b).len() as int) =~= added(b, c));
}

/// A sequence of events taken whole.
pub proof fn lemma_whole(t: Seq<HostEvent>)
    ensures
        t.take(t.len() as int) == t,
        t.skip(t.len() as int) == Seq::<HostEvent>::empty(),
        t.skip(0) == t,
        t.take(0) == Seq::<HostEvent>::empty(),
{
    assert(t.take(t.len() as int) =~= t);
    assert(t.skip(t.len() as int) =~= Seq::<HostEvent>::empty());
    assert(t.skip(0) =~= t);
    assert(t.take(0) =~= Seq::<HostEvent>::empty());
}

} // verus!
