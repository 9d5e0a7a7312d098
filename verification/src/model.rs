//! Delivery model of broadcasting, with its proved properties.
//!
//! The model tracks, for each connection identifier, the sequence of
//! events handed to that connection's writer in order — exactly what the
//! per-connection outbound channel preserves, since it is a FIFO queue
//! drained by a single writer. One broadcast appends an event to the log
//! of every targeted connection; the targets are the registered
//! connections other than the originating one and other than those whose
//! writers have already failed. The lemmas below are the library's
//! statements about this delivery discipline.

use crate::event::ChatEvent;
use vstd::prelude::*;

verus! {

/// The connections one broadcast enqueues to: every registered
/// connection except the originating one and except those whose writers
/// have failed.
pub open spec fn broadcast_targets(registered: Set<u64>, origin: u64, dead: Set<u64>) -> Set<
    u64,
> {
    registered.remove(origin).difference(dead)
}

/// One broadcast: append the event to every targeted connection's
/// delivery log; every other log is untouched.
pub open spec fn apply_broadcast(
    log: Map<u64, Seq<ChatEvent>>,
    targets: Set<u64>,
    ev: ChatEvent,
) -> Map<u64, Seq<ChatEvent>> {
    Map::new(
        |k: u64| log.dom().contains(k),
        |k: u64|
            if targets.contains(k) {
                log[k].push(ev)
            } else {
                log[k]
            },
    )
}

/// A sequence of broadcasts applied in order.
pub open spec fn apply_broadcasts(
    log: Map<u64, Seq<ChatEvent>>,
    bs: Seq<(Set<u64>, ChatEvent)>,
) -> Map<u64, Seq<ChatEvent>>
    decreases bs.len(),
{
    if bs.len() == 0 {
        log
    } else {
        apply_broadcast(apply_broadcasts(log, bs.drop_last()), bs.last().0, bs.last().1)
    }
}

/// A connection's own broadcast is never delivered back to itself: the
/// originating connection is never a target, and its own delivery log is
/// exactly what it was before the broadcast.
pub proof fn lemma_own_broadcast_not_delivered(
    log: Map<u64, Seq<ChatEvent>>,
    registered: Set<u64>,
    origin: u64,
    dead: Set<u64>,
    ev: ChatEvent,
)
    ensures
        !broadcast_targets(registered, origin, dead).contains(origin),
        log.dom().contains(origin) ==> apply_broadcast(
            log,
            broadcast_targets(registered, origin, dead),
            ev,
        )[origin] == log[origin],
{
}

/// A broadcast to a peer whose writer has failed is a no-op for that
/// peer, and does not change what every still-live peer receives: each
/// registered peer other than the origin with a live writer still has
/// the event appended to its log, whatever the set of failed peers is.
pub proof fn lemma_failed_peer_broadcast_noop(
    log: Map<u64, Seq<ChatEvent>>,
    registered: Set<u64>,
    origin: u64,
    dead: Set<u64>,
    ev: ChatEvent,
)
    ensures
        forall|d: u64|
            dead.contains(d) && log.dom().contains(d) ==> apply_broadcast(
                log,
                broadcast_targets(registered, origin, dead),
                ev,
            )[d] == log[d],
        forall|k: u64|
            log.dom().contains(k) && registered.contains(k) && k != origin && !dead.contains(k)
                ==> apply_broadcast(log, broadcast_targets(registered, origin, dead), ev)[k]
                == log[k].push(ev),
{
}

/// When a connection leaves, every other currently-connected peer whose
/// writer is still live has the leave event appended to its delivery
/// log, and so eventually receives it.
pub proof fn lemma_leave_reaches_all_live_peers(
    log: Map<u64, Seq<ChatEvent>>,
    registered: Set<u64>,
    origin: u64,
    dead: Set<u64>,
    name: String,
)
    ensures
        forall|k: u64|
            log.dom().contains(k) && registered.contains(k) && k != origin && !dead.contains(k)
                ==> apply_broadcast(
                log,
                broadcast_targets(registered, origin, dead),
                (ChatEvent::Left { name }),
            )[k] == log[k].push(ChatEvent::Left { name }),
{
}

/// Broadcasting never reorders or drops what a peer has already been
/// handed: over any sequence of broadcasts, a peer's earlier delivery
/// log stays a prefix of its later one.
pub proof fn lemma_delivery_is_fifo(
    log: Map<u64, Seq<ChatEvent>>,
    bs: Seq<(Set<u64>, ChatEvent)>,
    k: u64,
)
    requires
        log.dom().contains(k),
    ensures
        apply_broadcasts(log, bs).dom().contains(k),
        log[k].is_prefix_of(apply_broadcasts(log, bs)[k]),
    decreases bs.len(),
{
    if bs.len() == 0 {
    } else {
        lemma_delivery_is_fifo(log, bs.drop_last(), k);
        let prev = apply_broadcasts(log, bs.drop_last());
        assert(log[k].is_prefix_of(prev[k]));
        if bs.last().0.contains(k) {
            assert(prev[k].is_prefix_of(prev[k].push(bs.last().1)));
        }
    }
}

/// The broadcasts of one whole session: the connection joins under
/// `name`, says the given lines in order, then leaves, each time
/// targeting the same peers.
pub open spec fn session_broadcasts(targets: Set<u64>, name: String, lines: Seq<String>) -> Seq<
    (Set<u64>, ChatEvent),
> {
    seq![(targets, ChatEvent::Joined { name })] + lines.map_values(
        |t: String| (targets, ChatEvent::Said { name, text: t }),
    ) + seq![(targets, ChatEvent::Left { name })]
}

/// A peer connected throughout another connection's whole session
/// receives exactly that session's events, in session order: the join,
/// every chat line in the order it was said, then the leave.
pub proof fn lemma_session_seen_in_order(
    log: Map<u64, Seq<ChatEvent>>,
    targets: Set<u64>,
    name: String,
    lines: Seq<String>,
    k: u64,
)
    requires
        log.dom().contains(k),
        targets.contains(k),
    ensures
        apply_broadcasts(log, session_broadcasts(targets, name, lines))[k] == log[k] + seq![
            (ChatEvent::Joined { name }),
        ] + lines.map_values(|t: String| ChatEvent::Said { name, text: t }) + seq![
            (ChatEvent::Left { name }),
        ],
{
    let bs = session_broadcasts(targets, name, lines);
    assert forall|i: int| 0 <= i < bs.len() implies (#[trigger] bs[i]).0.contains(k) by {
        if i == 0 {
        } else if i < 1 + lines.len() {
            assert(bs[i] == (targets, ChatEvent::Said { name, text: lines[i - 1] }));
        } else {
            assert(bs[i] == (targets, ChatEvent::Left { name }));
        }
    }
    lemma_targeted_peer_receives_all_in_order(log, bs, k);
    let evs = bs.map_values(|b: (Set<u64>, ChatEvent)| b.1);
    assert(evs =~= seq![(ChatEvent::Joined { name })] + lines.map_values(
        |t: String| ChatEvent::Said { name, text: t },
    ) + seq![(ChatEvent::Left { name })]);
    assert(log[k] + evs =~= log[k] + seq![(ChatEvent::Joined { name })] + lines.map_values(
        |t: String| ChatEvent::Said { name, text: t },
    ) + seq![(ChatEvent::Left { name })]);
}

/// A peer targeted by every broadcast of a sequence receives exactly the
/// broadcast events, appended in broadcast order: with each peer's
/// channel a FIFO drained by one writer, every recipient sees each
/// sender's lines in that sender's send order.
pub proof fn lemma_targeted_peer_receives_all_in_order(
    log: Map<u64, Seq<ChatEvent>>,
    bs: Seq<(Set<u64>, ChatEvent)>,
    k: u64,
)
    requires
        log.dom().contains(k),
        forall|i: int| 0 <= i < bs.len() ==> (#[trigger] bs[i]).0.contains(k),
    ensures
        apply_broadcasts(log, bs)[k] == log[k] + bs.map_values(
            |b: (Set<u64>, ChatEvent)| b.1,
        ),
    decreases bs.len(),
{
    let evs = bs.map_values(|b: (Set<u64>, ChatEvent)| b.1);
    if bs.len() == 0 {
        assert(log[k] + evs =~= log[k]);
    } else {
        let head = bs.drop_last();
        lemma_targeted_peer_receives_all_in_order(log, head, k);
        lemma_delivery_is_fifo(log, head, k);
        let prev = apply_broadcasts(log, head);
        assert(head.map_values(|b: (Set<u64>, ChatEvent)| b.1) =~= evs.drop_last());
        assert(prev[k] == log[k] + evs.drop_last());
        assert(bs.last().0.contains(k));
        assert(apply_broadcasts(log, bs)[k] == prev[k].push(bs.last().1));
        assert(log[k] + evs =~= (log[k] + evs.drop_last()).push(evs.last()));
    }
}

} // verus!
