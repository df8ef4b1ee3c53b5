use crate::channel::{lemma_sends_accepted, EventSender, Polled, SendFailure};
use crate::combined::{
    base_dialled, outer_dialled, CombinedListener, CombinedTransport, DialStep,
};
use crate::error::{base_failure, outer_failure, CombinedError, TransportError};
use crate::event::{EitherOutput, ListenerEvent, RelayedEvent};
use crate::listener::{
    copied, copied_item, handed_over, hears, outer_item, reports_base_event, reports_base_item,
    switch_result, PendingUpgrade,
};
use crate::proxy::{proxied, ProxyTransport};
use crate::slot::{Found, NothingPending, PickedUp};
use crate::transport::Transport;
use libp2p::Multiaddr;
use vstd::prelude::*;

verus! {

/// The base transport's events are routed through the proxy: when a combined transport listens, the
/// receiver of the channel that its relay sends to is left, last of all, at the very place where
/// the proxy that the outer transport was made of picks up its listener, whatever address that proxy
/// is asked to listen on. Nothing has been read from the receiver that it picks up.
pub proof fn law_receiver_is_left_where_outer_looks<TBase, TOuter, C, U, M>(
    combined: CombinedTransport<TBase, TOuter, C, U, M>,
    inner: ProxyTransport<TBase>,
    listener: CombinedListener<TBase, TOuter, U>,
    base: TBase::Listener,
    outer: TOuter::Listener,
    addr: Multiaddr,
    picked: PickedUp<RelayedEvent<TBase::Output>>,
) where
    TBase: Transport + Clone,
    TOuter: Transport,
    C: Fn(ProxyTransport<TBase>) -> TOuter,
    M: Fn(Multiaddr) -> Multiaddr,

    requires
        combined.outer_is_made_of(inner),
        combined.listener_is(listener, base, outer),
        call_ensures(
            ProxyTransport::<TBase>::listen_on,
            (inner, addr),
            Ok::<
                PickedUp<RelayedEvent<TBase::Output>>,
                NothingPending<RelayedEvent<TBase::Output>>,
            >(picked),
        ),
    ensures
        picked.place() == listener.proxy.pending().place(),
        picked.receiver().answers() == Seq::<Polled<RelayedEvent<TBase::Output>>>::empty(),
        listener.proxy.pending().offered().last().0 == listener.relay.sender().channel(),
{
}

/// The pending slot of a new transport starts empty: it was made for the proxy of the transport, one
/// other handle was made of that, the outer transport was made of a proxy that shares the slot, and
/// nothing was left in it through either. Listening then finds nothing there before.
pub proof fn law_slot_is_empty_at_first<TBase, TOuter, C, U, M>(
    base: TBase,
    construct_outer: C,
    try_upgrade: U,
    map_base_addr_to_outer: M,
    combined: CombinedTransport<TBase, TOuter, C, U, M>,
    addr: Multiaddr,
    listener: CombinedListener<TBase, TOuter, U>,
) where
    TBase: Transport + Clone,
    TOuter: Transport,
    C: Fn(ProxyTransport<TBase>) -> TOuter,
    M: Fn(Multiaddr) -> Multiaddr,

    requires
        call_ensures(
            CombinedTransport::<TBase, TOuter, C, U, M>::new,
            (base, construct_outer, try_upgrade, map_base_addr_to_outer),
            combined,
        ),
        call_ensures(
            <CombinedTransport<TBase, TOuter, C, U, M> as Transport>::listen_on,
            (combined, addr),
            Ok::<
                CombinedListener<TBase, TOuter, U>,
                TransportError<CombinedError<TBase::Error, TOuter::Error>>,
            >(listener),
        ),
    ensures
        combined.proxy().pending().is_own(),
        combined.proxy().pending().shares() == 1,
        combined.proxy().pending().offered().len() == 0,
        exists|inner: ProxyTransport<TBase>|
            {
                &&& #[trigger] combined.outer_is_made_of(inner)
                &&& inner.pending().place() == combined.proxy().pending().place()
                &&& !inner.pending().is_own()
                &&& inner.pending().is_unused()
            },
        listener.displaced is None,
{
}

/// A clone has a pending slot of its own, with two handles: those of its own proxy and of the proxy
/// that its own outer transport was made of. Whichever of the two transports listens first, each
/// finds its slot empty.
pub proof fn law_clones_listen_side_by_side<TBase, TOuter, C, U, M>(
    combined: CombinedTransport<TBase, TOuter, C, U, M>,
    copy: CombinedTransport<TBase, TOuter, C, U, M>,
    addr: Multiaddr,
    copy_addr: Multiaddr,
    listener: CombinedListener<TBase, TOuter, U>,
    copy_listener: CombinedListener<TBase, TOuter, U>,
) where
    TBase: Transport + Clone,
    TOuter: Transport,
    C: Fn(ProxyTransport<TBase>) -> TOuter + Copy,
    U: Copy,
    M: Fn(Multiaddr) -> Multiaddr + Copy,

    requires
        call_ensures(
            <CombinedTransport<TBase, TOuter, C, U, M> as Clone>::clone,
            (&combined,),
            copy,
        ),
        call_ensures(
            <CombinedTransport<TBase, TOuter, C, U, M> as Transport>::listen_on,
            (combined, addr),
            Ok::<
                CombinedListener<TBase, TOuter, U>,
                TransportError<CombinedError<TBase::Error, TOuter::Error>>,
            >(listener),
        ),
        call_ensures(
            <CombinedTransport<TBase, TOuter, C, U, M> as Transport>::listen_on,
            (copy, copy_addr),
            Ok::<
                CombinedListener<TBase, TOuter, U>,
                TransportError<CombinedError<TBase::Error, TOuter::Error>>,
            >(copy_listener),
        ),
    ensures
        copy.proxy().pending().is_own(),
        copy.proxy().pending().shares() == 1,
        copy.proxy().pending().offered().len() == 0,
        exists|inner: ProxyTransport<TBase>|
            {
                &&& #[trigger] copy.outer_is_made_of(inner)
                &&& inner.pending().place() == copy.proxy().pending().place()
                &&& inner.pending().is_unused()
            },
        listener.displaced is None,
        copy_listener.displaced is None,
{
}

/// The address plays no part when a proxy listens: on any two addresses, what comes back is a
/// receiver exactly if the pick-up found one, and then it is that receiver.
pub proof fn law_proxy_ignores_address<TBase: Transport>(
    proxy: ProxyTransport<TBase>,
    a: Multiaddr,
    b: Multiaddr,
    on_a: Result<
        PickedUp<RelayedEvent<TBase::Output>>,
        NothingPending<RelayedEvent<TBase::Output>>,
    >,
    on_b: Result<
        PickedUp<RelayedEvent<TBase::Output>>,
        NothingPending<RelayedEvent<TBase::Output>>,
    >,
)
    requires
        call_ensures(ProxyTransport::<TBase>::listen_on, (proxy, a), on_a),
        call_ensures(ProxyTransport::<TBase>::listen_on, (proxy, b), on_b),
    ensures
        exists|
            found_a: Found<RelayedEvent<TBase::Output>>,
            found_b: Found<RelayedEvent<TBase::Output>>,
        |
            {
                &&& #[trigger] proxy.picks_up(found_a)
                &&& #[trigger] proxy.picks_up(found_b)
                &&& found_a.becomes(on_a)
                &&& found_b.becomes(on_b)
                &&& found_a.receiver() == found_b.receiver() ==> match on_a {
                    Ok(picked) => on_b matches Ok(other) && other.receiver() == picked.receiver()
                        && other.place() == picked.place(),
                    Err(nothing) => on_b matches Err(other) && other.place() == nothing.place(),
                }
            },
{
}

/// The copies that the outer transport gets of a sequence of events of the base transport.
pub open spec fn copies<U, O, E>(events: Seq<ListenerEvent<U, E>>) -> Seq<RelayedEvent<O>>
    decreases events.len(),
{
    if events.len() == 0 {
        Seq::empty()
    } else {
        match copied(events.last()) {
            Some(copy) => copies(events.drop_last()).push(copy),
            None => copies(events.drop_last()),
        }
    }
}

/// A relay handled these events one after the other, without a failure: before the event at `i` its
/// handle was `handles[i]`, and afterwards `handles[i + 1]`.
pub open spec fn relays_all<U, O, E, R>(
    handles: Seq<EventSender<RelayedEvent<O>>>,
    events: Seq<ListenerEvent<U, E>>,
    outcomes: Seq<Result<R, SendFailure>>,
) -> bool {
    &&& handles.len() == events.len() + 1
    &&& outcomes.len() == events.len()
    &&& forall|i: int|
        0 <= i < events.len() ==> {
            &&& (#[trigger] outcomes[i]) is Ok
            &&& handles[i].sends(copied(events[i]), outcomes[i], handles[i + 1])
        }
}

/// However many events a relay has handled, what its channel has taken from its handle are the copies
/// of all of them, in the order of the events, and nothing else.
pub proof fn law_relay_passes_on_addresses<U, O, E, R>(
    handles: Seq<EventSender<RelayedEvent<O>>>,
    events: Seq<ListenerEvent<U, E>>,
    outcomes: Seq<Result<R, SendFailure>>,
)
    requires
        relays_all(handles, events, outcomes),
    ensures
        handles.last().channel() == handles[0].channel(),
        handles.last().buffer() == handles[0].buffer(),
        handles.last().accepted() == handles[0].accepted() + copies::<U, O, E>(events),
    decreases events.len(),
{
    let start = handles[0].accepted();
    if events.len() == 0 {
        assert(start + copies::<U, O, E>(events) =~= start);
    } else {
        let n = events.len() - 1;
        let earlier = handles.drop_last();
        assert(relays_all(earlier, events.drop_last(), outcomes.drop_last())) by {
            assert forall|i: int| 0 <= i < n implies {
                &&& (#[trigger] outcomes.drop_last()[i]) is Ok
                &&& earlier[i].sends(
                    copied(events.drop_last()[i]),
                    outcomes.drop_last()[i],
                    earlier[i + 1],
                )
            } by {
                assert(outcomes[i] is Ok);
            }
        }
        law_relay_passes_on_addresses(earlier, events.drop_last(), outcomes.drop_last());
        assert(outcomes[n] is Ok);
        lemma_sends_accepted(
            handles[n],
            copied::<U, O, E>(events[n]),
            outcomes[n],
            handles[n + 1],
        );
        let before = copies::<U, O, E>(events.drop_last());
        match copied::<U, O, E>(events.last()) {
            Some(copy) => {
                assert(start + before.push(copy) =~= (start + before).push(copy));
            },
            None => {},
        }
    }
}

/// The outer transport gets the copies of a sequence of events in order: those of a first part,
/// then those of the rest.
pub proof fn law_copies_keep_order<U, O, E>(
    first: Seq<ListenerEvent<U, E>>,
    rest: Seq<ListenerEvent<U, E>>,
)
    ensures
        copies::<U, O, E>(first + rest) == copies::<U, O, E>(first) + copies::<U, O, E>(rest),
    decreases rest.len(),
{
    if rest.len() == 0 {
        assert(first + rest =~= first);
        assert(copies::<U, O, E>(first) + copies::<U, O, E>(rest) =~= copies::<U, O, E>(first));
    } else {
        assert((first + rest).drop_last() =~= first + rest.drop_last());
        law_copies_keep_order::<U, O, E>(first, rest.drop_last());
        match copied::<U, O, E>(rest.last()) {
            Some(copy) => {
                assert(copies::<U, O, E>(first) + copies::<U, O, E>(rest.drop_last()).push(copy)
                    =~= (copies::<U, O, E>(first) + copies::<U, O, E>(rest.drop_last())).push(copy));
            },
            None => {},
        }
    }
}

/// Errors of the base transport are reported once, and connections pass the switch first: neither
/// is ever copied to the outer transport.
pub proof fn law_only_addresses_are_copied<U, O, E>(events: Seq<ListenerEvent<U, E>>)
    ensures
        forall|i: int|
            0 <= i < copies::<U, O, E>(events).len() ==> {
                ||| (#[trigger] copies::<U, O, E>(events)[i]) is NewAddress
                ||| copies::<U, O, E>(events)[i] is AddressExpired
            },
    decreases events.len(),
{
    if events.len() > 0 {
        law_only_addresses_are_copied::<U, O, E>(events.drop_last());
    }
}

/// No address is lost: every address that the base transport reports reaches the outer transport
/// as the same event, after the copies of what was reported before.
pub proof fn law_every_address_is_copied<U, O, E>(events: Seq<ListenerEvent<U, E>>, i: int)
    requires
        0 <= i < events.len(),
    ensures
        ({
            let sent = copies::<U, O, E>(events);
            let at = copies::<U, O, E>(events.take(i)).len() as int;
            match events[i] {
                ListenerEvent::NewAddress(a) => {
                    &&& at < sent.len()
                    &&& sent[at] == RelayedEvent::<O>::NewAddress(a)
                    &&& proxied::<O, E>(sent[at]) matches Ok(ListenerEvent::NewAddress(heard))
                    &&& heard == a
                },
                ListenerEvent::AddressExpired(a) => {
                    &&& at < sent.len()
                    &&& sent[at] == RelayedEvent::<O>::AddressExpired(a)
                    &&& proxied::<O, E>(sent[at]) matches Ok(ListenerEvent::AddressExpired(heard))
                    &&& heard == a
                },
                _ => copies::<U, O, E>(events.take(i + 1)) == copies::<U, O, E>(events.take(i)),
            }
        }),
{
    let upto = events.take(i + 1);
    assert(upto.drop_last() =~= events.take(i));
    assert(events =~= upto + events.skip(i + 1));
    law_copies_keep_order::<U, O, E>(upto, events.skip(i + 1));
}

/// The items of the base listener among those that were heard, in order.
pub open spec fn from_base<A, B>(heard: Seq<EitherOutput<A, B>>) -> Seq<A>
    decreases heard.len(),
{
    if heard.len() == 0 {
        Seq::empty()
    } else {
        match heard.last() {
            EitherOutput::First(item) => from_base(heard.drop_last()).push(item),
            EitherOutput::Second(_) => from_base(heard.drop_last()),
        }
    }
}

/// The items of the outer listener among those that were heard, in order.
pub open spec fn from_outer<A, B>(heard: Seq<EitherOutput<A, B>>) -> Seq<B>
    decreases heard.len(),
{
    if heard.len() == 0 {
        Seq::empty()
    } else {
        match heard.last() {
            EitherOutput::First(_) => from_outer(heard.drop_last()),
            EitherOutput::Second(item) => from_outer(heard.drop_last()).push(item),
        }
    }
}

/// What was heard, with what was reported in place of each item, tagged with the side it came from.
pub open spec fn tagged<A, B, R>(heard: Seq<EitherOutput<A, B>>, reports: Seq<R>) -> Seq<
    EitherOutput<R, R>,
> {
    heard.map(
        |i: int, item: EitherOutput<A, B>|
            match item {
                EitherOutput::First(_) => EitherOutput::First(reports[i]),
                EitherOutput::Second(_) => EitherOutput::Second(reports[i]),
            },
    )
}

/// The events among the items of the base listener, in order.
pub open spec fn events_of<U, E>(items: Seq<Result<ListenerEvent<U, E>, E>>) -> Seq<
    ListenerEvent<U, E>,
>
    decreases items.len(),
{
    if items.len() == 0 {
        Seq::empty()
    } else {
        match items.last() {
            Ok(event) => events_of(items.drop_last()).push(event),
            Err(_) => events_of(items.drop_last()),
        }
    }
}

/// The items of two listeners were heard one after the other, in this order, without a failure:
/// `reports[i]` is what was reported for the item at `i`, before which the handle of the relay was
/// `handles[i]`, and afterwards `handles[i + 1]`.
pub open spec fn hears_all<U, OU, O, E, OE>(
    handles: Seq<EventSender<RelayedEvent<O>>>,
    heard: Seq<EitherOutput<Result<ListenerEvent<U, E>, E>, Result<ListenerEvent<OU, OE>, OE>>>,
    reports: Seq<
        Result<
            ListenerEvent<EitherOutput<PendingUpgrade<U, O>, OU>, CombinedError<E, OE>>,
            CombinedError<E, OE>,
        >,
    >,
) -> bool {
    &&& handles.len() == heard.len() + 1
    &&& reports.len() == heard.len()
    &&& forall|i: int|
        0 <= i < heard.len() ==> hears(
            handles[i],
            heard[i],
            Ok(#[trigger] reports[i]),
            handles[i + 1],
        )
}

/// However the items of the two listeners are interleaved, each is reported once, and those of
/// either side in their order: the reports for the base side are those for its items, the reports
/// for the outer side are those for its items, and there are no others. The outer transport gets the
/// copies of what the base side yielded, and nothing of its own items.
pub proof fn law_reports_interleave_both_sides<U, OU, O, E, OE>(
    handles: Seq<EventSender<RelayedEvent<O>>>,
    heard: Seq<EitherOutput<Result<ListenerEvent<U, E>, E>, Result<ListenerEvent<OU, OE>, OE>>>,
    reports: Seq<
        Result<
            ListenerEvent<EitherOutput<PendingUpgrade<U, O>, OU>, CombinedError<E, OE>>,
            CombinedError<E, OE>,
        >,
    >,
)
    requires
        hears_all(handles, heard, reports),
    ensures
        ({
            let base = from_base(heard);
            let outer = from_outer(heard);
            let for_base = from_base(tagged(heard, reports));
            let for_outer = from_outer(tagged(heard, reports));
            &&& base.len() + outer.len() == reports.len()
            &&& for_base.len() == base.len()
            &&& forall|k: int|
                0 <= k < base.len() ==> reports_base_item(
                    handles[0],
                    base[k],
                    #[trigger] for_base[k],
                )
            &&& for_outer.len() == outer.len()
            &&& forall|k: int|
                0 <= k < outer.len() ==> #[trigger] for_outer[k] == outer_item::<
                    PendingUpgrade<U, O>,
                    OU,
                    E,
                    OE,
                >(outer[k])
            &&& handles.last().channel() == handles[0].channel()
            &&& handles.last().buffer() == handles[0].buffer()
            &&& handles.last().accepted() == handles[0].accepted() + copies::<U, O, E>(
                events_of(base),
            )
        }),
    decreases heard.len(),
{
    let start = handles[0].accepted();
    if heard.len() == 0 {
        assert(start + copies::<U, O, E>(events_of(from_base(heard))) =~= start);
    } else {
        let n = heard.len() - 1;
        let earlier = handles.drop_last();
        let first = heard.drop_last();
        assert(hears_all(earlier, first, reports.drop_last())) by {
            assert forall|i: int| 0 <= i < n implies hears(
                earlier[i],
                first[i],
                Ok(#[trigger] reports.drop_last()[i]),
                earlier[i + 1],
            ) by {
                assert(reports[i] == reports.drop_last()[i]);
            }
        }
        law_reports_interleave_both_sides(earlier, first, reports.drop_last());
        assert(tagged(heard, reports).drop_last() =~= tagged(first, reports.drop_last()));
        assert(hears(handles[n], heard[n], Ok(reports[n]), handles[n + 1]));
        match heard[n] {
            EitherOutput::First(item) => {
                let items = from_base(first);
                assert(from_base(heard) == items.push(item));
                assert(items.push(item).drop_last() =~= items);
                let outcome: Result<_, SendFailure> = Ok(reports[n]);
                lemma_sends_accepted(
                    handles[n],
                    copied_item::<U, O, E>(item),
                    outcome,
                    handles[n + 1],
                );
                if let Ok(event) = item {
                    let events = events_of(items);
                    assert(events.push(event).drop_last() =~= events);
                    if let Some(copy) = copied::<U, O, E>(event) {
                        let before = copies::<U, O, E>(events);
                        assert(start + before.push(copy) =~= (start + before).push(copy));
                    }
                }
            },
            EitherOutput::Second(_) => {},
        }
    }
}

/// The outer transport hears of no errors through its proxy: the listener of a proxy never fails,
/// reports no error, and yields only connections that are established.
pub proof fn law_proxy_reports_no_errors<O, E>(event: RelayedEvent<O>)
    ensures
        proxied::<O, E>(event) matches Ok(item) && item !is Error && (item
            matches ListenerEvent::Upgrade { upgrade, .. } ==> upgrade is Ok),
{
}

/// An established connection of the base transport comes out on exactly one side. If the switch
/// keeps it, the base side yields it and the outer transport is handed nothing. If the switch wants
/// it upgraded, the outer transport is handed it, as an established connection with its addresses,
/// and the base side says so.
pub proof fn law_connection_comes_out_once<O, OO, E, OE>(
    verdict: Result<O, O>,
    local_addr: Multiaddr,
    remote_addr: Multiaddr,
)
    ensures
        handed_over(verdict, local_addr, remote_addr) is None <==> switch_result::<
            O,
            OO,
            E,
            OE,
        >(verdict) is Ok,
        match verdict {
            Err(kept) => switch_result::<O, OO, E, OE>(verdict) == Ok::<
                EitherOutput<O, OO>,
                CombinedError<E, OE>,
            >(EitherOutput::First(kept)),
            Ok(passed_on) => {
                &&& switch_result::<O, OO, E, OE>(verdict) == Err::<
                    EitherOutput<O, OO>,
                    CombinedError<E, OE>,
                >(CombinedError::UpgradedToOuterTransport)
                &&& handed_over(verdict, local_addr, remote_addr) matches Some(event)
                &&& proxied::<O, E>(event) == Ok::<ListenerEvent<Result<O, E>, E>, E>(
                    ListenerEvent::Upgrade { upgrade: Ok(passed_on), local_addr, remote_addr },
                )
            },
        },
{
}

/// A connection that is passed on goes the way of the address events, and always finds room there:
/// whatever is reported for an incoming connection sends to the channel of the relay, and is
/// refused only if the outer transport has stopped listening.
pub proof fn law_connections_find_room<U, OU, O, E, OE, R>(
    relay: EventSender<RelayedEvent<O>>,
    event: ListenerEvent<U, E>,
    out: ListenerEvent<EitherOutput<PendingUpgrade<U, O>, OU>, CombinedError<E, OE>>,
    pending: PendingUpgrade<U, O>,
    verdict: Result<O, O>,
    outcome: Result<R, SendFailure>,
    after: EventSender<RelayedEvent<O>>,
)
    requires
        reports_base_event(relay, event, out),
        out matches ListenerEvent::Upgrade { upgrade, .. } && upgrade == EitherOutput::<
            PendingUpgrade<U, O>,
            OU,
        >::First(pending),
        pending.handover.sender().sends(
            handed_over(verdict, pending.handover.local_addr(), pending.handover.remote_addr()),
            outcome,
            after,
        ),
    ensures
        after.channel() == relay.channel(),
        outcome matches Err(why) ==> verdict is Ok && why is Disconnected,
        event matches ListenerEvent::Upgrade { upgrade, local_addr, remote_addr } && {
            &&& pending.upgrade == upgrade
            &&& outcome is Ok ==> after.accepted() == (match verdict {
                Ok(connection) => seq![
                    RelayedEvent::Upgrade { connection, local_addr, remote_addr },
                ],
                Err(_) => Seq::empty(),
            })
        },
{
    lemma_sends_accepted(
        pending.handover.sender(),
        handed_over(verdict, pending.handover.local_addr(), pending.handover.remote_addr()),
        outcome,
        after,
    );
}

/// How a dial of `addr` ends, given what the outer transport answers, and what the base transport
/// answers if it is asked.
pub open spec fn dial_end<BD, OD, BE, OE>(
    addr: Multiaddr,
    outer: Result<OD, TransportError<OE>>,
    base: Result<BD, TransportError<BE>>,
) -> Result<EitherOutput<BD, OD>, TransportError<CombinedError<BE, OE>>> {
    match outer_dialled(addr, outer) {
        DialStep::Dialling(dial) => Ok(EitherOutput::Second(dial)),
        DialStep::TryBase(_) => base_dialled(base),
    }
}

/// The outer transport has the first say: whatever the base transport would answer, a dial that the
/// outer transport starts is the outcome.
pub proof fn law_dial_prefers_outer<BD, OD, BE, OE>(
    addr: Multiaddr,
    outer: Result<OD, TransportError<OE>>,
    base: Result<BD, TransportError<BE>>,
)
    ensures
        outer matches Ok(dial) ==> dial_end(addr, outer, base) == Ok::<
            EitherOutput<BD, OD>,
            TransportError<CombinedError<BE, OE>>,
        >(EitherOutput::Second(dial)),
{
}

/// The base transport is the fallback: it is asked exactly when the outer transport fails, for
/// whatever reason. It is asked for the address that the outer transport handed back, or else for
/// the one that was to be dialled, and its answer decides.
pub proof fn law_dial_falls_back_to_base<BD, OD, BE, OE>(
    addr: Multiaddr,
    outer: Result<OD, TransportError<OE>>,
    base: Result<BD, TransportError<BE>>,
)
    ensures
        outer_dialled(addr, outer) is TryBase <==> outer is Err,
        outer matches Err(e) ==> {
            &&& outer_dialled(addr, outer) == DialStep::<OD>::TryBase(
                match e {
                    TransportError::MultiaddrNotSupported(rejected) => rejected,
                    TransportError::Other(_) => addr,
                },
            )
            &&& base matches Ok(dial) ==> dial_end(addr, outer, base) == Ok::<
                EitherOutput<BD, OD>,
                TransportError<CombinedError<BE, OE>>,
            >(EitherOutput::First(dial))
            &&& base matches Err(reason) ==> dial_end(addr, outer, base) == Err::<
                EitherOutput<BD, OD>,
                TransportError<CombinedError<BE, OE>>,
            >(base_failure(reason))
        },
{
}

/// A dial fails only if both transports fail, and then it fails as the base transport does.
pub proof fn law_dial_fails_if_both_fail<BD, OD, BE, OE>(
    addr: Multiaddr,
    outer: Result<OD, TransportError<OE>>,
    base: Result<BD, TransportError<BE>>,
)
    ensures
        dial_end(addr, outer, base) is Err <==> outer is Err && base is Err,
        dial_end(addr, outer, base) matches Err(reported) ==> base matches Err(reason) && reported
            == base_failure::<BE, OE>(reason),
{
}

/// An error tells which transport it comes from, and nothing of it is lost.
pub proof fn law_failures_keep_their_origin<BE, OE>(
    base: TransportError<BE>,
    outer: TransportError<OE>,
)
    ensures
        base_failure::<BE, OE>(base) == outer_failure::<BE, OE>(outer) ==> {
            &&& base is MultiaddrNotSupported
            &&& outer is MultiaddrNotSupported
        },
        forall|other: TransportError<BE>|
            #![trigger base_failure::<BE, OE>(other)]
            base_failure::<BE, OE>(other) == base_failure::<BE, OE>(base) ==> other == base,
        forall|other: TransportError<OE>|
            #![trigger outer_failure::<BE, OE>(other)]
            outer_failure::<BE, OE>(other) == outer_failure::<BE, OE>(outer) ==> other == outer,
{
}

} // verus!
