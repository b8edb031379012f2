//! What holds of every engine, whatever happens to it.

use crate::descriptor::{
    lemma_wanted_iff_offered_and_searched, wanted_by_any, ServiceInfoView, Udis, UdisView,
};
use crate::engine::{Cmd, EngineView, Event, ReactionView};
use crate::error::UdisError;
use crate::service::ServiceView;
use vstd::prelude::*;

verus! {

impl EngineView {
    /// The engine after the events of `events`, first to last.
    pub open spec fn run(self, events: Seq<Event>) -> EngineView
        decreases events.len(),
    {
        if events.len() == 0 {
            self
        } else {
            self.run(events.drop_last()).step(events.last())
        }
    }

    /// Everything that the engine asks to deliver over the events of `events`, in the
    /// order in which it asks.
    pub open spec fn found_during(self, events: Seq<Event>) -> Seq<ServiceInfoView>
        decreases events.len(),
    {
        if events.len() == 0 {
            Seq::empty()
        } else {
            self.found_during(events.drop_last()) + self.run(events.drop_last()).reaction(
                events.last(),
            ).found
        }
    }
}

/// Whether no offer of either endpoint is searched for by the other.
pub open spec fn no_common_interest(a: UdisView, b: UdisView) -> bool {
    forall|i: int, j: int|
        0 <= i < a.services.len() && 0 <= j < b.services.len() ==> !(#[trigger] a.services[i]).wanted_by(
            #[trigger] b.services[j],
        ) && !b.services[j].wanted_by(a.services[i])
}

/// An engine that receives its own descriptor records nothing and asks for nothing.
pub proof fn lemma_own_announcement_is_ignored(engine: EngineView, own: Udis)
    requires
        own@ == engine.local,
    ensures
        engine.step(Event::Announcement(own)) == engine,
        engine.reaction(Event::Announcement(own)) == ReactionView::nothing(),
{
}

/// A descriptor that arrives a second time changes nothing and asks for nothing: what
/// it has to offer was delivered after its first arrival. An engine that had seen no
/// peer before knows exactly one after both.
pub proof fn lemma_repeated_announcement_is_ignored(engine: EngineView, first: Udis, second: Udis)
    requires
        first@ == second@,
    ensures
        ({
            let once = engine.step(Event::Announcement(first));
            &&& once.step(Event::Announcement(second)) == once
            &&& once.reaction(Event::Announcement(second)) == ReactionView::nothing()
            &&& engine == EngineView::initial(engine.local) && first@ != engine.local
                ==> once.peers.len() == 1
        }),
{
    let once = engine.step(Event::Announcement(first));
    if engine == EngineView::initial(engine.local) && first@ != engine.local {
        assert(once.peers =~= set![first@]);
    }
}

/// The registry only grows, by at most the descriptor that arrived, and never takes up
/// the local descriptor.
pub proof fn lemma_registry_only_grows(engine: EngineView, event: Event)
    ensures
        engine.step(event).local == engine.local,
        engine.peers.subset_of(engine.step(event).peers),
        !engine.peers.contains(engine.local) ==> !engine.step(event).peers.contains(engine.local),
        engine.peers.finite() ==> engine.step(event).peers.finite(),
        forall|peer: UdisView|
            engine.step(event).peers.contains(peer) && !engine.peers.contains(peer) ==> (event matches Event::Announcement(
                announced,
            ) && announced@ == peer),
{
}

/// Whether `host` has an offer of a kind that `searcher` searches for.
pub open spec fn offers_what_is_sought(host: UdisView, searcher: UdisView) -> bool {
    exists|offer: ServiceView|
        offer is Host && #[trigger] host.services.contains(offer) && searcher.services.contains(
            ServiceView::Search { kind: offer->Host_kind },
        )
}

/// The first announcement of a peer is answered with an announcement exactly when the
/// peer searches for a kind that is hosted here.
pub proof fn lemma_announces_iff_peer_is_interested(engine: EngineView, peer: Udis)
    requires
        engine.status is Running,
        engine.is_novel(peer@),
    ensures
        engine.reaction(Event::Announcement(peer)).announce <==> offers_what_is_sought(
            engine.local,
            peer@,
        ),
{
    let wanted = engine.local.wanted_services(peer@);
    if wanted.len() > 0 {
        assert(wanted.contains(wanted[0]));
        lemma_wanted_iff_offered_and_searched(engine.local, peer@, wanted[0]);
        assert(engine.local.services.contains(wanted[0]));
    }
    if offers_what_is_sought(engine.local, peer@) {
        let offer = choose|offer: ServiceView|
            offer is Host && #[trigger] engine.local.services.contains(offer)
                && peer@.services.contains(ServiceView::Search { kind: offer->Host_kind });
        lemma_wanted_iff_offered_and_searched(engine.local, peer@, offer);
    }
}

/// An endpoint with no offer that `peer` searches for is not asked to announce itself,
/// and one that searches for no offer of `peer` finds nothing in it.
pub proof fn lemma_no_match_without_common_interest(local: UdisView, peer: UdisView)
    requires
        no_common_interest(local, peer),
    ensures
        local.wanted_services(peer).len() == 0,
        peer.discoveries(local).len() == 0,
{
    let local_pred = |s: ServiceView| wanted_by_any(s, peer.services);
    assert forall|i: int| 0 <= i < local.services.len() implies !local_pred(
        #[trigger] local.services[i],
    ) by {
        if wanted_by_any(local.services[i], peer.services) {
            let j = choose|j: int|
                0 <= j < peer.services.len() && local.services[i].wanted_by(
                    #[trigger] peer.services[j],
                );
            assert(!local.services[i].wanted_by(peer.services[j]));
        }
    }
    assert(local.services.all(|s: ServiceView| !local_pred(s)));
    local.services.lemma_all_neg_filter_empty(local_pred);

    let peer_pred = |s: ServiceView| wanted_by_any(s, local.services);
    assert forall|j: int| 0 <= j < peer.services.len() implies !peer_pred(
        #[trigger] peer.services[j],
    ) by {
        if wanted_by_any(peer.services[j], local.services) {
            let i = choose|i: int|
                0 <= i < local.services.len() && peer.services[j].wanted_by(
                    #[trigger] local.services[i],
                );
            assert(!peer.services[j].wanted_by(local.services[i]));
        }
    }
    assert(peer.services.all(|s: ServiceView| !peer_pred(s)));
    peer.services.lemma_all_neg_filter_empty(peer_pred);
}

/// Two distinct endpoints with no common interest that hear of each other for the first
/// time register each other, and neither announces itself again nor finds anything.
pub proof fn lemma_strangers_only_register(here: EngineView, there: EngineView, a: Udis, b: Udis)
    requires
        here.local == a@,
        there.local == b@,
        a@ != b@,
        no_common_interest(a@, b@),
        here.status is Running,
        there.status is Running,
        !here.peers.contains(b@),
        !there.peers.contains(a@),
    ensures
        here.step(Event::Announcement(b)).peers == here.peers.insert(b@),
        there.step(Event::Announcement(a)).peers == there.peers.insert(a@),
        here.reaction(Event::Announcement(b)) == ReactionView::nothing(),
        there.reaction(Event::Announcement(a)) == ReactionView::nothing(),
{
    lemma_no_match_without_common_interest(a@, b@);
    assert(no_common_interest(b@, a@));
    lemma_no_match_without_common_interest(b@, a@);
    assert(here.reaction(Event::Announcement(b)).found =~= Seq::empty());
    assert(there.reaction(Event::Announcement(a)).found =~= Seq::empty());
}

/// A command to stop, or the loss of the command channel, terminates a running engine
/// with success and asks for nothing.
pub proof fn lemma_shutdown_terminates(engine: EngineView, event: Event)
    requires
        engine.status is Running,
        event == Event::Command(Cmd::Shutdown) || event == Event::CommandsClosed,
    ensures
        engine.step(event) == engine.terminated(Ok(())),
        engine.reaction(event) == ReactionView::nothing(),
{
}

/// A datagram that is no descriptor terminates a running engine with the decoding error
/// as its result, and asks for nothing.
pub proof fn lemma_malformed_datagram_is_fatal(engine: EngineView, cause: serde_json::Error)
    requires
        engine.status is Running,
    ensures
        engine.step(Event::Malformed(cause)) == engine.terminated(
            Err(UdisError::FailedToDeserialiseNotifyMsg(cause)),
        ),
        engine.reaction(Event::Malformed(cause)) == ReactionView::nothing(),
{
}

/// A terminated engine stays as it is, result included, and asks for nothing more,
/// whatever happens and however often.
pub proof fn lemma_terminated_is_final(engine: EngineView, events: Seq<Event>)
    requires
        engine.status is Terminated,
    ensures
        engine.run(events) == engine,
        engine.found_during(events) == Seq::<ServiceInfoView>::empty(),
    decreases events.len(),
{
    if events.len() > 0 {
        lemma_terminated_is_final(engine, events.drop_last());
    }
}

/// Running an engine over `earlier` and then over `later` is running it over both.
pub proof fn lemma_run_in_two_parts(engine: EngineView, earlier: Seq<Event>, later: Seq<Event>)
    ensures
        engine.run(earlier + later) == engine.run(earlier).run(later),
        engine.found_during(earlier + later) == engine.found_during(earlier) + engine.run(
            earlier,
        ).found_during(later),
    decreases later.len(),
{
    if later.len() == 0 {
        assert(earlier + later =~= earlier);
    } else {
        lemma_run_in_two_parts(engine, earlier, later.drop_last());
        assert((earlier + later).drop_last() =~= earlier + later.drop_last());
        assert((earlier + later).last() == later.last());
    }
}

/// Once an event has terminated the engine, what it had asked to deliver until then is
/// all that it ever asks to deliver, and its result no longer changes.
pub proof fn lemma_nothing_found_after_termination(
    engine: EngineView,
    earlier: Seq<Event>,
    later: Seq<Event>,
)
    requires
        engine.run(earlier).status is Terminated,
    ensures
        engine.run(earlier + later) == engine.run(earlier),
        engine.found_during(earlier + later) == engine.found_during(earlier),
{
    lemma_run_in_two_parts(engine, earlier, later);
    lemma_terminated_is_final(engine.run(earlier), later);
}

} // verus!
