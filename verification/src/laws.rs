//! What holds of the registry whatever happens to it, stated over its
//! mathematical value and proved from the definitions of its transitions.

use crate::lfg::{
    committed, ignored_sender, mentioned_users, CreationView, ExpiryStrategy, JoinView, Registry,
};
use crate::models::{IncomingMessage, SessionView};
use crate::render::{ready_announcement, usage_hint, OutboundView};
use crate::trigger::{leftmost_ratio, ratio_at, trigger_of};
use vstd::prelude::*;

verus! {

/// Every ratio the parser reads has both numbers between 0 and 99.
pub proof fn ratio_is_two_digits(content: Seq<char>, aliases: Seq<(Vec<u8>, Vec<u8>)>)
    ensures
        trigger_of(content, aliases) matches Some(parsed) ==> parsed.0 <= 99 && parsed.1 <= 99,
{
    if exists|i: int| leftmost_ratio(content, i) {
        let i = choose|i: int| leftmost_ratio(content, i);
        assert(ratio_at(content, i) is Some);
    }
}

/// One step of the registry: a message, a join, a teardown, a recorded
/// status message, a scheduled expiry, or a rendered snapshot.
pub open spec fn step(before: Registry, after: Registry) -> bool {
    ||| exists|message: IncomingMessage, aliases: Seq<(Vec<u8>, Vec<u8>)>, id: u128, now: i64|
        after == #[trigger] before.after_creation(message, aliases, id, now)
    ||| exists|id: u128, user: u64| after == #[trigger] before.joined(id, user)
    ||| exists|id: u128| after == #[trigger] before.closed(id)
    ||| exists|id: u128, reply: u64| after == #[trigger] before.replied(id, reply)
    ||| exists|id: u128| after == #[trigger] before.armed(id)
    ||| exists|s: SessionView| after == #[trigger] before.rendered(s)
}

/// Every step keeps the three tables of the registry in agreement.
pub proof fn step_keeps_tables_in_agreement(before: Registry, after: Registry)
    requires
        before.wf(),
        step(before, after),
    ensures
        after.wf(),
{
    if exists|message: IncomingMessage, aliases: Seq<(Vec<u8>, Vec<u8>)>, id: u128, now: i64|
        after == #[trigger] before.after_creation(message, aliases, id, now) {
        let (message, aliases, id, now) = choose|
            message: IncomingMessage,
            aliases: Seq<(Vec<u8>, Vec<u8>)>,
            id: u128,
            now: i64,
        | after == #[trigger] before.after_creation(message, aliases, id, now);
        ratio_is_two_digits(message.content@, aliases);
    }
}

/// The fill count of a session is the head-count committed at creation
/// plus the number of joiners, and while the session is tracked no step
/// lowers it or changes the committed head-count.
pub proof fn count_never_drops(before: Registry, after: Registry, id: u128)
    requires
        before.wf(),
        step(before, after),
        before.sessions.contains_key(id),
        after.sessions.contains_key(id),
    ensures
        before.sessions[id].count() == before.sessions[id].initial_number
            + before.sessions[id].participants.len(),
        after.sessions[id].count() >= before.sessions[id].count(),
        after.sessions[id].initial_number == before.sessions[id].initial_number,
{
}

/// A message that names an alias without a usable ratio, from a sender
/// that is not ignored, opens no session and is answered by exactly the
/// usage hint.
pub proof fn missing_ratio_opens_nothing(
    registry: Registry,
    message: IncomingMessage,
    aliases: Seq<(Vec<u8>, Vec<u8>)>,
    id: u128,
    now: i64,
)
    requires
        !ignored_sender(message),
        trigger_of(message.content@, aliases) matches Some(parsed) && parsed.1 == 0,
    ensures
        registry.after_creation(message, aliases, id, now) == registry,
        registry.creation(message, aliases, id, now) == CreationView::UsageHint(
            usage_hint(message.channel_id, message.id),
        ),
        registry.creation(message, aliases, id, now).sent() == usage_hint(
            message.channel_id,
            message.id,
        ),
{
}

/// A message whose committed head-count already meets a denominator other
/// than zero opens no session and is answered by nothing.
pub proof fn full_group_opens_nothing(
    registry: Registry,
    message: IncomingMessage,
    aliases: Seq<(Vec<u8>, Vec<u8>)>,
    id: u128,
    now: i64,
)
    requires
        trigger_of(message.content@, aliases) matches Some(parsed) && parsed.1 != 0 && committed(
            mentioned_users(message.mentions@).len(),
            parsed.0,
        ) >= parsed.1,
    ensures
        registry.after_creation(message, aliases, id, now) == registry,
        registry.creation(message, aliases, id, now) == if ignored_sender(message) {
            CreationView::Ignored
        } else {
            CreationView::AlreadyFull
        },
        registry.creation(message, aliases, id, now).sent() == OutboundView::Nothing,
{
}

/// Tearing a session down twice is tearing it down once: the second
/// teardown changes nothing and sends nothing, whatever its strategy.
pub proof fn teardown_is_idempotent(
    registry: Registry,
    id: u128,
    strategy: ExpiryStrategy,
    flavor: int,
)
    ensures
        registry.closed(id).closed(id) == registry.closed(id),
        registry.closed(id).teardown(strategy, id, flavor) == OutboundView::Nothing,
{
    assert(registry.closed(id).closed(id).timers =~= registry.closed(id).timers);
}

/// Tearing down an id that is not tracked changes nothing and sends
/// nothing.
pub proof fn teardown_of_absent_session(
    registry: Registry,
    id: u128,
    strategy: ExpiryStrategy,
    flavor: int,
)
    requires
        registry.wf(),
        !registry.sessions.contains_key(id),
    ensures
        registry.closed(id) == registry,
        registry.teardown(strategy, id, flavor) == OutboundView::Nothing,
{
    assert(registry.closed(id).timers =~= registry.timers);
}

/// Once a join has completed the group, the session is gone with its
/// timer: an expiry that fires afterwards changes nothing and sends
/// nothing.
pub proof fn timer_after_quorum_is_silent(
    registry: Registry,
    id: u128,
    user: u64,
    strategy: ExpiryStrategy,
    flavor: int,
)
    requires
        registry.wf(),
        registry.join(id, user) is Ready,
    ensures
        !registry.joined(id, user).sessions.contains_key(id),
        !registry.joined(id, user).timers.contains(id),
        registry.joined(id, user).closed(id) == registry.joined(id, user),
        registry.joined(id, user).teardown(strategy, id, flavor) == OutboundView::Nothing,
{
    assert(registry.joined(id, user).closed(id).timers =~= registry.joined(id, user).timers);
}

/// A join signal that arrives twice counts once: the second one leaves
/// the registry as the first one left it.
pub proof fn duplicate_join_changes_nothing(registry: Registry, id: u128, user: u64)
    requires
        registry.wf(),
    ensures
        registry.joined(id, user).joined(id, user) == registry.joined(id, user),
{
    let once = registry.joined(id, user);
    if once.sessions.contains_key(id) {
        let s = registry.sessions[id].joined(user);
        assert(s.has_member(user)) by {
            if !registry.sessions[id].has_member(user) {
                assert(s.participants[s.participants.len() - 1] == user);
            }
        }
        assert(once.joined(id, user).sessions =~= once.sessions);
    }
}

/// Two different users who join a session that has no joiners yet are
/// both recorded, in whichever order their requests arrive: while the
/// group stays open the session lists the two in the order of arrival,
/// and where the second join completes the group the announcement is made
/// for the session with both.
pub proof fn no_join_is_lost(registry: Registry, id: u128, first: u64, second: u64)
    requires
        registry.wf(),
        registry.sessions.contains_key(id),
        registry.sessions[id].participants.len() == 0,
        first != second,
        !registry.sessions[id].has_member(first),
        !registry.sessions[id].has_member(second),
        registry.sessions[id].count() + 1 < registry.sessions[id].required_number,
    ensures
        registry.sessions[id].joined(first).joined(second).participants == seq![first, second],
        registry.sessions[id].joined(second).joined(first).participants == seq![second, first],
        registry.sessions[id].count() + 2 < registry.sessions[id].required_number ==> {
            &&& registry.joined(id, first).joined(id, second).sessions[id]
                == registry.sessions[id].joined(first).joined(second)
            &&& registry.joined(id, second).joined(id, first).sessions[id]
                == registry.sessions[id].joined(second).joined(first)
        },
        registry.sessions[id].count() + 2 == registry.sessions[id].required_number ==> {
            &&& registry.joined(id, first).join(id, second) matches JoinView::Ready {
                announcement,
                ..
            } && announcement == ready_announcement(
                registry.sessions[id].joined(first).joined(second),
            )
            &&& registry.joined(id, second).join(id, first) matches JoinView::Ready {
                announcement,
                ..
            } && announcement == ready_announcement(
                registry.sessions[id].joined(second).joined(first),
            )
        },
{
    let s = registry.sessions[id];
    assert(s.participants =~= Seq::empty());
    assert(s.joined(first).participants =~= seq![first]);
    assert(s.joined(second).participants =~= seq![second]);
    assert(!s.joined(first).has_member(second));
    assert(!s.joined(second).has_member(first));
    assert(s.joined(first).joined(second).participants =~= seq![first, second]);
    assert(s.joined(second).joined(first).participants =~= seq![second, first]);
}

} // verus!
