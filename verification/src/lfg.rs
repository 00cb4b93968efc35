//! The session registry and the lifecycle rules: creation, joins, quorum
//! and teardown. The registry is the single authority on which sessions
//! exist; callers reach its tables only through the operations below.

use crate::models::{IncomingMessage, LFGSession, MentionedUser, SessionView};
use crate::render::{
    cancelled_embed, expired_embed, ready_announcement, render_cancelled, render_expired,
    render_ready, render_status, render_usage_hint, random_below, status_message, usage_hint,
    Outbound, OutboundView, EXPIRED_MESSAGES,
};
use crate::session_id::{fresh_session_id, join_token, session_of_token, token_session};
use crate::timer::{cancel_timer, unix_now};
use crate::trigger::{message_format, trigger_of};
use std::collections::HashMap;
use tokio::task::AbortHandle;
use vstd::prelude::*;
use vstd::std_specs::iter::IteratorSpec;

verus! {

broadcast use vstd::std_specs::hash::group_hash_axioms;

/// How a session is torn down, chosen by the cause of the teardown.
#[derive(Clone, Copy, Debug, PartialEq, Eq, Structural)]
pub enum ExpiryStrategy {
    /// The group is ready: the opening message is deleted, since a separate
    /// announcement replaces it.
    DeleteOriginal,
    /// The timeout fired: the status message is closed as expired.
    ExpireMessageStale,
    /// The author backed out: the status message is closed as cancelled.
    ExpireMessageCancelled,
    /// The session is forgotten without any visible change.
    DoNothing,
}

/// What tearing down the session `s` asks of the transport. A session
/// whose status message was never posted is torn down silently.
pub open spec fn closing_message(s: SessionView, strategy: ExpiryStrategy, flavor: int)
    -> OutboundView {
    match s.reply_message {
        None => OutboundView::Nothing,
        Some(reply) => match strategy {
            ExpiryStrategy::DoNothing => OutboundView::Nothing,
            ExpiryStrategy::DeleteOriginal => OutboundView::DeleteOriginal {
                channel: s.channel,
                message: s.original_message,
                reason: "LFG Ping expired"@,
            },
            ExpiryStrategy::ExpireMessageStale => OutboundView::CloseStatus {
                channel: s.channel,
                message: reply,
                embed: expired_embed(flavor),
            },
            ExpiryStrategy::ExpireMessageCancelled => OutboundView::CloseStatus {
                channel: s.channel,
                message: reply,
                embed: cancelled_embed(s.author),
            },
        },
    }
}

/// How long a session waits for its group, in seconds.
pub const SESSION_LIFETIME: i64 = 1800;

/// The instant at which a session opened at `now` expires: thirty minutes
/// later, or at the end of time where the clock cannot count that far.
pub open spec fn expiry_after(now: i64) -> i64 {
    if now + SESSION_LIFETIME > i64::MAX {
        i64::MAX
    } else {
        (now + SESSION_LIFETIME) as i64
    }
}

/// The ids of the mentioned users that are not bots, in the order of the
/// mentions.
pub open spec fn mentioned_users(mentions: Seq<MentionedUser>) -> Seq<u64> {
    mentions.filter_map(
        |mention: MentionedUser|
            if mention.bot {
                None
            } else {
                Some(mention.id)
            },
    )
}

/// The head-count committed when a session opens: the author and the
/// users named with them, or the stated numerator where that is more.
pub open spec fn committed(added: nat, numerator: u8) -> int {
    if 1 + added >= numerator {
        1 + added as int
    } else {
        numerator as int
    }
}

/// Whether a message is left alone whatever it says: it was sent outside
/// a guild, or by a bot or a system account.
pub open spec fn ignored_sender(message: IncomingMessage) -> bool {
    message.guild_id is None || message.author.bot || message.author.system == Some(true)
}

/// The session that the trigger `message` opens under the id `id` at the
/// instant `now`, given what the message parsed to.
pub open spec fn opening(
    message: IncomingMessage,
    parsed: (u8, u8, u64, u64),
    id: u128,
    now: i64,
) -> SessionView {
    SessionView {
        uuid: id,
        guild: message.guild_id.unwrap(),
        channel: message.channel_id,
        original_message: message.id,
        reply_message: None,
        author: message.author.id,
        facade_tag: parsed.2,
        initial_tag: parsed.3,
        participants: Seq::empty(),
        added_participants: mentioned_users(message.mentions@),
        excluded_participants: Seq::empty(),
        interested_participants: Seq::empty(),
        initial_number: committed(mentioned_users(message.mentions@).len(), parsed.0) as u8,
        required_number: parsed.1,
        expiry: expiry_after(now),
    }
}

/// What came of a message.
#[derive(Debug)]
pub enum Creation {
    /// Not a trigger: sent outside a guild, by a bot or a system account,
    /// or naming no alias. Nothing is sent.
    Ignored,
    /// An alias without a usable ratio: the hint is to be sent as a reply,
    /// and no session is opened.
    UsageHint(Outbound),
    /// The group is full as stated; nothing is sent.
    AlreadyFull,
    /// The alias is stored under the facade id zero, which is no role.
    InvalidFacadeRole,
    /// The alias resolves to the id zero, which is no role.
    InvalidActualRole,
    /// The message already opened a session, or the id is taken; nothing
    /// is changed or sent.
    AlreadyTracked,
    /// A session was opened: an expiry is to be scheduled `expires_in`
    /// seconds from now, and `status` is to be sent.
    Created { session_id: u128, expires_in: u64, status: Outbound },
}

/// The mathematical value of a `Creation`.
pub enum CreationView {
    Ignored,
    UsageHint(OutboundView),
    AlreadyFull,
    InvalidFacadeRole,
    InvalidActualRole,
    AlreadyTracked,
    Created { session_id: u128, expires_in: u64, status: OutboundView },
}

impl CreationView {
    /// What the outcome asks the transport to send.
    pub open spec fn sent(self) -> OutboundView {
        match self {
            CreationView::UsageHint(hint) => hint,
            CreationView::Created { status, .. } => status,
            _ => OutboundView::Nothing,
        }
    }
}

impl View for Creation {
    type V = CreationView;

    open spec fn view(&self) -> CreationView {
        match *self {
            Creation::Ignored => CreationView::Ignored,
            Creation::UsageHint(hint) => CreationView::UsageHint(hint@),
            Creation::AlreadyFull => CreationView::AlreadyFull,
            Creation::InvalidFacadeRole => CreationView::InvalidFacadeRole,
            Creation::InvalidActualRole => CreationView::InvalidActualRole,
            Creation::AlreadyTracked => CreationView::AlreadyTracked,
            Creation::Created { session_id, expires_in, status } => CreationView::Created {
                session_id,
                expires_in,
                status: status@,
            },
        }
    }
}

/// The mathematical value of the registry: the sessions by id, the index
/// from opening message to session id, and the ids with a scheduled
/// expiry.
pub struct Registry {
    pub sessions: Map<u128, SessionView>,
    pub by_message: Map<u64, u128>,
    pub timers: Set<u128>,
}

impl Registry {
    /// The registry that tracks nothing.
    pub open spec fn empty() -> Registry {
        Registry { sessions: Map::empty(), by_message: Map::empty(), timers: Set::empty() }
    }

    /// The three tables agree: every session is well formed, is filed under
    /// its own id and is indexed by its opening message; every index entry
    /// leads to the session that the message opened; only tracked sessions
    /// have a timer.
    pub open spec fn wf(self) -> bool {
        &&& forall|id: u128| #[trigger]
            self.sessions.contains_key(id) ==> {
                &&& self.sessions[id].wf()
                &&& self.sessions[id].uuid == id
                &&& self.by_message.contains_key(self.sessions[id].original_message)
                &&& self.by_message[self.sessions[id].original_message] == id
            }
        &&& forall|message: u64| #[trigger]
            self.by_message.contains_key(message) ==> {
                &&& self.sessions.contains_key(self.by_message[message])
                &&& self.sessions[self.by_message[message]].original_message == message
            }
        &&& forall|id: u128| #[trigger] self.timers.contains(id) ==> self.sessions.contains_key(id)
    }

    /// The registry once it tracks the new session `s`.
    pub open spec fn opened(self, s: SessionView) -> Registry {
        Registry {
            sessions: self.sessions.insert(s.uuid, s),
            by_message: self.by_message.insert(s.original_message, s.uuid),
            timers: self.timers,
        }
    }

    /// The registry after the teardown of `id`: the session leaves all
    /// three tables. Tearing down an id that is not tracked changes
    /// nothing but a timer left under it.
    pub open spec fn closed(self, id: u128) -> Registry {
        if self.sessions.contains_key(id) {
            Registry {
                sessions: self.sessions.remove(id),
                by_message: self.by_message.remove(self.sessions[id].original_message),
                timers: self.timers.remove(id),
            }
        } else {
            Registry { timers: self.timers.remove(id), ..self }
        }
    }

    /// The registry once an expiry is scheduled for `id`; an id that is not
    /// tracked gets none.
    pub open spec fn armed(self, id: u128) -> Registry {
        if self.sessions.contains_key(id) {
            Registry { timers: self.timers.insert(id), ..self }
        } else {
            self
        }
    }

    /// The registry once the status message of `id` is known.
    pub open spec fn replied(self, id: u128, reply: u64) -> Registry {
        if self.sessions.contains_key(id) {
            Registry {
                sessions: self.sessions.insert(id, self.sessions[id].with_reply(reply)),
                ..self
            }
        } else {
            self
        }
    }

    /// What the registry makes of `message`, when `id` is the id on offer
    /// for a new session and `now` the instant. The checks are made in this
    /// order: the sender, the alias, the ratio, the head-count, the role
    /// ids, and whether the message or the id is already tracked.
    pub open spec fn creation(
        self,
        message: IncomingMessage,
        aliases: Seq<(Vec<u8>, Vec<u8>)>,
        id: u128,
        now: i64,
    ) -> CreationView {
        if ignored_sender(message) {
            CreationView::Ignored
        } else {
            match trigger_of(message.content@, aliases) {
                None => CreationView::Ignored,
                Some(parsed) => {
                    if parsed.1 == 0 {
                        CreationView::UsageHint(usage_hint(message.channel_id, message.id))
                    } else if committed(mentioned_users(message.mentions@).len(), parsed.0)
                        >= parsed.1 {
                        CreationView::AlreadyFull
                    } else if parsed.2 == 0 {
                        CreationView::InvalidFacadeRole
                    } else if parsed.3 == 0 {
                        CreationView::InvalidActualRole
                    } else if self.sessions.contains_key(id) || self.by_message.contains_key(
                        message.id,
                    ) {
                        CreationView::AlreadyTracked
                    } else {
                        CreationView::Created {
                            session_id: id,
                            expires_in: (expiry_after(now) - now) as u64,
                            status: status_message(opening(message, parsed, id, now)),
                        }
                    }
                },
            }
        }
    }

    /// The registry after `message`: it tracks one session more where the
    /// message opened one, and is unchanged otherwise.
    pub open spec fn after_creation(
        self,
        message: IncomingMessage,
        aliases: Seq<(Vec<u8>, Vec<u8>)>,
        id: u128,
        now: i64,
    ) -> Registry {
        if self.creation(message, aliases, id, now) is Created {
            self.opened(opening(message, trigger_of(message.content@, aliases).unwrap(), id, now))
        } else {
            self
        }
    }

    /// The registry after `user` asked to join `id`. The user is appended
    /// unless already a member; a session that thereby reaches its quorum
    /// is torn down. An id that is not tracked changes nothing.
    pub open spec fn joined(self, id: u128, user: u64) -> Registry {
        if !self.sessions.contains_key(id) {
            self
        } else if self.sessions[id].joined(user).count() >= self.sessions[id].required_number {
            self.closed(id)
        } else {
            Registry {
                sessions: self.sessions.insert(id, self.sessions[id].joined(user)),
                ..self
            }
        }
    }

    /// The registry after a snapshot of a session was rendered: a session
    /// at quorum is torn down, any other leaves the registry as it is.
    pub open spec fn rendered(self, s: SessionView) -> Registry {
        if s.count() >= s.required_number {
            self.closed(s.uuid)
        } else {
            self
        }
    }

    /// What rendering a snapshot of a session asks of the transport: at
    /// quorum the teardown that deletes the opening message and then the
    /// ready announcement, otherwise the status message.
    pub open spec fn render(self, s: SessionView) -> JoinView {
        if s.count() >= s.required_number {
            JoinView::Ready {
                teardown: self.teardown(ExpiryStrategy::DeleteOriginal, s.uuid, 0),
                announcement: ready_announcement(s),
            }
        } else {
            JoinView::Status(status_message(s))
        }
    }

    /// What a request of `user` to join `id` asks of the transport: nothing
    /// for an id that is not tracked; at quorum the teardown that deletes
    /// the opening message and then the ready announcement; otherwise the
    /// status of the session as it stands after the join.
    pub open spec fn join(self, id: u128, user: u64) -> JoinView {
        if !self.sessions.contains_key(id) {
            JoinView::Unknown
        } else if self.sessions[id].joined(user).count() >= self.sessions[id].required_number {
            JoinView::Ready {
                teardown: closing_message(
                    self.sessions[id].joined(user),
                    ExpiryStrategy::DeleteOriginal,
                    0,
                ),
                announcement: ready_announcement(self.sessions[id].joined(user)),
            }
        } else {
            JoinView::Status(status_message(self.sessions[id].joined(user)))
        }
    }

    /// What the teardown of `id` asks of the transport: nothing for an id
    /// that is not tracked.
    pub open spec fn teardown(self, strategy: ExpiryStrategy, id: u128, flavor: int)
        -> OutboundView {
        if self.sessions.contains_key(id) {
            closing_message(self.sessions[id], strategy, flavor)
        } else {
            OutboundView::Nothing
        }
    }
}

/// What came of a request to join a session.
#[derive(Debug)]
pub enum Join {
    /// No such session is tracked; nothing is sent.
    Unknown,
    /// The session goes on; its status is to be rendered.
    Status(Outbound),
    /// The group is complete and the session is gone: first `teardown`,
    /// then `announcement`.
    Ready { teardown: Outbound, announcement: Outbound },
}

/// The mathematical value of a `Join`.
pub enum JoinView {
    Unknown,
    Status(OutboundView),
    Ready { teardown: OutboundView, announcement: OutboundView },
}

impl View for Join {
    type V = JoinView;

    open spec fn view(&self) -> JoinView {
        match *self {
            Join::Unknown => JoinView::Unknown,
            Join::Status(status) => JoinView::Status(status@),
            Join::Ready { teardown, announcement } => JoinView::Ready {
                teardown: teardown@,
                announcement: announcement@,
            },
        }
    }
}

/// The session registry with its expiry scheduler.
pub struct LFGManager {
    sessions: HashMap<u128, LFGSession>,
    session_uuids: HashMap<u64, u128>,
    session_timeouts: HashMap<u128, AbortHandle>,
}

impl View for LFGManager {
    type V = Registry;

    closed spec fn view(&self) -> Registry {
        Registry {
            sessions: self.sessions@.map_values(|s: LFGSession| s@),
            by_message: self.session_uuids@,
            timers: self.session_timeouts@.dom(),
        }
    }
}

fn render_closing(session: &LFGSession, strategy: ExpiryStrategy, flavor: usize) -> (out: Outbound)
    ensures
        out@ == closing_message(session@, strategy, flavor as int),
{
    let reply: u64 = match session.reply_message {
        Some(reply) => reply,
        None => { return Outbound::Nothing; },
    };
    match strategy {
        ExpiryStrategy::DoNothing => Outbound::Nothing,
        ExpiryStrategy::DeleteOriginal => Outbound::DeleteOriginal {
            channel: session.channel,
            message: session.original_message,
            reason: "LFG Ping expired".to_owned(),
        },
        ExpiryStrategy::ExpireMessageStale => Outbound::CloseStatus {
            channel: session.channel,
            message: reply,
            embed: render_expired(flavor),
        },
        ExpiryStrategy::ExpireMessageCancelled => Outbound::CloseStatus {
            channel: session.channel,
            message: reply,
            embed: render_cancelled(session.author),
        },
    }
}

fn has_user(list: &Vec<u64>, user: u64) -> (found: bool)
    ensures
        found == list@.contains(user),
{
    let mut i: usize = 0;
    while i < list.len()
        invariant
            i <= list.len(),
            forall|j: int| 0 <= j < i ==> list@[j] != user,
        decreases list.len() - i,
    {
        if list[i] == user {
            return true;
        }
        i += 1;
    }
    false
}

/// Collects the mentioned users that are not bots.
pub fn valid_mentions(mentions: &Vec<MentionedUser>) -> (ids: Vec<u64>)
    ensures
        ids@ == mentioned_users(mentions@),
{
    let mut ids: Vec<u64> = Vec::new();
    let mut i: usize = 0;
    while i < mentions.len()
        invariant
            i <= mentions.len(),
            ids@ == mentioned_users(mentions@.take(i as int)),
        decreases mentions.len() - i,
    {
        proof {
            mentions@.lemma_filter_map_take_succ(
                |mention: MentionedUser|
                    if mention.bot {
                        None
                    } else {
                        Some(mention.id)
                    },
                i as int,
            );
        }
        if !mentions[i].bot {
            ids.push(mentions[i].id);
        }
        i += 1;
    }
    assert(mentions@.take(mentions.len() as int) =~= mentions@);
    ids
}

impl LFGManager {
    /// Whether the tables of the registry agree with one another.
    pub open spec fn wf(&self) -> bool {
        self@.wf()
    }

    /// A registry that tracks nothing.
    pub fn new() -> (manager: LFGManager)
        ensures
            manager.wf(),
            manager@ == Registry::empty(),
    {
        let manager = LFGManager {
            sessions: HashMap::new(),
            session_uuids: HashMap::new(),
            session_timeouts: HashMap::new(),
        };
        assert(manager@.sessions =~= Map::empty());
        assert(manager@.timers =~= Set::empty());
        manager
    }

    /// Tears down the session `session_id` and says what to tell the
    /// transport; `flavor` selects the text of an expired session. The
    /// scheduled expiry, if any, is cancelled. The registry is changed
    /// before anything is sent, so a teardown is never undone.
    pub fn expire_session_with(
        &mut self,
        strategy: ExpiryStrategy,
        session_id: u128,
        flavor: usize,
    ) -> (out: Outbound)
        requires
            old(self).wf(),
        ensures
            final(self).wf(),
            final(self)@ == old(self)@.closed(session_id),
            out@ == old(self)@.teardown(strategy, session_id, flavor as int),
    {
        match self.session_timeouts.remove(&session_id) {
            Some(handle) => cancel_timer(&handle),
            None => {},
        }
        let session: LFGSession = match self.sessions.remove(&session_id) {
            Some(session) => session,
            None => {
                assert(self@.sessions =~= old(self)@.sessions);
                return Outbound::Nothing;
            },
        };
        self.session_uuids.remove(&session.original_message);
        assert(self@.sessions =~= old(self)@.closed(session_id).sessions);
        render_closing(&session, strategy, flavor)
    }

    /// Tears down the session `session_id` as `expire_session_with` does,
    /// with the flavour text of an expired session drawn at random.
    pub fn expire_session(&mut self, strategy: ExpiryStrategy, session_id: u128) -> (out: Outbound)
        requires
            old(self).wf(),
        ensures
            final(self).wf(),
            final(self)@ == old(self)@.closed(session_id),
            exists|flavor: int|
                0 <= flavor < EXPIRED_MESSAGES && out@ == #[trigger] old(self)@.teardown(
                    strategy,
                    session_id,
                    flavor,
                ),
    {
        let flavor: usize = match strategy {
            ExpiryStrategy::ExpireMessageStale => random_below(EXPIRED_MESSAGES),
            _ => 0,
        };
        self.expire_session_with(strategy, session_id, flavor)
    }

    /// Records the status message that was posted for `session_id`. A
    /// session that was torn down in the meantime stays gone.
    pub fn record_reply(&mut self, session_id: u128, reply: u64)
        requires
            old(self).wf(),
        ensures
            final(self).wf(),
            final(self)@ == old(self)@.replied(session_id, reply),
    {
        let mut session: LFGSession = match self.sessions.remove(&session_id) {
            Some(session) => session,
            None => {
                assert(self@.sessions =~= old(self)@.sessions);
                return ;
            },
        };
        session.reply_message = Some(reply);
        self.sessions.insert(session_id, session);
        assert(self@.sessions =~= old(self)@.replied(session_id, reply).sessions);
    }

    /// Hands the registry the handle of the expiry task scheduled for
    /// `session_id`. A handle that was registered before is cancelled and
    /// replaced; a handle for a session that is not tracked is cancelled at
    /// once.
    pub fn register_timeout(&mut self, session_id: u128, handle: AbortHandle)
        requires
            old(self).wf(),
        ensures
            final(self).wf(),
            final(self)@ == old(self)@.armed(session_id),
    {
        if !self.sessions.contains_key(&session_id) {
            cancel_timer(&handle);
            return ;
        }
        match self.session_timeouts.insert(session_id, handle) {
            Some(previous) => cancel_timer(&previous),
            None => {},
        }
        assert(self@.timers =~= old(self)@.armed(session_id).timers);
    }

    /// Decides what `message` opens and, where it opens a session, files
    /// it under `session_id` with an expiry thirty minutes after `now`.
    /// `mention_types` is the alias table as stored.
    pub fn create_lfg(
        &mut self,
        message: &IncomingMessage,
        mention_types: &Vec<(Vec<u8>, Vec<u8>)>,
        session_id: u128,
        now: i64,
    ) -> (outcome: Creation)
        requires
            old(self).wf(),
        ensures
            final(self).wf(),
            outcome@ == old(self)@.creation(*message, mention_types@, session_id, now),
            final(self)@ == old(self)@.after_creation(*message, mention_types@, session_id, now),
    {
        let guild: u64 = match message.guild_id {
            Some(guild) => guild,
            None => { return Creation::Ignored; },
        };
        let system: bool = match message.author.system {
            Some(flag) => flag,
            None => false,
        };
        if message.author.bot || system {
            return Creation::Ignored;
        }
        let (numerator, denominator, facade_tag, real_tag) = match message_format(
            message.content.as_str(),
            mention_types,
        ) {
            Some(parsed) => parsed,
            None => { return Creation::Ignored; },
        };
        if denominator == 0 {
            return Creation::UsageHint(render_usage_hint(message.channel_id, message.id));
        }
        let added = valid_mentions(&message.mentions);
        if added.len() >= denominator as usize - 1 || numerator >= denominator {
            return Creation::AlreadyFull;
        }
        let named: u8 = (added.len() + 1) as u8;
        let initial_number: u8 = if named >= numerator {
            named
        } else {
            numerator
        };
        if facade_tag == 0 {
            return Creation::InvalidFacadeRole;
        }
        if real_tag == 0 {
            return Creation::InvalidActualRole;
        }
        if self.sessions.contains_key(&session_id) || self.session_uuids.contains_key(&message.id) {
            return Creation::AlreadyTracked;
        }
        let expiry: i64 = if now > i64::MAX - SESSION_LIFETIME {
            i64::MAX
        } else {
            now + SESSION_LIFETIME
        };
        let session = LFGSession {
            uuid: session_id,
            guild,
            channel: message.channel_id,
            original_message: message.id,
            reply_message: None,
            author: message.author.id,
            facade_tag,
            initial_tag: real_tag,
            participants: Vec::new(),
            added_participants: added,
            excluded_participants: Vec::new(),
            interested_participants: Vec::new(),
            initial_number,
            required_number: denominator,
            expiry,
        };
        assert(session@ == opening(
            *message,
            (numerator, denominator, facade_tag, real_tag),
            session_id,
            now,
        ));
        let status = render_status(&session);
        self.session_uuids.insert(message.id, session_id);
        self.sessions.insert(session_id, session);
        assert(self@.sessions =~= old(self)@.after_creation(
            *message,
            mention_types@,
            session_id,
            now,
        ).sessions);
        Creation::Created { session_id, expires_in: (expiry - now) as u64, status }
    }

    /// Handles a message from the gateway: draws a fresh session id, reads
    /// the clock, and decides as `create_lfg` does.
    pub fn on_message(&mut self, event: &IncomingMessage, mention_types: &Vec<(Vec<u8>, Vec<u8>)>)
        -> (outcome: Creation)
        requires
            old(self).wf(),
        ensures
            final(self).wf(),
            exists|id: u128, now: i64|
                #![trigger old(self)@.creation(*event, mention_types@, id, now)]
                outcome@ == old(self)@.creation(*event, mention_types@, id, now) && final(self)@
                    == old(self)@.after_creation(*event, mention_types@, id, now),
    {
        let session_id: u128 = fresh_session_id();
        let now: i64 = unix_now();
        self.create_lfg(event, mention_types, session_id, now)
    }

    /// Renders a snapshot of a session. At quorum the session is torn down
    /// with `DeleteOriginal` and the ready announcement follows; below it
    /// the status message is posted or edited and the registry stays as it
    /// is.
    pub fn render_message(&mut self, session: &LFGSession) -> (outcome: Join)
        requires
            old(self).wf(),
            session@.count() <= usize::MAX,
        ensures
            final(self).wf(),
            final(self)@ == old(self)@.rendered(session@),
            outcome@ == old(self)@.render(session@),
    {
        if session.count() >= session.required_number as usize {
            let teardown = self.expire_session_with(
                ExpiryStrategy::DeleteOriginal,
                session.uuid,
                0,
            );
            let announcement = render_ready(session);
            Join::Ready { teardown, announcement }
        } else {
            Join::Status(render_status(session))
        }
    }

    /// Handles a click on a join button: `token` is the correlation token
    /// of the button and `user` the one who clicked. A token that names no
    /// session id is left alone.
    pub fn on_interaction(&mut self, token: &str, user: u64) -> (outcome: Join)
        requires
            old(self).wf(),
        ensures
            final(self).wf(),
            match token_session(token@) {
                Some(id) => final(self)@ == old(self)@.joined(id, user) && outcome@ == old(
                    self,
                )@.join(id, user),
                None => final(self)@ == old(self)@ && outcome@ == JoinView::Unknown,
            },
            forall|id: u128|
                token@ == join_token(id) ==> final(self)@ == old(self)@.joined(id, user)
                    && outcome@ == #[trigger] old(self)@.join(id, user),
    {
        match session_of_token(token) {
            Some(session_id) => self.add_participant(session_id, user),
            None => Join::Unknown,
        }
    }

    /// A copy of the session `session_id`, if it is tracked.
    pub fn session(&self, session_id: u128) -> (found: Option<LFGSession>)
        ensures
            match found {
                Some(session) => self@.sessions.contains_key(session_id) && session@
                    == self@.sessions[session_id],
                None => !self@.sessions.contains_key(session_id),
            },
    {
        match self.sessions.get(&session_id) {
            Some(session) => Some(session.clone()),
            None => None,
        }
    }

    /// The id of the session that `message` opened, if it is tracked.
    pub fn session_for_message(&self, message: u64) -> (found: Option<u128>)
        ensures
            match found {
                Some(id) => self@.by_message.contains_key(message) && id
                    == self@.by_message[message],
                None => !self@.by_message.contains_key(message),
            },
    {
        match self.session_uuids.get(&message) {
            Some(id) => Some(*id),
            None => None,
        }
    }

    /// The ids of the tracked sessions, each once, in no particular order.
    pub fn session_ids(&self) -> (ids: Vec<u128>)
        ensures
            ids@.no_duplicates(),
            ids@.to_set() == self@.sessions.dom(),
    {
        let mut ids: Vec<u128> = Vec::new();
        let ghost all: Seq<u128> = self.sessions.keys().remaining().unref();
        for id in it: self.sessions.keys()
            invariant
                it.seq().unref() == all,
                ids@ == all.take(it.index() as int),
        {
            ids.push(*id);
        }
        assert(ids@ =~= all);
        assert(self@.sessions.dom() =~= self.sessions@.dom());
        assert(all.no_duplicates()) by {
            let refs = self.sessions.keys().remaining();
            assert forall|i: int, j: int| 0 <= i < all.len() && 0 <= j < all.len() && i != j
                implies all[i] != all[j] by {
                assert(refs[i] != refs[j]);
            }
        }
        ids
    }

    /// Copies of the tracked sessions, each once, in no particular order.
    pub fn active_sessions(&self) -> (sessions: Vec<LFGSession>)
        requires
            self.wf(),
        ensures
            sessions@.len() == self@.sessions.len(),
            forall|i: int|
                0 <= i < sessions@.len() ==> self@.sessions.contains_key(
                    (#[trigger] sessions@[i]).uuid,
                ) && sessions@[i]@ == self@.sessions[sessions@[i].uuid],
            forall|i: int, j: int|
                0 <= i < j < sessions@.len() ==> (#[trigger] sessions@[i]).uuid
                    != (#[trigger] sessions@[j]).uuid,
            forall|id: u128| #[trigger]
                self@.sessions.contains_key(id) ==> exists|i: int|
                    0 <= i < sessions@.len() && (#[trigger] sessions@[i]).uuid == id,
    {
        let ids = self.session_ids();
        let mut sessions: Vec<LFGSession> = Vec::new();
        let mut k: usize = 0;
        while k < ids.len()
            invariant
                k <= ids.len(),
                self.wf(),
                ids@.no_duplicates(),
                ids@.to_set() == self@.sessions.dom(),
                sessions@.len() == k,
                forall|i: int|
                    0 <= i < k ==> (#[trigger] sessions@[i])@ == self@.sessions[ids@[i]]
                        && sessions@[i].uuid == ids@[i],
            decreases ids.len() - k,
        {
            assert(ids@.to_set().contains(ids@[k as int]));
            match self.session(ids[k]) {
                Some(session) => sessions.push(session),
                None => {},
            }
            k += 1;
        }
        proof {
            ids@.unique_seq_to_set();
            assert forall|id: u128| #[trigger] self@.sessions.contains_key(id) implies exists|
                i: int,
            |
                0 <= i < sessions@.len() && (#[trigger] sessions@[i]).uuid == id by {
                assert(ids@.to_set().contains(id));
                let i = choose|i: int| 0 <= i < ids@.len() && ids@[i] == id;
                assert(sessions@[i].uuid == id);
            }
            assert forall|i: int|
                0 <= i < sessions@.len() implies self@.sessions.contains_key(
                (#[trigger] sessions@[i]).uuid,
            ) && sessions@[i]@ == self@.sessions[sessions@[i].uuid] by {
                assert(ids@.to_set().contains(ids@[i]));
            }
        }
        sessions
    }

    /// Whether an expiry is scheduled for `session_id`.
    pub fn has_timeout(&self, session_id: u128) -> (armed: bool)
        ensures
            armed == self@.timers.contains(session_id),
    {
        self.session_timeouts.contains_key(&session_id)
    }

    /// How many sessions are tracked.
    pub fn len(&self) -> (count: usize)
        ensures
            count == self@.sessions.len(),
    {
        assert(self@.sessions.dom() =~= self.sessions@.dom());
        self.sessions.len()
    }

    /// Lets `user` join the session `session_id` and says what to tell the
    /// transport. A user who is already a member is not added again. When
    /// the join completes the group, the session is torn down here and
    /// now, so that no later join or timer finds it.
    pub fn add_participant(&mut self, session_id: u128, user: u64) -> (outcome: Join)
        requires
            old(self).wf(),
        ensures
            final(self).wf(),
            final(self)@ == old(self)@.joined(session_id, user),
            outcome@ == old(self)@.join(session_id, user),
    {
        let mut session: LFGSession = match self.sessions.remove(&session_id) {
            Some(session) => session,
            None => {
                assert(self@.sessions =~= old(self)@.sessions);
                return Join::Unknown;
            },
        };
        let ghost before = session@;
        assert(before == old(self)@.sessions[session_id]);
        if !has_user(&session.participants, user) && !has_user(&session.added_participants, user) {
            session.participants.push(user);
        }
        assert(session@ == before.joined(user));
        if session.count() >= session.required_number as usize {
            match self.session_timeouts.remove(&session_id) {
                Some(handle) => cancel_timer(&handle),
                None => {},
            }
            self.session_uuids.remove(&session.original_message);
            assert(self@.sessions =~= old(self)@.closed(session_id).sessions);
            let teardown = render_closing(&session, ExpiryStrategy::DeleteOriginal, 0);
            let announcement = render_ready(&session);
            Join::Ready { teardown, announcement }
        } else {
            let status = render_status(&session);
            self.sessions.insert(session_id, session);
            assert(self@.sessions =~= old(self)@.joined(session_id, user).sessions);
            Join::Status(status)
        }
    }
}

} // verus!
