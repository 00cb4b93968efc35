//! The data the registry tracks and the events it is fed.

use vstd::prelude::*;

verus! {

/// One tracked matchmaking session, tied to the message that opened it.
/// Identifiers are the platform's numeric ids; `expiry` is in seconds
/// since the Unix epoch.
#[derive(Debug)]
pub struct LFGSession {
    pub uuid: u128,
    pub guild: u64,
    pub channel: u64,
    pub original_message: u64,
    pub reply_message: Option<u64>,
    pub author: u64,
    pub facade_tag: u64,
    pub initial_tag: u64,
    pub participants: Vec<u64>,
    pub added_participants: Vec<u64>,
    pub excluded_participants: Vec<u64>,
    pub interested_participants: Vec<u64>,
    pub initial_number: u8,
    pub required_number: u8,
    pub expiry: i64,
}

/// The mathematical value of a session: its lists are sequences.
pub struct SessionView {
    pub uuid: u128,
    pub guild: u64,
    pub channel: u64,
    pub original_message: u64,
    pub reply_message: Option<u64>,
    pub author: u64,
    pub facade_tag: u64,
    pub initial_tag: u64,
    pub participants: Seq<u64>,
    pub added_participants: Seq<u64>,
    pub excluded_participants: Seq<u64>,
    pub interested_participants: Seq<u64>,
    pub initial_number: u8,
    pub required_number: u8,
    pub expiry: i64,
}

impl SessionView {
    /// The live fill count: the head-count committed at creation plus
    /// everyone who joined since. Users named in the opening message are
    /// part of the former and are not counted again.
    pub open spec fn count(self) -> nat {
        self.initial_number as nat + self.participants.len()
    }

    /// How many participants are known by name: the author, the joiners and
    /// the users named in the opening message.
    pub open spec fn named(self) -> nat {
        1 + self.participants.len() + self.added_participants.len()
    }

    /// Whether `user` already stands in the session as a joiner or as a
    /// user named in the opening message.
    pub open spec fn has_member(self, user: u64) -> bool {
        self.participants.contains(user) || self.added_participants.contains(user)
    }

    /// The session after `user` joined: appended to the joiners unless
    /// already a member.
    pub open spec fn joined(self, user: u64) -> SessionView {
        if self.has_member(user) {
            self
        } else {
            SessionView { participants: self.participants.push(user), ..self }
        }
    }

    /// The session once its status message is known.
    pub open spec fn with_reply(self, reply: u64) -> SessionView {
        SessionView { reply_message: Some(reply), ..self }
    }

    /// What holds of every session while the registry tracks it: the group
    /// is not yet full, the committed head-count covers the author and the
    /// users named at creation, both role ids are real ids, nobody joined
    /// twice, and the reserved lists are empty.
    pub open spec fn wf(self) -> bool {
        &&& 1 + self.added_participants.len() <= self.initial_number
        &&& self.count() < self.required_number
        &&& self.required_number <= 99
        &&& self.facade_tag != 0
        &&& self.initial_tag != 0
        &&& self.participants.no_duplicates()
        &&& forall|i: int|
            0 <= i < self.participants.len() ==> !self.added_participants.contains(
                #[trigger] self.participants[i],
            )
        &&& self.excluded_participants.len() == 0
        &&& self.interested_participants.len() == 0
    }
}

impl View for LFGSession {
    type V = SessionView;

    open spec fn view(&self) -> SessionView {
        SessionView {
            uuid: self.uuid,
            guild: self.guild,
            channel: self.channel,
            original_message: self.original_message,
            reply_message: self.reply_message,
            author: self.author,
            facade_tag: self.facade_tag,
            initial_tag: self.initial_tag,
            participants: self.participants@,
            added_participants: self.added_participants@,
            excluded_participants: self.excluded_participants@,
            interested_participants: self.interested_participants@,
            initial_number: self.initial_number,
            required_number: self.required_number,
            expiry: self.expiry,
        }
    }
}

impl Clone for LFGSession {
    fn clone(&self) -> (copy: Self)
        ensures
            copy@ == self@,
    {
        LFGSession {
            uuid: self.uuid,
            guild: self.guild,
            channel: self.channel,
            original_message: self.original_message,
            reply_message: self.reply_message,
            author: self.author,
            facade_tag: self.facade_tag,
            initial_tag: self.initial_tag,
            participants: self.participants.clone(),
            added_participants: self.added_participants.clone(),
            excluded_participants: self.excluded_participants.clone(),
            interested_participants: self.interested_participants.clone(),
            initial_number: self.initial_number,
            required_number: self.required_number,
            expiry: self.expiry,
        }
    }
}

impl LFGSession {
    /// The live fill count of the session.
    pub fn count(&self) -> (count: usize)
        requires
            self@.count() <= usize::MAX,
        ensures
            count == self@.count(),
    {
        self.initial_number as usize + self.participants.len()
    }
}

/// Who sent a message.
#[derive(Debug)]
pub struct MessageAuthor {
    pub id: u64,
    pub bot: bool,
    pub system: Option<bool>,
}

/// A user mentioned in a message.
#[derive(Debug)]
pub struct MentionedUser {
    pub id: u64,
    pub bot: bool,
}

/// A chat message as the gateway delivers it, reduced to what the
/// registry reads.
#[derive(Debug)]
pub struct IncomingMessage {
    pub id: u64,
    pub channel_id: u64,
    pub guild_id: Option<u64>,
    pub author: MessageAuthor,
    pub content: String,
    pub mentions: Vec<MentionedUser>,
}

} // verus!
