//! The status renderer: what each visible message says, as a function of
//! the session it speaks of.

use crate::models::{LFGSession, SessionView};
use crate::session_id::{join_token, session_id_text};
use crate::text::{
    decimal, push_decimal, push_signed_decimal, push_text, signed_decimal, string_of,
};
use crate::util::{embed_fits, simple_embed};
use itertools::Itertools;
use rand::Rng;
use twilight_model::channel::message::Embed;
use vstd::prelude::*;

verus! {

/// The colour of the embeds that speak of a live or a ready group.
pub const ACTIVE_COLOR: u32 = 0x8ae24a;

/// The colour of the embeds that close a session or refuse a message.
pub const CLOSED_COLOR: u32 = 0xff3030;

/// An embed reduced to what this crate decides: colour, title and body.
#[derive(Debug)]
pub struct EmbedText {
    pub color: u32,
    pub title: String,
    pub description: String,
}

/// The mathematical value of an embed.
pub struct EmbedView {
    pub color: u32,
    pub title: Seq<char>,
    pub description: Seq<char>,
}

impl EmbedView {
    /// Whether the embed keeps the limits that the platform sets.
    pub open spec fn fits(self) -> bool {
        embed_fits(self.color, self.title, self.description)
    }
}

impl View for EmbedText {
    type V = EmbedView;

    open spec fn view(&self) -> EmbedView {
        EmbedView { color: self.color, title: self.title@, description: self.description@ }
    }
}

/// An embed was refused: it breaks a limit that the platform sets.
#[derive(Clone, Copy, Debug, PartialEq, Eq, Structural)]
pub struct EmbedRejected;

impl EmbedText {
    /// Builds the embed for the transport. It is built exactly where its
    /// colour and texts keep the platform's limits.
    pub fn build(&self) -> (built: Result<Embed, EmbedRejected>)
        ensures
            built is Ok <==> self@.fits(),
    {
        match simple_embed(self.color, self.title.as_str(), self.description.as_str()) {
            Ok(embed) => Ok(embed),
            Err(_) => Err(EmbedRejected),
        }
    }
}

/// One thing for the transport to do.
#[derive(Debug)]
pub enum Outbound {
    /// Nothing is sent.
    Nothing,
    /// Reply to `reply_to` with the embed that explains how to ping.
    UsageHint { channel: u64, reply_to: u64, embed: EmbedText },
    /// Post the first status message of `session` as a reply to
    /// `reply_to`, with one join button that carries `token`.
    PostStatus {
        session: u128,
        channel: u64,
        reply_to: u64,
        content: String,
        embed: EmbedText,
        token: String,
        label: String,
    },
    /// Replace the embed of the status message `message` in place.
    EditStatus { channel: u64, message: u64, embed: EmbedText },
    /// Close the status message `message` in place: clear its content and
    /// its button, replace its embed, and notify nobody.
    CloseStatus { channel: u64, message: u64, embed: EmbedText },
    /// Delete the message that opened the session, giving `reason` for
    /// the audit log.
    DeleteOriginal { channel: u64, message: u64, reason: String },
    /// Post the ready announcement; this one message may notify the users
    /// and roles it mentions.
    Announce { channel: u64, content: String, embed: EmbedText },
}

/// The mathematical value of an `Outbound`.
pub enum OutboundView {
    Nothing,
    UsageHint { channel: u64, reply_to: u64, embed: EmbedView },
    PostStatus {
        session: u128,
        channel: u64,
        reply_to: u64,
        content: Seq<char>,
        embed: EmbedView,
        token: Seq<char>,
        label: Seq<char>,
    },
    EditStatus { channel: u64, message: u64, embed: EmbedView },
    CloseStatus { channel: u64, message: u64, embed: EmbedView },
    DeleteOriginal { channel: u64, message: u64, reason: Seq<char> },
    Announce { channel: u64, content: Seq<char>, embed: EmbedView },
}

/// Whom a message may notify.
#[derive(Clone, Copy, Debug, PartialEq, Eq, Structural)]
pub enum MentionPolicy {
    /// As the transport is set up to do where nothing else is said.
    Default,
    /// Nobody, whatever the message mentions.
    Nobody,
    /// The users and the roles that the message mentions.
    UsersAndRoles,
}

impl OutboundView {
    /// The embed that the message carries, if it carries one.
    pub open spec fn embed(self) -> Option<EmbedView> {
        match self {
            OutboundView::Nothing => None,
            OutboundView::UsageHint { embed, .. } => Some(embed),
            OutboundView::PostStatus { embed, .. } => Some(embed),
            OutboundView::EditStatus { embed, .. } => Some(embed),
            OutboundView::CloseStatus { embed, .. } => Some(embed),
            OutboundView::DeleteOriginal { .. } => None,
            OutboundView::Announce { embed, .. } => Some(embed),
        }
    }

    /// Whether the embed that the message carries, if any, keeps the
    /// limits that the platform sets.
    pub open spec fn accepted(self) -> bool {
        self.embed() matches Some(embed) ==> embed.fits()
    }

    /// Whom the message may notify. Only the ready announcement asks for
    /// its mentions to be delivered; the edit that closes a status message
    /// forbids it; every other message leaves it to the transport.
    pub open spec fn mention_policy(self) -> MentionPolicy {
        match self {
            OutboundView::CloseStatus { .. } => MentionPolicy::Nobody,
            OutboundView::Announce { .. } => MentionPolicy::UsersAndRoles,
            _ => MentionPolicy::Default,
        }
    }
}

impl Outbound {
    /// Whom the message may notify.
    pub fn mention_policy(&self) -> (policy: MentionPolicy)
        ensures
            policy == self@.mention_policy(),
    {
        match self {
            Outbound::CloseStatus { .. } => MentionPolicy::Nobody,
            Outbound::Announce { .. } => MentionPolicy::UsersAndRoles,
            _ => MentionPolicy::Default,
        }
    }
}

impl View for Outbound {
    type V = OutboundView;

    open spec fn view(&self) -> OutboundView {
        match *self {
            Outbound::Nothing => OutboundView::Nothing,
            Outbound::UsageHint { channel, reply_to, embed } => OutboundView::UsageHint {
                channel,
                reply_to,
                embed: embed@,
            },
            Outbound::PostStatus {
                session,
                channel,
                reply_to,
                content,
                embed,
                token,
                label,
            } => OutboundView::PostStatus {
                session,
                channel,
                reply_to,
                content: content@,
                embed: embed@,
                token: token@,
                label: label@,
            },
            Outbound::EditStatus { channel, message, embed } => OutboundView::EditStatus {
                channel,
                message,
                embed: embed@,
            },
            Outbound::CloseStatus { channel, message, embed } => OutboundView::CloseStatus {
                channel,
                message,
                embed: embed@,
            },
            Outbound::DeleteOriginal { channel, message, reason } => OutboundView::DeleteOriginal {
                channel,
                message,
                reason: reason@,
            },
            Outbound::Announce { channel, content, embed } => OutboundView::Announce {
                channel,
                content: content@,
                embed: embed@,
            },
        }
    }
}

/// The texts of a list of strings.
pub open spec fn texts(lines: Seq<String>) -> Seq<Seq<char>> {
    lines.map_values(|line: String| line@)
}

/// The parts written one after another, with `sep` between each two.
pub open spec fn joined_text(parts: Seq<Seq<char>>, sep: Seq<char>) -> Seq<char>
    decreases parts.len(),
{
    if parts.len() == 0 {
        Seq::empty()
    } else if parts.len() == 1 {
        parts[0]
    } else {
        joined_text(parts.drop_last(), sep) + sep + parts.last()
    }
}

/// `Itertools::join` from the itertools crate, on the strings of a vector:
/// the result is the strings in order with `sep` between each two, and the
/// empty string for an empty vector.
#[verifier::external_body]
fn join_lines(lines: &Vec<String>, sep: &str) -> (joined: String)
    ensures
        joined@ == joined_text(texts(lines@), sep@),
{
    lines.iter().join(sep)
}

/// The mention of a user.
pub open spec fn user_mention(user: u64) -> Seq<char> {
    "<@"@ + decimal(user as nat) + ">"@
}

/// The mention of a role.
pub open spec fn role_mention(role: u64) -> Seq<char> {
    "<@&"@ + decimal(role as nat) + ">"@
}

/// One line of the participant listing.
pub open spec fn bullet(user: u64) -> Seq<char> {
    "`•` "@ + user_mention(user)
}

/// The users a session knows by name besides its author: the joiners in
/// the order in which they joined, then the users named at creation.
pub open spec fn member_ids(s: SessionView) -> Seq<u64> {
    s.participants + s.added_participants
}

/// The line that stands for the members nobody named, where the fill
/// count exceeds the number of named participants.
pub open spec fn others_line(s: SessionView) -> Seq<char> {
    if s.named() < s.count() {
        "\n`•` **and "@ + decimal((s.count() - s.named()) as nat) + " other(s)...**"@
    } else {
        Seq::empty()
    }
}

/// The participant listing of a status message: the author, then one line
/// for each named member, then the line for the others, then the hint on
/// how to cancel.
pub open spec fn listing(s: SessionView) -> Seq<char> {
    "\n\n**Participants:**\n"@ + bullet(s.author) + joined_text(
        member_ids(s).map_values(|user: u64| bullet(user)),
        "\n"@,
    ) + others_line(s) + "\n\n*delete the original message to cancel*"@
}

/// The `[count/required]` tag of a title.
pub open spec fn ratio_tag(s: SessionView) -> Seq<char> {
    "["@ + decimal(s.count()) + "/"@ + decimal(s.required_number as nat) + "]"@
}

/// The title of a status message.
pub open spec fn status_title(s: SessionView) -> Seq<char> {
    "LFG Ping "@ + ratio_tag(s)
}

/// The body of a status message.
pub open spec fn status_description(s: SessionView) -> Seq<char> {
    user_mention(s.author) + " is looking for a game! (expires <t:"@ + signed_decimal(
        s.expiry as int,
    ) + ":R>)"@ + listing(s)
}

/// The content line of the first status message: the facade role, the
/// ratio, and the real role behind a spoiler mask.
pub open spec fn status_content(s: SessionView) -> Seq<char> {
    role_mention(s.facade_tag) + " `"@ + decimal(s.count()) + "/"@ + decimal(
        s.required_number as nat,
    ) + "`    ||"@ + role_mention(s.initial_tag) + "||"@
}

/// The mentions of a ready announcement: the author, then every named
/// member with a space between each two.
pub open spec fn ready_mentions(s: SessionView) -> Seq<char> {
    user_mention(s.author) + joined_text(
        member_ids(s).map_values(|user: u64| user_mention(user)),
        " "@,
    )
}

/// The content line of a ready announcement: the mentions behind a
/// spoiler mask.
pub open spec fn ready_content(s: SessionView) -> Seq<char> {
    "||"@ + ready_mentions(s) + "||"@
}

/// The title of a ready announcement.
pub open spec fn ready_title(s: SessionView) -> Seq<char> {
    "Everyone's ready! "@ + ratio_tag(s)
}

/// The embed of a status message.
pub open spec fn status_embed(s: SessionView) -> EmbedView {
    EmbedView {
        color: ACTIVE_COLOR,
        title: status_title(s),
        description: status_description(s),
    }
}

/// What the status of a session asks of the transport: the first status
/// message where none is known yet, an edit of the known one otherwise.
pub open spec fn status_message(s: SessionView) -> OutboundView {
    match s.reply_message {
        None => OutboundView::PostStatus {
            session: s.uuid,
            channel: s.channel,
            reply_to: s.original_message,
            content: status_content(s),
            embed: status_embed(s),
            token: join_token(s.uuid),
            label: "Logging on / Online!"@,
        },
        Some(message) => OutboundView::EditStatus {
            channel: s.channel,
            message,
            embed: status_embed(s),
        },
    }
}

/// The announcement that a group is ready.
pub open spec fn ready_announcement(s: SessionView) -> OutboundView {
    OutboundView::Announce {
        channel: s.channel,
        content: ready_content(s),
        embed: EmbedView {
            color: ACTIVE_COLOR,
            title: ready_title(s),
            description: "Good luck everyone! Make wife proud!"@,
        },
    }
}

/// The reply to a message that names an alias without a usable ratio.
pub open spec fn usage_hint(channel: u64, reply_to: u64) -> OutboundView {
    OutboundView::UsageHint {
        channel,
        reply_to,
        embed: EmbedView {
            color: CLOSED_COLOR,
            title: "Use the LFG Ping"@,
            description: "You cannot ping LFG roles without providing an indicator as to how many are playing, i.e. `@2v2pings 2/4`. Feel free to edit your message if you want to ping, as nobody has been pinged yet."@,
        },
    }
}

/// How many flavour texts there are for an expired session.
pub const EXPIRED_MESSAGES: usize = 4;

/// The flavour text that `flavor` selects; the table is walked round.
pub open spec fn expired_message(flavor: int) -> Seq<char> {
    if flavor % 4 == 0 {
        "Shoot. We left it out too long, and the ping expired"@
    } else if flavor % 4 == 1 {
        "Arena is dead and this unplayed ping proves it"@
    } else if flavor % 4 == 2 {
        "Maybe the ping would fill up if wife came back"@
    } else {
        "*Surely* next ping will fill up right?"@
    }
}

/// The embed that closes a session nobody completed.
pub open spec fn expired_embed(flavor: int) -> EmbedView {
    EmbedView {
        color: CLOSED_COLOR,
        title: "Expired ping"@,
        description: expired_message(flavor),
    }
}

/// The embed that closes a session its author withdrew.
pub open spec fn cancelled_embed(author: u64) -> EmbedView {
    EmbedView {
        color: CLOSED_COLOR,
        title: "Cancelled ping"@,
        description: "No, that wasn't a ghost... it just looks like "@ + user_mention(author)
            + " backed out!"@,
    }
}

fn push_user_mention(out: &mut Vec<char>, user: u64)
    ensures
        final(out)@ == old(out)@ + user_mention(user),
{
    push_text(out, "<@");
    push_decimal(out, user);
    push_text(out, ">");
    assert(out@ =~= old(out)@ + user_mention(user));
}

fn push_role_mention(out: &mut Vec<char>, role: u64)
    ensures
        final(out)@ == old(out)@ + role_mention(role),
{
    push_text(out, "<@&");
    push_decimal(out, role);
    push_text(out, ">");
    assert(out@ =~= old(out)@ + role_mention(role));
}

fn push_ratio_tag(out: &mut Vec<char>, session: &LFGSession)
    requires
        session@.count() <= usize::MAX,
    ensures
        final(out)@ == old(out)@ + ratio_tag(session@),
{
    push_text(out, "[");
    push_decimal(out, session.count() as u64);
    push_text(out, "/");
    push_decimal(out, session.required_number as u64);
    push_text(out, "]");
    assert(out@ =~= old(out)@ + ratio_tag(session@));
}

/// The named members of a session, joiners first.
pub fn members(session: &LFGSession) -> (ids: Vec<u64>)
    ensures
        ids@ == member_ids(session@),
{
    let mut ids: Vec<u64> = Vec::new();
    let mut i: usize = 0;
    while i < session.participants.len()
        invariant
            i <= session.participants.len(),
            ids@ == session.participants@.take(i as int),
        decreases session.participants.len() - i,
    {
        ids.push(session.participants[i]);
        i += 1;
    }
    let mut k: usize = 0;
    while k < session.added_participants.len()
        invariant
            k <= session.added_participants.len(),
            ids@ == session.participants@ + session.added_participants@.take(k as int),
        decreases session.added_participants.len() - k,
    {
        ids.push(session.added_participants[k]);
        k += 1;
    }
    ids
}

fn bullet_lines(ids: &Vec<u64>) -> (lines: Vec<String>)
    ensures
        texts(lines@) == ids@.map_values(|user: u64| bullet(user)),
{
    let mut lines: Vec<String> = Vec::new();
    let mut i: usize = 0;
    while i < ids.len()
        invariant
            i <= ids.len(),
            lines@.len() == i,
            forall|j: int| 0 <= j < i ==> (#[trigger] lines@[j])@ == bullet(ids@[j]),
        decreases ids.len() - i,
    {
        let mut line: Vec<char> = Vec::new();
        push_text(&mut line, "`•` ");
        push_user_mention(&mut line, ids[i]);
        lines.push(string_of(&line));
        i += 1;
    }
    assert(texts(lines@) =~= ids@.map_values(|user: u64| bullet(user)));
    lines
}

fn mention_words(ids: &Vec<u64>) -> (words: Vec<String>)
    ensures
        texts(words@) == ids@.map_values(|user: u64| user_mention(user)),
{
    let mut words: Vec<String> = Vec::new();
    let mut i: usize = 0;
    while i < ids.len()
        invariant
            i <= ids.len(),
            words@.len() == i,
            forall|j: int| 0 <= j < i ==> (#[trigger] words@[j])@ == user_mention(ids@[j]),
        decreases ids.len() - i,
    {
        let mut word: Vec<char> = Vec::new();
        push_user_mention(&mut word, ids[i]);
        words.push(string_of(&word));
        i += 1;
    }
    assert(texts(words@) =~= ids@.map_values(|user: u64| user_mention(user)));
    words
}

/// Builds the participant listing of a status message.
pub fn render_listing(session: &LFGSession) -> (out: Vec<char>)
    ensures
        out@ == listing(session@),
{
    let ids = members(session);
    let lines = bullet_lines(&ids);
    let joined = join_lines(&lines, "\n");
    let mut out: Vec<char> = Vec::new();
    push_text(&mut out, "\n\n**Participants:**\n");
    push_text(&mut out, "`•` ");
    push_user_mention(&mut out, session.author);
    push_text(&mut out, joined.as_str());
    let committed: usize = session.initial_number as usize;
    let added: usize = session.added_participants.len();
    if committed >= 1 && added < committed - 1 {
        push_text(&mut out, "\n`•` **and ");
        push_decimal(&mut out, (committed - 1 - added) as u64);
        push_text(&mut out, " other(s)...**");
    }
    push_text(&mut out, "\n\n*delete the original message to cancel*");
    assert(out@ =~= listing(session@));
    out
}

fn render_status_embed(session: &LFGSession) -> (embed: EmbedText)
    requires
        session@.count() <= usize::MAX,
    ensures
        embed@ == status_embed(session@),
{
    let mut title: Vec<char> = Vec::new();
    push_text(&mut title, "LFG Ping ");
    push_ratio_tag(&mut title, session);
    let mut description: Vec<char> = Vec::new();
    push_user_mention(&mut description, session.author);
    push_text(&mut description, " is looking for a game! (expires <t:");
    push_signed_decimal(&mut description, session.expiry);
    push_text(&mut description, ":R>)");
    let mut listing = render_listing(session);
    description.append(&mut listing);
    assert(title@ =~= status_title(session@));
    assert(description@ =~= status_description(session@));
    EmbedText {
        color: ACTIVE_COLOR,
        title: string_of(&title),
        description: string_of(&description),
    }
}

/// Renders the status of a session: the first status message where none
/// is known yet, an edit of the known one otherwise.
pub fn render_status(session: &LFGSession) -> (out: Outbound)
    requires
        session@.count() <= usize::MAX,
    ensures
        out@ == status_message(session@),
{
    let embed = render_status_embed(session);
    match session.reply_message {
        Some(message) => Outbound::EditStatus { channel: session.channel, message, embed },
        None => {
            let mut content: Vec<char> = Vec::new();
            push_role_mention(&mut content, session.facade_tag);
            push_text(&mut content, " `");
            push_decimal(&mut content, session.count() as u64);
            push_text(&mut content, "/");
            push_decimal(&mut content, session.required_number as u64);
            push_text(&mut content, "`    ||");
            push_role_mention(&mut content, session.initial_tag);
            push_text(&mut content, "||");
            assert(content@ =~= status_content(session@));
            let mut token: Vec<char> = Vec::new();
            push_text(&mut token, "lfg-");
            let id_text = session_id_text(session.uuid);
            push_text(&mut token, id_text.as_str());
            Outbound::PostStatus {
                session: session.uuid,
                channel: session.channel,
                reply_to: session.original_message,
                content: string_of(&content),
                embed,
                token: string_of(&token),
                label: "Logging on / Online!".to_owned(),
            }
        },
    }
}

/// Renders the announcement that the group of `session` is ready.
pub fn render_ready(session: &LFGSession) -> (out: Outbound)
    requires
        session@.count() <= usize::MAX,
    ensures
        out@ == ready_announcement(session@),
{
    let ids = members(session);
    let words = mention_words(&ids);
    let joined = join_lines(&words, " ");
    let mut content: Vec<char> = Vec::new();
    push_text(&mut content, "||");
    push_user_mention(&mut content, session.author);
    push_text(&mut content, joined.as_str());
    push_text(&mut content, "||");
    assert(content@ =~= ready_content(session@));
    let mut title: Vec<char> = Vec::new();
    push_text(&mut title, "Everyone's ready! ");
    push_ratio_tag(&mut title, session);
    Outbound::Announce {
        channel: session.channel,
        content: string_of(&content),
        embed: EmbedText {
            color: ACTIVE_COLOR,
            title: string_of(&title),
            description: "Good luck everyone! Make wife proud!".to_owned(),
        },
    }
}

/// Renders the reply that explains how to ping.
pub fn render_usage_hint(channel: u64, reply_to: u64) -> (out: Outbound)
    ensures
        out@ == usage_hint(channel, reply_to),
{
    Outbound::UsageHint {
        channel,
        reply_to,
        embed: EmbedText {
            color: CLOSED_COLOR,
            title: "Use the LFG Ping".to_owned(),
            description: "You cannot ping LFG roles without providing an indicator as to how many are playing, i.e. `@2v2pings 2/4`. Feel free to edit your message if you want to ping, as nobody has been pinged yet.".to_owned(),
        },
    }
}

/// Renders the embed that closes a session nobody completed, with the
/// flavour text that `flavor` selects.
pub fn render_expired(flavor: usize) -> (embed: EmbedText)
    ensures
        embed@ == expired_embed(flavor as int),
{
    let pick: usize = flavor % EXPIRED_MESSAGES;
    let description: &str = if pick == 0 {
        "Shoot. We left it out too long, and the ping expired"
    } else if pick == 1 {
        "Arena is dead and this unplayed ping proves it"
    } else if pick == 2 {
        "Maybe the ping would fill up if wife came back"
    } else {
        "*Surely* next ping will fill up right?"
    };
    EmbedText {
        color: CLOSED_COLOR,
        title: "Expired ping".to_owned(),
        description: description.to_owned(),
    }
}

/// Renders the embed that closes a session its author withdrew.
pub fn render_cancelled(author: u64) -> (embed: EmbedText)
    ensures
        embed@ == cancelled_embed(author),
{
    let mut description: Vec<char> = Vec::new();
    push_text(&mut description, "No, that wasn't a ghost... it just looks like ");
    push_user_mention(&mut description, author);
    push_text(&mut description, " backed out!");
    assert(description@ =~= cancelled_embed(author).description);
    EmbedText {
        color: CLOSED_COLOR,
        title: "Cancelled ping".to_owned(),
        description: string_of(&description),
    }
}

/// `Rng::gen_range` from the rand crate on the thread's generator, for the
/// range from zero up to and without `bound`: some number of that range.
#[verifier::external_body]
pub(crate) fn random_below(bound: usize) -> (n: usize)
    requires
        bound > 0,
    ensures
        n < bound,
{
    rand::thread_rng().gen_range(0..bound)
}

} // verus!
