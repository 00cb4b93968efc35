//! The embeds that are rendered for a tracked session keep the platform's
//! limits: bounds on the length of every rendered text, in characters and
//! in bytes.

use crate::laws::ratio_is_two_digits;
use crate::lfg::{closing_message, opening, ExpiryStrategy, JoinView, Registry};
use crate::models::{IncomingMessage, SessionView};
use crate::render::{
    bullet, cancelled_embed, expired_embed, joined_text, listing, member_ids, others_line,
    ratio_tag, ready_announcement, ready_title, status_description, status_embed,
    status_message, status_title, usage_hint, user_mention,
};
use crate::text::{decimal, signed_decimal};
use crate::trigger::trigger_of;
use vstd::prelude::*;
use vstd::utf8::{encode_scalar, encode_utf8, is_ascii_chars, is_ascii_chars_encode_utf8};

verus! {

/// The number of bytes that a text takes in UTF-8.
pub open spec fn byte_len(text: Seq<char>) -> nat {
    encode_utf8(text).len()
}

/// No character takes more than four bytes.
pub proof fn bytes_at_most_fourfold(text: Seq<char>)
    ensures
        byte_len(text) <= 4 * text.len(),
    decreases text.len(),
{
    if text.len() > 0 {
        bytes_at_most_fourfold(text.drop_first());
        assert(encode_scalar(text[0] as u32).len() <= 4);
    }
}

/// The bytes of two texts written one after the other add up.
pub proof fn bytes_of_concat(a: Seq<char>, b: Seq<char>)
    ensures
        byte_len(a + b) == byte_len(a) + byte_len(b),
    decreases a.len(),
{
    if a.len() == 0 {
        assert(a + b =~= b);
    } else {
        bytes_of_concat(a.drop_first(), b);
        assert((a + b).drop_first() =~= a.drop_first() + b);
        assert((a + b)[0] == a[0]);
    }
}

/// Ten to the power of `digits`.
pub open spec fn ten_to(digits: nat) -> nat
    decreases digits,
{
    if digits == 0 {
        1
    } else {
        10 * ten_to((digits - 1) as nat)
    }
}

/// A number below ten to the power of `digits` is written with at most
/// `digits` digits, all of them ASCII.
pub proof fn decimal_is_short(n: nat, digits: nat)
    requires
        digits >= 1,
        n < ten_to(digits),
    ensures
        1 <= decimal(n).len() <= digits,
        is_ascii_chars(decimal(n)),
        byte_len(decimal(n)) == decimal(n).len(),
    decreases n,
{
    if n >= 10 {
        assert(ten_to(1) == 10) by {
            reveal_with_fuel(ten_to, 2);
        }
        decimal_is_short(n / 10, (digits - 1) as nat);
    }
    assert forall|i: int| 0 <= i < decimal(n).len() implies '\0' <= #[trigger] decimal(n)[i]
        <= '\u{7f}' by {
        if n >= 10 && i < decimal(n).len() - 1 {
            assert(decimal(n)[i] == decimal(n / 10)[i]);
        }
    }
    is_ascii_chars_encode_utf8(decimal(n));
}

/// An unsigned 64-bit number is written with at most twenty digits.
pub proof fn decimal_of_u64_is_short(n: u64)
    ensures
        1 <= decimal(n as nat).len() <= 20,
        byte_len(decimal(n as nat)) == decimal(n as nat).len(),
{
    assert(ten_to(20) == 100_000_000_000_000_000_000nat) by {
        reveal_with_fuel(ten_to, 21);
    }
    decimal_is_short(n as nat, 20);
}

/// A signed 64-bit number is written with at most twenty characters.
pub proof fn signed_decimal_is_short(n: i64)
    ensures
        1 <= signed_decimal(n as int).len() <= 20,
        byte_len(signed_decimal(n as int)) == signed_decimal(n as int).len(),
{
    assert(ten_to(19) == 10_000_000_000_000_000_000nat) by {
        reveal_with_fuel(ten_to, 20);
    }
    if n < 0 {
        decimal_is_short((-n) as nat, 19);
        bytes_of_concat(seq!['-'], decimal((-n) as nat));
        assert(is_ascii_chars(seq!['-']));
        is_ascii_chars_encode_utf8(seq!['-']);
    } else {
        decimal_is_short(n as nat, 19);
    }
}

/// Whether a text has at most `chars` characters and `bytes` bytes.
pub open spec fn within(text: Seq<char>, chars: nat, bytes: nat) -> bool {
    text.len() <= chars && byte_len(text) <= bytes
}

/// A text of at most `chars` characters takes at most four times as many
/// bytes.
pub proof fn short_text_is_within(text: Seq<char>, chars: nat)
    requires
        text.len() <= chars,
    ensures
        within(text, chars, 4 * chars),
{
    bytes_at_most_fourfold(text);
}

/// The bounds of two texts written one after the other add up.
pub proof fn concat_is_within(
    a: Seq<char>,
    b: Seq<char>,
    a_chars: nat,
    a_bytes: nat,
    b_chars: nat,
    b_bytes: nat,
)
    requires
        within(a, a_chars, a_bytes),
        within(b, b_chars, b_bytes),
    ensures
        within(a + b, a_chars + b_chars, a_bytes + b_bytes),
{
    bytes_of_concat(a, b);
}

/// Parts that are each within a bound, joined by a separator, are within
/// the bound of a part and a separator times the number of parts.
pub proof fn joined_is_within(parts: Seq<Seq<char>>, sep: Seq<char>, chars: nat, bytes: nat)
    requires
        forall|i: int| 0 <= i < parts.len() ==> within(#[trigger] parts[i], chars, bytes),
    ensures
        within(
            joined_text(parts, sep),
            parts.len() * (chars + sep.len()),
            parts.len() * (bytes + byte_len(sep)),
        ),
    decreases parts.len(),
{
    let n = parts.len();
    if n == 0 {
        assert(byte_len(Seq::<char>::empty()) == 0);
    } else if n == 1 {
        assert(1 * (chars + sep.len()) == chars + sep.len()) by (nonlinear_arith);
        assert(1 * (bytes + byte_len(sep)) == bytes + byte_len(sep)) by (nonlinear_arith);
        assert(within(parts[0], chars, bytes));
    } else {
        joined_is_within(parts.drop_last(), sep, chars, bytes);
        let head = joined_text(parts.drop_last(), sep);
        bytes_of_concat(head, sep);
        bytes_of_concat(head + sep, parts.last());
        assert(within(parts[n - 1], chars, bytes));
        assert(n * (chars + sep.len()) == (n - 1) * (chars + sep.len()) + (chars + sep.len()))
            by (nonlinear_arith);
        assert(n * (bytes + byte_len(sep)) == (n - 1) * (bytes + byte_len(sep)) + (bytes
            + byte_len(sep))) by (nonlinear_arith);
    }
}

/// The mention of a user has at most 23 characters.
pub proof fn user_mention_is_within(user: u64)
    ensures
        within(user_mention(user), 23, 32),
{
    reveal_strlit("<@");
    reveal_strlit(">");
    decimal_of_u64_is_short(user);
    short_text_is_within("<@"@, 2);
    short_text_is_within(">"@, 1);
    concat_is_within("<@"@, decimal(user as nat), 2, 8, 20, 20);
    concat_is_within("<@"@ + decimal(user as nat), ">"@, 22, 28, 1, 4);
}

/// A line of the participant listing has at most 27 characters.
pub proof fn bullet_is_within(user: u64)
    ensures
        within(bullet(user), 27, 48),
{
    reveal_strlit("`•` ");
    short_text_is_within("`•` "@, 4);
    user_mention_is_within(user);
    concat_is_within("`•` "@, user_mention(user), 4, 16, 23, 32);
}

/// The `[count/required]` tag of a session that is not too large.
pub proof fn ratio_tag_is_within(s: SessionView)
    requires
        s.count() <= u64::MAX,
    ensures
        within(ratio_tag(s), 43, 52),
{
    reveal_strlit("[");
    reveal_strlit("/");
    reveal_strlit("]");
    decimal_of_u64_is_short(s.count() as u64);
    decimal_of_u64_is_short(s.required_number as u64);
    short_text_is_within("["@, 1);
    short_text_is_within("/"@, 1);
    short_text_is_within("]"@, 1);
    let a = "["@ + decimal(s.count());
    concat_is_within("["@, decimal(s.count()), 1, 4, 20, 20);
    concat_is_within(a, "/"@, 21, 24, 1, 4);
    concat_is_within(a + "/"@, decimal(s.required_number as nat), 22, 28, 20, 20);
    concat_is_within(a + "/"@ + decimal(s.required_number as nat), "]"@, 42, 48, 1, 4);
}

/// The title of a status message has at most 52 characters.
pub proof fn status_title_is_within(s: SessionView)
    requires
        s.count() <= u64::MAX,
    ensures
        within(status_title(s), 52, 88),
{
    reveal_strlit("LFG Ping ");
    short_text_is_within("LFG Ping "@, 9);
    ratio_tag_is_within(s);
    concat_is_within("LFG Ping "@, ratio_tag(s), 9, 36, 43, 52);
}

/// The line for the unnamed members has at most 45 characters.
pub proof fn others_line_is_within(s: SessionView)
    requires
        s.count() <= u64::MAX,
    ensures
        within(others_line(s), 45, 120),
{
    if s.named() < s.count() {
        reveal_strlit("\n`•` **and ");
        reveal_strlit(" other(s)...**");
        let others = (s.count() - s.named()) as nat;
        decimal_of_u64_is_short(others as u64);
        short_text_is_within("\n`•` **and "@, 11);
        short_text_is_within(" other(s)...**"@, 14);
        concat_is_within("\n`•` **and "@, decimal(others), 11, 44, 20, 20);
        concat_is_within("\n`•` **and "@ + decimal(others), " other(s)...**"@, 31, 64, 14, 56);
    } else {
        assert(byte_len(Seq::<char>::empty()) == 0);
    }
}

/// The participant listing of a session with `members` named members.
pub proof fn listing_is_within(s: SessionView, members: nat)
    requires
        s.count() <= u64::MAX,
        member_ids(s).len() <= members,
    ensures
        within(listing(s), 133 + 28 * members, 412 + 52 * members),
{
    reveal_strlit("\n\n**Participants:**\n");
    reveal_strlit("\n");
    reveal_strlit("\n\n*delete the original message to cancel*");
    let head = "\n\n**Participants:**\n"@;
    let tail = "\n\n*delete the original message to cancel*"@;
    let lines = member_ids(s).map_values(|user: u64| bullet(user));
    let joined = joined_text(lines, "\n"@);
    short_text_is_within(head, 20);
    short_text_is_within(tail, 41);
    short_text_is_within("\n"@, 1);
    bullet_is_within(s.author);
    assert forall|i: int| 0 <= i < lines.len() implies within(#[trigger] lines[i], 27, 48) by {
        bullet_is_within(member_ids(s)[i]);
    }
    joined_is_within(lines, "\n"@, 27, 48);
    others_line_is_within(s);
    let n = lines.len();
    assert(n * (27 + 1) <= 28 * members) by (nonlinear_arith)
        requires
            n <= members,
    ;
    assert(n * (48 + byte_len("\n"@)) <= 52 * members) by (nonlinear_arith)
        requires
            n <= members,
            byte_len("\n"@) <= 4,
    ;
    assert(within(joined, 28 * members, 52 * members));
    concat_is_within(head, bullet(s.author), 20, 80, 27, 48);
    concat_is_within(head + bullet(s.author), joined, 47, 128, 28 * members, 52 * members);
    concat_is_within(
        head + bullet(s.author) + joined,
        others_line(s),
        47 + 28 * members,
        128 + 52 * members,
        45,
        120,
    );
    concat_is_within(
        head + bullet(s.author) + joined + others_line(s),
        tail,
        92 + 28 * members,
        248 + 52 * members,
        41,
        164,
    );
}

/// The body of a status message, for a session with `members` named
/// members.
pub proof fn status_description_is_within(s: SessionView, members: nat)
    requires
        s.count() <= u64::MAX,
        member_ids(s).len() <= members,
    ensures
        within(status_description(s), 216 + 28 * members, 624 + 52 * members),
{
    reveal_strlit(" is looking for a game! (expires <t:");
    reveal_strlit(":R>)");
    let a = " is looking for a game! (expires <t:"@;
    let b = ":R>)"@;
    short_text_is_within(a, 36);
    short_text_is_within(b, 4);
    user_mention_is_within(s.author);
    signed_decimal_is_short(s.expiry);
    listing_is_within(s, members);
    concat_is_within(user_mention(s.author), a, 23, 32, 36, 144);
    concat_is_within(user_mention(s.author) + a, signed_decimal(s.expiry as int), 59, 176, 20, 20);
    concat_is_within(
        user_mention(s.author) + a + signed_decimal(s.expiry as int),
        b,
        79,
        196,
        4,
        16,
    );
    concat_is_within(
        user_mention(s.author) + a + signed_decimal(s.expiry as int) + b,
        listing(s),
        83,
        212,
        133 + 28 * members,
        412 + 52 * members,
    );
}

/// The status of a session that the registry tracks is accepted: its
/// embed keeps the platform's limits.
pub proof fn status_is_accepted(s: SessionView)
    requires
        s.wf(),
    ensures
        status_embed(s).fits(),
        status_message(s).accepted(),
{
    status_title_is_within(s);
    status_description_is_within(s, 97);
}

/// The ready announcement of a session of at most 99 members is
/// accepted.
pub proof fn ready_announcement_is_accepted(s: SessionView)
    requires
        s.count() <= 99,
    ensures
        ready_announcement(s).accepted(),
{
    reveal_strlit("Everyone's ready! ");
    reveal_strlit("Good luck everyone! Make wife proud!");
    short_text_is_within("Everyone's ready! "@, 18);
    short_text_is_within("Good luck everyone! Make wife proud!"@, 36);
    ratio_tag_is_within(s);
    concat_is_within("Everyone's ready! "@, ratio_tag(s), 18, 72, 43, 52);
    assert(within(ready_title(s), 61, 124));
}

/// The usage hint is accepted.
pub proof fn usage_hint_is_accepted(channel: u64, reply_to: u64)
    ensures
        usage_hint(channel, reply_to).accepted(),
{
    reveal_strlit("Use the LFG Ping");
    reveal_strlit(
        "You cannot ping LFG roles without providing an indicator as to how many are playing, i.e. `@2v2pings 2/4`. Feel free to edit your message if you want to ping, as nobody has been pinged yet.",
    );
    let embed = usage_hint(channel, reply_to).embed().unwrap();
    short_text_is_within(embed.title, 16);
    short_text_is_within(embed.description, 190);
}

/// Every embed that closes a session is accepted.
pub proof fn closing_message_is_accepted(s: SessionView, strategy: ExpiryStrategy, flavor: int)
    ensures
        closing_message(s, strategy, flavor).accepted(),
{
    reveal_strlit("Expired ping");
    reveal_strlit("Shoot. We left it out too long, and the ping expired");
    reveal_strlit("Arena is dead and this unplayed ping proves it");
    reveal_strlit("Maybe the ping would fill up if wife came back");
    reveal_strlit("*Surely* next ping will fill up right?");
    reveal_strlit("Cancelled ping");
    reveal_strlit("No, that wasn't a ghost... it just looks like ");
    reveal_strlit(" backed out!");
    short_text_is_within(expired_embed(flavor).title, 12);
    short_text_is_within(expired_embed(flavor).description, 52);
    short_text_is_within(cancelled_embed(s.author).title, 14);
    let a = "No, that wasn't a ghost... it just looks like "@;
    let b = " backed out!"@;
    short_text_is_within(a, 46);
    short_text_is_within(b, 12);
    user_mention_is_within(s.author);
    concat_is_within(a, user_mention(s.author), 46, 184, 23, 32);
    concat_is_within(a + user_mention(s.author), b, 69, 216, 12, 48);
    assert(within(cancelled_embed(s.author).description, 81, 264));
}

/// Whatever a teardown asks to send is accepted.
pub proof fn teardown_is_accepted(registry: Registry, strategy: ExpiryStrategy, id: u128, flavor: int)
    ensures
        registry.teardown(strategy, id, flavor).accepted(),
{
    if registry.sessions.contains_key(id) {
        closing_message_is_accepted(registry.sessions[id], strategy, flavor);
    }
}

/// Whatever a join asks to send is accepted.
pub proof fn join_is_accepted(registry: Registry, id: u128, user: u64)
    requires
        registry.wf(),
    ensures
        match registry.join(id, user) {
            JoinView::Unknown => true,
            JoinView::Status(status) => status.accepted(),
            JoinView::Ready { teardown, announcement } => teardown.accepted()
                && announcement.accepted(),
        },
{
    if registry.sessions.contains_key(id) {
        let s = registry.sessions[id].joined(user);
        if s.count() >= s.required_number {
            closing_message_is_accepted(s, ExpiryStrategy::DeleteOriginal, 0);
            ready_announcement_is_accepted(s);
        } else {
            assert(s.wf()) by {
                if !registry.sessions[id].has_member(user) {
                    let before = registry.sessions[id].participants;
                    assert forall|i: int, j: int|
                        0 <= i < s.participants.len() && 0 <= j < s.participants.len() && i
                            != j implies s.participants[i] != s.participants[j] by {
                        if i < before.len() {
                            assert(before.contains(before[i]));
                        }
                        if j < before.len() {
                            assert(before.contains(before[j]));
                        }
                    }
                }
            }
            status_is_accepted(s);
        }
    }
}

/// Whatever a message is answered with is accepted.
pub proof fn creation_is_accepted(
    registry: Registry,
    message: IncomingMessage,
    aliases: Seq<(Vec<u8>, Vec<u8>)>,
    id: u128,
    now: i64,
)
    ensures
        registry.creation(message, aliases, id, now).sent().accepted(),
{
    ratio_is_two_digits(message.content@, aliases);
    usage_hint_is_accepted(message.channel_id, message.id);
    if registry.creation(message, aliases, id, now) is Created {
        let parsed = trigger_of(message.content@, aliases).unwrap();
        let s = opening(message, parsed, id, now);
        assert(s.participants =~= Seq::empty());
        assert(s.wf());
        status_is_accepted(s);
    }
}

} // verus!
