use chair::models::LFGSession;
use chair::render::{
    render_cancelled, render_expired, render_listing, render_ready, render_status,
    render_usage_hint, members, EmbedRejected, EmbedText, MentionPolicy, Outbound, ACTIVE_COLOR,
    CLOSED_COLOR,
};
use chair::util::simple_embed;

fn sample_session() -> LFGSession {
    LFGSession {
        uuid: 0xa1a2a3a4b1b2c1c2d1d2d3d4d5d6d7d8,
        guild: 10,
        channel: 20,
        original_message: 30,
        reply_message: None,
        author: 100,
        facade_tag: 500,
        initial_tag: 600,
        participants: Vec::new(),
        added_participants: Vec::new(),
        excluded_participants: Vec::new(),
        interested_participants: Vec::new(),
        initial_number: 2,
        required_number: 4,
        expiry: 1700000000,
    }
}

fn text_of_chars(chars: Vec<char>) -> String {
    chars.into_iter().collect()
}

#[test]
fn first_status_is_posted_as_a_reply() {
    let session = sample_session();
    match render_status(&session) {
        Outbound::PostStatus { session: id, channel, reply_to, content, embed, token, label } => {
            assert_eq!(id, 0xa1a2a3a4b1b2c1c2d1d2d3d4d5d6d7d8);
            assert_eq!(channel, 20);
            assert_eq!(reply_to, 30);
            assert_eq!(content, "<@&500> `2/4`    ||<@&600>||");
            assert_eq!(embed.color, 0x8ae24a);
            assert_eq!(embed.title, "LFG Ping [2/4]");
            assert_eq!(
                embed.description,
                "<@100> is looking for a game! (expires <t:1700000000:R>)\n\n**Participants:**\n`•` <@100>\n`•` **and 1 other(s)...**\n\n*delete the original message to cancel*"
            );
            assert_eq!(token, "lfg-a1a2a3a4-b1b2-c1c2-d1d2-d3d4d5d6d7d8");
            assert_eq!(label, "Logging on / Online!");
        },
        other => panic!("unexpected {:?}", other),
    }
}

#[test]
fn known_status_is_edited_in_place() {
    let mut session = sample_session();
    session.reply_message = Some(40);
    session.participants = vec![101];
    match render_status(&session) {
        Outbound::EditStatus { channel, message, embed } => {
            assert_eq!(channel, 20);
            assert_eq!(message, 40);
            assert_eq!(embed.color, ACTIVE_COLOR);
            assert_eq!(embed.title, "LFG Ping [3/4]");
            assert_eq!(
                embed.description,
                "<@100> is looking for a game! (expires <t:1700000000:R>)\n\n**Participants:**\n`•` <@100>`•` <@101>\n`•` **and 1 other(s)...**\n\n*delete the original message to cancel*"
            );
        },
        other => panic!("unexpected {:?}", other),
    }
}

#[test]
fn token_has_leading_zeros_and_lower_case() {
    let mut session = sample_session();
    session.uuid = 0x0000000f_00ab_4cde_8f01_0123456789ab;
    match render_status(&session) {
        Outbound::PostStatus { token, .. } => {
            assert_eq!(token, "lfg-0000000f-00ab-4cde-8f01-0123456789ab");
        },
        other => panic!("unexpected {:?}", other),
    }
    session.uuid = 0;
    match render_status(&session) {
        Outbound::PostStatus { token, .. } => {
            assert_eq!(token, "lfg-00000000-0000-0000-0000-000000000000");
        },
        other => panic!("unexpected {:?}", other),
    }
    session.uuid = u128::MAX;
    match render_status(&session) {
        Outbound::PostStatus { token, .. } => {
            assert_eq!(token, "lfg-ffffffff-ffff-ffff-ffff-ffffffffffff");
        },
        other => panic!("unexpected {:?}", other),
    }
}

#[test]
fn listing_names_joiners_then_added_users() {
    let mut session = sample_session();
    session.participants = vec![101, 102];
    session.added_participants = vec![201, 202];
    session.initial_number = 3;
    session.required_number = 9;
    assert_eq!(members(&session), vec![101, 102, 201, 202]);
    assert_eq!(
        text_of_chars(render_listing(&session)),
        "\n\n**Participants:**\n`•` <@100>`•` <@101>\n`•` <@102>\n`•` <@201>\n`•` <@202>\n\n*delete the original message to cancel*"
    );
}

#[test]
fn listing_of_the_author_alone() {
    let mut session = sample_session();
    session.initial_number = 1;
    assert_eq!(
        text_of_chars(render_listing(&session)),
        "\n\n**Participants:**\n`•` <@100>\n\n*delete the original message to cancel*"
    );
}

#[test]
fn listing_counts_the_unnamed_others() {
    let mut session = sample_session();
    session.added_participants = vec![201];
    session.participants = vec![101];
    session.initial_number = 7;
    session.required_number = 20;
    // count is 8, named are the author, one joiner and one added user
    assert_eq!(
        text_of_chars(render_listing(&session)),
        "\n\n**Participants:**\n`•` <@100>`•` <@101>\n`•` <@201>\n`•` **and 5 other(s)...**\n\n*delete the original message to cancel*"
    );
    match render_status(&session) {
        Outbound::PostStatus { embed, content, .. } => {
            assert_eq!(embed.title, "LFG Ping [8/20]");
            assert_eq!(content, "<@&500> `8/20`    ||<@&600>||");
        },
        other => panic!("unexpected {:?}", other),
    }
}

#[test]
fn added_users_are_not_counted_twice() {
    let mut session = sample_session();
    session.added_participants = vec![201, 202];
    session.initial_number = 3;
    session.required_number = 5;
    assert_eq!(session.count(), 3);
    session.participants = vec![101];
    assert_eq!(session.count(), 4);
}

#[test]
fn expiry_before_the_epoch_is_written_with_a_sign() {
    let mut session = sample_session();
    session.expiry = -15;
    match render_status(&session) {
        Outbound::PostStatus { embed, .. } => {
            assert!(embed.description.starts_with(
                "<@100> is looking for a game! (expires <t:-15:R>)"
            ));
        },
        other => panic!("unexpected {:?}", other),
    }
    session.expiry = i64::MIN;
    match render_status(&session) {
        Outbound::PostStatus { embed, .. } => {
            assert!(embed.description.starts_with(
                "<@100> is looking for a game! (expires <t:-9223372036854775808:R>)"
            ));
        },
        other => panic!("unexpected {:?}", other),
    }
    session.expiry = i64::MAX;
    match render_status(&session) {
        Outbound::PostStatus { embed, .. } => {
            assert!(embed.description.starts_with(
                "<@100> is looking for a game! (expires <t:9223372036854775807:R>)"
            ));
        },
        other => panic!("unexpected {:?}", other),
    }
}

#[test]
fn large_ids_are_written_in_full() {
    let mut session = sample_session();
    session.author = u64::MAX;
    session.facade_tag = 1069644995780423731;
    session.initial_tag = 1069645017414631474;
    match render_status(&session) {
        Outbound::PostStatus { content, embed, .. } => {
            assert_eq!(
                content,
                "<@&1069644995780423731> `2/4`    ||<@&1069645017414631474>||"
            );
            assert!(embed.description.starts_with("<@18446744073709551615> is looking"));
        },
        other => panic!("unexpected {:?}", other),
    }
}

#[test]
fn ready_announcement_mentions_everyone() {
    let mut session = sample_session();
    session.participants = vec![101, 102];
    session.added_participants = vec![201];
    match render_ready(&session) {
        Outbound::Announce { channel, content, embed } => {
            assert_eq!(channel, 20);
            assert_eq!(content, "||<@100><@101> <@102> <@201>||");
            assert_eq!(embed.color, 0x8ae24a);
            assert_eq!(embed.title, "Everyone's ready! [4/4]");
            assert_eq!(embed.description, "Good luck everyone! Make wife proud!");
        },
        other => panic!("unexpected {:?}", other),
    }
}

#[test]
fn ready_announcement_of_the_author_alone() {
    let session = sample_session();
    match render_ready(&session) {
        Outbound::Announce { content, .. } => assert_eq!(content, "||<@100>||"),
        other => panic!("unexpected {:?}", other),
    }
}

#[test]
fn usage_hint_is_a_reply() {
    match render_usage_hint(20, 30) {
        Outbound::UsageHint { channel, reply_to, embed } => {
            assert_eq!(channel, 20);
            assert_eq!(reply_to, 30);
            assert_eq!(embed.color, 0xff3030);
            assert_eq!(embed.title, "Use the LFG Ping");
            assert_eq!(
                embed.description,
                "You cannot ping LFG roles without providing an indicator as to how many are playing, i.e. `@2v2pings 2/4`. Feel free to edit your message if you want to ping, as nobody has been pinged yet."
            );
        },
        other => panic!("unexpected {:?}", other),
    }
}

#[test]
fn expired_embed_walks_the_flavour_table() {
    let texts = [
        "Shoot. We left it out too long, and the ping expired",
        "Arena is dead and this unplayed ping proves it",
        "Maybe the ping would fill up if wife came back",
        "*Surely* next ping will fill up right?",
    ];
    for flavor in 0..12usize {
        let embed = render_expired(flavor);
        assert_eq!(embed.color, CLOSED_COLOR);
        assert_eq!(embed.title, "Expired ping");
        assert_eq!(embed.description, texts[flavor % 4]);
    }
    assert_eq!(render_expired(usize::MAX).description, texts[usize::MAX % 4]);
}

#[test]
fn cancelled_embed_names_the_author() {
    let embed = render_cancelled(100);
    assert_eq!(embed.color, 0xff3030);
    assert_eq!(embed.title, "Cancelled ping");
    assert_eq!(
        embed.description,
        "No, that wasn't a ghost... it just looks like <@100> backed out!"
    );
}

#[test]
fn simple_embed_holds_what_it_was_given() {
    let embed = simple_embed(0xff3030, "Expired ping", "too late").unwrap();
    assert_eq!(embed.color, Some(0xff3030));
    assert_eq!(embed.title.as_deref(), Some("Expired ping"));
    assert_eq!(embed.description.as_deref(), Some("too late"));
    assert_eq!(embed.kind, "rich");
    assert!(embed.fields.is_empty());
    assert!(embed.author.is_none());
    assert!(embed.footer.is_none());
}

#[test]
fn simple_embed_keeps_the_limits() {
    assert!(simple_embed(0xff_ff_ff, "t", "d").is_ok());
    assert!(simple_embed(0x1_00_00_00, "t", "d").is_err());
    assert!(simple_embed(0, &"t".repeat(256), "d").is_ok());
    assert!(simple_embed(0, &"t".repeat(257), "d").is_err());
    assert!(simple_embed(0, "t", &"d".repeat(4096)).is_ok());
    assert!(simple_embed(0, "t", &"d".repeat(4097)).is_err());
    assert!(simple_embed(0, "", "").is_ok());
}

#[test]
fn simple_embed_counts_the_total_in_bytes() {
    // 2000 characters of three bytes each stay under every limit on
    // characters and exactly meet the limit on the total
    assert!(simple_embed(0, "", &"€".repeat(2000)).is_ok());
    assert!(simple_embed(0, "t", &"€".repeat(2000)).is_err());
    assert!(simple_embed(0, &"é".repeat(256), &"€".repeat(1829)).is_ok());
    assert!(simple_embed(0, &"é".repeat(256), &"€".repeat(1830)).is_err());
}

#[test]
fn embed_text_builds_the_embed() {
    let text = EmbedText {
        color: 0x8ae24a,
        title: "LFG Ping [2/4]".to_owned(),
        description: "body".to_owned(),
    };
    let embed = text.build().unwrap();
    assert_eq!(embed.color, Some(0x8ae24a));
    assert_eq!(embed.title.as_deref(), Some("LFG Ping [2/4]"));
    assert_eq!(embed.description.as_deref(), Some("body"));
}

#[test]
fn embed_text_is_rejected_over_the_limits() {
    let text = EmbedText { color: 0, title: "t".repeat(300), description: String::new() };
    assert_eq!(text.build().err(), Some(EmbedRejected));
}

#[test]
fn every_rendered_embed_fits() {
    let mut session = sample_session();
    session.reply_message = Some(1);
    session.required_number = 99;
    session.initial_number = 1;
    session.author = u64::MAX;
    session.participants = (0..97).map(|i| u64::MAX - i).collect();
    match render_status(&session) {
        Outbound::EditStatus { embed, .. } => assert!(embed.build().is_ok()),
        other => panic!("unexpected {:?}", other),
    }
    assert!(render_expired(0).build().is_ok());
    assert!(render_cancelled(u64::MAX).build().is_ok());
    match render_usage_hint(1, 2) {
        Outbound::UsageHint { embed, .. } => assert!(embed.build().is_ok()),
        other => panic!("unexpected {:?}", other),
    }
}

#[test]
fn only_the_announcement_may_notify() {
    let mut session = sample_session();
    assert_eq!(render_status(&session).mention_policy(), MentionPolicy::Default);
    session.reply_message = Some(40);
    assert_eq!(render_status(&session).mention_policy(), MentionPolicy::Default);
    assert_eq!(render_usage_hint(1, 2).mention_policy(), MentionPolicy::Default);
    assert_eq!(render_ready(&session).mention_policy(), MentionPolicy::UsersAndRoles);
    assert_eq!(Outbound::Nothing.mention_policy(), MentionPolicy::Default);
    let close = Outbound::CloseStatus { channel: 1, message: 2, embed: render_expired(0) };
    assert_eq!(close.mention_policy(), MentionPolicy::Nobody);
    let delete = Outbound::DeleteOriginal { channel: 1, message: 2, reason: String::new() };
    assert_eq!(delete.mention_policy(), MentionPolicy::Default);
}
