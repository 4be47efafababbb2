use modmail::formatting::{
    embed_author, member_avatar_url, sticker_url, user_avatar_url, user_avatar_url_from_text,
    ImageHash, Sticker, StickerFormat,
};
use modmail::ids::{decimal_text, signed_text, DecodeError, SqliteId};
use modmail::protocol::{render_announcement, render_attachments, render_message, InboundMessage, MessageKind};
use modmail::user_info::{user_info_embed, UserSnapshot};

fn hash(text: &str) -> ImageHash {
    let h = twilight_model::util::ImageHash::parse(text.as_bytes()).unwrap();
    ImageHash { bytes: h.bytes(), animated: h.is_animated() }
}

#[test]
fn decimal_text_of_ids() {
    assert_eq!(decimal_text(0), "0");
    assert_eq!(decimal_text(7), "7");
    assert_eq!(decimal_text(105484726235607040), "105484726235607040");
    assert_eq!(decimal_text(u64::MAX), "18446744073709551615");
    assert_eq!(signed_text(-42), "-42");
    assert_eq!(signed_text(i64::MIN), "-9223372036854775808");
}

#[test]
fn sqlite_id_round_trip() {
    assert_eq!(SqliteId(5).encode(), 5);
    assert_eq!(SqliteId(u64::MAX).encode(), -1);
    assert_eq!(SqliteId(1 << 63).encode(), i64::MIN);
    assert_eq!(SqliteId::decode(-1), Ok(SqliteId(u64::MAX)));
    assert_eq!(SqliteId::decode(i64::MIN), Ok(SqliteId(1 << 63)));
    assert_eq!(SqliteId::decode(0), Err(DecodeError::Zero));
    for id in [1u64, 42, 1 << 62, (1 << 63) + 5, u64::MAX - 1] {
        assert_eq!(SqliteId::decode(SqliteId(id).encode()), Ok(SqliteId(id)));
    }
}

#[test]
fn avatar_links() {
    let still = hash("b2a6536641da91a0b59bd66557c56c36");
    assert_eq!(
        user_avatar_url(42, still),
        "https://cdn.discordapp.com/avatars/42/b2a6536641da91a0b59bd66557c56c36.png"
    );
    let moving = hash("a_b2a6536641da91a0b59bd66557c56c36");
    assert_eq!(
        user_avatar_url(42, moving),
        "https://cdn.discordapp.com/avatars/42/a_b2a6536641da91a0b59bd66557c56c36.gif"
    );
    assert_eq!(
        member_avatar_url(9, 42, still),
        "https://cdn.discordapp.com/guilds/9/users/42/avatars/b2a6536641da91a0b59bd66557c56c36.png"
    );
    assert_eq!(user_avatar_url_from_text(1, "abc", true), "https://cdn.discordapp.com/avatars/1/abc.gif");
}

#[test]
fn sticker_links() {
    let s = |format| Sticker { id: 123, name: "wave".to_string(), format };
    assert_eq!(sticker_url(&s(StickerFormat::Png)).as_deref(), Some("https://cdn.discordapp.com/stickers/123.png"));
    assert_eq!(sticker_url(&s(StickerFormat::Apng)).as_deref(), Some("https://cdn.discordapp.com/stickers/123.apng"));
    assert_eq!(sticker_url(&s(StickerFormat::Gif)).as_deref(), Some("https://cdn.discordapp.com/stickers/123.gif"));
    assert_eq!(sticker_url(&s(StickerFormat::Lottie)), None);
    assert_eq!(sticker_url(&s(StickerFormat::Unknown(9))), None);
}

#[test]
fn embed_author_icon() {
    let a = embed_author(42, "alice", None);
    assert_eq!(a.name, "alice");
    assert_eq!(a.icon_url, None);
    let a = embed_author(42, "alice", Some(hash("b2a6536641da91a0b59bd66557c56c36")));
    assert_eq!(
        a.icon_url.as_deref(),
        Some("https://cdn.discordapp.com/avatars/42/b2a6536641da91a0b59bd66557c56c36.png")
    );
}

#[test]
fn mirror_with_sticker() {
    let msg = InboundMessage {
        id: 5,
        channel_id: 50,
        author_id: 7,
        author_name: "alice".to_string(),
        author_avatar: None,
        author_is_bot: false,
        in_guild: false,
        kind: MessageKind::Reply,
        content: "look".to_string(),
        sticker: Some(Sticker { id: 123, name: "wave".to_string(), format: StickerFormat::Png }),
        attachment_urls: vec![],
        reply_to: None,
    };
    let m = render_message(&msg);
    assert_eq!(m.description.as_deref(), Some("look\n[Sticker: wave]"));
    assert_eq!(m.image_url.as_deref(), Some("https://cdn.discordapp.com/stickers/123.png"));
    assert_eq!(m.author.name, "alice");
}

#[test]
fn announcement_and_attachments_text() {
    assert_eq!(render_announcement(&vec![11, 12], 7), "<@&11> <@&12> \n\n<@7>");
    assert_eq!(render_announcement(&vec![], 7), "<@7>");
    assert_eq!(render_attachments(&vec![]), "Attachments:");
    assert_eq!(render_attachments(&vec!["u".to_string()]), "Attachments:\nu");
}

#[test]
fn user_card() {
    let s = UserSnapshot {
        user_id: 105484726235607040,
        name: "alice".to_string(),
        avatar: Some(hash("b2a6536641da91a0b59bd66557c56c36")),
        guild_id: 9,
        member_avatar: None,
        joined_at: 1700000000,
        roles: vec![(9, Some("@everyone".to_string())), (20, Some("Mod".to_string())), (21, None), (22, Some("VIP".to_string()))],
        dm_channel_id: Some(50),
    };
    let card = user_info_embed(&s);
    assert_eq!(
        card.description,
        "**Joined server <t:1700000000:R>** on <t:1700000000>\n**Registered <t:1445219918:R>** on <t:1445219918>"
    );
    assert_eq!(
        card.thumbnail_url.as_deref(),
        Some("https://cdn.discordapp.com/avatars/105484726235607040/b2a6536641da91a0b59bd66557c56c36.png")
    );
    assert_eq!(card.author.name, "alice");
    assert_eq!(card.author.icon_url, None);
    let fields: Vec<(&str, &str, bool)> = card.fields.iter().map(|f| (f.name.as_str(), f.value.as_str(), f.inline)).collect();
    assert_eq!(
        fields,
        vec![("User ID", "105484726235607040", true), ("DM channel ID", "50", true), ("Roles", "Mod, VIP", false)]
    );
}

#[test]
fn user_card_without_roles() {
    let s = UserSnapshot {
        user_id: 1 << 22,
        name: "bob".to_string(),
        avatar: None,
        guild_id: 9,
        member_avatar: Some(hash("a_b2a6536641da91a0b59bd66557c56c36")),
        joined_at: 5,
        roles: vec![(9, Some("@everyone".to_string()))],
        dm_channel_id: None,
    };
    let card = user_info_embed(&s);
    assert_eq!(card.fields.len(), 1);
    assert_eq!(card.thumbnail_url, None);
    assert_eq!(
        card.author.icon_url.as_deref(),
        Some("https://cdn.discordapp.com/guilds/9/users/4194304/avatars/a_b2a6536641da91a0b59bd66557c56c36.gif")
    );
    assert!(card.description.contains("<t:1420070400:R>"));
}
