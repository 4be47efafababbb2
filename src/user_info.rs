//! The card that introduces a ticket's user to staff: when they joined,
//! when their account was made, and their ids and roles.

use crate::formatting::{
    image_hash_text, member_avatar_link, member_avatar_url, user_avatar_link, user_avatar_url,
    EmbedAuthor, ImageHash,
};
use crate::ids::{decimal, decimal_text, signed_decimal, signed_text};
use vstd::prelude::*;
use vstd::string::*;

verus! {

/// When an id was made, in milliseconds since the Unix epoch: its bits 22
/// and up count milliseconds from the first second of 2015.
pub open spec fn snowflake_millis(id: u64) -> int {
    id as int / 0x40_0000 + 1_420_070_400_000
}

/// Relies on twilight_util's `Snowflake::timestamp` on twilight_model's
/// `Id` (whose `new` panics on zero): `(id >> 22) + 1_420_070_400_000`.
#[verifier::external_body]
fn id_timestamp(id: u64) -> (r: i64)
    requires
        id != 0,
    ensures
        r as int == snowflake_millis(id),
{
    twilight_util::snowflake::Snowflake::timestamp(
        &twilight_model::id::Id::<twilight_model::id::marker::GenericMarker>::new(id),
    )
}

/// A field of an embed.
#[derive(Clone, Debug)]
pub struct EmbedField {
    pub name: String,
    pub value: String,
    pub inline: bool,
}

/// What is known of a user when their card is made.
#[derive(Clone, Debug)]
pub struct UserSnapshot {
    pub user_id: u64,
    pub name: String,
    pub avatar: Option<ImageHash>,
    pub guild_id: u64,
    /// The user's avatar in the guild, if they set one.
    pub member_avatar: Option<ImageHash>,
    /// When they joined the guild, in seconds since the Unix epoch.
    pub joined_at: i64,
    /// The member's roles, each with its name when the role is known.
    pub roles: Vec<(u64, Option<String>)>,
    /// The user's private channel, if it could be opened.
    pub dm_channel_id: Option<u64>,
}

/// A user's card.
#[derive(Clone, Debug)]
pub struct UserCard {
    pub description: String,
    pub thumbnail_url: Option<String>,
    pub author: EmbedAuthor,
    pub fields: Vec<EmbedField>,
}

/// `<t:{secs}:R>** on <t:{secs}>`: a relative time, then the date.
pub open spec fn when_text(secs: int) -> Seq<char> {
    "<t:"@ + signed_decimal(secs) + ":R>** on <t:"@ + signed_decimal(secs) + ">"@
}

pub open spec fn card_description(joined_at: i64, user_id: u64) -> Seq<char> {
    "**Joined server "@ + when_text(joined_at as int) + "\n**Registered "@ + when_text(
        snowflake_millis(user_id) / 1000,
    )
}

/// The names of the known roles, but the guild's everyone role (whose id is
/// the guild's), joined by commas.
pub open spec fn role_list(roles: Seq<(u64, Option<String>)>, guild_id: u64) -> Seq<char>
    decreases roles.len(),
{
    if roles.len() == 0 {
        Seq::empty()
    } else {
        let prev = role_list(roles.drop_last(), guild_id);
        let (id, name) = roles.last();
        match name {
            Some(n) if id != guild_id => if prev.len() == 0 {
                n@
            } else {
                prev + ", "@ + n@
            },
            _ => prev,
        }
    }
}

/// Whether the fields of a card are its user id, then its private channel
/// id when there is one, then its roles when any is listed.
pub open spec fn card_fields(fields: Seq<EmbedField>, s: UserSnapshot) -> bool {
    let roles = role_list(s.roles@, s.guild_id);
    let n: int = 1 + (if s.dm_channel_id is Some { 1int } else { 0 }) + (if roles.len() > 0 { 1int } else { 0 });
    &&& fields.len() == n
    &&& fields[0].name@ == "User ID"@ && fields[0].value@ == decimal(s.user_id as nat) && fields[0].inline
    &&& s.dm_channel_id matches Some(dm) ==> fields[1].name@ == "DM channel ID"@ && fields[1].value@
        == decimal(dm as nat) && fields[1].inline
    &&& roles.len() > 0 ==> fields[n - 1].name@ == "Roles"@ && fields[n - 1].value@ == roles
        && !fields[n - 1].inline
}

fn when(secs: i64) -> (r: String)
    ensures
        r@ == when_text(secs as int),
{
    let mut s = String::from_str("<t:");
    let d = signed_text(secs);
    s.append(d.as_str());
    s.append(":R>** on <t:");
    s.append(d.as_str());
    s.append(">");
    s
}

fn roles_text(roles: &Vec<(u64, Option<String>)>, guild_id: u64) -> (r: String)
    ensures
        r@ == role_list(roles@, guild_id),
{
    let mut text = String::new();
    let mut i: usize = 0;
    while i < roles.len()
        invariant
            0 <= i <= roles@.len(),
            text@ == role_list(roles@.subrange(0, i as int), guild_id),
        decreases roles@.len() - i,
    {
        assert(roles@.subrange(0, i + 1).drop_last() == roles@.subrange(0, i as int));
        let (id, name) = &roles[i];
        match name {
            Some(n) => {
                if *id != guild_id {
                    if !text.as_str().is_empty() {
                        text.append(", ");
                    }
                    text.append(n.as_str());
                }
            },
            None => {},
        }
        i += 1;
    }
    assert(roles@.subrange(0, roles@.len() as int) == roles@);
    text
}

/// The card of a user: when they joined and registered, their avatar, their
/// guild avatar by their name, and their ids and roles.
pub fn user_info_embed(s: &UserSnapshot) -> (r: UserCard)
    requires
        s.user_id != 0,
    ensures
        r.description@ == card_description(s.joined_at, s.user_id),
        match s.avatar {
            Some(h) => r.thumbnail_url matches Some(u) && u@ == user_avatar_link(
                s.user_id,
                image_hash_text(h.bytes@, h.animated),
                h.animated,
            ),
            None => r.thumbnail_url is None,
        },
        r.author.name@ == s.name@,
        match s.member_avatar {
            Some(h) => r.author.icon_url matches Some(u) && u@ == member_avatar_link(
                s.guild_id,
                s.user_id,
                image_hash_text(h.bytes@, h.animated),
                h.animated,
            ),
            None => r.author.icon_url is None,
        },
        card_fields(r.fields@, *s),
{
    let registered = id_timestamp(s.user_id) / 1000;
    let mut description = String::from_str("**Joined server ");
    let joined = when(s.joined_at);
    description.append(joined.as_str());
    description.append("\n**Registered ");
    let reg = when(registered);
    description.append(reg.as_str());
    let thumbnail_url = match s.avatar {
        Some(h) => Some(user_avatar_url(s.user_id, h)),
        None => None,
    };
    let icon_url = match s.member_avatar {
        Some(h) => Some(member_avatar_url(s.guild_id, s.user_id, h)),
        None => None,
    };
    let author = EmbedAuthor { name: s.name.clone(), icon_url };
    let mut fields: Vec<EmbedField> = Vec::new();
    fields.push(EmbedField { name: String::from_str("User ID"), value: decimal_text(s.user_id), inline: true });
    match s.dm_channel_id {
        Some(dm) => {
            fields.push(
                EmbedField { name: String::from_str("DM channel ID"), value: decimal_text(dm), inline: true },
            );
        },
        None => {},
    }
    let roles = roles_text(&s.roles, s.guild_id);
    if !roles.as_str().is_empty() {
        fields.push(EmbedField { name: String::from_str("Roles"), value: roles, inline: false });
    }
    UserCard { description, thumbnail_url, author, fields }
}

} // verus!
