//! Links to avatars and stickers on the platform's CDN, and the author line
//! of a relayed message.

use crate::ids::{decimal, decimal_text};
use vstd::prelude::*;
use vstd::string::*;

verus! {

/// An image hash: sixteen bytes, and whether the image is animated.
#[derive(Clone, Copy, Debug, PartialEq, Eq)]
pub struct ImageHash {
    pub bytes: [u8; 16],
    pub animated: bool,
}

/// The text of an image hash, as the platform writes it in links.
pub uninterp spec fn image_hash_text(bytes: Seq<u8>, animated: bool) -> Seq<char>;

/// Relies on twilight_model's `ImageHash::new` and its `Display`: the text
/// depends on the bytes and the animation flag alone.
#[verifier::external_body]
fn hash_text(hash: &ImageHash) -> (r: String)
    ensures
        r@ == image_hash_text(hash.bytes@, hash.animated),
{
    twilight_model::util::ImageHash::new(hash.bytes, hash.animated).to_string()
}

/// The file extension of an avatar.
pub open spec fn avatar_extension(animated: bool) -> Seq<char> {
    if animated {
        ".gif"@
    } else {
        ".png"@
    }
}

fn extension(animated: bool) -> (r: &'static str)
    ensures
        r@ == avatar_extension(animated),
{
    if animated {
        ".gif"
    } else {
        ".png"
    }
}

pub open spec fn user_avatar_link(user_id: u64, text: Seq<char>, animated: bool) -> Seq<char> {
    "https://cdn.discordapp.com/avatars/"@ + decimal(user_id as nat) + "/"@ + text
        + avatar_extension(animated)
}

pub open spec fn member_avatar_link(guild_id: u64, user_id: u64, text: Seq<char>, animated: bool) -> Seq<char> {
    "https://cdn.discordapp.com/guilds/"@ + decimal(guild_id as nat) + "/users/"@ + decimal(
        user_id as nat,
    ) + "/avatars/"@ + text + avatar_extension(animated)
}

/// The link to a user's avatar, given the text of its hash.
pub fn user_avatar_url_from_text(user_id: u64, hash_text: &str, animated: bool) -> (r: String)
    ensures
        r@ == user_avatar_link(user_id, hash_text@, animated),
{
    let mut url = String::from_str("https://cdn.discordapp.com/avatars/");
    let id = decimal_text(user_id);
    url.append(id.as_str());
    url.append("/");
    url.append(hash_text);
    url.append(extension(animated));
    url
}

/// The link to a user's avatar.
pub fn user_avatar_url(user_id: u64, hash: ImageHash) -> (r: String)
    ensures
        r@ == user_avatar_link(user_id, image_hash_text(hash.bytes@, hash.animated), hash.animated),
{
    let text = hash_text(&hash);
    user_avatar_url_from_text(user_id, text.as_str(), hash.animated)
}

/// The link to a member's avatar in a guild, given the text of its hash.
pub fn member_avatar_url_from_text(guild_id: u64, user_id: u64, hash_text: &str, animated: bool) -> (r: String)
    ensures
        r@ == member_avatar_link(guild_id, user_id, hash_text@, animated),
{
    let mut url = String::from_str("https://cdn.discordapp.com/guilds/");
    let guild = decimal_text(guild_id);
    url.append(guild.as_str());
    url.append("/users/");
    let user = decimal_text(user_id);
    url.append(user.as_str());
    url.append("/avatars/");
    url.append(hash_text);
    url.append(extension(animated));
    url
}

/// The link to a member's guild-specific avatar.
pub fn member_avatar_url(guild_id: u64, user_id: u64, hash: ImageHash) -> (r: String)
    ensures
        r@ == member_avatar_link(
            guild_id,
            user_id,
            image_hash_text(hash.bytes@, hash.animated),
            hash.animated,
        ),
{
    let text = hash_text(&hash);
    member_avatar_url_from_text(guild_id, user_id, text.as_str(), hash.animated)
}

/// The file format of a sticker.
#[derive(Clone, Copy, Debug, PartialEq, Eq, Structural)]
pub enum StickerFormat {
    Png,
    Apng,
    Lottie,
    Gif,
    Unknown(u8),
}

/// A sticker attached to a message.
#[derive(Clone, Debug)]
pub struct Sticker {
    pub id: u64,
    pub name: String,
    pub format: StickerFormat,
}

/// The extension of a sticker image, for the formats that have an image.
pub open spec fn sticker_extension(format: StickerFormat) -> Option<Seq<char>> {
    match format {
        StickerFormat::Png => Some("png"@),
        StickerFormat::Apng => Some("apng"@),
        StickerFormat::Gif => Some("gif"@),
        _ => None,
    }
}

pub open spec fn sticker_link(id: u64, format: StickerFormat) -> Option<Seq<char>> {
    match sticker_extension(format) {
        Some(ext) => Some("https://cdn.discordapp.com/stickers/"@ + decimal(id as nat) + "."@ + ext),
        None => None,
    }
}

/// The link to a sticker's image; `None` for formats without one (Lottie
/// animations and unknown formats).
pub fn sticker_url(sticker: &Sticker) -> (r: Option<String>)
    ensures
        r is Some <==> sticker_link(sticker.id, sticker.format) is Some,
        r matches Some(url) ==> Some(url@) == sticker_link(sticker.id, sticker.format),
{
    let ext: &str = match sticker.format {
        StickerFormat::Png => "png",
        StickerFormat::Apng => "apng",
        StickerFormat::Gif => "gif",
        _ => {
            return None;
        },
    };
    let mut url = String::from_str("https://cdn.discordapp.com/stickers/");
    let id = decimal_text(sticker.id);
    url.append(id.as_str());
    url.append(".");
    url.append(ext);
    Some(url)
}

/// The author line of an embed: a name and an optional icon.
#[derive(Clone, Debug)]
pub struct EmbedAuthor {
    pub name: String,
    pub icon_url: Option<String>,
}

/// The author line of a relayed message: the user's name, with their
/// avatar as the icon when they have one.
pub fn embed_author(user_id: u64, name: &str, avatar: Option<ImageHash>) -> (r: EmbedAuthor)
    ensures
        r.name@ == name@,
        r.icon_url is Some <==> avatar is Some,
        avatar matches Some(h) ==> r.icon_url matches Some(u) && u@ == user_avatar_link(
            user_id,
            image_hash_text(h.bytes@, h.animated),
            h.animated,
        ),
{
    let icon_url = match avatar {
        Some(hash) => Some(user_avatar_url(user_id, hash)),
        None => None,
    };
    EmbedAuthor { name: String::from_str(name), icon_url }
}

} // verus!
