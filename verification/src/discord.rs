//! Discord messages and embeds, guild data, and the permission rule for managing a guild.
use vstd::prelude::*;

use crate::notifications::{NotificationContent, IntegrationContext};
use crate::text::{concat2, concat3, decimal_text, i32_to_text, owned, replace_all, replace_str};

verus! {

broadcast use vstd::string::group_string_axioms;

/// A rich message block.
#[derive(Debug, Clone, PartialEq, Eq)]
pub struct DiscordEmbed {
    pub title: Option<String>,
    pub description: Option<String>,
    pub url: Option<String>,
    pub color: Option<u32>,
    pub timestamp: Option<String>,
    pub footer: Option<EmbedFooter>,
    pub image: Option<EmbedImage>,
    pub thumbnail: Option<EmbedThumbnail>,
    pub author: Option<EmbedAuthor>,
    pub fields: Option<Vec<EmbedField>>,
}

#[derive(Debug, Clone, PartialEq, Eq)]
pub struct EmbedFooter {
    pub text: String,
    pub icon_url: Option<String>,
}

#[derive(Debug, Clone, PartialEq, Eq)]
pub struct EmbedImage {
    pub url: String,
}

#[derive(Debug, Clone, PartialEq, Eq)]
pub struct EmbedThumbnail {
    pub url: String,
}

#[derive(Debug, Clone, PartialEq, Eq)]
pub struct EmbedAuthor {
    pub name: String,
    pub url: Option<String>,
    pub icon_url: Option<String>,
}

#[derive(Debug, Clone, PartialEq, Eq)]
pub struct EmbedField {
    pub name: String,
    pub value: String,
    pub inline: bool,
}

/// A message posted through a channel webhook.
#[derive(Debug, Clone, PartialEq, Eq)]
pub struct WebhookMessage {
    pub content: Option<String>,
    pub username: Option<String>,
    pub avatar_url: Option<String>,
    pub embeds: Option<Vec<DiscordEmbed>>,
}

/// A message posted by the bot into a channel.
#[derive(Debug, Clone, PartialEq, Eq)]
pub struct DiscordMessage {
    pub content: Option<String>,
    pub embeds: Option<Vec<DiscordEmbed>>,
    pub tts: Option<bool>,
}

#[derive(Debug, Clone, PartialEq, Eq)]
pub struct DiscordGuild {
    pub id: String,
    pub name: String,
    pub icon: Option<String>,
}

#[derive(Debug, Clone, PartialEq, Eq)]
pub struct DiscordChannel {
    pub id: String,
    pub name: Option<String>,
    pub channel_type: u8,
    pub guild_id: Option<String>,
}

/// A guild role and its permission bits.
#[derive(Debug, Clone, PartialEq, Eq)]
pub struct DiscordRole {
    pub id: String,
    pub permissions: u64,
}

#[derive(Debug, Clone, PartialEq, Eq)]
pub struct DiscordGuildInfo {
    pub id: String,
    pub name: Option<String>,
    pub owner_id: Option<String>,
}

/// The roles of a guild member.
#[derive(Debug, Clone, PartialEq, Eq)]
pub struct DiscordMember {
    pub roles: Vec<String>,
}

/// A scheduled event of a guild.
#[derive(Debug, Clone, PartialEq, Eq)]
pub struct ScheduledEvent {
    pub id: Option<String>,
    pub guild_id: String,
    pub channel_id: Option<String>,
    pub name: String,
    pub description: Option<String>,
    pub scheduled_start_time: String,
    pub scheduled_end_time: Option<String>,
    /// 2: visible to the guild only.
    pub privacy_level: u8,
    /// 1: stage, 2: voice, 3: external.
    pub entity_type: u8,
    pub entity_metadata: Option<EntityMetadata>,
}

#[derive(Debug, Clone, PartialEq, Eq)]
pub struct EntityMetadata {
    pub location: Option<String>,
}

/// The answer of the OAuth token endpoint.
#[derive(Debug, Clone, PartialEq, Eq)]
pub struct DiscordTokenResponse {
    pub access_token: String,
}

/// A Discord account.
#[derive(Debug, Clone, PartialEq, Eq)]
pub struct DiscordUser {
    pub id: String,
    pub username: String,
    pub discriminator: String,
    pub avatar: Option<String>,
}

/// Embed colour of live announcements.
pub const COLOR_TWITCH_PURPLE: u32 = 0x9146FF;

/// Embed colour of redemptions.
pub const COLOR_SUCCESS: u32 = 0x57F287;

/// Embed colour of other announcements.
pub const COLOR_INFO: u32 = 0x5865F2;

/// An embed with nothing set.
pub open spec fn empty_embed() -> DiscordEmbed {
    DiscordEmbed {
        title: None,
        description: None,
        url: None,
        color: None,
        timestamp: None,
        footer: None,
        image: None,
        thumbnail: None,
        author: None,
        fields: None,
    }
}

/// The option-valued view of an optional string.
pub open spec fn opt_view(o: Option<String>) -> Option<Seq<char>> {
    match o {
        Some(s) => Some(s@),
        None => None,
    }
}

impl DiscordEmbed {
    /// An embed with nothing set.
    pub fn new() -> (r: DiscordEmbed)
        ensures
            r == empty_embed(),
    {
        DiscordEmbed {
            title: None,
            description: None,
            url: None,
            color: None,
            timestamp: None,
            footer: None,
            image: None,
            thumbnail: None,
            author: None,
            fields: None,
        }
    }

    /// The embed with this title.
    pub fn title(self, title: &str) -> (r: DiscordEmbed)
        ensures
            r == (DiscordEmbed { title: r.title, ..self }),
            opt_view(r.title) == Some(title@),
    {
        DiscordEmbed { title: Some(owned(title)), ..self }
    }

    /// The embed with this description.
    pub fn description(self, description: &str) -> (r: DiscordEmbed)
        ensures
            r == (DiscordEmbed { description: r.description, ..self }),
            opt_view(r.description) == Some(description@),
    {
        DiscordEmbed { description: Some(owned(description)), ..self }
    }

    /// The embed with this link.
    pub fn url(self, url: &str) -> (r: DiscordEmbed)
        ensures
            r == (DiscordEmbed { url: r.url, ..self }),
            opt_view(r.url) == Some(url@),
    {
        DiscordEmbed { url: Some(owned(url)), ..self }
    }

    /// The embed with this colour.
    pub fn color(self, color: u32) -> (r: DiscordEmbed)
        ensures
            r == (DiscordEmbed { color: Some(color), ..self }),
    {
        DiscordEmbed { color: Some(color), ..self }
    }

    /// The embed with this timestamp.
    pub fn timestamp(self, timestamp: &str) -> (r: DiscordEmbed)
        ensures
            r == (DiscordEmbed { timestamp: r.timestamp, ..self }),
            opt_view(r.timestamp) == Some(timestamp@),
    {
        DiscordEmbed { timestamp: Some(owned(timestamp)), ..self }
    }

    /// The embed with this footer.
    pub fn footer(self, text: &str, icon_url: Option<String>) -> (r: DiscordEmbed)
        ensures
            r == (DiscordEmbed { footer: r.footer, ..self }),
            r.footer matches Some(f) && f.text@ == text@ && f.icon_url == icon_url,
    {
        DiscordEmbed { footer: Some(EmbedFooter { text: owned(text), icon_url }), ..self }
    }

    /// The embed with this image.
    pub fn image(self, url: &str) -> (r: DiscordEmbed)
        ensures
            r == (DiscordEmbed { image: r.image, ..self }),
            r.image matches Some(i) && i.url@ == url@,
    {
        DiscordEmbed { image: Some(EmbedImage { url: owned(url) }), ..self }
    }

    /// The embed with this thumbnail.
    pub fn thumbnail(self, url: &str) -> (r: DiscordEmbed)
        ensures
            r == (DiscordEmbed { thumbnail: r.thumbnail, ..self }),
            r.thumbnail matches Some(i) && i.url@ == url@,
    {
        DiscordEmbed { thumbnail: Some(EmbedThumbnail { url: owned(url) }), ..self }
    }

    /// The embed with this author.
    pub fn author(self, name: &str, url: Option<String>, icon_url: Option<String>) -> (r:
        DiscordEmbed)
        ensures
            r == (DiscordEmbed { author: r.author, ..self }),
            r.author matches Some(a) && a.name@ == name@ && a.url == url && a.icon_url == icon_url,
    {
        DiscordEmbed { author: Some(EmbedAuthor { name: owned(name), url, icon_url }), ..self }
    }

    /// The embed with one more field, after the ones it has.
    pub fn field(self, name: &str, value: &str, inline: bool) -> (r: DiscordEmbed)
        ensures
            r == (DiscordEmbed { fields: r.fields, ..self }),
            r.fields matches Some(fs) && fs@.len() == (match self.fields {
                Some(old) => old@.len() + 1,
                None => 1,
            }) && (self.fields matches Some(old) ==> fs@.take(old@.len() as int) == old@)
                && fs@.last().name@ == name@ && fs@.last().value@ == value@
                && fs@.last().inline == inline,
    {
        let field = EmbedField { name: owned(name), value: owned(value), inline };
        let DiscordEmbed {
            title,
            description,
            url,
            color,
            timestamp,
            footer,
            image,
            thumbnail,
            author,
            fields,
        } = self;
        let fields = match fields {
            Some(fs) => {
                let mut fs = fs;
                let ghost before = fs@;
                fs.push(field);
                assert(fs@.take(before.len() as int) =~= before);
                Some(fs)
            },
            None => {
                let mut fs: Vec<EmbedField> = Vec::new();
                fs.push(field);
                Some(fs)
            },
        };
        DiscordEmbed {
            title,
            description,
            url,
            color,
            timestamp,
            footer,
            image,
            thumbnail,
            author,
            fields,
        }
    }
}

impl Default for DiscordEmbed {
    fn default() -> (r: DiscordEmbed)
        ensures
            r == empty_embed(),
    {
        DiscordEmbed::new()
    }
}

// ---------------------------------------------------------------------------
// Who may manage a guild
// ---------------------------------------------------------------------------

/// The permission bits of the first role with id `id`, if any.
pub open spec fn role_bits(roles: Seq<DiscordRole>, id: Seq<char>) -> u64
    decreases roles.len(),
{
    if roles.len() == 0 {
        0
    } else if roles[0].id@ == id {
        roles[0].permissions
    } else {
        role_bits(roles.skip(1), id)
    }
}

/// The union of the permission bits of the first `n` roles of a member.
pub open spec fn member_bits(member_roles: Seq<String>, roles: Seq<DiscordRole>, n: int) -> u64
    decreases n,
{
    if n <= 0 {
        0
    } else {
        member_bits(member_roles, roles, n - 1) | role_bits(roles, member_roles[n - 1]@)
    }
}

proof fn lemma_or_keeps_subset(x: u64, a: u64, b: u64)
    by (bit_vector)
    requires
        x & a == x,
    ensures
        x & (a | b) == x,
{
}

proof fn lemma_or_holds_right(a: u64, b: u64)
    by (bit_vector)
    ensures
        b & (a | b) == b,
{
}

proof fn lemma_subset_keeps_bit(x: u64, y: u64, m: u64)
    by (bit_vector)
    requires
        x & y == x,
        x & m != 0,
    ensures
        y & m != 0,
{
}

/// A member's permission bits hold every bit of each of their roles: the bits of the
/// role at `k` are all set in the bits of the first `n` roles (`k < n`), so a member
/// with a role granting manage-guild or administrator has that permission.
pub proof fn law_member_bits_hold_each_role(member_roles: Seq<String>, roles: Seq<DiscordRole>, n: int, k: int)
    requires
        0 <= k < n,
    ensures
        role_bits(roles, member_roles[k]@) & member_bits(member_roles, roles, n) == role_bits(
            roles,
            member_roles[k]@,
        ),
        role_bits(roles, member_roles[k]@) & PERM_MANAGE_GUILD != 0 ==> member_bits(member_roles, roles, n)
            & PERM_MANAGE_GUILD != 0,
        role_bits(roles, member_roles[k]@) & PERM_ADMINISTRATOR != 0 ==> member_bits(member_roles, roles, n)
            & PERM_ADMINISTRATOR != 0,
    decreases n,
{
    let x = role_bits(roles, member_roles[k]@);
    if k == n - 1 {
        lemma_or_holds_right(member_bits(member_roles, roles, n - 1), x);
    } else {
        law_member_bits_hold_each_role(member_roles, roles, n - 1, k);
        lemma_or_keeps_subset(x, member_bits(member_roles, roles, n - 1), role_bits(roles, member_roles[n - 1]@));
    }
    let y = member_bits(member_roles, roles, n);
    if x & PERM_MANAGE_GUILD != 0 {
        lemma_subset_keeps_bit(x, y, PERM_MANAGE_GUILD);
    }
    if x & PERM_ADMINISTRATOR != 0 {
        lemma_subset_keeps_bit(x, y, PERM_ADMINISTRATOR);
    }
}

/// Administrator permission bit.
pub const PERM_ADMINISTRATOR: u64 = 8;

/// Manage-guild permission bit.
pub const PERM_MANAGE_GUILD: u64 = 32;

/// May a member with these permission bits manage the guild's integrations (the owner
/// always may)?
pub open spec fn may_manage(perms: u64, is_owner: bool) -> bool {
    is_owner || perms & PERM_ADMINISTRATOR != 0 || perms & PERM_MANAGE_GUILD != 0
}

/// The permission bits of the first role with id `id` (0 when there is none).
fn find_role_bits(roles: &Vec<DiscordRole>, id: &str) -> (r: u64)
    ensures
        r == role_bits(roles@, id@),
{
    let mut i: usize = 0;
    assert(roles@.skip(0) =~= roles@);
    while i < roles.len()
        invariant
            i <= roles.len(),
            role_bits(roles@.skip(i as int), id@) == role_bits(roles@, id@),
        decreases roles.len() - i,
    {
        assert(roles@.skip(i as int)[0] == roles@[i as int]);
        if crate::text::str_equal(roles[i].id.as_str(), id) {
            return roles[i].permissions;
        }
        assert(roles@.skip(i as int).skip(1) =~= roles@.skip(i + 1));
        i = i + 1;
    }
    assert(roles@.skip(i as int).len() == 0);
    0
}

/// The union of the permission bits of a member's roles.
pub fn member_permissions(member: &DiscordMember, roles: &Vec<DiscordRole>) -> (r: u64)
    ensures
        r == member_bits(member.roles@, roles@, member.roles@.len() as int),
{
    let mut perms: u64 = 0;
    let mut i: usize = 0;
    while i < member.roles.len()
        invariant
            i <= member.roles.len(),
            perms == member_bits(member.roles@, roles@, i as int),
        decreases member.roles.len() - i,
    {
        let bits = find_role_bits(roles, member.roles[i].as_str());
        perms = perms | bits;
        i = i + 1;
    }
    perms
}

/// May the user manage the guild: its owner, or a member whose roles grant administrator
/// or manage-guild permission.
pub fn has_manage_permissions(perms: u64, owner_id: Option<&str>, user_id: &str) -> (r: bool)
    ensures
        r == may_manage(
            perms,
            match owner_id {
                Some(o) => o@ == user_id@,
                None => false,
            },
        ),
{
    let is_owner = match owner_id {
        Some(o) => crate::text::str_equal(o, user_id),
        None => false,
    };
    is_owner || (perms & PERM_ADMINISTRATOR) != 0 || (perms & PERM_MANAGE_GUILD) != 0
}

/// A permission bit-field given as text.
pub fn permissions_from_text(s: &str) -> (r: Option<u64>)
    ensures
        r matches Some(n) ==> crate::numbers::parsed_unsigned(s@, u64::MAX as int) == Some(
            n as nat,
        ),
        r is None ==> crate::numbers::parsed_unsigned(s@, u64::MAX as int) is None,
{
    crate::numbers::parse_u64(s)
}

// ---------------------------------------------------------------------------
// Addresses
// ---------------------------------------------------------------------------

/// The address of an API endpoint.
pub fn api_url(endpoint: &str) -> (r: String)
    ensures
        r@ == "https://discord.com/api/v10"@ + endpoint@,
{
    concat2("https://discord.com/api/v10", endpoint)
}

/// The authorization header of the bot.
pub fn auth_header(bot_token: &str) -> (r: String)
    ensures
        r@ == "Bot "@ + bot_token@,
{
    concat2("Bot ", bot_token)
}

/// How a linked account is shown: `<username>#<discriminator>`.
pub fn account_label(user: &DiscordUser) -> (r: String)
    ensures
        r@ == user.username@ + "#"@ + user.discriminator@,
{
    concat3(user.username.as_str(), "#", user.discriminator.as_str())
}

/// The avatar address of an account (empty when it has no avatar).
pub fn avatar_url(user: &DiscordUser) -> (r: String)
    ensures
        user.avatar matches Some(a) ==> r@ == "https://cdn.discordapp.com/avatars/"@ + user.id@
            + "/"@ + a@ + ".png"@,
        user.avatar is None ==> r@ == Seq::<char>::empty(),
{
    match &user.avatar {
        Some(a) => {
            let s = concat3("https://cdn.discordapp.com/avatars/", user.id.as_str(), "/");
            concat3(s.as_str(), a.as_str(), ".png")
        },
        None => String::new(),
    }
}

// ---------------------------------------------------------------------------
// Notification embeds
// ---------------------------------------------------------------------------

/// A stream thumbnail address at the size embeds use (440×248).
pub open spec fn sized_thumbnail(t: Seq<char>) -> Seq<char> {
    replace_all(replace_all(t, "{width}"@, "440"@), "{height}"@, "248"@)
}

/// The embed announcing a live stream (`timestamp` is the current time, RFC 3339).
pub fn create_stream_online_embed(
    streamer_name: &str,
    streamer_avatar: Option<&str>,
    title: &str,
    game: &str,
    thumbnail_url: Option<&str>,
    stream_url: &str,
    timestamp: &str,
) -> (r: DiscordEmbed)
    ensures
        opt_view(r.title) == Some("🔴 "@ + streamer_name@ + " is now live!"@),
        opt_view(r.description) == Some(title@),
        opt_view(r.url) == Some(stream_url@),
        r.color == Some(COLOR_TWITCH_PURPLE),
        opt_view(r.timestamp) == Some(timestamp@),
        r.footer is None,
        r.thumbnail is None,
        r.fields matches Some(fs) && fs@.len() == 1 && fs@[0].name@ == "Game"@ && fs@[0].value@
            == game@ && fs@[0].inline,
        streamer_avatar matches Some(a) ==> (r.author matches Some(au) && au.name@
            == streamer_name@ && opt_view(au.url) == Some(stream_url@) && opt_view(au.icon_url)
            == Some(a@)),
        streamer_avatar is None ==> r.author is None,
        thumbnail_url matches Some(t) ==> (r.image matches Some(i) && i.url@ == sized_thumbnail(
            t@,
        )),
        thumbnail_url is None ==> r.image is None,
{
    proof {
        reveal_strlit("{width}");
        reveal_strlit("{height}");
    }
    let heading = concat3("🔴 ", streamer_name, " is now live!");
    let embed = DiscordEmbed::new().title(heading.as_str()).description(title).url(
        stream_url,
    ).color(COLOR_TWITCH_PURPLE).field("Game", game, true).timestamp(timestamp);
    let embed = match streamer_avatar {
        Some(avatar) => embed.author(streamer_name, Some(owned(stream_url)), Some(owned(avatar))),
        None => embed,
    };
    match thumbnail_url {
        Some(t) => {
            let sized = replace_str(t, "{width}", "440");
            let sized = replace_str(sized.as_str(), "{height}", "248");
            embed.image(sized.as_str())
        },
        None => embed,
    }
}

/// The embed announcing the end of a stream.
pub fn create_stream_offline_embed(streamer_name: &str, stream_url: &str, timestamp: &str) -> (r:
    DiscordEmbed)
    ensures
        r == (DiscordEmbed {
            title: r.title,
            url: r.url,
            color: Some(COLOR_INFO),
            timestamp: r.timestamp,
            ..empty_embed()
        }),
        opt_view(r.title) == Some("⚫ "@ + streamer_name@ + " ended the stream"@),
        opt_view(r.url) == Some(stream_url@),
        opt_view(r.timestamp) == Some(timestamp@),
{
    let heading = concat3("⚫ ", streamer_name, " ended the stream");
    DiscordEmbed::new().title(heading.as_str()).url(stream_url).color(COLOR_INFO).timestamp(
        timestamp,
    )
}

/// The embed announcing a new title, with the user's rendered message.
pub fn create_title_change_embed_with_message(
    streamer_name: &str,
    stream_url: &str,
    message: &str,
    timestamp: &str,
) -> (r: DiscordEmbed)
    ensures
        r == (DiscordEmbed {
            title: r.title,
            description: r.description,
            url: r.url,
            color: Some(COLOR_INFO),
            timestamp: r.timestamp,
            ..empty_embed()
        }),
        opt_view(r.title) == Some("📝 "@ + streamer_name@ + " changed the stream title"@),
        opt_view(r.description) == Some(message@),
        opt_view(r.url) == Some(stream_url@),
        opt_view(r.timestamp) == Some(timestamp@),
{
    let heading = concat3("📝 ", streamer_name, " changed the stream title");
    DiscordEmbed::new().title(heading.as_str()).description(message).url(stream_url).color(
        COLOR_INFO,
    ).timestamp(timestamp)
}

/// The embed announcing a new category, with the user's rendered message.
pub fn create_category_change_embed_with_message(
    streamer_name: &str,
    stream_url: &str,
    message: &str,
    timestamp: &str,
) -> (r: DiscordEmbed)
    ensures
        r == (DiscordEmbed {
            title: r.title,
            description: r.description,
            url: r.url,
            color: Some(COLOR_INFO),
            timestamp: r.timestamp,
            ..empty_embed()
        }),
        opt_view(r.title) == Some("🎮 "@ + streamer_name@ + " changed the category"@),
        opt_view(r.description) == Some(message@),
        opt_view(r.url) == Some(stream_url@),
        opt_view(r.timestamp) == Some(timestamp@),
{
    let heading = concat3("🎮 ", streamer_name, " changed the category");
    DiscordEmbed::new().title(heading.as_str()).description(message).url(stream_url).color(
        COLOR_INFO,
    ).timestamp(timestamp)
}

/// The embed announcing a redemption; a non-empty viewer message becomes a field.
pub fn create_reward_redemption_embed(
    redeemer_name: &str,
    reward_name: &str,
    reward_cost: i32,
    user_input: Option<&str>,
    timestamp: &str,
) -> (r: DiscordEmbed)
    ensures
        opt_view(r.title) == Some("🎁 "@ + redeemer_name@ + " redeemed a reward!"@),
        opt_view(r.description) == Some(
            "**"@ + reward_name@ + "** for "@ + decimal_text(reward_cost as int) + " points"@,
        ),
        r.url is None,
        r.color == Some(COLOR_SUCCESS),
        opt_view(r.timestamp) == Some(timestamp@),
        r.author is None && r.image is None && r.footer is None && r.thumbnail is None,
        match user_input {
            Some(m) => if m@.len() > 0 {
                r.fields matches Some(fs) && fs@.len() == 1 && fs@[0].name@ == "Message"@
                    && fs@[0].value@ == m@ && !fs@[0].inline
            } else {
                r.fields is None
            },
            None => r.fields is None,
        },
{
    let heading = concat3("🎁 ", redeemer_name, " redeemed a reward!");
    let cost = i32_to_text(reward_cost);
    let d1 = concat3("**", reward_name, "** for ");
    let body = concat3(d1.as_str(), cost.as_str(), " points");
    let embed = DiscordEmbed::new().title(heading.as_str()).description(body.as_str()).color(
        COLOR_SUCCESS,
    ).timestamp(timestamp);
    match user_input {
        Some(input) => {
            if !input.is_empty() {
                embed.field("Message", input, false)
            } else {
                embed
            }
        },
        None => embed,
    }
}

/// A Discord delivery: through the integration's webhook when it has one, else by the bot
/// into the channel.
#[derive(Debug, Clone, PartialEq, Eq)]
pub enum DiscordOutgoing {
    Webhook { webhook_url: String, webhook_message: WebhookMessage },
    Channel { channel_id: String, channel_message: DiscordMessage },
}

/// The embed, sender name and sender avatar of a notification delivered to Discord.
pub fn discord_notification_parts(
    content: NotificationContent,
    stream_url: Option<&str>,
    message: &str,
    timestamp: &str,
) -> (r: (DiscordEmbed, Option<String>, Option<String>))
    ensures
        match content {
            NotificationContent::StreamOnline(d) => opt_view(r.1) == Some(
                d.streamer_name@ + " is live!"@,
            ) && r.2 == d.streamer_avatar && opt_view(r.0.description) == Some(d.title@) && (r.0.fields matches Some(fs)
                && fs@.len() == 1 && fs@[0].name@ == "Game"@ && fs@[0].value@ == d.category@
                && fs@[0].inline) && opt_view(r.0.title) == Some("🔴 "@ + d.streamer_name@ + " is now live!"@),
            NotificationContent::StreamOffline(d) => opt_view(r.1) == Some(d.streamer_name@)
                && r.2 is None && opt_view(r.0.title) == Some("⚫ "@ + d.streamer_name@ + " ended the stream"@),
            NotificationContent::TitleChange(d) => opt_view(r.1) == Some(d.streamer_name@)
                && r.2 is None && opt_view(r.0.description) == Some(message@) && opt_view(r.0.title)
                == Some("📝 "@ + d.streamer_name@ + " changed the stream title"@),
            NotificationContent::CategoryChange(d) => opt_view(r.1) == Some(d.streamer_name@)
                && r.2 is None && opt_view(r.0.description) == Some(message@) && opt_view(r.0.title)
                == Some("🎮 "@ + d.streamer_name@ + " changed the category"@),
            NotificationContent::RewardRedemption(d) => opt_view(r.1) == Some(
                d.broadcaster_name@,
            ) && r.2 is None && opt_view(r.0.title) == Some("🎁 "@ + d.redeemer_name@ + " redeemed a reward!"@)
                && opt_view(r.0.description) == Some(
                "**"@ + d.reward_name@ + "** for "@ + decimal_text(d.reward_cost as int) + " points"@,
            ),
        },
        !(content is RewardRedemption) ==> opt_view(r.0.url) == Some(
            match stream_url {
                Some(u) => u@,
                None => Seq::<char>::empty(),
            },
        ),
        opt_view(r.0.timestamp) == Some(timestamp@),
{
    proof {
        reveal_strlit("");
    }
    let url: &str = match stream_url {
        Some(u) => u,
        None => "",
    };
    match content {
        NotificationContent::StreamOnline(d) => {
            let avatar: Option<&str> = match &d.streamer_avatar {
                Some(a) => Some(a.as_str()),
                None => None,
            };
            let thumb: Option<&str> = match &d.thumbnail_url {
                Some(t) => Some(t.as_str()),
                None => None,
            };
            let embed = create_stream_online_embed(
                d.streamer_name.as_str(),
                avatar,
                d.title.as_str(),
                d.category.as_str(),
                thumb,
                url,
                timestamp,
            );
            (embed, Some(concat2(d.streamer_name.as_str(), " is live!")), d.streamer_avatar.clone())
        },
        NotificationContent::StreamOffline(d) => {
            let embed = create_stream_offline_embed(d.streamer_name.as_str(), url, timestamp);
            (embed, Some(d.streamer_name.clone()), None)
        },
        NotificationContent::TitleChange(d) => {
            let embed = create_title_change_embed_with_message(
                d.streamer_name.as_str(),
                url,
                message,
                timestamp,
            );
            (embed, Some(d.streamer_name.clone()), None)
        },
        NotificationContent::CategoryChange(d) => {
            let embed = create_category_change_embed_with_message(
                d.streamer_name.as_str(),
                url,
                message,
                timestamp,
            );
            (embed, Some(d.streamer_name.clone()), None)
        },
        NotificationContent::RewardRedemption(d) => {
            let input: Option<&str> = match &d.user_input {
                Some(m) => Some(m.as_str()),
                None => None,
            };
            let embed = create_reward_redemption_embed(
                d.redeemer_name.as_str(),
                d.reward_name.as_str(),
                d.reward_cost,
                input,
                timestamp,
            );
            (embed, Some(d.broadcaster_name.clone()), None)
        },
    }
}

/// How a notification is posted: through the webhook when the integration has one
/// (with the sender name and avatar), else by the bot into the destination channel.
pub fn discord_outgoing(
    ctx: &IntegrationContext,
    embed: DiscordEmbed,
    username: Option<String>,
    avatar: Option<String>,
) -> (r: DiscordOutgoing)
    ensures
        ctx.webhook_url matches Some(w) ==> r == (DiscordOutgoing::Webhook {
            webhook_url: w,
            webhook_message: WebhookMessage {
                content: None,
                username,
                avatar_url: avatar,
                embeds: r->webhook_message.embeds,
            },
        }) && (r->webhook_message.embeds matches Some(es) && es@ == seq![embed]),
        ctx.webhook_url is None ==> r == (DiscordOutgoing::Channel {
            channel_id: ctx.destination_id,
            channel_message: DiscordMessage {
                content: None,
                embeds: r->channel_message.embeds,
                tts: None,
            },
        }) && (r->channel_message.embeds matches Some(es) && es@ == seq![embed]),
{
    let mut embeds: Vec<DiscordEmbed> = Vec::new();
    embeds.push(embed);
    match &ctx.webhook_url {
        Some(w) => DiscordOutgoing::Webhook {
            webhook_url: w.clone(),
            webhook_message: WebhookMessage {
                content: None,
                username,
                avatar_url: avatar,
                embeds: Some(embeds),
            },
        },
        None => DiscordOutgoing::Channel {
            channel_id: ctx.destination_id.clone(),
            channel_message: DiscordMessage { content: None, embeds: Some(embeds), tts: None },
        },
    }
}

} // verus!
