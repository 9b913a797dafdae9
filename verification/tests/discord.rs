use twitch_notifications::discord::{
    account_label, api_url, auth_header, avatar_url, create_reward_redemption_embed,
    create_stream_offline_embed, create_stream_online_embed, discord_notification_parts,
    discord_outgoing, has_manage_permissions, member_permissions, permissions_from_text,
    DiscordEmbed, DiscordMember, DiscordOutgoing, DiscordRole, DiscordUser, COLOR_INFO,
    COLOR_TWITCH_PURPLE,
};
use twitch_notifications::notifications::{IntegrationContext, NotificationContent, StreamOfflineData};

#[test]
fn embed_builders_keep_other_fields() {
    let e = DiscordEmbed::new()
        .title("T")
        .description("D")
        .url("https://u")
        .color(5)
        .footer("f", None)
        .field("a", "1", true)
        .field("b", "2", false);
    assert_eq!(e.title, Some("T".to_string()));
    assert_eq!(e.color, Some(5));
    let fields = e.fields.unwrap();
    assert_eq!(fields.len(), 2);
    assert_eq!((fields[1].name.as_str(), fields[1].inline), ("b", false));
    assert_eq!(e.footer.unwrap().text, "f");
    assert_eq!(DiscordEmbed::default(), DiscordEmbed::new());
}

#[test]
fn manage_permission_rule() {
    let roles = vec![
        DiscordRole { id: "r1".to_string(), permissions: 1024 },
        DiscordRole { id: "r2".to_string(), permissions: 32 },
        DiscordRole { id: "r3".to_string(), permissions: 8 },
    ];
    let member = DiscordMember { roles: vec!["r1".to_string(), "missing".to_string()] };
    let p = member_permissions(&member, &roles);
    assert_eq!(p, 1024);
    assert!(!has_manage_permissions(p, Some("owner"), "me"));
    assert!(has_manage_permissions(p, Some("me"), "me"));
    let member = DiscordMember { roles: vec!["r1".to_string(), "r2".to_string()] };
    assert!(has_manage_permissions(member_permissions(&member, &roles), None, "me"));
    assert!(has_manage_permissions(8, None, "me"));
    assert_eq!(permissions_from_text("2147483647"), Some(2147483647));
    assert_eq!(permissions_from_text("x"), None);
}

#[test]
fn discord_addresses() {
    assert_eq!(api_url("/users/@me"), "https://discord.com/api/v10/users/@me");
    assert_eq!(auth_header("tok"), "Bot tok");
    let u = DiscordUser {
        id: "9".to_string(),
        username: "neo".to_string(),
        discriminator: "0001".to_string(),
        avatar: Some("abc".to_string()),
    };
    assert_eq!(account_label(&u), "neo#0001");
    assert_eq!(avatar_url(&u), "https://cdn.discordapp.com/avatars/9/abc.png");
    assert_eq!(avatar_url(&DiscordUser { avatar: None, ..u }), "");
}

#[test]
fn notification_embeds() {
    let e = create_stream_online_embed(
        "HafMC",
        Some("https://a"),
        "Title",
        "Chess",
        Some("https://t/{width}x{height}.jpg"),
        "https://twitch.tv/hafmc",
        "2024-01-01T00:00:00Z",
    );
    assert_eq!(e.title, Some("🔴 HafMC is now live!".to_string()));
    assert_eq!(e.color, Some(COLOR_TWITCH_PURPLE));
    assert_eq!(e.image.unwrap().url, "https://t/440x248.jpg");
    assert_eq!(e.author.unwrap().icon_url, Some("https://a".to_string()));
    let off = create_stream_offline_embed("HafMC", "https://twitch.tv/hafmc", "ts");
    assert_eq!(off.title, Some("⚫ HafMC ended the stream".to_string()));
    assert_eq!(off.color, Some(COLOR_INFO));
    let r = create_reward_redemption_embed("v", "R", 100, Some(""), "ts");
    assert_eq!(r.description, Some("**R** for 100 points".to_string()));
    assert_eq!(r.fields, None);
    let r = create_reward_redemption_embed("v", "R", 100, Some("hello"), "ts");
    assert_eq!(r.fields.unwrap()[0].value, "hello");
}

#[test]
fn discord_delivery_by_webhook_or_channel() {
    let data = StreamOfflineData { streamer_name: "HafMC".to_string() };
    let (embed, username, avatar) = discord_notification_parts(
        NotificationContent::StreamOffline(&data),
        Some("https://twitch.tv/hafmc"),
        "msg",
        "ts",
    );
    assert_eq!(username, Some("HafMC".to_string()));
    assert_eq!(avatar, None);
    let ctx = IntegrationContext { destination_id: "chan".to_string(), webhook_url: None };
    match discord_outgoing(&ctx, embed.clone(), username.clone(), avatar.clone()) {
        DiscordOutgoing::Channel { channel_id, channel_message } => {
            assert_eq!(channel_id, "chan");
            assert_eq!(channel_message.embeds.unwrap(), vec![embed.clone()]);
        }
        other => panic!("unexpected {:?}", other),
    }
    let ctx = IntegrationContext {
        destination_id: "chan".to_string(),
        webhook_url: Some("https://hook".to_string()),
    };
    match discord_outgoing(&ctx, embed, username, avatar) {
        DiscordOutgoing::Webhook { webhook_url, webhook_message } => {
            assert_eq!(webhook_url, "https://hook");
            assert_eq!(webhook_message.username, Some("HafMC".to_string()));
        }
        other => panic!("unexpected {:?}", other),
    }
}
