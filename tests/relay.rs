use mention_relay::discord_mention_monitor::{DiscordMentionMonitor, DiscordMentionMonitorBuilder};
use mention_relay::line_handler::LineHandler;
use mention_relay::message_provider::{GuildLookup, MessageError, MessageProvider};
use mention_relay::text::{chars_of, replace};

fn monitor(id: &str) -> DiscordMentionMonitor<u32> {
    DiscordMentionMonitor::<u32>::builder(id.to_string())
        .mention_callback(7)
        .build()
        .expect("monitor builds")
}

#[test]
fn mention_token_anywhere_matches() {
    let m = monitor("123");
    assert!(m.is_mention("<@123> are you there?"));
    assert!(m.is_mention("hello <@123>"));
    assert!(m.is_mention("a<@123>b<@456>"));
}

#[test]
fn text_without_token_does_not_match() {
    let m = monitor("123");
    assert!(!m.is_mention(""));
    assert!(!m.is_mention("123"));
    assert!(!m.is_mention("@123"));
    assert!(!m.is_mention("<@1234>"));
    assert!(!m.is_mention("<@12>3"));
    assert!(!m.is_mention("<@!123>"));
}

#[test]
fn other_identity_does_not_match() {
    let m = monitor("999");
    assert!(!m.is_mention("<@123> are you there?"));
}

#[test]
fn special_characters_match_only_literally() {
    let m = monitor("a.b*");
    assert!(m.is_mention("hi <@a.b*>!"));
    assert!(!m.is_mention("hi <@axb>!"));
    assert!(!m.is_mention("hi <@a.bbbb>!"));
    assert!(!m.is_mention("hi <@a.b>!"));
    let m = monitor("(x|y)");
    assert!(m.is_mention("<@(x|y)>"));
    assert!(!m.is_mention("<@x>"));
    let m = monitor("^1$");
    assert!(m.is_mention("ping <@^1$> now"));
    assert!(!m.is_mention("<@1>"));
}

#[test]
fn build_without_callback_fails() {
    let b: DiscordMentionMonitorBuilder<u32> = DiscordMentionMonitor::builder("123".to_string());
    match b.build() {
        Err(e) => assert_eq!(e, "Callback not provided"),
        Ok(_) => panic!("a monitor without a callback was built"),
    }
}

#[test]
fn build_with_empty_id_fails() {
    let b = DiscordMentionMonitor::<u32>::builder(String::new()).mention_callback(1);
    match b.build() {
        Err(e) => assert_eq!(e, "Target user id is empty"),
        Ok(_) => panic!("a monitor for an empty id was built"),
    }
}

#[test]
fn built_monitor_keeps_its_settings() {
    let m = monitor("42");
    assert_eq!(m.target_user_id(), "42");
    assert_eq!(*m.callback(), 7);
}

#[test]
fn mention_callback_replaces_the_callback() {
    let b = DiscordMentionMonitor::<u32>::builder("5".to_string()).mention_callback(1);
    let m = b.mention_callback(2).build().expect("monitor builds");
    assert_eq!(*m.callback(), 2);
    assert_eq!(m.target_user_id(), "5");
}

#[test]
fn resolved_guild_name_is_substituted() {
    let g = GuildLookup::Resolved("Team Alpha".to_string());
    let r = MessageProvider::build_message(&g, Some("New mention in {guild_name}!"));
    assert_eq!(r, Ok("New mention in Team Alpha!".to_string()));
}

#[test]
fn direct_message_uses_dm() {
    let r = MessageProvider::build_message(&GuildLookup::Direct, Some("Mention in {guild_name}"));
    assert_eq!(r, Ok("Mention in DM".to_string()));
}

#[test]
fn failed_lookup_uses_na() {
    let r = MessageProvider::build_message(&GuildLookup::Failed, Some("Mention in {guild_name}"));
    assert_eq!(r, Ok("Mention in N/A".to_string()));
}

#[test]
fn missing_format_is_an_error() {
    let g = GuildLookup::Resolved("Team Alpha".to_string());
    assert_eq!(MessageProvider::build_message(&g, None), Err(MessageError::FormatNotSet));
    assert_eq!(MessageProvider::build_message(&GuildLookup::Direct, None), Err(MessageError::FormatNotSet));
}

#[test]
fn every_placeholder_is_replaced() {
    let g = GuildLookup::Resolved("G".to_string());
    let r = MessageProvider::build_message(&g, Some("{guild_name}/{guild_name}{guild_name}"));
    assert_eq!(r, Ok("G/GG".to_string()));
    let r = MessageProvider::build_message(&g, Some("no placeholder"));
    assert_eq!(r, Ok("no placeholder".to_string()));
    let r = MessageProvider::build_message(&g, Some(""));
    assert_eq!(r, Ok(String::new()));
    let r = MessageProvider::build_message(&g, Some("{guild_name"));
    assert_eq!(r, Ok("{guild_name".to_string()));
}

#[test]
fn formatting_twice_gives_the_same_text() {
    let g = GuildLookup::Resolved("Team Alpha".to_string());
    let first = MessageProvider::build_message(&g, Some("New mention in {guild_name}!"));
    let second = MessageProvider::build_message(&g, Some("New mention in {guild_name}!"));
    assert_eq!(first, second);
}

#[test]
fn guild_names_for_each_lookup() {
    assert_eq!(MessageProvider::guild_name(&GuildLookup::Direct), "DM");
    assert_eq!(MessageProvider::guild_name(&GuildLookup::Failed), "N/A");
    assert_eq!(MessageProvider::guild_name(&GuildLookup::Resolved("ü ß".to_string())), "ü ß");
}

#[test]
fn replace_is_left_to_right_without_overlap() {
    assert_eq!(replace("aaaa", "aa", "b"), "bb");
    assert_eq!(replace("aaa", "aa", "b"), "ba");
    assert_eq!(replace("héllo wörld", "ö", "o"), "héllo world");
    assert_eq!(replace("abc", "abcd", "x"), "abc");
}

#[test]
fn chars_of_splits_into_characters() {
    assert_eq!(chars_of("aé😀"), vec!['a', 'é', '😀']);
    assert_eq!(chars_of(""), Vec::<char>::new());
}

#[test]
fn handler_keeps_its_settings() {
    let h = LineHandler::new("https://api.example/push".to_string(), "tok".to_string(), "U1".to_string());
    assert_eq!(h.messaging_api_url(), "https://api.example/push");
    assert_eq!(h.token(), "tok");
    assert_eq!(h.target_user_id(), "U1");
}

#[test]
fn notification_body_has_one_text_message() {
    let h = LineHandler::new("u".to_string(), "t".to_string(), "U123".to_string());
    assert_eq!(
        h.notification_body("Mention in DM"),
        "{\"to\":\"U123\",\"messages\":[{\"type\":\"text\",\"text\":\"Mention in DM\"}]}"
    );
}

#[test]
fn notification_body_escapes_text() {
    let h = LineHandler::new("u".to_string(), "t".to_string(), "U\"1".to_string());
    let body = h.notification_body("say \"hi\"\nback\\slash");
    assert_eq!(
        body,
        "{\"to\":\"U\\\"1\",\"messages\":[{\"type\":\"text\",\"text\":\"say \\\"hi\\\"\\nback\\\\slash\"}]}"
    );
    let v: serde_json::Value = serde_json::from_str(&body).expect("body is JSON");
    assert_eq!(v["to"], "U\"1");
    assert_eq!(v["messages"][0]["type"], "text");
    assert_eq!(v["messages"][0]["text"], "say \"hi\"\nback\\slash");
    assert_eq!(v["messages"].as_array().map(|m| m.len()), Some(1));
}

#[test]
fn mention_flows_into_one_notification() {
    let m = monitor("123");
    let content = "<@123> are you there?";
    assert!(m.is_mention(content));
    let text = MessageProvider::build_message(&GuildLookup::Direct, Some("Mention in {guild_name}"))
        .expect("text builds");
    let h = LineHandler::new("u".to_string(), "t".to_string(), "U9".to_string());
    let body = h.notification_body(&text);
    let v: serde_json::Value = serde_json::from_str(&body).expect("body is JSON");
    assert_eq!(v["messages"][0]["text"], "Mention in DM");

    let other = monitor("999");
    assert!(!other.is_mention(content));
}

#[test]
fn notification_body_escapes_control_characters() {
    let h = LineHandler::new("u".to_string(), "t".to_string(), "U".to_string());
    let body = h.notification_body("a\u{1}\u{8}\u{c}\t\r\u{1f}é");
    assert_eq!(
        body,
        "{\"to\":\"U\",\"messages\":[{\"type\":\"text\",\"text\":\"a\\u0001\\b\\f\\t\\r\\u001fé\"}]}"
    );
}

#[test]
fn less_common_meta_characters_match_only_literally() {
    let m = monitor("a#b&c-d~e");
    assert!(m.is_mention("x <@a#b&c-d~e> y"));
    assert!(!m.is_mention("x <@ab&c-d~e> y"));
    let m = monitor("a b");
    assert!(m.is_mention("<@a b>"));
    assert!(!m.is_mention("<@ab>"));
    let m = monitor("x\\d");
    assert!(m.is_mention("<@x\\d>"));
    assert!(!m.is_mention("<@x1>"));
}
