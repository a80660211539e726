use discord_webhook::{Color, EditMessageBuilder, EmbedBuilder, MessageBuilder};

const TITLE_ONLY_EMBED: &str = "{\"author\":{\"icon_url\":null,\"name\":null,\"url\":null},\"color\":0,\"description\":null,\"fields\":[],\"footer\":{\"icon_url\":null,\"text\":null},\"image\":{\"height\":null,\"url\":null,\"width\":null},\"provider\":{\"name\":null,\"url\":null},\"thumbnail\":{\"height\":null,\"url\":null,\"width\":null},\"title\":\"T\",\"type\":\"rich\",\"url\":null,\"video\":{\"height\":null,\"url\":null,\"width\":null}}";

#[test]
fn bare_message_has_only_tts() {
    let on = MessageBuilder::new("", true).build().serialize_packet();
    assert_eq!(on, "{\"tts\":true}");
    let off = MessageBuilder::new("", false).build().serialize_packet();
    assert_eq!(off, "{\"tts\":false}");
    let v: serde_json::Value = serde_json::from_str(&off).unwrap();
    let obj = v.as_object().unwrap();
    assert_eq!(obj.len(), 1);
    assert_eq!(obj.get("tts"), Some(&serde_json::Value::Bool(false)));
}

#[test]
fn content_message_json() {
    let text = MessageBuilder::new("Hi", false).build().serialize_packet();
    assert_eq!(text, "{\"content\":\"Hi\",\"tts\":false}");
}

#[test]
fn full_message_json() {
    let embed = EmbedBuilder::new().with_color(5).build();
    let text = MessageBuilder::new("Hello", true)
        .with_username("bot")
        .with_avatar_url("http://a/b.png")
        .add_embed(embed)
        .build()
        .serialize_packet();
    let v: serde_json::Value = serde_json::from_str(&text).unwrap();
    let obj = v.as_object().unwrap();
    assert_eq!(obj.len(), 5);
    assert_eq!(obj["username"], serde_json::Value::from("bot"));
    assert_eq!(obj["avatar_url"], serde_json::Value::from("http://a/b.png"));
    assert_eq!(obj["content"], serde_json::Value::from("Hello"));
    assert_eq!(obj["tts"], serde_json::Value::Bool(true));
    assert_eq!(obj["embeds"].as_array().unwrap().len(), 1);
    assert_eq!(obj["embeds"][0]["color"], serde_json::Value::from(5));
    assert!(text.starts_with("{\"avatar_url\":\"http://a/b.png\",\"content\":\"Hello\",\"embeds\":[{"));
    assert!(text.ends_with("}],\"tts\":true,\"username\":\"bot\"}"));
}

#[test]
fn title_only_embed_json() {
    let embed = EmbedBuilder::new().with_title("T").build();
    assert_eq!(embed.to_json(), TITLE_ONLY_EMBED);
    let text = MessageBuilder::new("", false).add_embed(embed).build().serialize_packet();
    let expected = format!("{{\"embeds\":[{}],\"tts\":false}}", TITLE_ONLY_EMBED);
    assert_eq!(text, expected);
}

#[test]
fn fields_keep_their_order() {
    let embed = EmbedBuilder::new()
        .add_field("a", "b", true)
        .add_field("c", "d", false)
        .build();
    assert_eq!(embed.fields.len(), 2);
    assert_eq!(embed.fields[0].name, "a");
    assert_eq!(embed.fields[0].value, "b");
    assert!(embed.fields[0].inline);
    assert_eq!(embed.fields[1].name, "c");
    assert_eq!(embed.fields[1].value, "d");
    assert!(!embed.fields[1].inline);
    let v: serde_json::Value = serde_json::from_str(&embed.to_json()).unwrap();
    assert_eq!(
        serde_json::to_string(&v["fields"]).unwrap(),
        "[{\"inline\":true,\"name\":\"a\",\"value\":\"b\"},{\"inline\":false,\"name\":\"c\",\"value\":\"d\"}]"
    );
}

#[test]
fn last_setting_wins() {
    let embed = EmbedBuilder::new().with_title("A").with_title("B").build();
    assert_eq!(embed.title.as_deref(), Some("B"));
    let embed = EmbedBuilder::new().with_color(1).with_color(2).build();
    assert_eq!(embed.color, 2);
    let embed = EmbedBuilder::new().with_image_dims(1, 2).with_image_dims(3, 4).build();
    assert_eq!(embed.image.width, Some(3));
    assert_eq!(embed.image.height, Some(4));
    let packet = MessageBuilder::new("x", false)
        .with_username("first")
        .with_username("second")
        .build();
    assert_eq!(packet.username, "second");
}

#[test]
fn author_last_call_wins() {
    let embed = EmbedBuilder::new()
        .with_author("ann", Some("http://u"), Some("http://i"))
        .with_author("bob", None, Some("http://j"))
        .build();
    assert_eq!(embed.author.name.as_deref(), Some("bob"));
    assert_eq!(embed.author.url.as_deref(), None);
    assert_eq!(embed.author.icon_url.as_deref(), Some("http://j"));
    let embed = EmbedBuilder::new()
        .with_author("A", Some("u"), Some("i"))
        .with_author("B", None, None)
        .build();
    assert_eq!(embed.author.name.as_deref(), Some("B"));
    assert_eq!(embed.author.url, None);
    assert_eq!(embed.author.icon_url, None);
}

#[test]
fn every_setter_lands_in_its_place() {
    let embed = EmbedBuilder::new()
        .with_description("desc")
        .with_url("http://e")
        .with_footer_text("foot")
        .with_footer_url("http://f")
        .with_image("http://img")
        .with_thumbnail("http://th")
        .with_thumbnail_dims(10, 20)
        .with_video("http://vid")
        .with_video_dims(-1, 0)
        .with_provider("prov", "http://p")
        .build();
    let text = embed.to_json();
    let v: serde_json::Value = serde_json::from_str(&text).unwrap();
    assert_eq!(v["description"], serde_json::Value::from("desc"));
    assert_eq!(v["url"], serde_json::Value::from("http://e"));
    assert_eq!(v["footer"]["text"], serde_json::Value::from("foot"));
    assert_eq!(v["footer"]["icon_url"], serde_json::Value::from("http://f"));
    assert_eq!(v["image"]["url"], serde_json::Value::from("http://img"));
    assert_eq!(v["image"]["width"], serde_json::Value::Null);
    assert_eq!(v["thumbnail"]["url"], serde_json::Value::from("http://th"));
    assert_eq!(v["thumbnail"]["width"], serde_json::Value::from(10));
    assert_eq!(v["thumbnail"]["height"], serde_json::Value::from(20));
    assert_eq!(v["video"]["url"], serde_json::Value::from("http://vid"));
    assert_eq!(v["video"]["width"], serde_json::Value::from(-1));
    assert_eq!(v["video"]["height"], serde_json::Value::from(0));
    assert_eq!(v["provider"]["name"], serde_json::Value::from("prov"));
    assert_eq!(v["provider"]["url"], serde_json::Value::from("http://p"));
    assert_eq!(v["title"], serde_json::Value::Null);
    assert_eq!(v["type"], serde_json::Value::from("rich"));
    assert!(text.contains("\"video\":{\"height\":0,\"url\":\"http://vid\",\"width\":-1}"));
}

#[test]
fn strings_are_escaped() {
    let text = MessageBuilder::new("say \"hi\"\n\\ \u{1}", false).build().serialize_packet();
    assert_eq!(text, "{\"content\":\"say \\\"hi\\\"\\n\\\\ \\u0001\",\"tts\":false}");
    let v: serde_json::Value = serde_json::from_str(&text).unwrap();
    assert_eq!(v["content"], serde_json::Value::from("say \"hi\"\n\\ \u{1}"));
}

#[test]
fn negative_and_extreme_colors() {
    let text = EmbedBuilder::new().with_color(i32::MIN).build().to_json();
    assert!(text.contains("\"color\":-2147483648,"));
    let text = EmbedBuilder::new().with_color(Color::RED).build().to_json();
    assert!(text.contains("\"color\":15548997,"));
}

#[test]
fn edit_with_one_embed() {
    let embed = EmbedBuilder::new().with_title("T").build();
    let text = EditMessageBuilder::new("new").add_embed(embed).build().serialize_packet();
    assert_eq!(text, format!("{{\"content\":\"new\",\"embeds\":[{}]}}", TITLE_ONLY_EMBED));
}

#[test]
fn edit_without_embeds_omits_key() {
    let text = EditMessageBuilder::new("new").build().serialize_packet();
    assert_eq!(text, "{\"content\":\"new\"}");
    let text = EditMessageBuilder::new("").build().serialize_packet();
    assert_eq!(text, "{}");
}

#[test]
fn embeds_keep_their_order() {
    let text = EditMessageBuilder::new("")
        .add_embed(EmbedBuilder::new().with_title("one").build())
        .add_embed(EmbedBuilder::new().with_title("two").build())
        .build()
        .serialize_packet();
    let v: serde_json::Value = serde_json::from_str(&text).unwrap();
    assert_eq!(v.as_object().unwrap().len(), 1);
    assert_eq!(v["embeds"][0]["title"], serde_json::Value::from("one"));
    assert_eq!(v["embeds"][1]["title"], serde_json::Value::from("two"));
}

