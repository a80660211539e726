use discord_webhook::{EditMessageBuilder, HttpMethod, MessageBuilder, WebhookBuilder};

#[test]
fn send_request_posts_to_base_url() {
    let hook = WebhookBuilder::new("https://example.com/api/webhooks/1/abc");
    let packet = MessageBuilder::new("Hi", false).build();
    let req = hook.send_message(&packet);
    assert_eq!(req.method, HttpMethod::Post);
    assert_eq!(req.url, "https://example.com/api/webhooks/1/abc");
    assert_eq!(req.content_type, "application/json");
    assert_eq!(req.body, "{\"content\":\"Hi\",\"tts\":false}");
}

#[test]
fn edit_request_patches_message_url() {
    let hook = WebhookBuilder::new("https://example.com/hook");
    let packet = EditMessageBuilder::new("fixed").build();
    let req = hook.edit_message(&packet, 1234567890123);
    assert_eq!(req.method, HttpMethod::Patch);
    assert_eq!(req.url, "https://example.com/hook/messages/1234567890123");
    assert_eq!(req.content_type, "application/json");
    assert_eq!(req.body, "{\"content\":\"fixed\"}");
    let req = hook.edit_message(&packet, 0);
    assert_eq!(req.url, "https://example.com/hook/messages/0");
}
