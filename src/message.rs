//! The packet that creates a message, and its JSON form.
use crate::embed::{embeds_json, embeds_to_json, embeds_view, Embed, EmbedView};
use crate::json::{
    bool_json, comma_join, json_bool, json_member, json_object, json_string, lemma_escape_plain, quote,
    JsonWriter,
};
use vstd::prelude::*;

verus! {

/// A message to post. An empty `username` or `avatar_url` leaves the
/// webhook's own in place.
#[derive(Clone)]
pub struct MessagePacket {
    pub content: String,
    pub username: String,
    pub avatar_url: String,
    pub tts: bool,
    pub embeds: Vec<Embed>,
}

/// What a message packet holds.
pub struct MessageView {
    pub content: Seq<char>,
    pub username: Seq<char>,
    pub avatar_url: Seq<char>,
    pub tts: bool,
    pub embeds: Seq<EmbedView>,
}

impl View for MessagePacket {
    type V = MessageView;

    open spec fn view(&self) -> MessageView {
        MessageView {
            content: self.content@,
            username: self.username@,
            avatar_url: self.avatar_url@,
            tts: self.tts,
            embeds: embeds_view(self.embeds@),
        }
    }
}

/// The member `"key":value` where `present` holds, else nothing.
pub open spec fn member_if(present: bool, key: Seq<char>, value: Seq<char>) -> Seq<Seq<char>> {
    if present {
        seq![json_member(key, value)]
    } else {
        seq![]
    }
}

/// The JSON object of a message: `tts` always, each string only where it is
/// not empty, `embeds` only where there is one; keys in sorted order.
pub open spec fn message_json(p: MessageView) -> Seq<char> {
    json_object(
        member_if(p.avatar_url.len() > 0, "avatar_url"@, json_string(p.avatar_url))
            + member_if(p.content.len() > 0, "content"@, json_string(p.content))
            + member_if(p.embeds.len() > 0, "embeds"@, embeds_json(p.embeds))
            + seq![json_member("tts"@, json_bool(p.tts))]
            + member_if(p.username.len() > 0, "username"@, json_string(p.username)),
    )
}

/// A message with no content, username, avatar or embeds is sent as an
/// object with the one key `tts`, whose value is the message's flag.
pub proof fn lemma_bare_message_json(p: MessageView)
    requires
        p.content.len() == 0,
        p.username.len() == 0,
        p.avatar_url.len() == 0,
        p.embeds.len() == 0,
    ensures
        message_json(p) == json_object(seq![json_member("tts"@, json_bool(p.tts))]),
        message_json(p) == "{\"tts\":"@ + json_bool(p.tts) + "}"@,
{
    let members = seq![json_member("tts"@, json_bool(p.tts))];
    assert(member_if(false, "avatar_url"@, json_string(p.avatar_url)) + member_if(
        false,
        "content"@,
        json_string(p.content),
    ) + member_if(false, "embeds"@, crate::embed::embeds_json(p.embeds)) + members + member_if(
        false,
        "username"@,
        json_string(p.username),
    ) =~= members);
    reveal_strlit("tts");
    reveal_strlit("{\"tts\":");
    reveal_strlit("{");
    reveal_strlit("}");
    reveal_strlit(":");
    lemma_escape_plain("tts"@);
    assert(comma_join(members) == members[0]);
    assert(json_object(members) =~= "{\"tts\":"@ + json_bool(p.tts) + "}"@);
}

/// A message whose only text is the content `Hi`, with text-to-speech off,
/// is sent as `{"content":"Hi","tts":false}`.
pub proof fn lemma_hi_message_json(p: MessageView)
    requires
        p.content == "Hi"@,
        p.username.len() == 0,
        p.avatar_url.len() == 0,
        p.embeds.len() == 0,
        !p.tts,
    ensures
        message_json(p) == "{\"content\":\"Hi\",\"tts\":false}"@,
{
    reveal_strlit("Hi");
    let members = seq![
        json_member("content"@, json_string(p.content)),
        json_member("tts"@, json_bool(p.tts)),
    ];
    assert(member_if(false, "avatar_url"@, json_string(p.avatar_url)) + member_if(
        true,
        "content"@,
        json_string(p.content),
    ) + member_if(false, "embeds"@, crate::embed::embeds_json(p.embeds)) + seq![
        json_member("tts"@, json_bool(p.tts)),
    ] + member_if(false, "username"@, json_string(p.username)) =~= members);
    reveal_strlit("tts");
    reveal_strlit("content");
    reveal_strlit("false");
    reveal_strlit("{\"content\":\"Hi\",\"tts\":false}");
    reveal_strlit("{");
    reveal_strlit("}");
    reveal_strlit(":");
    reveal_strlit(",");
    lemma_escape_plain("tts"@);
    lemma_escape_plain("content"@);
    lemma_escape_plain("Hi"@);
    assert(members.drop_last() =~= seq![members[0]]);
    assert(comma_join(seq![members[0]]) == members[0]);
    assert(members.last() == members[1]);
    assert(comma_join(members) == members[0] + ","@ + members[1]);
    assert(json_object(members) =~= "{\"content\":\"Hi\",\"tts\":false}"@);
}

impl MessagePacket {
    /// The JSON text that is sent for this message.
    pub fn serialize_packet(&self) -> (r: String)
        ensures
            r@ == message_json(self@),
    {
        let ghost p = self@;
        let mut w = JsonWriter::new();
        if !self.avatar_url.as_str().is_empty() {
            w.member("avatar_url", quote(self.avatar_url.as_str()).as_str());
        }
        assert(w.parts() =~= member_if(p.avatar_url.len() > 0, "avatar_url"@, json_string(p.avatar_url)));
        let ghost before = w.parts();
        if !self.content.as_str().is_empty() {
            w.member("content", quote(self.content.as_str()).as_str());
        }
        assert(w.parts() =~= before + member_if(p.content.len() > 0, "content"@, json_string(p.content)));
        let ghost before = w.parts();
        if self.embeds.len() > 0 {
            w.member("embeds", embeds_to_json(&self.embeds).as_str());
        }
        assert(w.parts() =~= before + member_if(p.embeds.len() > 0, "embeds"@, embeds_json(p.embeds)));
        let ghost before = w.parts();
        w.member("tts", bool_json(self.tts).as_str());
        assert(w.parts() =~= before + seq![json_member("tts"@, json_bool(p.tts))]);
        let ghost before = w.parts();
        if !self.username.as_str().is_empty() {
            w.member("username", quote(self.username.as_str()).as_str());
        }
        assert(w.parts() =~= before + member_if(p.username.len() > 0, "username"@, json_string(p.username)));
        w.into_object()
    }
}

} // verus!
