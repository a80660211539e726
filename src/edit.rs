//! The packet that edits a message already sent, and its JSON form.
use crate::embed::{embed_json, embeds_json, embeds_to_json, embeds_view, Embed, EmbedView};
use crate::json::{json_array, json_member, json_object, json_string, quote, JsonWriter};
use crate::message::member_if;
use vstd::prelude::*;

verus! {

/// The new content and embeds of a message that was sent before.
#[derive(Clone)]
pub struct EditMessagePacket {
    pub content: String,
    pub embeds: Vec<Embed>,
}

/// What an edit packet holds.
pub struct EditView {
    pub content: Seq<char>,
    pub embeds: Seq<EmbedView>,
}

impl View for EditMessagePacket {
    type V = EditView;

    open spec fn view(&self) -> EditView {
        EditView { content: self.content@, embeds: embeds_view(self.embeds@) }
    }
}

/// The JSON object of an edit: `content` only where it is not empty,
/// `embeds` only where there is one.
pub open spec fn edit_json(p: EditView) -> Seq<char> {
    json_object(
        member_if(p.content.len() > 0, "content"@, json_string(p.content))
            + member_if(p.embeds.len() > 0, "embeds"@, embeds_json(p.embeds)),
    )
}

/// An edit with content and one embed carries that embed as an array of one
/// element after its content; an edit with no embed has no `embeds` key.
pub proof fn lemma_edit_embeds_json(p: EditView)
    ensures
        p.content.len() > 0 && p.embeds.len() == 1 ==> edit_json(p) == json_object(
            seq![
                json_member("content"@, json_string(p.content)),
                json_member("embeds"@, json_array(seq![embed_json(p.embeds[0])])),
            ],
        ),
        p.embeds.len() == 0 ==> edit_json(p) == json_object(
            member_if(p.content.len() > 0, "content"@, json_string(p.content)),
        ),
{
    if p.content.len() > 0 && p.embeds.len() == 1 {
        assert(p.embeds.map_values(|e: EmbedView| embed_json(e)) =~= seq![embed_json(p.embeds[0])]);
        assert(member_if(true, "content"@, json_string(p.content)) + member_if(
            true,
            "embeds"@,
            embeds_json(p.embeds),
        ) =~= seq![
            json_member("content"@, json_string(p.content)),
            json_member("embeds"@, json_array(seq![embed_json(p.embeds[0])])),
        ]);
    }
    if p.embeds.len() == 0 {
        let c = member_if(p.content.len() > 0, "content"@, json_string(p.content));
        assert(c + member_if(false, "embeds"@, embeds_json(p.embeds)) =~= c);
    }
}

impl EditMessagePacket {
    /// The JSON text that is sent for this edit.
    pub fn serialize_packet(&self) -> (r: String)
        ensures
            r@ == edit_json(self@),
    {
        let ghost p = self@;
        let mut w = JsonWriter::new();
        if !self.content.as_str().is_empty() {
            w.member("content", quote(self.content.as_str()).as_str());
        }
        assert(w.parts() =~= member_if(p.content.len() > 0, "content"@, json_string(p.content)));
        let ghost before = w.parts();
        if self.embeds.len() > 0 {
            w.member("embeds", embeds_to_json(&self.embeds).as_str());
        }
        assert(w.parts() =~= before + member_if(p.embeds.len() > 0, "embeds"@, embeds_json(p.embeds)));
        w.into_object()
    }
}

} // verus!
