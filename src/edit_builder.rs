//! Fluent construction of an edit packet.
use crate::edit::{EditMessagePacket, EditView};
use crate::embed::{embeds_view, Embed};
use vstd::prelude::*;

verus! {

/// Builds an edit one call at a time.
#[derive(Clone)]
pub struct EditMessageBuilder {
    message: EditMessagePacket,
}

impl View for EditMessageBuilder {
    type V = EditView;

    closed spec fn view(&self) -> EditView {
        self.message@
    }
}

impl EditMessageBuilder {
    /// An edit with this content and no embeds. The content may be empty.
    pub fn new(content: &str) -> (r: Self)
        ensures
            r@ == (EditView { content: content@, embeds: Seq::empty() }),
    {
        let message = EditMessagePacket { content: String::from_str(content), embeds: Vec::new() };
        assert(message@.embeds =~= Seq::empty());
        EditMessageBuilder { message }
    }

    /// Appends an embed after those added before.
    pub fn add_embed(self, embed: Embed) -> (r: Self)
        ensures
            r@ == (EditView { embeds: self@.embeds.push(embed@), ..self@ }),
    {
        let mut b = self;
        let ghost before = b.message.embeds@;
        let ghost e = embed@;
        b.message.embeds.push(embed);
        assert(embeds_view(b.message.embeds@) =~= embeds_view(before).push(e));
        b
    }

    /// The edit as built.
    pub fn build(self) -> (r: EditMessagePacket)
        ensures
            r@ == self@,
    {
        self.message
    }
}

} // verus!
