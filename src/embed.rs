//! Embeds: the rich blocks that a message can carry, and their JSON form.
use crate::json::{
    bool_json, int_string, json_array, json_bool, json_member, json_object, json_opt_int,
    json_opt_string, json_string, opt_int_json, opt_string_json, opt_view, quote, JsonWriter,
};
use vstd::prelude::*;

verus! {

/// The footer line of an embed.
#[derive(Clone)]
pub struct EmbedFooter {
    pub text: Option<String>,
    pub icon_url: Option<String>,
}

/// An image, thumbnail or video of an embed.
#[derive(Clone)]
pub struct EmbedMultimedia {
    pub url: Option<String>,
    pub height: Option<i32>,
    pub width: Option<i32>,
}

/// The provider line of an embed.
#[derive(Clone)]
pub struct EmbedProvider {
    pub name: Option<String>,
    pub url: Option<String>,
}

/// The author line of an embed.
#[derive(Clone)]
pub struct EmbedAuthor {
    pub name: Option<String>,
    pub url: Option<String>,
    pub icon_url: Option<String>,
}

/// One name/value field of an embed.
#[derive(Clone)]
pub struct EmbedField {
    pub name: String,
    pub value: String,
    pub inline: bool,
}

/// A rich embed. Its fields are shown in the order of the sequence.
#[derive(Clone)]
pub struct Embed {
    pub title: Option<String>,
    pub description: Option<String>,
    pub url: Option<String>,
    pub color: i32,
    pub footer: EmbedFooter,
    pub image: EmbedMultimedia,
    pub thumbnail: EmbedMultimedia,
    pub video: EmbedMultimedia,
    pub provider: EmbedProvider,
    pub author: EmbedAuthor,
    pub fields: Vec<EmbedField>,
}

/// What a footer holds.
pub struct FooterView {
    pub text: Option<Seq<char>>,
    pub icon_url: Option<Seq<char>>,
}

/// What an image, thumbnail or video holds.
pub struct MultimediaView {
    pub url: Option<Seq<char>>,
    pub height: Option<i32>,
    pub width: Option<i32>,
}

/// What a provider line holds.
pub struct ProviderView {
    pub name: Option<Seq<char>>,
    pub url: Option<Seq<char>>,
}

/// What an author line holds.
pub struct AuthorView {
    pub name: Option<Seq<char>>,
    pub url: Option<Seq<char>>,
    pub icon_url: Option<Seq<char>>,
}

/// What a field holds.
pub struct FieldView {
    pub name: Seq<char>,
    pub value: Seq<char>,
    pub inline: bool,
}

/// What an embed holds.
pub struct EmbedView {
    pub title: Option<Seq<char>>,
    pub description: Option<Seq<char>>,
    pub url: Option<Seq<char>>,
    pub color: i32,
    pub footer: FooterView,
    pub image: MultimediaView,
    pub thumbnail: MultimediaView,
    pub video: MultimediaView,
    pub provider: ProviderView,
    pub author: AuthorView,
    pub fields: Seq<FieldView>,
}

impl View for EmbedFooter {
    type V = FooterView;

    open spec fn view(&self) -> FooterView {
        FooterView { text: opt_view(&self.text), icon_url: opt_view(&self.icon_url) }
    }
}

impl View for EmbedMultimedia {
    type V = MultimediaView;

    open spec fn view(&self) -> MultimediaView {
        MultimediaView { url: opt_view(&self.url), height: self.height, width: self.width }
    }
}

impl View for EmbedProvider {
    type V = ProviderView;

    open spec fn view(&self) -> ProviderView {
        ProviderView { name: opt_view(&self.name), url: opt_view(&self.url) }
    }
}

impl View for EmbedAuthor {
    type V = AuthorView;

    open spec fn view(&self) -> AuthorView {
        AuthorView {
            name: opt_view(&self.name),
            url: opt_view(&self.url),
            icon_url: opt_view(&self.icon_url),
        }
    }
}

impl View for EmbedField {
    type V = FieldView;

    open spec fn view(&self) -> FieldView {
        FieldView { name: self.name@, value: self.value@, inline: self.inline }
    }
}

/// The views of a sequence of fields.
pub open spec fn fields_view(fields: Seq<EmbedField>) -> Seq<FieldView> {
    fields.map_values(|f: EmbedField| f@)
}

impl View for Embed {
    type V = EmbedView;

    open spec fn view(&self) -> EmbedView {
        EmbedView {
            title: opt_view(&self.title),
            description: opt_view(&self.description),
            url: opt_view(&self.url),
            color: self.color,
            footer: self.footer@,
            image: self.image@,
            thumbnail: self.thumbnail@,
            video: self.video@,
            provider: self.provider@,
            author: self.author@,
            fields: fields_view(self.fields@),
        }
    }
}

/// Media with nothing set.
pub open spec fn empty_multimedia() -> MultimediaView {
    MultimediaView { url: None, height: None, width: None }
}

/// The embed that building starts from: nothing set, color 0, no fields.
pub open spec fn empty_embed() -> EmbedView {
    EmbedView {
        title: None,
        description: None,
        url: None,
        color: 0,
        footer: FooterView { text: None, icon_url: None },
        image: empty_multimedia(),
        thumbnail: empty_multimedia(),
        video: empty_multimedia(),
        provider: ProviderView { name: None, url: None },
        author: AuthorView { name: None, url: None, icon_url: None },
        fields: Seq::empty(),
    }
}

/// The JSON object of a footer.
pub open spec fn footer_json(f: FooterView) -> Seq<char> {
    json_object(
        seq![
            json_member("icon_url"@, json_opt_string(f.icon_url)),
            json_member("text"@, json_opt_string(f.text)),
        ],
    )
}

/// The JSON object of an image, thumbnail or video.
pub open spec fn multimedia_json(m: MultimediaView) -> Seq<char> {
    json_object(
        seq![
            json_member("height"@, json_opt_int(m.height)),
            json_member("url"@, json_opt_string(m.url)),
            json_member("width"@, json_opt_int(m.width)),
        ],
    )
}

/// The JSON object of a provider line.
pub open spec fn provider_json(p: ProviderView) -> Seq<char> {
    json_object(
        seq![
            json_member("name"@, json_opt_string(p.name)),
            json_member("url"@, json_opt_string(p.url)),
        ],
    )
}

/// The JSON object of an author line.
pub open spec fn author_json(a: AuthorView) -> Seq<char> {
    json_object(
        seq![
            json_member("icon_url"@, json_opt_string(a.icon_url)),
            json_member("name"@, json_opt_string(a.name)),
            json_member("url"@, json_opt_string(a.url)),
        ],
    )
}

/// The JSON object of a field.
pub open spec fn field_json(f: FieldView) -> Seq<char> {
    json_object(
        seq![
            json_member("inline"@, json_bool(f.inline)),
            json_member("name"@, json_string(f.name)),
            json_member("value"@, json_string(f.value)),
        ],
    )
}

/// The JSON object of an embed: every key present, in sorted order, with
/// `null` for what is not set and `"type"` always `"rich"`.
pub open spec fn embed_json(e: EmbedView) -> Seq<char> {
    json_object(
        seq![
            json_member("author"@, author_json(e.author)),
            json_member("color"@, crate::json::int_text(e.color as int)),
            json_member("description"@, json_opt_string(e.description)),
            json_member("fields"@, json_array(e.fields.map_values(|f: FieldView| field_json(f)))),
            json_member("footer"@, footer_json(e.footer)),
            json_member("image"@, multimedia_json(e.image)),
            json_member("provider"@, provider_json(e.provider)),
            json_member("thumbnail"@, multimedia_json(e.thumbnail)),
            json_member("title"@, json_opt_string(e.title)),
            json_member("type"@, json_string("rich"@)),
            json_member("url"@, json_opt_string(e.url)),
            json_member("video"@, multimedia_json(e.video)),
        ],
    )
}

fn empty_media() -> (m: EmbedMultimedia)
    ensures
        m@ == empty_multimedia(),
{
    EmbedMultimedia { url: None, height: None, width: None }
}

impl EmbedFooter {
    pub fn to_json(&self) -> (r: String)
        ensures
            r@ == footer_json(self@),
    {
        let mut w = JsonWriter::new();
        w.member("icon_url", opt_string_json(&self.icon_url).as_str());
        w.member("text", opt_string_json(&self.text).as_str());
        assert(w.parts() =~= seq![
            json_member("icon_url"@, json_opt_string(self@.icon_url)),
            json_member("text"@, json_opt_string(self@.text)),
        ]);
        w.into_object()
    }
}

impl EmbedMultimedia {
    pub fn to_json(&self) -> (r: String)
        ensures
            r@ == multimedia_json(self@),
    {
        let mut w = JsonWriter::new();
        w.member("height", opt_int_json(self.height).as_str());
        w.member("url", opt_string_json(&self.url).as_str());
        w.member("width", opt_int_json(self.width).as_str());
        assert(w.parts() =~= seq![
            json_member("height"@, json_opt_int(self@.height)),
            json_member("url"@, json_opt_string(self@.url)),
            json_member("width"@, json_opt_int(self@.width)),
        ]);
        w.into_object()
    }
}

impl EmbedProvider {
    pub fn to_json(&self) -> (r: String)
        ensures
            r@ == provider_json(self@),
    {
        let mut w = JsonWriter::new();
        w.member("name", opt_string_json(&self.name).as_str());
        w.member("url", opt_string_json(&self.url).as_str());
        assert(w.parts() =~= seq![
            json_member("name"@, json_opt_string(self@.name)),
            json_member("url"@, json_opt_string(self@.url)),
        ]);
        w.into_object()
    }
}

impl EmbedAuthor {
    pub fn to_json(&self) -> (r: String)
        ensures
            r@ == author_json(self@),
    {
        let mut w = JsonWriter::new();
        w.member("icon_url", opt_string_json(&self.icon_url).as_str());
        w.member("name", opt_string_json(&self.name).as_str());
        w.member("url", opt_string_json(&self.url).as_str());
        assert(w.parts() =~= seq![
            json_member("icon_url"@, json_opt_string(self@.icon_url)),
            json_member("name"@, json_opt_string(self@.name)),
            json_member("url"@, json_opt_string(self@.url)),
        ]);
        w.into_object()
    }
}

impl EmbedField {
    pub fn to_json(&self) -> (r: String)
        ensures
            r@ == field_json(self@),
    {
        let mut w = JsonWriter::new();
        w.member("inline", bool_json(self.inline).as_str());
        w.member("name", quote(self.name.as_str()).as_str());
        w.member("value", quote(self.value.as_str()).as_str());
        assert(w.parts() =~= seq![
            json_member("inline"@, json_bool(self@.inline)),
            json_member("name"@, json_string(self@.name)),
            json_member("value"@, json_string(self@.value)),
        ]);
        w.into_object()
    }
}

/// The JSON array of some fields, in order.
fn fields_json(fields: &Vec<EmbedField>) -> (r: String)
    ensures
        r@ == json_array(fields_view(fields@).map_values(|f: FieldView| field_json(f))),
{
    let mut w = JsonWriter::new();
    let mut i: usize = 0;
    while i < fields.len()
        invariant
            i <= fields@.len(),
            w.wf(),
            w.parts() == fields_view(fields@.subrange(0, i as int)).map_values(
                |f: FieldView| field_json(f),
            ),
        decreases fields@.len() - i,
    {
        w.push(fields[i].to_json().as_str());
        assert(fields_view(fields@.subrange(0, i + 1)).map_values(|f: FieldView| field_json(f))
            =~= fields_view(fields@.subrange(0, i as int)).map_values(
            |f: FieldView| field_json(f),
        ).push(field_json(fields@[i as int]@)));
        i = i + 1;
    }
    assert(fields@.subrange(0, fields@.len() as int) =~= fields@);
    w.into_array()
}

/// The views of a sequence of embeds.
pub open spec fn embeds_view(embeds: Seq<Embed>) -> Seq<EmbedView> {
    embeds.map_values(|e: Embed| e@)
}

/// The JSON array of some embeds, in order.
pub open spec fn embeds_json(embeds: Seq<EmbedView>) -> Seq<char> {
    json_array(embeds.map_values(|e: EmbedView| embed_json(e)))
}

/// The JSON array of some embeds, in order.
pub(crate) fn embeds_to_json(embeds: &Vec<Embed>) -> (r: String)
    ensures
        r@ == embeds_json(embeds_view(embeds@)),
{
    let mut w = JsonWriter::new();
    let mut i: usize = 0;
    while i < embeds.len()
        invariant
            i <= embeds@.len(),
            w.wf(),
            w.parts() == embeds_view(embeds@.subrange(0, i as int)).map_values(
                |e: EmbedView| embed_json(e),
            ),
        decreases embeds@.len() - i,
    {
        w.push(embeds[i].to_json().as_str());
        assert(embeds_view(embeds@.subrange(0, i + 1)).map_values(|e: EmbedView| embed_json(e))
            =~= embeds_view(embeds@.subrange(0, i as int)).map_values(
            |e: EmbedView| embed_json(e),
        ).push(embed_json(embeds@[i as int]@)));
        i = i + 1;
    }
    assert(embeds@.subrange(0, embeds@.len() as int) =~= embeds@);
    w.into_array()
}

impl Embed {
    /// An embed with nothing set: color 0 and no fields.
    pub fn new() -> (r: Self)
        ensures
            r@ == empty_embed(),
    {
        let r = Embed {
            title: None,
            description: None,
            url: None,
            color: 0,
            footer: EmbedFooter { text: None, icon_url: None },
            image: empty_media(),
            thumbnail: empty_media(),
            video: empty_media(),
            provider: EmbedProvider { name: None, url: None },
            author: EmbedAuthor { name: None, url: None, icon_url: None },
            fields: Vec::new(),
        };
        assert(r@.fields =~= Seq::<FieldView>::empty());
        r
    }

    /// The JSON object of this embed.
    pub fn to_json(&self) -> (r: String)
        ensures
            r@ == embed_json(self@),
    {
        let mut w = JsonWriter::new();
        w.member("author", self.author.to_json().as_str());
        w.member("color", int_string(self.color).as_str());
        w.member("description", opt_string_json(&self.description).as_str());
        w.member("fields", fields_json(&self.fields).as_str());
        w.member("footer", self.footer.to_json().as_str());
        w.member("image", self.image.to_json().as_str());
        w.member("provider", self.provider.to_json().as_str());
        w.member("thumbnail", self.thumbnail.to_json().as_str());
        w.member("title", opt_string_json(&self.title).as_str());
        w.member("type", quote("rich").as_str());
        w.member("url", opt_string_json(&self.url).as_str());
        w.member("video", self.video.to_json().as_str());
        let ghost e = self@;
        assert(w.parts() =~= seq![
            json_member("author"@, author_json(e.author)),
            json_member("color"@, crate::json::int_text(e.color as int)),
            json_member("description"@, json_opt_string(e.description)),
            json_member("fields"@, json_array(e.fields.map_values(|f: FieldView| field_json(f)))),
            json_member("footer"@, footer_json(e.footer)),
            json_member("image"@, multimedia_json(e.image)),
            json_member("provider"@, provider_json(e.provider)),
            json_member("thumbnail"@, multimedia_json(e.thumbnail)),
            json_member("title"@, json_opt_string(e.title)),
            json_member("type"@, json_string("rich"@)),
            json_member("url"@, json_opt_string(e.url)),
            json_member("video"@, multimedia_json(e.video)),
        ]);
        w.into_object()
    }
}

} // verus!
