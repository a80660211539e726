//! Fluent construction of an embed.
use crate::embed::{empty_embed, Embed, EmbedField, EmbedView, FieldView};
use vstd::prelude::*;

verus! {

/// The characters of an optional string slice.
pub open spec fn opt_str_view(o: Option<&str>) -> Option<Seq<char>> {
    match o {
        Some(s) => Some(s@),
        None => None,
    }
}

impl EmbedView {
    pub open spec fn set_title(self, t: Seq<char>) -> EmbedView {
        EmbedView { title: Some(t), ..self }
    }

    pub open spec fn set_description(self, d: Seq<char>) -> EmbedView {
        EmbedView { description: Some(d), ..self }
    }

    pub open spec fn set_url(self, u: Seq<char>) -> EmbedView {
        EmbedView { url: Some(u), ..self }
    }

    pub open spec fn set_footer_text(self, t: Seq<char>) -> EmbedView {
        EmbedView { footer: crate::embed::FooterView { text: Some(t), ..self.footer }, ..self }
    }

    pub open spec fn set_footer_url(self, u: Seq<char>) -> EmbedView {
        EmbedView { footer: crate::embed::FooterView { icon_url: Some(u), ..self.footer }, ..self }
    }

    pub open spec fn set_image(self, u: Seq<char>) -> EmbedView {
        EmbedView { image: crate::embed::MultimediaView { url: Some(u), ..self.image }, ..self }
    }

    pub open spec fn set_image_dims(self, width: i32, height: i32) -> EmbedView {
        EmbedView {
            image: crate::embed::MultimediaView {
                width: Some(width),
                height: Some(height),
                ..self.image
            },
            ..self
        }
    }

    pub open spec fn set_thumbnail(self, u: Seq<char>) -> EmbedView {
        EmbedView {
            thumbnail: crate::embed::MultimediaView { url: Some(u), ..self.thumbnail },
            ..self
        }
    }

    pub open spec fn set_thumbnail_dims(self, width: i32, height: i32) -> EmbedView {
        EmbedView {
            thumbnail: crate::embed::MultimediaView {
                width: Some(width),
                height: Some(height),
                ..self.thumbnail
            },
            ..self
        }
    }

    pub open spec fn set_video(self, u: Seq<char>) -> EmbedView {
        EmbedView { video: crate::embed::MultimediaView { url: Some(u), ..self.video }, ..self }
    }

    pub open spec fn set_video_dims(self, width: i32, height: i32) -> EmbedView {
        EmbedView {
            video: crate::embed::MultimediaView {
                width: Some(width),
                height: Some(height),
                ..self.video
            },
            ..self
        }
    }

    pub open spec fn set_provider(self, name: Seq<char>, url: Seq<char>) -> EmbedView {
        EmbedView {
            provider: crate::embed::ProviderView { name: Some(name), url: Some(url) },
            ..self
        }
    }

    /// The author line is replaced: the name, and each link as given (a
    /// link that is not given is unset).
    pub open spec fn set_author(
        self,
        name: Seq<char>,
        url: Option<Seq<char>>,
        icon_url: Option<Seq<char>>,
    ) -> EmbedView {
        EmbedView {
            author: crate::embed::AuthorView {
                name: Some(name),
                url,
                icon_url,
            },
            ..self
        }
    }

    pub open spec fn set_color(self, color: i32) -> EmbedView {
        EmbedView { color, ..self }
    }

    pub open spec fn push_field(self, f: FieldView) -> EmbedView {
        EmbedView { fields: self.fields.push(f), ..self }
    }
}

/// Setting a part of an embed twice leaves only the second value: the
/// first is overwritten, for every setter.
pub proof fn lemma_last_setting_wins(
    v: EmbedView,
    a: Seq<char>,
    b: Seq<char>,
    c: Seq<char>,
    d: Seq<char>,
    oa: Option<Seq<char>>,
    ob: Option<Seq<char>>,
    pa: Option<Seq<char>>,
    pb: Option<Seq<char>>,
    x: i32,
    y: i32,
    z: i32,
    w: i32,
)
    ensures
        v.set_title(a).set_title(b) == v.set_title(b),
        v.set_description(a).set_description(b) == v.set_description(b),
        v.set_url(a).set_url(b) == v.set_url(b),
        v.set_footer_text(a).set_footer_text(b) == v.set_footer_text(b),
        v.set_footer_url(a).set_footer_url(b) == v.set_footer_url(b),
        v.set_image(a).set_image(b) == v.set_image(b),
        v.set_image_dims(x, y).set_image_dims(z, w) == v.set_image_dims(z, w),
        v.set_thumbnail(a).set_thumbnail(b) == v.set_thumbnail(b),
        v.set_thumbnail_dims(x, y).set_thumbnail_dims(z, w) == v.set_thumbnail_dims(z, w),
        v.set_video(a).set_video(b) == v.set_video(b),
        v.set_video_dims(x, y).set_video_dims(z, w) == v.set_video_dims(z, w),
        v.set_provider(a, c).set_provider(b, d) == v.set_provider(b, d),
        v.set_color(x).set_color(z) == v.set_color(z),
        v.set_author(a, oa, pa).set_author(b, ob, pb) == v.set_author(b, ob, pb),
{
}

/// Builds an embed one call at a time. Each `with_` call replaces what was
/// set before; `add_field` appends.
#[derive(Clone)]
pub struct EmbedBuilder {
    embed: Embed,
}

impl View for EmbedBuilder {
    type V = EmbedView;

    closed spec fn view(&self) -> EmbedView {
        self.embed@
    }
}

impl EmbedBuilder {
    pub fn new() -> (r: Self)
        ensures
            r@ == empty_embed(),
    {
        EmbedBuilder { embed: Embed::new() }
    }

    pub fn with_title(self, title: &str) -> (r: Self)
        ensures
            r@ == self@.set_title(title@),
    {
        let mut b = self;
        b.embed.title = Some(String::from_str(title));
        b
    }

    pub fn with_description(self, description: &str) -> (r: Self)
        ensures
            r@ == self@.set_description(description@),
    {
        let mut b = self;
        b.embed.description = Some(String::from_str(description));
        b
    }

    pub fn with_url(self, url: &str) -> (r: Self)
        ensures
            r@ == self@.set_url(url@),
    {
        let mut b = self;
        b.embed.url = Some(String::from_str(url));
        b
    }

    pub fn with_footer_text(self, text: &str) -> (r: Self)
        ensures
            r@ == self@.set_footer_text(text@),
    {
        let mut b = self;
        b.embed.footer.text = Some(String::from_str(text));
        b
    }

    pub fn with_footer_url(self, url: &str) -> (r: Self)
        ensures
            r@ == self@.set_footer_url(url@),
    {
        let mut b = self;
        b.embed.footer.icon_url = Some(String::from_str(url));
        b
    }

    pub fn with_image(self, url: &str) -> (r: Self)
        ensures
            r@ == self@.set_image(url@),
    {
        let mut b = self;
        b.embed.image.url = Some(String::from_str(url));
        b
    }

    pub fn with_image_dims(self, width: i32, height: i32) -> (r: Self)
        ensures
            r@ == self@.set_image_dims(width, height),
    {
        let mut b = self;
        b.embed.image.width = Some(width);
        b.embed.image.height = Some(height);
        b
    }

    pub fn with_thumbnail(self, url: &str) -> (r: Self)
        ensures
            r@ == self@.set_thumbnail(url@),
    {
        let mut b = self;
        b.embed.thumbnail.url = Some(String::from_str(url));
        b
    }

    pub fn with_thumbnail_dims(self, width: i32, height: i32) -> (r: Self)
        ensures
            r@ == self@.set_thumbnail_dims(width, height),
    {
        let mut b = self;
        b.embed.thumbnail.width = Some(width);
        b.embed.thumbnail.height = Some(height);
        b
    }

    pub fn with_video(self, url: &str) -> (r: Self)
        ensures
            r@ == self@.set_video(url@),
    {
        let mut b = self;
        b.embed.video.url = Some(String::from_str(url));
        b
    }

    pub fn with_video_dims(self, width: i32, height: i32) -> (r: Self)
        ensures
            r@ == self@.set_video_dims(width, height),
    {
        let mut b = self;
        b.embed.video.width = Some(width);
        b.embed.video.height = Some(height);
        b
    }

    pub fn with_provider(self, name: &str, url: &str) -> (r: Self)
        ensures
            r@ == self@.set_provider(name@, url@),
    {
        let mut b = self;
        b.embed.provider.name = Some(String::from_str(name));
        b.embed.provider.url = Some(String::from_str(url));
        b
    }

    /// Sets the author line to this name and these links; a link that is
    /// `None` is left unset, whatever an earlier call gave.
    pub fn with_author(self, name: &str, url: Option<&str>, icon_url: Option<&str>) -> (r: Self)
        ensures
            r@ == self@.set_author(name@, opt_str_view(url), opt_str_view(icon_url)),
    {
        let mut b = self;
        b.embed.author.name = Some(String::from_str(name));
        b.embed.author.url = match url {
            Some(u) => Some(String::from_str(u)),
            None => None,
        };
        b.embed.author.icon_url = match icon_url {
            Some(u) => Some(String::from_str(u)),
            None => None,
        };
        b
    }

    pub fn with_color(self, color: i32) -> (r: Self)
        ensures
            r@ == self@.set_color(color),
    {
        let mut b = self;
        b.embed.color = color;
        b
    }

    /// Appends a field after those added before.
    pub fn add_field(self, name: &str, value: &str, inline: bool) -> (r: Self)
        ensures
            r@ == self@.push_field(FieldView { name: name@, value: value@, inline }),
    {
        let mut b = self;
        let field = EmbedField { name: String::from_str(name), value: String::from_str(value), inline };
        let ghost before = b.embed@.fields;
        b.embed.fields.push(field);
        assert(b.embed@.fields =~= before.push(field@));
        b
    }

    /// The embed as built.
    pub fn build(self) -> (r: Embed)
        ensures
            r@ == self@,
    {
        self.embed
    }
}

} // verus!
