//! Replies of the bot, and the embeds it builds with `twilight_embed_builder`.

use twilight_embed_builder::image_source::ImageSourceUrlError;
use twilight_embed_builder::{EmbedBuilder, EmbedError, ImageSource};
use twilight_model::channel::embed::Embed;
use vstd::prelude::*;

verus! {

#[verifier::external_type_specification]
#[verifier::external_body]
pub struct ExEmbed(Embed);

#[verifier::external_type_specification]
#[verifier::external_body]
pub struct ExEmbedError(EmbedError);

#[verifier::external_type_specification]
#[verifier::external_body]
pub struct ExImageSourceUrlError(ImageSourceUrlError);

/// The colour of every embed of the bot.
pub const EMBED_COLOR: u32 = 0x28de98;

/// Why an embed could not be made.
#[derive(Debug)]
pub enum EmbedFailure {
    /// The image URL was refused by `ImageSource::url`.
    ImageUrl(ImageSourceUrlError),
    /// `EmbedBuilder::build` refused the embed.
    Build(EmbedError),
}

/// Whether making an embed failed on its image URL.
pub open spec fn image_url_refused<T>(r: Result<T, EmbedFailure>) -> bool {
    r matches Err(EmbedFailure::ImageUrl(_))
}

/// `ImageSource::url` accepts a URL that starts with `https:` or `http:`.
pub open spec fn image_url_accepted(url: Seq<char>) -> bool {
    ||| (url.len() >= 6 && url.take(6) == seq!['h', 't', 't', 'p', 's', ':'])
    ||| (url.len() >= 5 && url.take(5) == seq!['h', 't', 't', 'p', ':'])
}

/// `EmbedBuilder::build` accepts a colour from 1 to `0xffffff`.
pub open spec fn color_accepted(color: u32) -> bool {
    0 < color <= 0xffffff
}

/// `EmbedBuilder::build` accepts a title of 1 to 256 characters.
pub open spec fn title_accepted(title: Seq<char>) -> bool {
    0 < title.len() <= 256
}

/// `EmbedBuilder::build` accepts a description of 1 to 4096 characters.
pub open spec fn description_accepted(description: Seq<char>) -> bool {
    0 < description.len() <= 4096
}

/// The embed that `EmbedBuilder` builds with a thumbnail, a title and a colour.
pub uninterp spec fn thumbnail_embed(title: Seq<char>, thumbnail_url: Seq<char>, color: u32) -> Embed;

/// The embed that `EmbedBuilder` builds with a title, an image, a colour and
/// a description.
pub uninterp spec fn image_embed(
    title: Seq<char>,
    image_url: Seq<char>,
    color: u32,
    description: Seq<char>,
) -> Embed;

/// Makes `ImageSource::url(thumbnail_url)` and builds
/// `EmbedBuilder::new().thumbnail(..).title(title).color(color)`.
/// Trusted: the URL is refused exactly when it starts with neither `https:`
/// nor `http:`; `build` then refuses exactly a colour that is 0 or above
/// `0xffffff` or a title that is empty or longer than 256 characters (no
/// other part is set, so the 6000-character total cannot be reached); the
/// built embed is named by `thumbnail_embed` of the three arguments.
#[verifier::external_body]
#[allow(deprecated)]
fn build_thumbnail_embed(title: &str, thumbnail_url: &str, color: u32) -> (r: Result<Embed, EmbedFailure>)
    ensures
        image_url_refused(r) <==> !image_url_accepted(thumbnail_url@),
        r is Ok <==> (image_url_accepted(thumbnail_url@) && color_accepted(color)
            && title_accepted(title@)),
        r matches Ok(e) ==> e == thumbnail_embed(title@, thumbnail_url@, color),
{
    let source = match ImageSource::url(thumbnail_url) {
        Ok(source) => source,
        Err(e) => return Err(EmbedFailure::ImageUrl(e)),
    };
    match EmbedBuilder::new().thumbnail(source).title(title).color(color).build() {
        Ok(embed) => Ok(embed),
        Err(e) => Err(EmbedFailure::Build(e)),
    }
}

/// Makes `ImageSource::url(image_url)` and builds
/// `EmbedBuilder::new().title(title).image(..).color(color).description(description)`.
/// Trusted: the URL is refused exactly when it starts with neither `https:`
/// nor `http:`; `build` then refuses exactly a colour that is 0 or above
/// `0xffffff`, a description that is empty or longer than 4096 characters,
/// or a title that is empty or longer than 256 characters (together they
/// stay under the 6000-character total); the built embed is named by
/// `image_embed` of the four arguments.
#[verifier::external_body]
#[allow(deprecated)]
fn build_image_embed(title: &str, image_url: &str, color: u32, description: &str) -> (r: Result<Embed, EmbedFailure>)
    ensures
        image_url_refused(r) <==> !image_url_accepted(image_url@),
        r is Ok <==> (image_url_accepted(image_url@) && color_accepted(color)
            && title_accepted(title@) && description_accepted(description@)),
        r matches Ok(e) ==> e == image_embed(title@, image_url@, color, description@),
{
    let source = match ImageSource::url(image_url) {
        Ok(source) => source,
        Err(e) => return Err(EmbedFailure::ImageUrl(e)),
    };
    match EmbedBuilder::new().title(title).image(source).color(color).description(
        description,
    ).build() {
        Ok(embed) => Ok(embed),
        Err(e) => Err(EmbedFailure::Build(e)),
    }
}

/// `r` is what making an embed with a thumbnail gives for these parts.
pub open spec fn is_thumbnail_embed_result(
    r: Result<Embed, EmbedFailure>,
    title: Seq<char>,
    thumbnail_url: Seq<char>,
    color: u32,
) -> bool {
    &&& image_url_refused(r) <==> !image_url_accepted(thumbnail_url)
    &&& r is Ok <==> (image_url_accepted(thumbnail_url) && color_accepted(color) && title_accepted(title))
    &&& r matches Ok(e) ==> e == thumbnail_embed(title, thumbnail_url, color)
}

/// `r` is what making an embed with an image and a description gives for
/// these parts.
pub open spec fn is_image_embed_result(
    r: Result<Embed, EmbedFailure>,
    title: Seq<char>,
    image_url: Seq<char>,
    color: u32,
    description: Seq<char>,
) -> bool {
    &&& image_url_refused(r) <==> !image_url_accepted(image_url)
    &&& r is Ok <==> (image_url_accepted(image_url) && color_accepted(color) && title_accepted(title)
        && description_accepted(description))
    &&& r matches Ok(e) ==> e == image_embed(title, image_url, color, description)
}

/// Makes the bot's embed with a thumbnail: the given title and thumbnail, in
/// the bot's colour.
pub fn make_thumbnail_embed(title: &str, thumbnail_url: &str) -> (r: Result<Embed, EmbedFailure>)
    ensures
        is_thumbnail_embed_result(r, title@, thumbnail_url@, EMBED_COLOR),
        r is Ok <==> (image_url_accepted(thumbnail_url@) && title_accepted(title@)),
{
    build_thumbnail_embed(title, thumbnail_url, EMBED_COLOR)
}

/// Makes the bot's embed with an image: the given title, image and
/// description, in the bot's colour.
pub fn make_image_embed(title: &str, image_url: &str, description: &str) -> (r: Result<Embed, EmbedFailure>)
    ensures
        is_image_embed_result(r, title@, image_url@, EMBED_COLOR, description@),
        r is Ok <==> (image_url_accepted(image_url@) && title_accepted(title@)
            && description_accepted(description@)),
{
    build_image_embed(title, image_url, EMBED_COLOR, description)
}

} // verus!
