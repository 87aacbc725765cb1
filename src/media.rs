use vstd::prelude::*;

verus! {

/// Which link of a result is shown and delivered.
#[derive(Clone, Copy, Debug, PartialEq, Eq, Structural)]
pub enum URLType {
    /// The direct media link of the requested quality.
    File,
    /// The page link of the result.
    Page,
}

/// The media qualities that every result offers.
#[derive(Clone, Copy, Debug, PartialEq, Eq, Structural)]
pub enum GifResolution {
    Gif,
    MediumGif,
    TinyGif,
    NanoGif,
    Webp,
    GifPreview,
    TinyGifPreview,
    NanoGifPreview,
    Mp4,
    LoopedMp4,
    TinyMp4,
    NanoMp4,
    Webm,
    TinyWebm,
    NanoWebm,
}

/// One rendition of a result's media.
#[derive(Clone, Debug)]
pub struct MediaInfo {
    pub url: String,
    pub preview: String,
    pub size: u32,
}

/// The table of renditions of one result, one per quality.
#[derive(Clone, Debug)]
pub struct MediaFormats {
    pub nanowebm: MediaInfo,
    pub nanomp4: MediaInfo,
    pub mp4: MediaInfo,
    pub nanogif: MediaInfo,
    pub tinymp4: MediaInfo,
    pub tinygifpreview: MediaInfo,
    pub webp: MediaInfo,
    pub gif: MediaInfo,
    pub mediumgif: MediaInfo,
    pub nanogifpreview: MediaInfo,
    pub tinywebm: MediaInfo,
    pub webm: MediaInfo,
    pub loopedmp4: MediaInfo,
    pub tinygif: MediaInfo,
    pub gifpreview: MediaInfo,
}

/// One search result.
#[derive(Clone, Debug)]
pub struct Gif {
    pub id: String,
    /// Generated description of the media.
    pub content_description: String,
    /// Page link.
    pub itemurl: String,
    /// Canonical media link.
    pub url: String,
    /// Tags given by users.
    pub tags: Vec<String>,
    pub media_formats: MediaFormats,
    pub content_description_source: String,
}

impl MediaFormats {
    /// The rendition that stands for quality `r`.
    pub open spec fn variant(self, r: GifResolution) -> MediaInfo {
        match r {
            GifResolution::Gif => self.gif,
            GifResolution::MediumGif => self.mediumgif,
            GifResolution::TinyGif => self.tinygif,
            GifResolution::NanoGif => self.nanogif,
            GifResolution::Webp => self.webp,
            GifResolution::GifPreview => self.gifpreview,
            GifResolution::TinyGifPreview => self.tinygifpreview,
            GifResolution::NanoGifPreview => self.nanogifpreview,
            GifResolution::Mp4 => self.mp4,
            GifResolution::LoopedMp4 => self.loopedmp4,
            GifResolution::TinyMp4 => self.tinymp4,
            GifResolution::NanoMp4 => self.nanomp4,
            GifResolution::Webm => self.webm,
            GifResolution::TinyWebm => self.tinywebm,
            GifResolution::NanoWebm => self.nanowebm,
        }
    }
}

/// The direct media link of quality `r` of result `g`.
pub open spec fn media_url(g: Gif, r: GifResolution) -> Seq<char> {
    g.media_formats.variant(r).url@
}

/// The link of result `g` that link type `t` asks for.
pub open spec fn link_of(g: Gif, t: URLType, r: GifResolution) -> Seq<char> {
    match t {
        URLType::File => media_url(g, r),
        URLType::Page => g.itemurl@,
    }
}

/// The links of all results, in their order.
pub open spec fn links_of(gifs: Seq<Gif>, t: URLType, r: GifResolution) -> Seq<Seq<char>> {
    gifs.map_values(|g: Gif| link_of(g, t, r))
}

/// The views of a sequence of strings.
pub open spec fn string_views(v: Seq<String>) -> Seq<Seq<char>> {
    v.map_values(|s: String| s@)
}

/// Looks up the direct media link of the requested quality.
pub fn get_requested_media_url(gif: &Gif, resolution: GifResolution) -> (r: &String)
    ensures
        r@ == media_url(*gif, resolution),
{
    let f = &gif.media_formats;
    match resolution {
        GifResolution::Gif => &f.gif.url,
        GifResolution::MediumGif => &f.mediumgif.url,
        GifResolution::TinyGif => &f.tinygif.url,
        GifResolution::NanoGif => &f.nanogif.url,
        GifResolution::Webp => &f.webp.url,
        GifResolution::GifPreview => &f.gifpreview.url,
        GifResolution::TinyGifPreview => &f.tinygifpreview.url,
        GifResolution::NanoGifPreview => &f.nanogifpreview.url,
        GifResolution::Mp4 => &f.mp4.url,
        GifResolution::LoopedMp4 => &f.loopedmp4.url,
        GifResolution::TinyMp4 => &f.tinymp4.url,
        GifResolution::NanoMp4 => &f.nanomp4.url,
        GifResolution::Webm => &f.webm.url,
        GifResolution::TinyWebm => &f.tinywebm.url,
        GifResolution::NanoWebm => &f.nanowebm.url,
    }
}

/// The link of one result that the link type asks for: its page link, or its
/// direct media link of the requested quality.
pub fn requested_link(gif: &Gif, url_type: URLType, resolution: GifResolution) -> (r: &String)
    ensures
        r@ == link_of(*gif, url_type, resolution),
{
    match url_type {
        URLType::File => get_requested_media_url(gif, resolution),
        URLType::Page => &gif.itemurl,
    }
}

/// The requested link of every result, one per result, in the order given.
pub fn resolve_links(gifs: &Vec<Gif>, url_type: URLType, resolution: GifResolution) -> (r: Vec<
    String,
>)
    ensures
        string_views(r@) == links_of(gifs@, url_type, resolution),
{
    let mut out: Vec<String> = Vec::new();
    let mut i: usize = 0;
    while i < gifs.len()
        invariant
            i <= gifs.len(),
            out@.len() == i,
            forall|j: int| 0 <= j < i ==> #[trigger] out@[j]@ == link_of(gifs@[j], url_type, resolution),
        decreases gifs.len() - i,
    {
        let link = requested_link(&gifs[i], url_type, resolution).clone();
        out.push(link);
        i = i + 1;
    }
    assert(string_views(out@) =~= links_of(gifs@, url_type, resolution));
    out
}

/// Every result yields exactly one resolved link, and that link is the page
/// link or the rendition of exactly the requested quality.
pub proof fn lemma_one_link_per_result(gifs: Seq<Gif>, t: URLType, r: GifResolution)
    ensures
        links_of(gifs, t, r).len() == gifs.len(),
        forall|i: int|
            0 <= i < gifs.len() ==> {
                &&& t == URLType::File ==> #[trigger] links_of(gifs, t, r)[i]
                    == gifs[i].media_formats.variant(r).url@
                &&& t == URLType::Page ==> links_of(gifs, t, r)[i] == gifs[i].itemurl@
            },
{
}

} // verus!
