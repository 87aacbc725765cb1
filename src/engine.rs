use vstd::prelude::*;

use crate::dispatch::{
    backend_for, select_backend, ClipboardBackend, DeliveryError, Environment, Platform,
};
use crate::media::{
    links_of, media_url, requested_link, get_requested_media_url, resolve_links, string_views,
    link_of, Gif, GifResolution, URLType,
};
use crate::naming::{
    file_name, file_name_of, lemma_spliced_name_differs, splice_numeral, spliced_name, MAX_NUMERAL,
};

verus! {

/// What the user asked for on one run.
#[derive(Clone, Copy, Debug, PartialEq, Eq, Structural)]
pub struct Options {
    /// Print nothing to standard output.
    pub quiet: bool,
    /// Print the whole result set in full instead of one link per result.
    pub extended: bool,
    /// Put the link of a randomly picked result on the clipboard.
    pub copy_random: bool,
    /// Store the media of a randomly picked result in the picture directory.
    pub save_random: bool,
    pub url_type: URLType,
    pub resolution: GifResolution,
}

/// What is printed before any delivery.
#[derive(Debug)]
pub enum Render {
    /// Nothing at all.
    Silent,
    /// One structural dump of the whole result set.
    Dump,
    /// These lines, one per result, in the order of the results.
    Lines(Vec<String>),
}

/// The lines printed for a result set in the plain mode.
pub open spec fn rendered_lines(gifs: Seq<Gif>, o: Options) -> Seq<Seq<char>> {
    links_of(gifs, o.url_type, o.resolution)
}

/// Decides what is printed: nothing when quiet, one dump in the extended
/// mode, else the requested link of each result.
pub fn render(gifs: &Vec<Gif>, opts: &Options) -> (r: Render)
    ensures
        opts.quiet <==> r is Silent,
        !opts.quiet && opts.extended <==> r is Dump,
        r matches Render::Lines(v) ==> !opts.quiet && !opts.extended && string_views(v@)
            == rendered_lines(gifs@, *opts),
{
    if opts.quiet {
        Render::Silent
    } else if opts.extended {
        Render::Dump
    } else {
        Render::Lines(resolve_links(gifs, opts.url_type, opts.resolution))
    }
}

/// In the plain mode there is one line per result, and each is that result's
/// page link or its media link of the requested quality, as the link type
/// says.
pub proof fn lemma_one_line_per_result(gifs: Seq<Gif>, o: Options)
    requires
        !o.quiet,
        !o.extended,
    ensures
        rendered_lines(gifs, o).len() == gifs.len(),
        forall|i: int|
            0 <= i < gifs.len() ==> {
                &&& o.url_type == URLType::Page ==> #[trigger] rendered_lines(gifs, o)[i]
                    == gifs[i].itemurl@
                &&& o.url_type == URLType::File ==> rendered_lines(gifs, o)[i]
                    == gifs[i].media_formats.variant(o.resolution).url@
            },
{
}

/// Relies on `rand::random_range`: on a non-empty half-open range it returns
/// a value inside the range. It panics on an empty range, which `requires`
/// leaves out.
#[verifier::external_body]
pub(crate) fn random_below(bound: usize) -> (r: usize)
    requires
        bound > 0,
    ensures
        r < bound,
{
    rand::random_range(0..bound)
}

/// The picked result and what to do with it.
#[derive(Debug)]
pub struct Delivery {
    /// Position of the picked result in the result set.
    pub index: usize,
    /// Its direct media link of the requested quality.
    pub direct_link: String,
    /// Its link of the requested link type: the one that is delivered, and
    /// printed when delivery fails.
    pub link: String,
    /// The clipboard program to hand `link` to (`None` when no copy was asked
    /// for), or why delivery cannot go ahead.
    pub dispatch: Result<Option<ClipboardBackend>, DeliveryError>,
    /// The name to store the media under, when saving was asked for.
    pub file_name: Option<String>,
}

/// The clipboard step for a run: no platform outside the known ones delivers
/// at all, and a copy needs a clipboard program.
pub open spec fn dispatch_for(o: Options, env: Environment) -> Result<
    Option<ClipboardBackend>,
    DeliveryError,
> {
    if env.platform == Platform::Other {
        Err(DeliveryError::UnsupportedPlatform)
    } else if o.copy_random {
        match backend_for(env) {
            Ok(b) => Ok(Some(b)),
            Err(e) => Err(e),
        }
    } else {
        Ok(None)
    }
}

/// Whether a run asks for any delivery.
pub open spec fn wants_delivery(o: Options) -> bool {
    o.copy_random || o.save_random
}

/// `d` is the delivery of the result at `index` under options `o`.
pub open spec fn is_delivery_of(
    d: Delivery,
    gifs: Seq<Gif>,
    o: Options,
    env: Environment,
    index: int,
) -> bool {
    &&& d.index == index
    &&& d.direct_link@ == media_url(gifs[index], o.resolution)
    &&& d.link@ == link_of(gifs[index], o.url_type, o.resolution)
    &&& d.dispatch == dispatch_for(o, env)
    &&& (o.save_random <==> d.file_name is Some)
    &&& d.file_name matches Some(f) ==> f@ == file_name_of(d.direct_link@)
}

/// Plans the delivery of the result at `index`: `None` when the run asks for
/// no delivery.
pub fn plan_delivery_at(gifs: &Vec<Gif>, opts: &Options, env: &Environment, index: usize) -> (r:
    Option<Delivery>)
    requires
        index < gifs.len(),
    ensures
        r is None <==> !wants_delivery(*opts),
        r matches Some(d) ==> is_delivery_of(d, gifs@, *opts, *env, index as int),
{
    if !opts.copy_random && !opts.save_random {
        return None;
    }
    let gif = &gifs[index];
    let direct_link = get_requested_media_url(gif, opts.resolution).clone();
    let link = requested_link(gif, opts.url_type, opts.resolution).clone();
    let dispatch = if env.platform == Platform::Other {
        Err(DeliveryError::UnsupportedPlatform)
    } else if opts.copy_random {
        match select_backend(env) {
            Ok(b) => Ok(Some(b)),
            Err(e) => Err(e),
        }
    } else {
        Ok(None)
    };
    let file_name = if opts.save_random {
        Some(file_name(direct_link.as_str()))
    } else {
        None
    };
    Some(Delivery { index, direct_link, link, dispatch, file_name })
}

/// Picks one result at random and plans its delivery: `Ok(None)` when the run
/// asks for no delivery, `Err(NoResults)` when it does and there is nothing to
/// pick from.
pub fn plan_delivery(gifs: &Vec<Gif>, opts: &Options, env: &Environment) -> (r: Result<
    Option<Delivery>,
    DeliveryError,
>)
    ensures
        r matches Ok(None) <==> !wants_delivery(*opts),
        r is Err <==> wants_delivery(*opts) && gifs.len() == 0,
        r matches Err(e) ==> e == DeliveryError::NoResults,
        r matches Ok(Some(d)) ==> d.index < gifs.len() && is_delivery_of(
            d,
            gifs@,
            *opts,
            *env,
            d.index as int,
        ),
{
    if !opts.copy_random && !opts.save_random {
        return Ok(None);
    }
    if gifs.len() == 0 {
        return Err(DeliveryError::NoResults);
    }
    let index = random_below(gifs.len());
    Ok(plan_delivery_at(gifs, opts, env, index))
}

/// A new name for a file whose name is taken: `name` with a random numeral
/// from 0 to 100000 spliced in four characters before its end. It is drawn
/// once; whether the new name is free is not checked again.
pub fn alternate_file_name(name: &str) -> (r: String)
    ensures
        exists|n: nat| n <= MAX_NUMERAL && r@ == spliced_name(name@, n),
        r@ != name@,
{
    let n = random_below(MAX_NUMERAL as usize + 1) as u32;
    proof {
        lemma_spliced_name_differs(name@, n as nat);
    }
    splice_numeral(name, n)
}

} // verus!
