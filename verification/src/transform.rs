use vstd::prelude::*;

use crate::feed::{FeedDocument, FeedDocumentView, FeedItem, FeedItemView};
use crate::model::{Comic, ComicView, Episode, EpisodeView, ImageProbe, ProbeView};

verus! {

/// The catalog's base URL, the prefix of every composed link.
pub open spec fn host() -> Seq<char> {
    "https://mangacross.jp"@
}

/// The catalog's base URL as a string slice.
pub fn mangacross_host() -> (r: &'static str)
    ensures
        r@ == host(),
{
    "https://mangacross.jp"
}

/// The one status that makes an episode eligible for the feed.
pub open spec fn public_status() -> Seq<char> {
    "public"@
}

/// The subsequence of `eps` whose status is exactly `"public"`, in
/// source order.
pub open spec fn eligible(eps: Seq<EpisodeView>) -> Seq<EpisodeView>
    decreases eps.len(),
{
    if eps.len() == 0 {
        Seq::empty()
    } else if eps.last().status == public_status() {
        eligible(eps.drop_last()).push(eps.last())
    } else {
        eligible(eps.drop_last())
    }
}

/// Returns the comic's eligible episodes: exactly those with status
/// `"public"`, in source order.
pub fn eligible_episodes(comic: &Comic) -> (r: Vec<Episode>)
    ensures
        r.deep_view() == eligible(comic@.episodes),
{
    let mut out: Vec<Episode> = Vec::new();
    let public_str = String::from_str("public");
    let n = comic.episodes.len();
    let mut i: usize = 0;
    while i < n
        invariant
            i <= n,
            n == comic.episodes.len(),
            public_str@ == public_status(),
            out.deep_view() == eligible(comic@.episodes.take(i as int)),
        decreases n - i,
    {
        proof {
            assert(comic@.episodes.take(i + 1).drop_last() =~= comic@.episodes.take(i as int));
            assert(comic@.episodes.take(i + 1).last() == comic@.episodes[i as int]);
        }
        if comic.episodes[i].status == public_str {
            out.push(comic.episodes[i].clone());
        }
        i += 1;
        proof {
            assert(out.deep_view() =~= eligible(comic@.episodes.take(i as int)));
        }
    }
    proof {
        assert(comic@.episodes.take(n as int) =~= comic@.episodes);
    }
    out
}

/// The feed item built from one eligible episode: title composed as
/// `"<volume> | <episode title>"`, link and permalink guid composed as
/// `"<host><page url>"`, author copied from the comic, and the enclosure
/// taken from the episode's double-resolution image and its probe.
pub open spec fn item_view_of(e: EpisodeView, c: ComicView, p: ProbeView) -> FeedItemView {
    FeedItemView {
        title: e.volume + " | "@ + e.title,
        link: host() + e.page_url,
        guid: host() + e.page_url,
        pub_date: e.publish_start,
        author: c.author,
        enclosure_url: e.list_image_double_url,
        enclosure_mime: p.mime_type,
        enclosure_length: p.length,
    }
}

/// Builds the feed item for one eligible episode, with the image probe's
/// findings handed in as plain values.
pub fn episode_to_item(episode: &Episode, comic: &Comic, probe: &ImageProbe) -> (r: FeedItem)
    ensures
        r@ == item_view_of(episode@, comic@, probe@),
{
    let mut title = episode.volume.clone();
    title.append(" | ");
    title.append(episode.title.as_str());
    let mut link = String::from_str(mangacross_host());
    link.append(episode.page_url.as_str());
    let guid = link.clone();
    let r = FeedItem {
        title,
        link,
        guid,
        pub_date: episode.publish_start.clone(),
        author: comic.author.clone(),
        enclosure_url: episode.list_image_double_url.clone(),
        enclosure_mime: probe.mime_type.clone(),
        enclosure_length: probe.length.clone(),
    };
    r
}

/// The items of the comic's feed: one per eligible episode, in source
/// order, each paired with the probe result of the same index.
pub open spec fn feed_items_of(c: ComicView, probes: Seq<ProbeView>) -> Seq<FeedItemView> {
    Seq::new(eligible(c.episodes).len(), |i: int| item_view_of(eligible(c.episodes)[i], c, probes[i]))
}

/// The feed document built from one comic record and its probe results.
pub open spec fn feed_view_of(c: ComicView, probes: Seq<ProbeView>) -> FeedDocumentView {
    FeedDocumentView {
        title: c.title,
        link: host() + "/comics/"@ + c.dir_name + "/"@,
        description: c.caption_for_search,
        image_url: c.image_url,
        image_link: c.image_url,
        image_title: c.title + " "@ + c.author,
        pub_date: c.latest_episode_publish_start,
        last_build_date: c.latest_episode_publish_start,
        items: feed_items_of(c, probes),
    }
}

/// Builds the comic's feed document. `probes` holds one probe result per
/// eligible episode, in the eligible episodes' order; items are placed
/// by index, so their order follows the source episode order.
pub fn comic_to_channel(comic: &Comic, probes: &Vec<ImageProbe>) -> (r: FeedDocument)
    requires
        probes.deep_view().len() == eligible(comic@.episodes).len(),
    ensures
        r@ == feed_view_of(comic@, probes.deep_view()),
        r@.items.len() == eligible(comic@.episodes).len(),
{
    let eps = eligible_episodes(comic);
    let ghost goal: Seq<FeedItemView> = feed_items_of(comic@, probes.deep_view());
    let mut items: Vec<FeedItem> = Vec::new();
    let n = eps.len();
    let mut i: usize = 0;
    while i < n
        invariant
            i <= n,
            n == eps.len(),
            eps.deep_view() == eligible(comic@.episodes),
            probes.deep_view().len() == n,
            probes@.len() == n,
            goal == feed_items_of(comic@, probes.deep_view()),
            items@.len() == i,
            forall|j: int| 0 <= j < i ==> (#[trigger] items@[j])@ == goal[j],
        decreases n - i,
    {
        let item = episode_to_item(&eps[i], comic, &probes[i]);
        proof {
            assert(eps.deep_view()[i as int] == eligible(comic@.episodes)[i as int]);
            assert(probes.deep_view()[i as int] == probes@[i as int]@);
            assert(item@ == goal[i as int]);
        }
        items.push(item);
        i += 1;
    }
    proof {
        assert forall|j: int| 0 <= j < n implies items.deep_view()[j] == goal[j] by {
            assert(items.deep_view()[j] == items@[j].deep_view());
            assert((items@[j])@ == goal[j]);
        }
        assert(items.deep_view() =~= goal);
    }
    let mut link = String::from_str(mangacross_host());
    link.append("/comics/");
    link.append(comic.dir_name.as_str());
    link.append("/");
    let mut image_title = comic.title.clone();
    image_title.append(" ");
    image_title.append(comic.author.as_str());
    let r = FeedDocument {
        title: comic.title.clone(),
        link,
        description: comic.caption_for_search.clone(),
        image_url: comic.image_url.clone(),
        image_link: comic.image_url.clone(),
        image_title,
        pub_date: comic.latest_episode_publish_start.clone(),
        last_build_date: comic.latest_episode_publish_start.clone(),
        items,
    };
    r
}

} // verus!
