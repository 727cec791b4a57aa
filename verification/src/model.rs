use vstd::prelude::*;

verus! {

/// One episode of a comic, as the catalog reports it. Only episodes whose
/// `status` is exactly `"public"` are eligible for the feed.
pub struct Episode {
    pub status: String,
    pub sort_volume: String,
    pub volume: String,
    pub title: String,
    pub page_url: String,
    pub list_image_double_url: String,
    pub publish_start: String,
}

/// Mathematical image of an [`Episode`]: each field as a character sequence.
pub struct EpisodeView {
    pub status: Seq<char>,
    pub sort_volume: Seq<char>,
    pub volume: Seq<char>,
    pub title: Seq<char>,
    pub page_url: Seq<char>,
    pub list_image_double_url: Seq<char>,
    pub publish_start: Seq<char>,
}

impl View for Episode {
    type V = EpisodeView;

    open spec fn view(&self) -> EpisodeView {
        EpisodeView {
            status: self.status@,
            sort_volume: self.sort_volume@,
            volume: self.volume@,
            title: self.title@,
            page_url: self.page_url@,
            list_image_double_url: self.list_image_double_url@,
            publish_start: self.publish_start@,
        }
    }
}

impl DeepView for Episode {
    type V = EpisodeView;

    open spec fn deep_view(&self) -> EpisodeView {
        self.view()
    }
}

impl Clone for Episode {
    fn clone(&self) -> (r: Self)
        ensures
            r@ == self@,
    {
        Episode {
            status: self.status.clone(),
            sort_volume: self.sort_volume.clone(),
            volume: self.volume.clone(),
            title: self.title.clone(),
            page_url: self.page_url.clone(),
            list_image_double_url: self.list_image_double_url.clone(),
            publish_start: self.publish_start.clone(),
        }
    }
}

/// One comic record, as decoded from the catalog's per-title endpoint.
/// `dir_name` is the URL-safe slug that names both the source API path
/// and the output directory.
pub struct Comic {
    pub title: String,
    pub author: String,
    pub dir_name: String,
    pub image_url: String,
    pub caption_for_search: String,
    pub latest_episode_publish_start: String,
    pub episodes: Vec<Episode>,
}

/// Mathematical image of a [`Comic`].
pub struct ComicView {
    pub title: Seq<char>,
    pub author: Seq<char>,
    pub dir_name: Seq<char>,
    pub image_url: Seq<char>,
    pub caption_for_search: Seq<char>,
    pub latest_episode_publish_start: Seq<char>,
    pub episodes: Seq<EpisodeView>,
}

impl View for Comic {
    type V = ComicView;

    open spec fn view(&self) -> ComicView {
        ComicView {
            title: self.title@,
            author: self.author@,
            dir_name: self.dir_name@,
            image_url: self.image_url@,
            caption_for_search: self.caption_for_search@,
            latest_episode_publish_start: self.latest_episode_publish_start@,
            episodes: self.episodes.deep_view(),
        }
    }
}

/// What one image probe learned: the `Content-Type` header and the
/// `Content-Length` rendered in decimal, each the empty string where the
/// response omitted the header.
pub struct ImageProbe {
    pub mime_type: String,
    pub length: String,
}

/// Mathematical image of an [`ImageProbe`].
pub struct ProbeView {
    pub mime_type: Seq<char>,
    pub length: Seq<char>,
}

impl View for ImageProbe {
    type V = ProbeView;

    open spec fn view(&self) -> ProbeView {
        ProbeView { mime_type: self.mime_type@, length: self.length@ }
    }
}

impl DeepView for ImageProbe {
    type V = ProbeView;

    open spec fn deep_view(&self) -> ProbeView {
        self.view()
    }
}

impl Clone for ImageProbe {
    fn clone(&self) -> (r: Self)
        ensures
            r@ == self@,
    {
        ImageProbe { mime_type: self.mime_type.clone(), length: self.length.clone() }
    }
}

/// The kinds of failure one target's pipeline can meet: a transport
/// failure or non-success status, a body that does not decode into the
/// comic record shape, or a failed directory creation or file write.
#[derive(Clone, Copy, PartialEq, Eq, Structural, Debug)]
pub enum FeedError {
    Network,
    Decode,
    Filesystem,
}

} // verus!
