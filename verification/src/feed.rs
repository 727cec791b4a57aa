use vstd::prelude::*;

verus! {

/// One entry of a feed document, representing one published episode.
/// `enclosure_mime` and `enclosure_length` may be empty where the image
/// probe's response omitted the corresponding header.
pub struct FeedItem {
    pub title: String,
    pub link: String,
    pub guid: String,
    pub pub_date: String,
    pub author: String,
    pub enclosure_url: String,
    pub enclosure_mime: String,
    pub enclosure_length: String,
}

/// Mathematical image of a [`FeedItem`].
pub struct FeedItemView {
    pub title: Seq<char>,
    pub link: Seq<char>,
    pub guid: Seq<char>,
    pub pub_date: Seq<char>,
    pub author: Seq<char>,
    pub enclosure_url: Seq<char>,
    pub enclosure_mime: Seq<char>,
    pub enclosure_length: Seq<char>,
}

impl View for FeedItem {
    type V = FeedItemView;

    open spec fn view(&self) -> FeedItemView {
        FeedItemView {
            title: self.title@,
            link: self.link@,
            guid: self.guid@,
            pub_date: self.pub_date@,
            author: self.author@,
            enclosure_url: self.enclosure_url@,
            enclosure_mime: self.enclosure_mime@,
            enclosure_length: self.enclosure_length@,
        }
    }
}

impl DeepView for FeedItem {
    type V = FeedItemView;

    open spec fn deep_view(&self) -> FeedItemView {
        self.view()
    }
}

/// One feed document: the channel-level fields and the ordered items.
pub struct FeedDocument {
    pub title: String,
    pub link: String,
    pub description: String,
    pub image_url: String,
    pub image_link: String,
    pub image_title: String,
    pub pub_date: String,
    pub last_build_date: String,
    pub items: Vec<FeedItem>,
}

/// Mathematical image of a [`FeedDocument`].
pub struct FeedDocumentView {
    pub title: Seq<char>,
    pub link: Seq<char>,
    pub description: Seq<char>,
    pub image_url: Seq<char>,
    pub image_link: Seq<char>,
    pub image_title: Seq<char>,
    pub pub_date: Seq<char>,
    pub last_build_date: Seq<char>,
    pub items: Seq<FeedItemView>,
}

impl View for FeedDocument {
    type V = FeedDocumentView;

    open spec fn view(&self) -> FeedDocumentView {
        FeedDocumentView {
            title: self.title@,
            link: self.link@,
            description: self.description@,
            image_url: self.image_url@,
            image_link: self.image_link@,
            image_title: self.image_title@,
            pub_date: self.pub_date@,
            last_build_date: self.last_build_date@,
            items: self.items.deep_view(),
        }
    }
}

/// The feed-document text that the rss crate serializes for a document
/// with these fields and items. The text depends on the document alone,
/// so equal documents always serialize to equal text.
pub uninterp spec fn feed_xml_of(doc: FeedDocumentView) -> Seq<char>;

#[verifier::external_type_specification]
#[verifier::external_body]
pub struct ExRssItem(rss::Item);

#[verifier::external_type_specification]
#[verifier::external_body]
pub struct ExRssImage(rss::Image);

/// Relies on rss::Item's public fields: carries the item's fields over,
/// with the guid flagged as a permalink, one for one.
#[verifier::external_body]
fn rss_item_of(item: &FeedItem) -> rss::Item {
    rss::Item {
        title: Some(item.title.clone()),
        link: Some(item.link.clone()),
        guid: Some(rss::Guid { value: item.guid.clone(), permalink: true }),
        pub_date: Some(item.pub_date.clone()),
        author: Some(item.author.clone()),
        enclosure: Some(rss::Enclosure {
            url: item.enclosure_url.clone(),
            length: item.enclosure_length.clone(),
            mime_type: item.enclosure_mime.clone(),
        }),
        ..rss::Item::default()
    }
}

/// Relies on rss::Image's public fields: carries the document's image
/// block over, one field for one.
#[verifier::external_body]
fn rss_image_of(doc: &FeedDocument) -> rss::Image {
    rss::Image {
        url: doc.image_url.clone(),
        link: doc.image_link.clone(),
        title: doc.image_title.clone(),
        ..rss::Image::default()
    }
}

/// Relies on rss::Channel's `Display` impl, which writes one XML feed
/// document for the channel's fields and items and is a pure function of
/// them; `feed_xml_of` names that text.
#[verifier::external_body]
pub(crate) fn serialize_feed(doc: &FeedDocument) -> (r: String)
    ensures
        r@ == feed_xml_of(doc@),
{
    let channel = rss::Channel {
        title: doc.title.clone(),
        link: doc.link.clone(),
        description: doc.description.clone(),
        pub_date: Some(doc.pub_date.clone()),
        last_build_date: Some(doc.last_build_date.clone()),
        image: Some(rss_image_of(doc)),
        items: doc.items.iter().map(rss_item_of).collect(),
        ..rss::Channel::default()
    };
    channel.to_string()
}

} // verus!
