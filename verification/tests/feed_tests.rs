use mangacross_rss::config::Config;
use mangacross_rss::model::{Comic, Episode, FeedError, ImageProbe};
use mangacross_rss::numeral::u64_to_dec;
use mangacross_rss::pipeline::{
    all_succeeded, api_url, build_feed, collect_probes, feed_file_path, probe_of, target_dir_path,
};
use mangacross_rss::transform::{
    comic_to_channel, eligible_episodes, episode_to_item, mangacross_host,
};

fn episode(status: &str, volume: &str, title: &str, page: &str, image: &str, date: &str) -> Episode {
    Episode {
        status: status.to_string(),
        sort_volume: volume.to_string(),
        volume: volume.to_string(),
        title: title.to_string(),
        page_url: page.to_string(),
        list_image_double_url: image.to_string(),
        publish_start: date.to_string(),
    }
}

fn one_piece_comic() -> Comic {
    Comic {
        title: "One Piece".to_string(),
        author: "Oda".to_string(),
        dir_name: "one-piece".to_string(),
        image_url: "https://img.example/cover.png".to_string(),
        caption_for_search: "A pirate story".to_string(),
        latest_episode_publish_start: "Mon, 01 Jan 2024 00:00:00 +0900".to_string(),
        episodes: vec![
            episode(
                "public",
                "Vol.1",
                "Romance Dawn",
                "/comics/one-piece/1",
                "https://img.example/1@2x.png",
                "Mon, 01 Jan 2024 00:00:00 +0900",
            ),
            episode(
                "draft",
                "Vol.2",
                "Unpublished",
                "/comics/one-piece/2",
                "https://img.example/2@2x.png",
                "Tue, 02 Jan 2024 00:00:00 +0900",
            ),
        ],
    }
}

fn probe(mime: &str, length: &str) -> ImageProbe {
    ImageProbe { mime_type: mime.to_string(), length: length.to_string() }
}

#[test]
fn host_is_fixed() {
    assert_eq!(mangacross_host(), "https://mangacross.jp");
}

#[test]
fn api_url_composes() {
    assert_eq!(
        api_url("one-piece"),
        "https://mangacross.jp/api/comics/one-piece.json?type=public"
    );
}

#[test]
fn output_paths_compose() {
    assert_eq!(target_dir_path("out", "one-piece"), "out/one-piece");
    assert_eq!(feed_file_path("out", "one-piece"), "out/one-piece/feed.xml");
}

#[test]
fn decimal_rendering_is_exact() {
    assert_eq!(u64_to_dec(0), "0");
    assert_eq!(u64_to_dec(7), "7");
    assert_eq!(u64_to_dec(10), "10");
    assert_eq!(u64_to_dec(907), "907");
    assert_eq!(u64_to_dec(u64::MAX), "18446744073709551615");
}

#[test]
fn probe_keeps_present_headers() {
    let p = probe_of(Some("image/jpeg".to_string()), Some(12345));
    assert_eq!(p.mime_type, "image/jpeg");
    assert_eq!(p.length, "12345");
}

#[test]
fn probe_tolerates_missing_headers() {
    let p = probe_of(None, None);
    assert_eq!(p.mime_type, "");
    assert_eq!(p.length, "");
    let q = probe_of(None, Some(9));
    assert_eq!(q.mime_type, "");
    assert_eq!(q.length, "9");
}

#[test]
fn filter_keeps_only_public_episodes() {
    let mut comic = one_piece_comic();
    comic.episodes.push(episode(
        "public",
        "Vol.3",
        "Back Again",
        "/comics/one-piece/3",
        "https://img.example/3@2x.png",
        "Wed, 03 Jan 2024 00:00:00 +0900",
    ));
    comic.episodes.push(episode(
        "private",
        "Vol.4",
        "Hidden",
        "/comics/one-piece/4",
        "https://img.example/4@2x.png",
        "Thu, 04 Jan 2024 00:00:00 +0900",
    ));
    let eligible = eligible_episodes(&comic);
    assert_eq!(eligible.len(), 2);
    assert_eq!(eligible[0].title, "Romance Dawn");
    assert_eq!(eligible[1].title, "Back Again");
}

#[test]
fn item_fields_are_composed() {
    let comic = one_piece_comic();
    let ep = &comic.episodes[0];
    let item = episode_to_item(ep, &comic, &probe("image/png", "2048"));
    assert_eq!(item.title, "Vol.1 | Romance Dawn");
    assert_eq!(item.link, "https://mangacross.jp/comics/one-piece/1");
    assert_eq!(item.guid, "https://mangacross.jp/comics/one-piece/1");
    assert_eq!(item.pub_date, "Mon, 01 Jan 2024 00:00:00 +0900");
    assert_eq!(item.author, "Oda");
    assert_eq!(item.enclosure_url, "https://img.example/1@2x.png");
    assert_eq!(item.enclosure_mime, "image/png");
    assert_eq!(item.enclosure_length, "2048");
}

#[test]
fn document_fields_are_composed() {
    let comic = one_piece_comic();
    let doc = comic_to_channel(&comic, &vec![probe("image/png", "2048")]);
    assert_eq!(doc.title, "One Piece");
    assert_eq!(doc.link, "https://mangacross.jp/comics/one-piece/");
    assert_eq!(doc.description, "A pirate story");
    assert_eq!(doc.image_url, "https://img.example/cover.png");
    assert_eq!(doc.image_link, "https://img.example/cover.png");
    assert_eq!(doc.image_title, "One Piece Oda");
    assert_eq!(doc.pub_date, "Mon, 01 Jan 2024 00:00:00 +0900");
    assert_eq!(doc.last_build_date, "Mon, 01 Jan 2024 00:00:00 +0900");
    assert_eq!(doc.items.len(), 1);
}

#[test]
fn items_keep_source_order() {
    let mut comic = one_piece_comic();
    comic.episodes = vec![
        episode("public", "Vol.1", "A", "/c/1", "https://img.example/1", "d1"),
        episode("draft", "Vol.2", "B", "/c/2", "https://img.example/2", "d2"),
        episode("public", "Vol.3", "C", "/c/3", "https://img.example/3", "d3"),
        episode("public", "Vol.4", "D", "/c/4", "https://img.example/4", "d4"),
    ];
    let probes = vec![probe("m/1", "1"), probe("m/3", "3"), probe("m/4", "4")];
    let doc = comic_to_channel(&comic, &probes);
    let titles: Vec<&str> = doc.items.iter().map(|it| it.title.as_str()).collect();
    assert_eq!(titles, vec!["Vol.1 | A", "Vol.3 | C", "Vol.4 | D"]);
    assert_eq!(doc.items[1].enclosure_mime, "m/3");
    assert_eq!(doc.items[2].enclosure_length, "4");
}

#[test]
fn collect_probes_joins_values_in_order() {
    let probes: Vec<Result<ImageProbe, FeedError>> =
        vec![Ok(probe("a", "1")), Ok(probe("b", "2"))];
    let joined = collect_probes(&probes).expect("all probes succeeded");
    assert_eq!(joined.len(), 2);
    assert_eq!(joined[0].mime_type, "a");
    assert_eq!(joined[1].mime_type, "b");
}

#[test]
fn collect_probes_fails_fast_with_first_error() {
    let probes: Vec<Result<ImageProbe, FeedError>> = vec![
        Ok(probe("a", "1")),
        Err(FeedError::Network),
        Err(FeedError::Filesystem),
    ];
    assert!(matches!(collect_probes(&probes), Err(FeedError::Network)));
    let probes2: Vec<Result<ImageProbe, FeedError>> =
        vec![Err(FeedError::Decode), Err(FeedError::Network)];
    assert!(matches!(collect_probes(&probes2), Err(FeedError::Decode)));
}

#[test]
fn build_feed_fails_when_any_probe_fails() {
    let comic = one_piece_comic();
    let probes = vec![Err(FeedError::Network)];
    assert_eq!(build_feed(&comic, &probes), Err(FeedError::Network));
    let probes2 = vec![Err(FeedError::Filesystem)];
    assert_eq!(build_feed(&comic, &probes2), Err(FeedError::Filesystem));
}

#[test]
fn one_target_scenario_builds_one_item() {
    let comic = one_piece_comic();
    let probes = vec![Ok(probe("image/png", "2048"))];
    let xml = build_feed(&comic, &probes).expect("feed builds");
    let channel = rss::Channel::read_from(xml.as_bytes()).expect("feed parses");
    assert_eq!(channel.title(), "One Piece");
    assert_eq!(channel.link(), "https://mangacross.jp/comics/one-piece/");
    assert_eq!(channel.description(), "A pirate story");
    assert_eq!(channel.pub_date(), Some("Mon, 01 Jan 2024 00:00:00 +0900"));
    assert_eq!(channel.last_build_date(), Some("Mon, 01 Jan 2024 00:00:00 +0900"));
    let image = channel.image().expect("channel image");
    assert_eq!(image.url(), "https://img.example/cover.png");
    assert_eq!(image.title(), "One Piece Oda");
    assert_eq!(channel.items().len(), 1);
    let item = &channel.items()[0];
    assert_eq!(item.title(), Some("Vol.1 | Romance Dawn"));
    assert_eq!(item.link(), Some("https://mangacross.jp/comics/one-piece/1"));
    let guid = item.guid().expect("item guid");
    assert_eq!(guid.value(), "https://mangacross.jp/comics/one-piece/1");
    assert!(guid.is_permalink());
    assert_eq!(item.author(), Some("Oda"));
    let enclosure = item.enclosure().expect("item enclosure");
    assert_eq!(enclosure.url(), "https://img.example/1@2x.png");
    assert_eq!(enclosure.mime_type(), "image/png");
    assert_eq!(enclosure.length(), "2048");
    assert_eq!(feed_file_path("out", "one-piece"), "out/one-piece/feed.xml");
}

#[test]
fn missing_headers_serialize_as_empty_attributes() {
    let comic = one_piece_comic();
    let probes = vec![Ok(probe_of(None, None))];
    let xml = build_feed(&comic, &probes).expect("feed builds");
    let channel = rss::Channel::read_from(xml.as_bytes()).expect("feed parses");
    let enclosure = channel.items()[0].enclosure().expect("item enclosure");
    assert_eq!(enclosure.mime_type(), "");
    assert_eq!(enclosure.length(), "");
}

#[test]
fn serialization_is_idempotent() {
    let comic = one_piece_comic();
    let first = build_feed(&comic, &vec![Ok(probe("image/png", "2048"))]).expect("feed builds");
    let second = build_feed(&comic, &vec![Ok(probe("image/png", "2048"))]).expect("feed builds");
    assert_eq!(first, second);
}

#[test]
fn aggregate_succeeds_only_when_all_do() {
    let all_ok: Vec<Result<(), FeedError>> = vec![Ok(()), Ok(())];
    assert!(all_succeeded(&all_ok));
    let none: Vec<Result<(), FeedError>> = vec![];
    assert!(all_succeeded(&none));
    let one_failed: Vec<Result<(), FeedError>> =
        vec![Ok(()), Err(FeedError::Network), Ok(())];
    assert!(!all_succeeded(&one_failed));
}

#[test]
fn partial_failure_keeps_other_targets_output() {
    let comic_a = one_piece_comic();
    let feed_a = build_feed(&comic_a, &vec![Ok(probe("image/png", "2048"))]);
    let feed_b: Result<String, FeedError> = Err(FeedError::Network);
    let xml_a = feed_a.clone().expect("first target builds");
    assert!(rss::Channel::read_from(xml_a.as_bytes()).is_ok());
    let outcomes: Vec<Result<(), FeedError>> =
        vec![feed_a.map(|_| ()), feed_b.map(|_| ())];
    assert!(!all_succeeded(&outcomes));
}

#[test]
fn comic_without_public_episodes_builds_empty_feed() {
    let mut comic = one_piece_comic();
    comic.episodes = vec![episode(
        "draft",
        "Vol.1",
        "Unpublished",
        "/c/1",
        "https://img.example/1",
        "d1",
    )];
    assert_eq!(eligible_episodes(&comic).len(), 0);
    let xml = build_feed(&comic, &vec![]).expect("feed builds");
    let channel = rss::Channel::read_from(xml.as_bytes()).expect("feed parses");
    assert_eq!(channel.items().len(), 0);
    assert_eq!(channel.title(), "One Piece");
}

#[test]
fn every_successful_target_yields_a_feed() {
    let comic_a = one_piece_comic();
    let mut comic_b = one_piece_comic();
    comic_b.title = "Two Piece".to_string();
    comic_b.dir_name = "two-piece".to_string();
    let feeds = vec![
        build_feed(&comic_a, &vec![Ok(probe("image/png", "1"))]),
        build_feed(&comic_b, &vec![Ok(probe("image/png", "2"))]),
    ];
    assert!(feeds.iter().all(|f| f.is_ok()));
    for feed in &feeds {
        let xml = feed.as_ref().expect("feed builds");
        assert!(rss::Channel::read_from(xml.as_bytes()).is_ok());
    }
    let outcomes: Vec<Result<(), FeedError>> =
        feeds.into_iter().map(|f| f.map(|_| ())).collect();
    assert!(all_succeeded(&outcomes));
    assert_eq!(feed_file_path("out", "one-piece"), "out/one-piece/feed.xml");
    assert_eq!(feed_file_path("out", "two-piece"), "out/two-piece/feed.xml");
}

#[test]
fn config_clone_keeps_targets() {
    let config = Config { targets: vec!["a".to_string(), "b".to_string()] };
    let copy = config.clone();
    assert_eq!(copy.targets, vec!["a".to_string(), "b".to_string()]);
}
