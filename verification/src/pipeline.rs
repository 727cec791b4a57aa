use vstd::prelude::*;

use crate::feed::{feed_xml_of, serialize_feed};
use crate::model::{Comic, FeedError, ImageProbe, ProbeView};
use crate::numeral::{dec_of, u64_to_dec};
use crate::transform::{comic_to_channel, eligible, feed_view_of, host, mangacross_host};

verus! {

/// The catalog URL for one target: `<host>/api/comics/<target>.json?type=public`.
pub open spec fn api_url_of(target: Seq<char>) -> Seq<char> {
    host() + "/api/comics/"@ + target + ".json?type=public"@
}

/// Composes the catalog URL for one target.
pub fn api_url(target: &str) -> (r: String)
    ensures
        r@ == api_url_of(target@),
{
    let mut r = String::from_str(mangacross_host());
    r.append("/api/comics/");
    r.append(target);
    r.append(".json?type=public");
    r
}

/// The output directory for one target: `<output>/<target>`.
pub open spec fn target_dir_of(output: Seq<char>, target: Seq<char>) -> Seq<char> {
    output + "/"@ + target
}

/// Composes the output directory path for one target.
pub fn target_dir_path(output: &str, target: &str) -> (r: String)
    ensures
        r@ == target_dir_of(output@, target@),
{
    let mut r = String::from_str(output);
    r.append("/");
    r.append(target);
    r
}

/// The feed file for one target: `<output>/<target>/feed.xml`.
pub open spec fn feed_file_of(output: Seq<char>, target: Seq<char>) -> Seq<char> {
    target_dir_of(output, target) + "/feed.xml"@
}

/// Composes the feed file path for one target.
pub fn feed_file_path(output: &str, target: &str) -> (r: String)
    ensures
        r@ == feed_file_of(output@, target@),
{
    let mut r = target_dir_path(output, target);
    r.append("/feed.xml");
    r
}

/// Builds one probe record from the two response headers. An absent
/// header yields the empty string, never a failure; a present length is
/// rendered in decimal.
pub fn probe_of(mime_type: Option<String>, length: Option<u64>) -> (r: ImageProbe)
    ensures
        (match mime_type {
            Option::Some(m) => r@.mime_type == m@,
            Option::None => r@.mime_type == Seq::<char>::empty(),
        }),
        (match length {
            Option::Some(n) => r@.length == dec_of(n as nat),
            Option::None => r@.length == Seq::<char>::empty(),
        }),
{
    let mime = match mime_type {
        Option::Some(m) => m,
        Option::None => String::new(),
    };
    let len = match length {
        Option::Some(n) => u64_to_dec(n),
        Option::None => String::new(),
    };
    ImageProbe { mime_type: mime, length: len }
}

/// Whether every probe in the sequence succeeded.
pub open spec fn all_probes_ok(ps: Seq<Result<ImageProbe, FeedError>>) -> bool {
    forall|i: int| 0 <= i < ps.len() ==> ps[i] is Ok
}

/// The values of a sequence of successful probes.
pub open spec fn probe_views(ps: Seq<Result<ImageProbe, FeedError>>) -> Seq<ProbeView> {
    Seq::new(ps.len(), |i: int| (ps[i]->Ok_0)@)
}

/// The error of the first failed probe, in index order.
pub open spec fn first_probe_error(ps: Seq<Result<ImageProbe, FeedError>>) -> FeedError
    recommends
        !all_probes_ok(ps),
    decreases ps.len(),
{
    if ps.len() == 0 {
        FeedError::Network
    } else if ps[0] is Err {
        ps[0]->Err_0
    } else {
        first_probe_error(ps.drop_first())
    }
}

proof fn lemma_first_probe_error(ps: Seq<Result<ImageProbe, FeedError>>, i: int)
    requires
        0 <= i < ps.len(),
        forall|j: int| 0 <= j < i ==> ps[j] is Ok,
        ps[i] is Err,
    ensures
        first_probe_error(ps) == ps[i]->Err_0,
    decreases i,
{
    if i == 0 {
    } else {
        assert forall|j: int| 0 <= j < i - 1 implies ps.drop_first()[j] is Ok by {
            assert(ps.drop_first()[j] == ps[j + 1]);
        }
        assert(ps.drop_first()[i - 1] == ps[i]);
        lemma_first_probe_error(ps.drop_first(), i - 1);
    }
}

/// Joins the per-episode probe outcomes: every probe's value in index
/// order where all succeeded, else the first failure in index order,
/// failing the whole sequence (fail-fast within one target).
pub fn collect_probes(probes: &Vec<Result<ImageProbe, FeedError>>) -> (r: Result<
    Vec<ImageProbe>,
    FeedError,
>)
    ensures
        all_probes_ok(probes@) ==> (r is Ok && (r->Ok_0).deep_view() == probe_views(probes@)),
        !all_probes_ok(probes@) ==> r == Result::<Vec<ImageProbe>, FeedError>::Err(
            first_probe_error(probes@),
        ),
{
    let mut out: Vec<ImageProbe> = Vec::new();
    let n = probes.len();
    let mut i: usize = 0;
    while i < n
        invariant
            i <= n,
            n == probes@.len(),
            forall|j: int| 0 <= j < i ==> probes@[j] is Ok,
            out@.len() == i,
            forall|j: int| 0 <= j < i ==> (#[trigger] out@[j])@ == (probes@[j]->Ok_0)@,
        decreases n - i,
    {
        match &probes[i] {
            Result::Ok(p) => {
                out.push(p.clone());
            },
            Result::Err(e) => {
                proof {
                    lemma_first_probe_error(probes@, i as int);
                }
                return Result::Err(*e);
            },
        }
        i += 1;
    }
    proof {
        assert forall|j: int| 0 <= j < n implies out.deep_view()[j] == probe_views(probes@)[j] by {
            assert(out.deep_view()[j] == out@[j].deep_view());
        }
        assert(out.deep_view() =~= probe_views(probes@));
    }
    Result::Ok(out)
}

/// The pure core of one target's pipeline after the fetch: join the
/// probe outcomes fail-fast, build the feed document, and serialize it.
/// On success the text is exactly the serialization of the document
/// built from the comic and the probe values.
pub fn build_feed(comic: &Comic, probes: &Vec<Result<ImageProbe, FeedError>>) -> (r: Result<
    String,
    FeedError,
>)
    requires
        probes@.len() == eligible(comic@.episodes).len(),
    ensures
        all_probes_ok(probes@) ==> (r is Ok && (r->Ok_0)@ == feed_xml_of(
            feed_view_of(comic@, probe_views(probes@)),
        )),
        !all_probes_ok(probes@) ==> r == Result::<String, FeedError>::Err(
            first_probe_error(probes@),
        ),
{
    match collect_probes(probes) {
        Result::Ok(ps) => {
            let doc = comic_to_channel(comic, &ps);
            Result::Ok(serialize_feed(&doc))
        },
        Result::Err(e) => Result::Err(e),
    }
}

/// Whether every target's outcome is a success.
pub open spec fn all_ok(rs: Seq<Result<(), FeedError>>) -> bool {
    forall|i: int| 0 <= i < rs.len() ==> rs[i] is Ok
}

/// Aggregates the per-target outcomes: the run succeeds exactly when
/// every target succeeded; any failure fails the whole run, and no
/// failure disturbs the other entries.
pub fn all_succeeded(results: &Vec<Result<(), FeedError>>) -> (r: bool)
    ensures
        r == all_ok(results@),
{
    let n = results.len();
    let mut i: usize = 0;
    while i < n
        invariant
            i <= n,
            n == results@.len(),
            forall|j: int| 0 <= j < i ==> results@[j] is Ok,
        decreases n - i,
    {
        if results[i].is_err() {
            return false;
        }
        i += 1;
    }
    true
}

} // verus!
