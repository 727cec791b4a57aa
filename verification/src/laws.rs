use vstd::prelude::*;

use crate::model::{ComicView, EpisodeView, FeedError, ProbeView};
use crate::feed::feed_xml_of;
use crate::pipeline::all_ok;
use crate::transform::{eligible, feed_view_of, item_view_of, public_status};

verus! {

/// Filter correctness: every episode in the eligible sequence has status
/// exactly `"public"`, and each is an episode of the source sequence, so
/// an episode with any other status never reaches the feed.
pub proof fn lemma_eligible_only_public(eps: Seq<EpisodeView>)
    ensures
        forall|i: int|
            0 <= i < eligible(eps).len() ==> (#[trigger] eligible(eps)[i]).status
                == public_status(),
        forall|i: int|
            0 <= i < eligible(eps).len() ==> exists|j: int|
                0 <= j < eps.len() && eps[j] == #[trigger] eligible(eps)[i],
    decreases eps.len(),
{
    if eps.len() == 0 {
    } else {
        lemma_eligible_only_public(eps.drop_last());
        assert forall|i: int| 0 <= i < eligible(eps).len() implies (#[trigger] eligible(
            eps,
        )[i]).status == public_status() by {
            if !(eps.last().status == public_status() && i == eligible(eps).len() - 1) {
                assert(eligible(eps)[i] == eligible(eps.drop_last())[i]);
            }
        }
        assert forall|i: int| 0 <= i < eligible(eps).len() implies exists|j: int|
            0 <= j < eps.len() && eps[j] == #[trigger] eligible(eps)[i] by {
            if eps.last().status == public_status() && i == eligible(eps).len() - 1 {
                assert(eps[eps.len() - 1] == eligible(eps)[i]);
            } else {
                assert(eligible(eps)[i] == eligible(eps.drop_last())[i]);
                let j = choose|j: int|
                    0 <= j < eps.drop_last().len() && eps.drop_last()[j] == eligible(
                        eps.drop_last(),
                    )[i];
                assert(eps[j] == eligible(eps)[i]);
            }
        }
    }
}

/// Filter completeness: every source episode with status `"public"` is
/// in the eligible sequence, so the feed holds one item for each of
/// them and the item count equals the number of public episodes.
pub proof fn lemma_eligible_complete(eps: Seq<EpisodeView>)
    ensures
        forall|j: int|
            0 <= j < eps.len() && (#[trigger] eps[j]).status == public_status() ==> eligible(
                eps,
            ).contains(eps[j]),
    decreases eps.len(),
{
    if eps.len() == 0 {
    } else {
        lemma_eligible_complete(eps.drop_last());
        assert forall|j: int|
            0 <= j < eps.len() && (#[trigger] eps[j]).status == public_status() implies eligible(
            eps,
        ).contains(eps[j]) by {
            if j == eps.len() - 1 {
                assert(eligible(eps)[eligible(eps).len() - 1] == eps[j]);
            } else {
                assert(eps.drop_last()[j] == eps[j]);
                assert(eligible(eps.drop_last()).contains(eps[j]));
                let k = choose|k: int|
                    0 <= k < eligible(eps.drop_last()).len() && eligible(eps.drop_last())[k]
                        == eps[j];
                assert(eligible(eps)[k] == eps[j]);
            }
        }
    }
}

/// Order preservation: filtering distributes over concatenation, so the
/// eligible episodes of an earlier part of the source all come before
/// those of a later part, in the source's own order.
pub proof fn lemma_eligible_append(a: Seq<EpisodeView>, b: Seq<EpisodeView>)
    ensures
        eligible(a + b) == eligible(a) + eligible(b),
    decreases b.len(),
{
    if b.len() == 0 {
        assert(a + b =~= a);
        assert(eligible(a) + eligible(b) =~= eligible(a));
    } else {
        lemma_eligible_append(a, b.drop_last());
        assert((a + b).drop_last() =~= a + b.drop_last());
        assert((a + b).last() == b.last());
        if b.last().status == public_status() {
            assert(eligible(a + b) == eligible(a + b.drop_last()).push(b.last()));
            assert(eligible(b) == eligible(b.drop_last()).push(b.last()));
            assert(eligible(a) + eligible(b) =~= (eligible(a) + eligible(b.drop_last())).push(
                b.last(),
            ));
        } else {
            assert(eligible(a + b) == eligible(a + b.drop_last()));
            assert(eligible(b) == eligible(b.drop_last()));
        }
    }
}

/// Order preservation at the feed level: the feed holds one item per
/// eligible episode, and the item at index `i` is built from the
/// eligible episode at index `i` and the probe result of the same
/// index. The items' order therefore follows the source episode order,
/// however the probe requests happened to complete.
pub proof fn lemma_items_in_source_order(c: ComicView, probes: Seq<ProbeView>)
    ensures
        feed_view_of(c, probes).items.len() == eligible(c.episodes).len(),
        forall|i: int|
            0 <= i < eligible(c.episodes).len() ==> feed_view_of(c, probes).items[i]
                == item_view_of(eligible(c.episodes)[i], c, probes[i]),
{
}

/// Idempotence of the pure pipeline: the feed text is a function of the
/// comic record and the probe values alone, so two runs over identical
/// upstream data serialize identical documents; the file write is a
/// plain overwrite, leaving byte-identical output.
pub proof fn lemma_feed_deterministic(
    ca: ComicView,
    cb: ComicView,
    pa: Seq<ProbeView>,
    pb: Seq<ProbeView>,
)
    requires
        ca == cb,
        pa == pb,
    ensures
        feed_xml_of(feed_view_of(ca, pa)) == feed_xml_of(feed_view_of(cb, pb)),
{
}

/// Partial-failure aggregation: one failed target is enough to fail the
/// whole run, whatever the other targets' outcomes are.
pub proof fn lemma_one_failure_fails_run(rs: Seq<Result<(), FeedError>>, k: int)
    requires
        0 <= k < rs.len(),
        rs[k] is Err,
    ensures
        !all_ok(rs),
{
}

} // verus!
