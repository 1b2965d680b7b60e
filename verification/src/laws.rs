//! What holds of every routing table, whatever was promoted.
//!
//! `Router::promote` turns the table `t` into `t.insert(host, id)` and hands
//! back `t.get(host)`; `Router::id_for_host` hands back `t.get(host)` and
//! leaves `t` alone. The lemmas here are stated over those same maps, so each
//! one speaks of what the two operations return.

use vstd::prelude::*;
use crate::ident::{found_name, DeploymentId, Host};
use crate::router::Router;

verus! {

/// The table of a router that started empty and then saw the promotions of
/// `history`, oldest first. Each entry is a host name and the deployment name
/// promoted to it.
pub open spec fn after_promotions(history: Seq<(Seq<char>, Seq<char>)>) -> Map<
    Seq<char>,
    Seq<char>,
>
    decreases history.len(),
{
    if history.len() == 0 {
        Map::empty()
    } else {
        after_promotions(history.drop_last()).insert(history.last().0, history.last().1)
    }
}

/// A host that no promotion ever named has no deployment: looking it up
/// finds nothing, however many other hosts were promoted.
pub proof fn lemma_unpromoted_host_is_absent(history: Seq<(Seq<char>, Seq<char>)>, host: Seq<char>)
    requires
        forall|i: int| 0 <= i < history.len() ==> (#[trigger] history[i]).0 != host,
    ensures
        after_promotions(history).get(host) is None,
    decreases history.len(),
{
    if history.len() > 0 {
        lemma_unpromoted_host_is_absent(history.drop_last(), host);
    }
}

/// A host that was promoted has a deployment, and it is the one of the latest
/// promotion that named it.
pub proof fn lemma_latest_promotion_wins(
    history: Seq<(Seq<char>, Seq<char>)>,
    host: Seq<char>,
    latest: int,
)
    requires
        0 <= latest < history.len(),
        history[latest].0 == host,
        forall|i: int| latest < i < history.len() ==> (#[trigger] history[i]).0 != host,
    ensures
        after_promotions(history).get(host) == Some(history[latest].1),
    decreases history.len(),
{
    if latest < history.len() - 1 {
        lemma_latest_promotion_wins(history.drop_last(), host, latest);
    }
}

/// After a host is promoted to a deployment, looking the host up finds that
/// deployment, whatever the table held before.
pub proof fn lemma_promoted_host_resolves(
    routes: Map<Seq<char>, Seq<char>>,
    host: Seq<char>,
    id: Seq<char>,
)
    ensures
        routes.insert(host, id).get(host) == Some(id),
{
}

/// Promoting a host twice: the second promotion hands back the deployment of
/// the first, a lookup afterwards finds the deployment of the second, and the
/// table is the one that the second promotion alone would have left.
pub proof fn lemma_second_promotion_replaces_first(
    routes: Map<Seq<char>, Seq<char>>,
    host: Seq<char>,
    first: Seq<char>,
    second: Seq<char>,
)
    ensures
        routes.insert(host, first).get(host) == Some(first),
        routes.insert(host, first).insert(host, second).get(host) == Some(second),
        routes.insert(host, first).insert(host, second) == routes.insert(host, second),
{
}

/// Promoting one host changes nothing for any other host: a lookup of the
/// other host finds what it found before.
pub proof fn lemma_promotion_leaves_other_hosts(
    routes: Map<Seq<char>, Seq<char>>,
    promoted: Seq<char>,
    id: Seq<char>,
    other: Seq<char>,
)
    requires
        other != promoted,
    ensures
        routes.insert(promoted, id).get(other) == routes.get(other),
{
}

/// A lookup that follows a promotion of the same host observes it: on the
/// router that the promotion left, the lookup finds the promoted deployment
/// and nothing older.
pub proof fn lemma_lookup_observes_promotion(
    before: Router,
    after: Router,
    host: Host,
    id: DeploymentId,
    found: Option<DeploymentId>,
)
    requires
        after@ == before@.insert(host@, id@),
        call_ensures(Router::id_for_host, (&after, &host), found),
    ensures
        found_name(found) == Some(id@),
{
}

/// Two lookups of one host in one router find the same deployment, whichever
/// runs first: a lookup leaves the table as it was, and what it finds is
/// decided by the table and the host alone.
pub proof fn lemma_lookups_agree(
    router: Router,
    host: Host,
    one: Option<DeploymentId>,
    other: Option<DeploymentId>,
)
    requires
        call_ensures(Router::id_for_host, (&router, &host), one),
        call_ensures(Router::id_for_host, (&router, &host), other),
    ensures
        found_name(one) == found_name(other),
{
}

} // verus!
