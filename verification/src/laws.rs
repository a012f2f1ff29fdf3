//! What holds of the chain against every cluster, and of every invocation.

use crate::cluster::{ended, page_at, resolution, run, search, ClusterApi, Found, Run};
use crate::ecs::{service_in, task_in, ResponseView};
use crate::error::{Missing, SessionErrorView, Stage};
use crate::fragment::{first_match, lemma_first_match, occurs_in};
use crate::resolver::{ResolverView, StepView, TargetView};
use crate::session::{root_shell, InvocationView};
use vstd::prelude::*;

verus! {

/// The listing that hands out `pages` one by one, none of them failing.
pub open spec fn listing_of(pages: Seq<Seq<Seq<char>>>) -> Seq<ResponseView> {
    Seq::new(pages.len(), |k: int| ResponseView::ServicePage { service_arns: Some(pages[k]) })
}

/// The identifier at `index` of page `page` holds `fragment`, and none that
/// comes before it in page order does.
pub open spec fn is_first_hit(
    pages: Seq<Seq<Seq<char>>>,
    fragment: Seq<char>,
    page: int,
    index: int,
) -> bool {
    &&& 0 <= page < pages.len()
    &&& 0 <= index < pages[page].len()
    &&& occurs_in(fragment, pages[page][index])
    &&& forall|j: int| 0 <= j < index ==> !occurs_in(fragment, #[trigger] pages[page][j])
    &&& forall|p: int, j: int|
        0 <= p < page && 0 <= j < pages[p].len() ==> !occurs_in(fragment, #[trigger] pages[p][j])
}

/// No identifier of any page holds `fragment`.
pub open spec fn no_hit(pages: Seq<Seq<Seq<char>>>, fragment: Seq<char>) -> bool {
    forall|p: int, j: int|
        0 <= p < pages.len() && 0 <= j < pages[p].len() ==> !occurs_in(fragment, #[trigger] pages[p][j])
}

/// What the search looked at: every page before the last one asked for
/// answered "not here", and the last one decided.
proof fn lemma_search(listing: Seq<ResponseView>, fragment: Seq<char>, from: nat)
    requires
        from <= listing.len(),
    ensures
        from < search(listing, fragment, from).pages <= listing.len() + 1,
        forall|p: nat|
            from <= p < search(listing, fragment, from).pages - 1 ==> service_in(
                fragment,
                #[trigger] page_at(listing, p),
            ) == Ok::<Option<Seq<char>>, SessionErrorView>(None),
        service_in(fragment, page_at(listing, (search(listing, fragment, from).pages - 1) as nat))
            == match search(listing, fragment, from).outcome {
            Ok(service) => Ok::<Option<Seq<char>>, SessionErrorView>(Some(service)),
            Err(error) => Err(error),
        },
    decreases listing.len() - from,
{
    if from < listing.len() {
        match service_in(fragment, listing[from as int]) {
            Ok(None) => {
                lemma_search(listing, fragment, from + 1);
                assert(page_at(listing, from) == listing[from as int]);
            },
            _ => {},
        }
    }
}

/// While the search goes on, the chain stands where it began.
proof fn lemma_run_scanning(api: ClusterApi, cluster: Seq<char>, fragment: Seq<char>, calls: nat)
    requires
        calls < search((api.services)(cluster), fragment, 0).pages,
    ensures
        run(api, TargetView::Service { cluster, service: fragment }, calls) == (Run {
            step: StepView::Pending {
                resolver: ResolverView { cluster, awaiting: Stage::Service, upstream: fragment },
            },
            pages: calls,
        }),
    decreases calls,
{
    if calls > 0 {
        let before = (calls - 1) as nat;
        lemma_run_scanning(api, cluster, fragment, before);
        lemma_search((api.services)(cluster), fragment, 0);
        assert(service_in(fragment, page_at((api.services)(cluster), before)) == Ok::<
            Option<Seq<char>>,
            SessionErrorView,
        >(None));
    }
}

/// A chain that has ended stays as it is.
proof fn lemma_run_stays(api: ClusterApi, target: TargetView, at: nat, later: nat)
    requires
        at <= later,
        ended(run(api, target, at).step) is Some,
    ensures
        run(api, target, later) == run(api, target, at),
    decreases later - at,
{
    if at < later {
        lemma_run_stays(api, target, at, (later - 1) as nat);
    }
}

/// The chain asks for as many pages as the search takes, and no more: until
/// then it waits on the listing, and with the last of them it has the service
/// or has failed.
pub proof fn law_chain_follows_search(api: ClusterApi, cluster: Seq<char>, fragment: Seq<char>)
    ensures
        ({
            let target = TargetView::Service { cluster, service: fragment };
            let found = search((api.services)(cluster), fragment, 0);
            &&& forall|calls: nat|
                calls < found.pages ==> #[trigger] run(api, target, calls) == (Run {
                    step: target.begin(),
                    pages: calls,
                })
            &&& forall|calls: nat|
                calls >= found.pages ==> (#[trigger] run(api, target, calls)).pages == found.pages
            &&& run(api, target, found.pages).step == match found.outcome {
                Ok(service) => StepView::Pending {
                    resolver: ResolverView { cluster, awaiting: Stage::Task, upstream: service },
                },
                Err(error) => StepView::Failed { error },
            }
        }),
{
    let target = TargetView::Service { cluster, service: fragment };
    let listing = (api.services)(cluster);
    let found = search(listing, fragment, 0);
    lemma_search(listing, fragment, 0);
    assert forall|calls: nat| calls < found.pages implies #[trigger] run(api, target, calls) == (Run {
        step: target.begin(),
        pages: calls,
    }) by {
        lemma_run_scanning(api, cluster, fragment, calls);
    }
    let last = (found.pages - 1) as nat;
    lemma_run_scanning(api, cluster, fragment, last);
    assert forall|calls: nat| calls >= found.pages implies (#[trigger] run(
        api,
        target,
        calls,
    )).pages == found.pages by {
        lemma_pages_settle(api, target, found.pages, calls);
    }
}

/// Once the chain has left the listing behind, it asks for no further page.
proof fn lemma_pages_settle(api: ClusterApi, target: TargetView, at: nat, later: nat)
    requires
        at <= later,
        match run(api, target, at).step {
            StepView::Pending { resolver } => resolver.awaiting != Stage::Service,
            _ => true,
        },
    ensures
        run(api, target, later).pages == run(api, target, at).pages,
        match run(api, target, later).step {
            StepView::Pending { resolver } => resolver.awaiting != Stage::Service,
            _ => true,
        },
    decreases later - at,
{
    if at < later {
        lemma_pages_settle(api, target, at, (later - 1) as nat);
    }
}

/// The chain ends, whatever the cluster answers: at the latest four calls
/// after the listing of services has run out.
pub proof fn law_chain_ends(api: ClusterApi, target: TargetView)
    ensures
        match target {
            TargetView::Instance { .. } => ended(run(api, target, 0).step) is Some,
            TargetView::Service { cluster, .. } => ended(
                run(api, target, (api.services)(cluster).len() + 4).step,
            ) is Some,
        },
{
    match target {
        TargetView::Instance { .. } => {},
        TargetView::Service { cluster, service } => {
            let listing = (api.services)(cluster);
            let found = search(listing, service, 0);
            lemma_search(listing, service, 0);
            law_chain_follows_search(api, cluster, service);
            let p = found.pages;
            assert(ended(run(api, target, p + 3).step) is Some) by {
                let r1 = run(api, target, p + 1);
                let r2 = run(api, target, p + 2);
            }
            lemma_run_stays(api, target, p + 3, listing.len() + 4);
        },
    }
}

/// The chain is a function of the target and the cluster: against answers that
/// depend on the question alone, every run that ends, after however many
/// calls, ends in `resolution`, on the same machine or the same failure, and
/// has asked for as many pages as `resolution` counts.
pub proof fn law_chain_is_determined(api: ClusterApi, target: TargetView, calls: nat)
    requires
        ended(run(api, target, calls).step) is Some,
    ensures
        ended(run(api, target, calls).step) == Some(resolution(api, target).outcome),
        run(api, target, calls).pages == resolution(api, target).pages,
{
    match target {
        TargetView::Instance { .. } => {
            lemma_run_stays(api, target, 0, calls);
        },
        TargetView::Service { cluster, service } => {
            let listing = (api.services)(cluster);
            let found = search(listing, service, 0);
            law_chain_follows_search(api, cluster, service);
            let p = found.pages;
            if calls >= p {
                let r0 = run(api, target, p);
                let r1 = run(api, target, p + 1);
                let r2 = run(api, target, p + 2);
                let r3 = run(api, target, p + 3);
                if ended(r0.step) is Some {
                    lemma_run_stays(api, target, p, calls);
                } else if ended(r1.step) is Some {
                    if calls >= p + 1 {
                        lemma_run_stays(api, target, p + 1, calls);
                    }
                } else if ended(r2.step) is Some {
                    if calls >= p + 2 {
                        lemma_run_stays(api, target, p + 2, calls);
                    }
                } else {
                    assert(ended(r3.step) is Some);
                    if calls >= p + 3 {
                        lemma_run_stays(api, target, p + 3, calls);
                    }
                }
            }
        },
    }
}

/// Same target, same cluster, same machine: two runs that have ended agree,
/// however many calls each was given.
pub proof fn law_same_cluster_same_machine(api: ClusterApi, target: TargetView, calls: nat, others: nat)
    requires
        ended(run(api, target, calls).step) is Some,
        ended(run(api, target, others).step) is Some,
    ensures
        run(api, target, calls) == run(api, target, others),
{
    if calls <= others {
        lemma_run_stays(api, target, calls, others);
    } else {
        lemma_run_stays(api, target, others, calls);
    }
}

/// Every call of the chain is made in the cluster that the target names.
pub proof fn law_one_cluster(api: ClusterApi, cluster: Seq<char>, fragment: Seq<char>, calls: nat)
    ensures
        match run(api, TargetView::Service { cluster, service: fragment }, calls).step {
            StepView::Pending { resolver } => resolver.cluster == cluster && resolver.request().cluster()
                == cluster,
            _ => true,
        },
    decreases calls,
{
    if calls > 0 {
        law_one_cluster(api, cluster, fragment, (calls - 1) as nat);
    }
}

/// The search over pages that all arrive, by what it found.
proof fn lemma_search_of_pages(pages: Seq<Seq<Seq<char>>>, fragment: Seq<char>)
    ensures
        match search(listing_of(pages), fragment, 0).outcome {
            Ok(service) => exists|page: int, index: int|
                #![trigger pages[page][index]]
                is_first_hit(pages, fragment, page, index) && service == pages[page][index] && search(
                    listing_of(pages),
                    fragment,
                    0,
                ).pages == page + 1,
            Err(error) => no_hit(pages, fragment) && error == (SessionErrorView::NotFound {
                missing: Missing::Service,
                upstream: fragment,
            }) && search(listing_of(pages), fragment, 0).pages == pages.len() + 1,
        },
{
    let listing = listing_of(pages);
    let found = search(listing, fragment, 0);
    lemma_search(listing, fragment, 0);
    let last = (found.pages - 1) as nat;
    assert forall|p: int, j: int| 0 <= p < last && 0 <= j < pages[p].len() implies !occurs_in(
        fragment,
        #[trigger] pages[p][j],
    ) by {
        assert(page_at(listing, p as nat) == listing[p]);
        assert(first_match(pages[p], fragment) is None);
        lemma_first_match(pages[p], fragment);
    }
    match found.outcome {
        Ok(service) => {
            assert(page_at(listing, last) == listing[last as int]);
            assert(first_match(pages[last as int], fragment) == Some(service));
            lemma_first_match(pages[last as int], fragment);
            let index = choose|i: int|
                0 <= i < pages[last as int].len() && pages[last as int][i] == service && occurs_in(
                    fragment,
                    pages[last as int][i],
                ) && forall|j: int| 0 <= j < i ==> !occurs_in(fragment, #[trigger] pages[last as int][j]);
            assert(is_first_hit(pages, fragment, last as int, index));
        },
        Err(error) => {
            if last < pages.len() {
                assert(page_at(listing, last) == listing[last as int]);
            }
        },
    }
}

/// The first match wins. Over pages that all arrive, the search gives the
/// first identifier in page order that holds the fragment, and has then asked
/// for the pages up to the one that holds it and for none after. Where no
/// identifier holds the fragment, it reports that no such service was found,
/// and never a failed call. One of the two is always so.
pub proof fn law_first_match_wins(pages: Seq<Seq<Seq<char>>>, fragment: Seq<char>)
    ensures
        forall|page: int, index: int|
            #![trigger pages[page][index]]
            is_first_hit(pages, fragment, page, index) ==> search(listing_of(pages), fragment, 0) == (Found {
                outcome: Ok(pages[page][index]),
                pages: (page + 1) as nat,
            }),
        no_hit(pages, fragment) ==> search(listing_of(pages), fragment, 0) == (Found {
            outcome: Err(SessionErrorView::NotFound { missing: Missing::Service, upstream: fragment }),
            pages: pages.len() + 1,
        }),
        no_hit(pages, fragment) || exists|page: int, index: int|
            #![trigger pages[page][index]]
            is_first_hit(pages, fragment, page, index),
{
    let found = search(listing_of(pages), fragment, 0);
    lemma_search_of_pages(pages, fragment);
    assert forall|page: int, index: int|
        #![trigger pages[page][index]]
        is_first_hit(pages, fragment, page, index) implies found == (Found {
        outcome: Ok(pages[page][index]),
        pages: (page + 1) as nat,
    }) by {
        match found.outcome {
            Ok(service) => {
                let (p, i) = choose|p: int, i: int|
                    #![trigger pages[p][i]]
                    is_first_hit(pages, fragment, p, i) && service == pages[p][i] && found.pages == p + 1;
                if p < page {
                    assert(!occurs_in(fragment, pages[p][i]));
                } else if page < p {
                    assert(!occurs_in(fragment, pages[page][index]));
                } else if i < index {
                    assert(!occurs_in(fragment, pages[page][i]));
                } else if index < i {
                    assert(!occurs_in(fragment, pages[p][index]));
                }
            },
            Err(_) => {
                assert(!occurs_in(fragment, pages[page][index]));
            },
        }
    }
    if no_hit(pages, fragment) {
        match found.outcome {
            Ok(service) => {
                let (p, i) = choose|p: int, i: int|
                    #![trigger pages[p][i]]
                    is_first_hit(pages, fragment, p, i) && service == pages[p][i] && found.pages == p + 1;
                assert(!occurs_in(fragment, pages[p][i]));
            },
            Err(_) => {},
        }
    }
}

/// The chain stops reading the listing at the first match. Against a cluster
/// whose listing hands out `pages`, all of which arrive: once it has asked for
/// the page that holds the first match, the chain goes on from that service,
/// and it never asks for a page after that one. Where nothing matches, it
/// ends on the look past the last page, with no service found.
pub proof fn law_chain_stops_at_first_match(
    api: ClusterApi,
    cluster: Seq<char>,
    fragment: Seq<char>,
    pages: Seq<Seq<Seq<char>>>,
)
    requires
        (api.services)(cluster) == listing_of(pages),
    ensures
        forall|page: int, index: int|
            #![trigger pages[page][index]]
            is_first_hit(pages, fragment, page, index) ==> {
                &&& run(api, TargetView::Service { cluster, service: fragment }, (page + 1) as nat).step
                    == (StepView::Pending {
                    resolver: ResolverView {
                        cluster,
                        awaiting: Stage::Task,
                        upstream: pages[page][index],
                    },
                })
                &&& forall|calls: nat|
                    (#[trigger] run(api, TargetView::Service { cluster, service: fragment }, calls)).pages
                        <= page + 1
            },
        no_hit(pages, fragment) ==> run(
            api,
            TargetView::Service { cluster, service: fragment },
            pages.len() + 1,
        ).step == (StepView::Failed {
            error: SessionErrorView::NotFound { missing: Missing::Service, upstream: fragment },
        }),
{
    law_first_match_wins(pages, fragment);
    law_chain_follows_search(api, cluster, fragment);
}

/// A service that runs no task has no machine: the second lookup answers
/// that no task was found, whether the list came back empty or not at all.
pub proof fn law_no_task_is_not_found(service: Seq<char>, task_arns: Option<Seq<Seq<char>>>)
    requires
        task_arns is None || task_arns->0.len() == 0,
    ensures
        task_in(service, ResponseView::Tasks { task_arns }) == Err::<Seq<char>, SessionErrorView>(
            SessionErrorView::NotFound { missing: Missing::Task, upstream: service },
        ),
{
}

/// A machine that is known is not looked up: the chain towards it has ended
/// on it before any call, and stays there.
pub proof fn law_known_machine_skips_the_chain(api: ClusterApi, instance: Seq<char>, calls: nat)
    ensures
        run(api, TargetView::Instance { instance }, calls) == (Run {
            step: StepView::Resolved { instance },
            pages: 0,
        }),
{
    lemma_run_stays(api, TargetView::Instance { instance }, 0, calls);
}

/// A machine that is given is taken as it is: the chain towards it has ended
/// on it before any call. Unless a command was given too, the session is then
/// a root shell on the machine, whatever the service is called.
pub proof fn law_given_machine(invocation: InvocationView)
    requires
        invocation.instance is Some,
    ensures
        invocation.target().begin() == (StepView::Resolved { instance: invocation.instance->0 }),
        invocation.execute is None ==> invocation.command() == root_shell(),
{
}

} // verus!
