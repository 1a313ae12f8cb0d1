//! The page handlers and the two shipped site configurations.
//!
//! Each handler selects the template that its page is rendered from and
//! builds the fixed placeholder context. Two configurations exist for the
//! root path: one site fronts the "flying" page and also serves the
//! "commercial" and "ga" pages, the other fronts the "skiing" page alone.
//! Exactly one of them is mounted; registering both would bind the root
//! path twice, which the routing table refuses.

use vstd::prelude::*;

use crate::router::RenderRequest;
use crate::router::RouteTable;
use crate::router::lemma_lookup_none;
use crate::router::lookup;
use crate::router::make_context;

verus! {

/// The page behind the root path of the flying site.
pub fn flying_fn() -> (r: RenderRequest)
    ensures
        r.template@ == "flying"@,
        r.wf(),
{
    RenderRequest { template: "flying".to_owned(), context: make_context() }
}

/// The commercial aviation page.
pub fn commercial_fn() -> (r: RenderRequest)
    ensures
        r.template@ == "commercial"@,
        r.wf(),
{
    RenderRequest { template: "commercial".to_owned(), context: make_context() }
}

/// The general aviation page.
pub fn ga_fn() -> (r: RenderRequest)
    ensures
        r.template@ == "ga"@,
        r.wf(),
{
    RenderRequest { template: "ga".to_owned(), context: make_context() }
}

/// The page behind the root path of the skiing site.
pub fn skiing_fn() -> (r: RenderRequest)
    ensures
        r.template@ == "skiing"@,
        r.wf(),
{
    RenderRequest { template: "skiing".to_owned(), context: make_context() }
}

/// The routes of the flying site: the root page plus the commercial and
/// general aviation pages.
pub open spec fn flying_site() -> Seq<(Seq<char>, Seq<char>)> {
    seq![("/"@, "flying"@), ("/commercial"@, "commercial"@), ("/ga"@, "ga"@)]
}

/// The routes of the skiing site: the root page alone.
pub open spec fn skiing_site() -> Seq<(Seq<char>, Seq<char>)> {
    seq![("/"@, "skiing"@)]
}

/// Build the routing table of the flying site.
pub fn flying_routes() -> (t: RouteTable)
    ensures
        t@ == flying_site(),
        t.wf(),
{
    proof {
        reveal_strlit("/");
        reveal_strlit("/commercial");
        reveal_strlit("/ga");
    }
    let mut t = RouteTable::new();
    let added_root = t.add_route("/".to_owned(), "flying".to_owned());
    proof {
        assert(added_root);
        assert(t@[0].0 == "/"@ && "/"@.len() != "/commercial"@.len());
        lemma_lookup_none(t@, "/commercial"@);
    }
    let added_commercial = t.add_route("/commercial".to_owned(), "commercial".to_owned());
    proof {
        assert(added_commercial);
        assert(t@[0].0 == "/"@ && t@[1].0 == "/commercial"@);
        assert("/"@.len() != "/ga"@.len() && "/commercial"@.len() != "/ga"@.len());
        lemma_lookup_none(t@, "/ga"@);
    }
    let added_ga = t.add_route("/ga".to_owned(), "ga".to_owned());
    proof {
        assert(added_ga);
        assert(t@ =~= flying_site());
    }
    t
}

/// Build the routing table of the skiing site.
pub fn skiing_routes() -> (t: RouteTable)
    ensures
        t@ == skiing_site(),
        t.wf(),
{
    let mut t = RouteTable::new();
    let added_root = t.add_route("/".to_owned(), "skiing".to_owned());
    proof {
        assert(added_root);
        assert(t@ =~= skiing_site());
    }
    t
}

/// The root path of each site selects that site's own template, and no
/// other route of the site selects it: the page served for the root path
/// never comes from another route's template.
pub proof fn lemma_root_template_not_shared()
    ensures
        lookup(flying_site(), "/"@) == Some("flying"@),
        forall|i: int| 0 < i < flying_site().len() ==> (#[trigger] flying_site()[i]).1 != "flying"@,
        lookup(skiing_site(), "/"@) == Some("skiing"@),
        forall|i: int| 0 < i < skiing_site().len() ==> (#[trigger] skiing_site()[i]).1 != "skiing"@,
{
    reveal_strlit("/");
    reveal_strlit("flying");
    reveal_strlit("commercial");
    reveal_strlit("ga");
    reveal_strlit("skiing");
    assert forall|i: int| 0 < i < flying_site().len() implies (#[trigger] flying_site()[i]).1
        != "flying"@ by {
        if i == 1 {
            assert(flying_site()[1].1 == "commercial"@);
        } else {
            assert(flying_site()[2].1 == "ga"@);
        }
    }
}

} // verus!
