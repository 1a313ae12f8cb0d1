//! The routing table and the page handlers.
//!
//! A route binds a request path to the name of the template that the page is
//! rendered from. The table is explicit: it is built at startup by
//! registering one route after another, and registration refuses a path that
//! is already bound, so the table never holds two routes for one path. A
//! handler produces a [`RenderRequest`]: the selected template name together
//! with the render context, which is always the single fixed placeholder
//! pair `("context", "string")`. Rendering the template and serving HTTP
//! belong to the web framework outside this library; a path that no route
//! binds is reported as such, and the framework answers it with its own
//! not-found response.

use vstd::prelude::*;

verus! {

/// The one key that every render context carries.
pub open spec fn context_key() -> Seq<char> {
    "context"@
}

/// The value bound to [`context_key`] in every render context.
pub open spec fn context_value() -> Seq<char> {
    "string"@
}

/// A render context is exactly the single placeholder pair.
pub open spec fn is_placeholder_context(ctx: Seq<(Seq<char>, Seq<char>)>) -> bool {
    &&& ctx.len() == 1
    &&& ctx[0].0 == context_key()
    &&& ctx[0].1 == context_value()
}

/// Build the render context: exactly one pair, `("context", "string")`.
pub fn make_context() -> (ctx: Vec<(String, String)>)
    ensures
        is_placeholder_context(ctx.deep_view()),
{
    let mut ctx: Vec<(String, String)> = Vec::new();
    ctx.push(("context".to_owned(), "string".to_owned()));
    ctx
}

/// What a handler hands to the templating engine: the name of the template
/// to render and the key-value context to render it with.
pub struct RenderRequest {
    pub template: String,
    pub context: Vec<(String, String)>,
}

impl RenderRequest {
    /// The request carries exactly the placeholder context.
    pub open spec fn wf(&self) -> bool {
        is_placeholder_context(self.context.deep_view())
    }
}

/// The template selected for the path, walking the routes front to back:
/// `Some` of the first route whose path matches, `None` when none does.
pub open spec fn lookup(routes: Seq<(Seq<char>, Seq<char>)>, path: Seq<char>) -> Option<
    Seq<char>,
>
    decreases routes.len(),
{
    if routes.len() == 0 {
        None
    } else if routes[0].0 == path {
        Some(routes[0].1)
    } else {
        lookup(routes.drop_first(), path)
    }
}

/// The lookup misses exactly when no route at all binds the path.
pub proof fn lemma_lookup_none(routes: Seq<(Seq<char>, Seq<char>)>, path: Seq<char>)
    ensures
        (lookup(routes, path) is None) <==> (forall|k: int|
            0 <= k < routes.len() ==> (#[trigger] routes[k]).0 != path),
    decreases routes.len(),
{
    if routes.len() > 0 && routes[0].0 != path {
        let sub = routes.drop_first();
        lemma_lookup_none(sub, path);
        assert(forall|k: int| 0 <= k < sub.len() ==> #[trigger] sub[k] == routes[k + 1]);
        if lookup(routes, path) is None {
            assert forall|k: int| 0 <= k < routes.len() implies (#[trigger] routes[k]).0
                != path by {
                if k > 0 {
                    assert(sub[k - 1] == routes[k]);
                }
            }
        } else {
            let k0 = choose|k: int| 0 <= k < sub.len() && (#[trigger] sub[k]).0 == path;
            assert(routes[k0 + 1].0 == path);
        }
    }
}

/// When the routes before index `i` all miss and route `i` matches, the
/// lookup returns route `i`'s template.
pub proof fn lemma_lookup_hits_first_match(
    routes: Seq<(Seq<char>, Seq<char>)>,
    path: Seq<char>,
    i: int,
)
    requires
        0 <= i < routes.len(),
        routes[i].0 == path,
        forall|k: int| 0 <= k < i ==> (#[trigger] routes[k]).0 != path,
    ensures
        lookup(routes, path) == Some(routes[i].1),
    decreases i,
{
    if i > 0 {
        assert(forall|k: int|
            0 <= k < routes.drop_first().len()
                ==> #[trigger] routes.drop_first()[k] == routes[k + 1]);
        lemma_lookup_hits_first_match(routes.drop_first(), path, i - 1);
    }
}

/// The routing table: one entry per path, each bound to a template name.
pub struct RouteTable {
    routes: Vec<(String, String)>,
}

impl View for RouteTable {
    type V = Seq<(Seq<char>, Seq<char>)>;

    closed spec fn view(&self) -> Seq<(Seq<char>, Seq<char>)> {
        self.routes.deep_view()
    }
}

impl RouteTable {
    /// No two routes bind the same path.
    pub open spec fn wf(&self) -> bool {
        forall|i: int, j: int|
            0 <= i < j < self@.len() ==> (#[trigger] self@[i]).0 != (#[trigger] self@[j]).0
    }

    /// An empty table: no route is registered yet.
    pub fn new() -> (t: RouteTable)
        ensures
            t@ == Seq::<(Seq<char>, Seq<char>)>::empty(),
            t.wf(),
    {
        let t = RouteTable { routes: Vec::new() };
        proof {
            assert(t@ =~= Seq::<(Seq<char>, Seq<char>)>::empty());
        }
        t
    }

    /// How many routes are registered.
    pub fn len(&self) -> (n: usize)
        ensures
            n == self@.len(),
    {
        self.routes.len()
    }

    /// Register a route. A path already bound is refused, so the table
    /// stays unambiguous: registration reports whether the route went in.
    pub fn add_route(&mut self, path: String, template: String) -> (added: bool)
        ensures
            added <==> (lookup(old(self)@, path@) is None),
            added ==> final(self)@ == old(self)@.push((path@, template@)),
            !added ==> final(self)@ == old(self)@,
            old(self).wf() ==> final(self).wf(),
    {
        match self.lookup_template(path.as_str()) {
            Some(_) => false,
            None => {
                proof {
                    lemma_lookup_none(self@, path@);
                }
                let ghost pre = self@;
                self.routes.push((path, template));
                proof {
                    assert(self@ =~= pre.push((path@, template@)));
                }
                true
            },
        }
    }

    /// The template bound to the path, or `None` when no route binds it.
    pub fn lookup_template(&self, path: &str) -> (r: Option<String>)
        ensures
            match r {
                Some(t) => lookup(self@, path@) == Some(t@),
                None => lookup(self@, path@) is None,
            },
    {
        let p: String = path.to_owned();
        let n = self.routes.len();
        let mut i: usize = 0;
        while i < n
            invariant
                n == self.routes.len(),
                i <= n,
                p@ == path@,
                forall|k: int| 0 <= k < i ==> (#[trigger] self@[k]).0 != path@,
            decreases n - i,
        {
            let pair = &self.routes[i];
            if pair.0 == p {
                proof {
                    lemma_lookup_hits_first_match(self@, path@, i as int);
                }
                return Some(pair.1.clone());
            }
            i += 1;
        }
        proof {
            lemma_lookup_none(self@, path@);
        }
        None
    }

    /// Serve a request path: the render request for the route that binds
    /// it, with the placeholder context, or `None` when no route does (the
    /// framework then answers with its own not-found response).
    pub fn handle(&self, path: &str) -> (r: Option<RenderRequest>)
        ensures
            match r {
                Some(req) => {
                    &&& lookup(self@, path@) == Some(req.template@)
                    &&& req.wf()
                },
                None => lookup(self@, path@) is None,
            },
    {
        match self.lookup_template(path) {
            Some(t) => Some(RenderRequest { template: t, context: make_context() }),
            None => None,
        }
    }
}

/// Every registered route is served: in a table without duplicate paths,
/// looking up the path of any entry yields exactly that entry's template,
/// so [`RouteTable::handle`] answers every registered path with a page.
pub proof fn lemma_registered_route_is_served(t: RouteTable, i: int)
    requires
        t.wf(),
        0 <= i < t@.len(),
    ensures
        lookup(t@, t@[i].0) == Some(t@[i].1),
{
    lemma_lookup_hits_first_match(t@, t@[i].0, i);
}

} // verus!
