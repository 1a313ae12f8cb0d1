use page_router::pages::commercial_fn;
use page_router::pages::flying_fn;
use page_router::pages::flying_routes;
use page_router::pages::ga_fn;
use page_router::pages::skiing_fn;
use page_router::pages::skiing_routes;
use page_router::router::RouteTable;
use page_router::router::make_context;

fn placeholder() -> Vec<(String, String)> {
    vec![("context".to_string(), "string".to_string())]
}

#[test]
fn context_is_exactly_the_placeholder_pair() {
    assert_eq!(make_context(), placeholder());
}

#[test]
fn every_registered_route_is_served() {
    let flying = flying_routes();
    for path in ["/", "/commercial", "/ga"] {
        let req = flying.handle(path).expect("registered route must be served");
        assert!(!req.template.is_empty());
        assert_eq!(req.context, placeholder());
    }
    let skiing = skiing_routes();
    let req = skiing.handle("/").expect("registered route must be served");
    assert!(!req.template.is_empty());
}

#[test]
fn root_serves_its_own_template_only() {
    let flying = flying_routes();
    let req = flying.handle("/").expect("root route must be served");
    assert_eq!(req.template, "flying");
    let others = ["commercial", "ga", "skiing"];
    assert!(!others.contains(&req.template.as_str()));

    let skiing = skiing_routes();
    let req = skiing.handle("/").expect("root route must be served");
    assert_eq!(req.template, "skiing");
    let others = ["flying", "commercial", "ga"];
    assert!(!others.contains(&req.template.as_str()));
}

#[test]
fn commercial_page_scenario() {
    let t = flying_routes();
    let req = t.handle("/commercial").expect("commercial route must be served");
    assert_eq!(req.template, "commercial");
    assert_eq!(req.context, placeholder());
}

#[test]
fn ga_page_scenario() {
    let t = flying_routes();
    let req = t.handle("/ga").expect("ga route must be served");
    assert_eq!(req.template, "ga");
    assert_eq!(req.context, placeholder());
}

#[test]
fn unknown_path_is_not_served() {
    let flying = flying_routes();
    assert!(flying.handle("/unknown").is_none());
    assert!(flying.handle("").is_none());
    assert!(flying.handle("/ga/").is_none());

    let skiing = skiing_routes();
    assert!(skiing.handle("/commercial").is_none());
    assert!(skiing.handle("/unknown").is_none());
}

#[test]
fn handlers_select_their_templates() {
    let req = flying_fn();
    assert_eq!(req.template, "flying");
    assert_eq!(req.context, placeholder());

    let req = commercial_fn();
    assert_eq!(req.template, "commercial");
    assert_eq!(req.context, placeholder());

    let req = ga_fn();
    assert_eq!(req.template, "ga");
    assert_eq!(req.context, placeholder());

    let req = skiing_fn();
    assert_eq!(req.template, "skiing");
    assert_eq!(req.context, placeholder());
}

#[test]
fn duplicate_path_is_refused() {
    let mut t = RouteTable::new();
    assert_eq!(t.len(), 0);
    assert!(t.add_route("/".to_string(), "flying".to_string()));
    assert_eq!(t.len(), 1);
    assert!(!t.add_route("/".to_string(), "skiing".to_string()));
    assert_eq!(t.len(), 1);
    let req = t.handle("/").expect("root route must be served");
    assert_eq!(req.template, "flying");
}

#[test]
fn lookup_reports_the_bound_template() {
    let t = flying_routes();
    assert_eq!(t.lookup_template("/"), Some("flying".to_string()));
    assert_eq!(t.lookup_template("/commercial"), Some("commercial".to_string()));
    assert_eq!(t.lookup_template("/ga"), Some("ga".to_string()));
    assert_eq!(t.lookup_template("/unknown"), None);
}

#[test]
fn sites_register_their_route_lists() {
    assert_eq!(flying_routes().len(), 3);
    assert_eq!(skiing_routes().len(), 1);
}
