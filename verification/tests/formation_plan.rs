//! The formation planning context, the lock models, and the small CLI
//! decision rules.

use seaplane::error::CliErrorKind;
use seaplane::error::TermColor;
use seaplane::formation::no_matching_flight;
use seaplane::formation::select_land_targets;
use seaplane::formation::Endpoint;
use seaplane::formation::FlightRef;
use seaplane::formation::Flights;
use seaplane::formation::Formation;
use seaplane::formation::FormationCtx;
use seaplane::formation::FormationPlanArgs;
use seaplane::formation::LandSelection;
use seaplane::formation::Provider;
use seaplane::formation::Region;

fn db() -> Flights {
    Flights {
        inner: vec![
            FlightRef { id: "0aa11bb".to_string(), name: "alpha".to_string() },
            FlightRef { id: "1cc22dd".to_string(), name: "beta".to_string() },
        ],
    }
}

fn empty_args() -> FormationPlanArgs {
    FormationPlanArgs {
        include_flight_plans: Vec::new(),
        name_id: None,
        grounded: false,
        launch: false,
        affinities: Vec::new(),
        connections: Vec::new(),
        providers_allowed: Vec::new(),
        providers_denied: Vec::new(),
        regions_allowed: Vec::new(),
        regions_denied: Vec::new(),
        public_endpoints: Vec::new(),
        formation_endpoints: Vec::new(),
        flight_endpoints: Vec::new(),
    }
}

#[test]
fn flight_references_resolve_by_name_or_id_prefix() {
    let mut ctx = FormationCtx::default();
    let mut args = empty_args();
    args.name_id = Some("my-formation".to_string());
    args.grounded = true;
    args.include_flight_plans = vec![
        "@plan.toml".to_string(), // a file reference: not looked up
        "image=nginx".to_string(), // an inline definition: not looked up
        "beta".to_string(),       // an exact name
        "0aa".to_string(),        // an ID prefix of alpha
    ];
    args.providers_allowed = vec![Provider::Aws, Provider::Gcp];
    args.regions_denied = vec![Region::XE];
    args.public_endpoints =
        vec![Endpoint { key: "http:80".to_string(), value: "flight:8080".to_string() }];

    ctx.update_from_formation_plan(args, &db()).unwrap();
    assert_eq!(ctx.name_id, "my-formation");
    assert!(ctx.grounded);
    assert!(!ctx.launch);
    assert_eq!(ctx.cfg_ctx.flights, vec!["beta".to_string(), "alpha".to_string()]);
    assert_eq!(ctx.cfg_ctx.providers_allowed, vec![Provider::Aws, Provider::Gcp]);
    assert_eq!(ctx.cfg_ctx.regions_denied, vec![Region::XE]);
    assert_eq!(ctx.cfg_ctx.public_endpoints.len(), 1);
    assert_eq!(ctx.cfg_ctx.public_endpoints[0].key(), "http:80");
    assert_eq!(ctx.cfg_ctx.public_endpoints[0].value(), "flight:8080");
}

#[test]
fn an_unresolvable_reference_fails_and_changes_nothing() {
    let mut ctx = FormationCtx::default();
    let before_name = ctx.name_id.clone();
    let mut args = empty_args();
    args.name_id = Some("ignored".to_string());
    args.include_flight_plans = vec!["beta".to_string(), "nope".to_string()];
    let err = ctx.update_from_formation_plan(args, &db()).unwrap_err();
    match err.kind {
        CliErrorKind::NoMatchingItem(n) => assert_eq!(n, "nope"),
        other => panic!("unexpected kind: {other:?}"),
    }
    assert_eq!(ctx.name_id, before_name);
    assert!(ctx.cfg_ctx.flights.is_empty());
}

#[test]
fn the_no_matching_flight_error_carries_its_hints() {
    let e = no_matching_flight("ghost");
    match &e.kind {
        CliErrorKind::NoMatchingItem(n) => assert_eq!(n, "ghost"),
        other => panic!("unexpected kind: {other:?}"),
    }
    assert_eq!(e.context.len(), 6);
    assert_eq!(e.context[0].text, "(hint: create the Flight Plan with '");
    assert_eq!(e.context[0].color, None);
    assert_eq!(e.context[1].text, "seaplane flight plan ghost");
    assert_eq!(e.context[1].color, Some(TermColor::Green));
    assert_eq!(e.context[2].text, "')\n");
    assert_eq!(e.context[3].text, "(hint: or try fetching remote definitions with '");
    assert_eq!(e.context[4].text, "seaplane formation fetch-remote");
    assert_eq!(e.context[4].color, Some(TermColor::Green));
    assert_eq!(e.context[5].text, "')\n");
}

#[test]
fn configuration_model_resolves_every_flight_by_name() {
    let mut ctx = FormationCtx::default();
    ctx.cfg_ctx.flights = vec!["alpha".to_string(), "beta".to_string()];
    ctx.cfg_ctx.providers_denied = vec![Provider::Azure];
    let model = ctx.configuration_model(&db()).unwrap();
    assert_eq!(model.flights, vec!["alpha".to_string(), "beta".to_string()]);
    assert_eq!(model.providers_denied, vec![Provider::Azure]);

    // An ID prefix is not enough here: resolution is by exact name.
    ctx.cfg_ctx.flights = vec!["0aa".to_string()];
    let err = ctx.configuration_model(&db()).unwrap_err();
    assert!(matches!(err.kind, CliErrorKind::NoMatchingItem(_)));
}

#[test]
fn default_context_has_a_valid_generated_name() {
    let ctx = FormationCtx::default();
    assert!(seaplane::ops::validate_formation_name(&ctx.name_id));
    assert!(ctx.local);
    assert!(!ctx.remote);
    assert!(!ctx.launch);
    assert!(!ctx.grounded);
    assert!(!ctx.recursive);
    assert!(ctx.cfg_ctx.flights.is_empty());
}

#[test]
fn landing_moves_every_airborne_configuration() {
    let mut f = Formation {
        name: Some("my-formation".to_string()),
        in_air: vec![10, 11],
        grounded: vec![7],
    };
    f.land();
    assert!(f.in_air.is_empty());
    assert_eq!(f.grounded, vec![7, 10, 11]);
    assert_eq!(f.name.as_deref(), Some("my-formation"));

    // Landing again changes nothing.
    f.land();
    assert!(f.in_air.is_empty());
    assert_eq!(f.grounded, vec![7, 10, 11]);
}

#[test]
fn land_target_selection() {
    assert_eq!(select_land_targets(0, false), LandSelection::NoneMatched);
    assert_eq!(select_land_targets(0, true), LandSelection::NoneMatched);
    assert_eq!(select_land_targets(1, false), LandSelection::Proceed);
    assert_eq!(select_land_targets(1, true), LandSelection::Proceed);
    assert_eq!(select_land_targets(2, false), LandSelection::Ambiguous);
    assert_eq!(select_land_targets(2, true), LandSelection::Proceed);
}
