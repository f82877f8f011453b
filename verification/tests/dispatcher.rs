//! Dispatcher behaviour: default selection, first-match resolution, the
//! synthesized help listing, and unknown-command reporting.

use maker::Dispatch;
use maker::Maker;

#[test]
fn default_selects_configured_command() {
    let m = Maker::<u32>::with()
        .cmd("build", 1)
        .cmd("test", 2)
        .default("build");
    match m.dispatch(None) {
        Dispatch::Run(action) => assert_eq!(action, 1),
        _ => panic!("expected the default command's action"),
    }
}

#[test]
fn argument_overrides_default() {
    let m = Maker::<u32>::with()
        .cmd("build", 1)
        .cmd("test", 2)
        .default("build");
    match m.dispatch(Some("test".to_string())) {
        Dispatch::Run(action) => assert_eq!(action, 2),
        _ => panic!("expected the requested command's action"),
    }
}

#[test]
fn no_argument_and_no_default_is_no_command() {
    let m = Maker::<u32>::with().cmd("build", 1);
    assert!(matches!(m.dispatch(None), Dispatch::NoCommand));
}

#[test]
fn unknown_command_is_reported_and_runs_nothing() {
    let m = Maker::<u32>::with().cmd("build", 1);
    match m.dispatch(Some("frobnicate".to_string())) {
        Dispatch::Unknown(name) => assert_eq!(name, "frobnicate"),
        _ => panic!("expected an unknown-command outcome"),
    }
}

#[test]
fn unmatched_default_is_reported_unknown() {
    let m = Maker::<u32>::with().cmd("build", 1).default("deploy");
    match m.dispatch(None) {
        Dispatch::Unknown(name) => assert_eq!(name, "deploy"),
        _ => panic!("expected an unknown-command outcome"),
    }
}

#[test]
fn help_lists_all_commands_in_registration_order() {
    let m = Maker::<u32>::with()
        .cmd("build", 1)
        .cmd("test", 2)
        .cmd("deploy", 3);
    match m.dispatch(Some("help".to_string())) {
        Dispatch::Help(listing) => {
            assert_eq!(listing, vec!["build".to_string(), "test".to_string(), "deploy".to_string()])
        }
        _ => panic!("expected the help listing"),
    }
}

#[test]
fn registered_help_command_wins_over_listing() {
    let m = Maker::<u32>::with().cmd("build", 1).cmd("help", 9);
    match m.dispatch(Some("help".to_string())) {
        Dispatch::Run(action) => assert_eq!(action, 9),
        _ => panic!("expected the registered help action"),
    }
}

#[test]
fn duplicate_names_resolve_to_first_registered() {
    let m = Maker::<u32>::with().cmd("build", 1).cmd("build", 2);
    match m.dispatch(Some("build".to_string())) {
        Dispatch::Run(action) => assert_eq!(action, 1),
        _ => panic!("expected the first registered action"),
    }
}

#[test]
fn later_default_overwrites_earlier() {
    let m = Maker::<u32>::with()
        .cmd("build", 1)
        .cmd("test", 2)
        .default("build")
        .default("test");
    match m.dispatch(None) {
        Dispatch::Run(action) => assert_eq!(action, 2),
        _ => panic!("expected the later default's action"),
    }
}

#[test]
fn empty_registry_help_lists_nothing() {
    let m = Maker::<u32>::with();
    match m.dispatch(Some("help".to_string())) {
        Dispatch::Help(listing) => assert!(listing.is_empty()),
        _ => panic!("expected an empty help listing"),
    }
}
