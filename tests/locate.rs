use ddc_macos::address::PropertyValue;
use ddc_macos::error::Error;
use ddc_macos::locate::{Locator, Reply, Request, Stage};

struct Entry {
    path: Result<String, i32>,
    name: Result<String, i32>,
    handle: bool,
    location: Option<PropertyValue>,
    parent: bool,
    class: Option<PropertyValue>,
}

fn entry(path: &str, name: &str) -> Entry {
    Entry {
        path: Ok(path.to_string()),
        name: Ok(name.to_string()),
        handle: false,
        location: None,
        parent: false,
        class: None,
    }
}

fn text(s: &str) -> Option<PropertyValue> {
    Some(PropertyValue::Text(s.to_string()))
}

fn proxy(location: &str, parent: bool, class: Option<PropertyValue>) -> Entry {
    Entry {
        path: Ok("IOService:/other".to_string()),
        name: Ok("DCPAVServiceProxy".to_string()),
        handle: true,
        location: text(location),
        parent,
        class,
    }
}

struct Outcome {
    result: Result<u16, Error>,
    walk_steps: usize,
    chosen: Option<usize>,
}

/// Answers the locator's requests from a synthetic registry.
fn run(builtin: bool, display_location: Option<PropertyValue>, entries: &[Entry]) -> Outcome {
    let (mut locator, mut request) = Locator::new();
    let mut current: Option<usize> = None;
    let mut walk_steps = 0;
    loop {
        let reply = match request {
            Request::IsBuiltin => Reply::Flag(builtin),
            Request::DisplayLocation => Reply::Property(display_location.clone()),
            Request::OpenRegistry => Reply::Flag(true),
            Request::NextEntry => {
                walk_steps += 1;
                let next = current.map_or(0, |i| i + 1);
                current = Some(next);
                Reply::Flag(next < entries.len())
            }
            Request::EntryPath => Reply::Text(entries[current.unwrap()].path.clone()),
            Request::EntryName => Reply::Text(entries[current.unwrap()].name.clone()),
            Request::CreateService => Reply::Flag(entries[current.unwrap()].handle),
            Request::ServiceLocation => Reply::Property(entries[current.unwrap()].location.clone()),
            Request::ParentEntry => Reply::Flag(entries[current.unwrap()].parent),
            Request::ParentProviderClass => Reply::Property(entries[current.unwrap()].class.clone()),
            Request::Finished(result) => {
                assert_eq!(locator.current_stage(), Stage::Done);
                let chosen = if result.is_ok() { current } else { None };
                return Outcome { result, walk_steps, chosen };
            }
        };
        assert!(locator.expects(&reply));
        request = locator.step(reply);
    }
}

const DISPLAY: &str = "IOService:/AppleARMPE/arm-io/dcpext";

#[test]
fn builtin_display_is_not_searched() {
    let entries = vec![entry(DISPLAY, "dcpext"), proxy("External", true, None)];
    let out = run(true, text(DISPLAY), &entries);
    assert_eq!(out.result, Err(Error::ServiceNotFound));
    assert_eq!(out.walk_steps, 0);
}

#[test]
fn missing_display_location_is_its_own_error() {
    let entries = vec![entry(DISPLAY, "dcpext")];
    assert_eq!(run(false, None, &entries).result, Err(Error::DisplayLocationNotFound));
    let wrong_type = run(false, Some(PropertyValue::Other), &entries);
    assert_eq!(wrong_type.result, Err(Error::DisplayLocationNotFound));
    assert_eq!(wrong_type.walk_steps, 0);
}

#[test]
fn proxy_after_matching_location_is_found() {
    let entries = vec![
        entry("IOService:/AppleARMPE/arm-io/dcp", "dcp"),
        entry(DISPLAY, "dcpext"),
        proxy("External", true, text("AppleDCPSomethingElse")),
    ];
    let out = run(false, text(DISPLAY), &entries);
    assert_eq!(out.result, Ok(0x37));
    assert_eq!(out.chosen, Some(2));
}

#[test]
fn bridge_parent_gives_bridge_address() {
    let entries = vec![entry(DISPLAY, "dcpext"), proxy("External", true, text("AppleDCPMCDP29XX"))];
    assert_eq!(run(false, text(DISPLAY), &entries).result, Ok(0xB7));
}

#[test]
fn failed_parent_lookup_gives_standard_address() {
    let entries = vec![entry(DISPLAY, "dcpext"), proxy("External", false, text("AppleDCPMCDP29XX"))];
    assert_eq!(run(false, text(DISPLAY), &entries).result, Ok(0x37));
}

#[test]
fn internal_proxy_is_skipped() {
    let entries = vec![entry(DISPLAY, "dcpext"), proxy("Internal", true, None)];
    assert_eq!(run(false, text(DISPLAY), &entries).result, Err(Error::ServiceNotFound));
}

#[test]
fn search_goes_on_past_a_non_qualifying_proxy() {
    let mut null_handle = proxy("External", true, None);
    null_handle.handle = false;
    let no_location = Entry { location: None, ..proxy("External", true, None) };
    let entries = vec![
        entry(DISPLAY, "dcpext"),
        proxy("Internal", true, None),
        null_handle,
        no_location,
        entry("IOService:/x", "AppleSomething"),
        proxy("External", true, text("AppleDCPMCDP29XX")),
    ];
    let out = run(false, text(DISPLAY), &entries);
    assert_eq!(out.result, Ok(0xB7));
    assert_eq!(out.chosen, Some(5));
}

#[test]
fn proxy_before_the_location_is_not_taken() {
    let entries = vec![proxy("External", true, None), entry(DISPLAY, "dcpext")];
    assert_eq!(run(false, text(DISPLAY), &entries).result, Err(Error::ServiceNotFound));
}

#[test]
fn no_matching_location_is_not_found() {
    let entries = vec![entry("IOService:/a", "a"), proxy("External", true, None)];
    let out = run(false, text(DISPLAY), &entries);
    assert_eq!(out.result, Err(Error::ServiceNotFound));
    assert_eq!(out.walk_steps, 3);
}

#[test]
fn failed_path_lookup_is_skipped() {
    let mut bad = entry(DISPLAY, "dcpext");
    bad.path = Err(-536870212);
    let entries = vec![bad, proxy("External", true, None)];
    assert_eq!(run(false, text(DISPLAY), &entries).result, Err(Error::ServiceNotFound));
}

#[test]
fn failed_name_lookup_is_a_kernel_error() {
    let mut bad = entry("IOService:/x", "x");
    bad.name = Err(-536870206);
    let entries = vec![entry(DISPLAY, "dcpext"), bad, proxy("External", true, None)];
    assert_eq!(run(false, text(DISPLAY), &entries).result, Err(Error::Kernel(-536870206)));
}

#[test]
fn unopened_registry_is_not_found() {
    let (mut locator, _) = Locator::new();
    assert_eq!(locator.step(Reply::Flag(false)), Request::DisplayLocation);
    assert_eq!(locator.step(Reply::Property(text(DISPLAY))), Request::OpenRegistry);
    assert_eq!(locator.step(Reply::Flag(false)), Request::Finished(Err(Error::ServiceNotFound)));
    assert!(!locator.expects(&Reply::Flag(true)));
}

#[test]
fn mismatched_reply_is_not_expected() {
    let (locator, request) = Locator::new();
    assert_eq!(request, Request::IsBuiltin);
    assert!(locator.expects(&Reply::Flag(false)));
    assert!(!locator.expects(&Reply::Property(None)));
    assert!(!locator.expects(&Reply::Text(Ok(String::new()))));
}
