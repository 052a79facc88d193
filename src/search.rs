use vstd::prelude::*;
use crate::address::{chip_address, is_text, PropertyValue};
use crate::error::Error;
use crate::locate::{external_location, next, proxy_name, Reply, Request, Stage};

verus! {

/// What the registry reports about one entry of the service-plane walk.
pub struct RegistryEntry {
    /// The entry's path, or the status of the failed lookup.
    pub path: Result<String, i32>,
    /// The entry's name, or the status of the failed lookup.
    pub name: Result<String, i32>,
    /// Whether a non-null communication handle can be created for it.
    pub handle: bool,
    /// Its "Location" property.
    pub location: Option<PropertyValue>,
    /// Whether its parent can be looked up.
    pub parent_found: bool,
    /// The parent's "EPICProviderClass" property.
    pub provider_class: Option<PropertyValue>,
}

/// Does `e` qualify as the display's service: a proxy by name, with a handle,
/// connected externally?
pub open spec fn qualifies(e: RegistryEntry) -> bool {
    e.name matches Ok(n) && n@ == proxy_name() && e.handle && is_text(e.location, external_location())
}

/// The outcome of searching `entries[i..]` for the entry whose path is
/// `location`.
pub open spec fn seek_location(entries: Seq<RegistryEntry>, location: Seq<char>, i: int) -> Result<u16, Error>
    decreases entries.len() - i,
{
    if i < 0 || i >= entries.len() {
        Err(Error::ServiceNotFound)
    } else if entries[i].path matches Ok(p) && p@ == location {
        seek_proxy(entries, i + 1)
    } else {
        seek_location(entries, location, i + 1)
    }
}

/// The outcome of searching `entries[i..]` for the first qualifying proxy;
/// a failed name lookup ends the search with its status.
pub open spec fn seek_proxy(entries: Seq<RegistryEntry>, i: int) -> Result<u16, Error>
    decreases entries.len() - i,
{
    if i < 0 || i >= entries.len() {
        Err(Error::ServiceNotFound)
    } else if entries[i].name is Err {
        Err(Error::Kernel(entries[i].name->Err_0))
    } else if qualifies(entries[i]) {
        Ok(chip_address(entries[i].parent_found, entries[i].provider_class))
    } else {
        seek_proxy(entries, i + 1)
    }
}

/// The reply that the registry gives about entry `e` to a locator at `stage`.
pub open spec fn answer(stage: Stage, e: RegistryEntry) -> Reply {
    match stage {
        Stage::AwaitPath => Reply::Text(e.path),
        Stage::AwaitName => Reply::Text(e.name),
        Stage::AwaitService => Reply::Flag(e.handle),
        Stage::AwaitServiceLocation => Reply::Property(e.location),
        Stage::AwaitParent => Reply::Flag(e.parent_found),
        _ => Reply::Property(e.provider_class),
    }
}

/// Orders the stages of one entry's examination, so that each step moves down.
pub open spec fn rank(stage: Stage) -> nat {
    match stage {
        Stage::AwaitName => 5,
        Stage::AwaitService => 4,
        Stage::AwaitServiceLocation => 3,
        Stage::AwaitParent => 2,
        _ => 1,
    }
}

/// Runs the locator on one entry, from `stage`, until it asks for the next
/// entry or finishes.
pub open spec fn on_entry(stage: Stage, location: Seq<char>, e: RegistryEntry) -> (Stage, Request)
    decreases rank(stage),
{
    let (s, l, r) = next(stage, location, answer(stage, e));
    if s is AwaitEntry || s is Done || rank(s) >= rank(stage) {
        (s, r)
    } else {
        on_entry(s, location, e)
    }
}

/// Runs the locator, waiting for entry `i`, over the rest of the walk; the
/// final request.
pub open spec fn walk(stage: Stage, location: Seq<char>, entries: Seq<RegistryEntry>, i: int) -> Request
    decreases entries.len() - i,
{
    if i < 0 || i >= entries.len() {
        next(stage, location, Reply::Flag(false)).2
    } else {
        let (s, r) = on_entry(next(stage, location, Reply::Flag(true)).0, location, entries[i]);
        if s is AwaitEntry {
            walk(s, location, entries, i + 1)
        } else {
            r
        }
    }
}

/// Searching for a proxy, the locator answered from `entries` ends with the
/// first qualifying proxy's chip address, with `Kernel` for a failed name
/// lookup met first, or with `ServiceNotFound` when the walk runs out.
pub proof fn lemma_walk_seeks_proxy(location: Seq<char>, entries: Seq<RegistryEntry>, i: int)
    requires
        0 <= i <= entries.len(),
    ensures
        walk(Stage::AwaitEntry { proxy: true }, location, entries, i) == Request::Finished(seek_proxy(entries, i)),
    decreases entries.len() - i,
{
    reveal_with_fuel(on_entry, 6);
    if i < entries.len() {
        lemma_walk_seeks_proxy(location, entries, i + 1);
    }
}

/// Once the registry walk is open, the locator answered from `entries` finds
/// the entry whose path equals the display's location, and then the first
/// qualifying proxy after it; the walk is not restarted, so a proxy before
/// the location, or none at all, ends in `ServiceNotFound`.
pub proof fn lemma_walk_seeks_location(location: Seq<char>, entries: Seq<RegistryEntry>, i: int)
    requires
        0 <= i <= entries.len(),
    ensures
        walk(Stage::AwaitEntry { proxy: false }, location, entries, i) == Request::Finished(
            seek_location(entries, location, i),
        ),
    decreases entries.len() - i,
{
    reveal_with_fuel(on_entry, 2);
    if i < entries.len() {
        lemma_walk_seeks_location(location, entries, i + 1);
        lemma_walk_seeks_proxy(location, entries, i + 1);
    }
}

/// The outcome of locating a display's service: `builtin` and
/// `display_location` are what the display reports, `opened` whether the
/// registry walk could be opened, and `entries` the walk in its order.
pub open spec fn locate_outcome(
    builtin: bool,
    display_location: Option<PropertyValue>,
    opened: bool,
    entries: Seq<RegistryEntry>,
) -> Result<u16, Error> {
    if builtin {
        Err(Error::ServiceNotFound)
    } else {
        match display_location {
            Some(PropertyValue::Text(s)) => if opened {
                seek_location(entries, s@, 0)
            } else {
                Err(Error::ServiceNotFound)
            },
            _ => Err(Error::DisplayLocationNotFound),
        }
    }
}

/// Runs a new locator, answered from what the display and the registry
/// report; the final request.
pub open spec fn run(
    builtin: bool,
    display_location: Option<PropertyValue>,
    opened: bool,
    entries: Seq<RegistryEntry>,
) -> Request {
    let (s1, l1, r1) = next(Stage::AwaitBuiltin, Seq::empty(), Reply::Flag(builtin));
    if s1 is Done {
        r1
    } else {
        let (s2, l2, r2) = next(s1, l1, Reply::Property(display_location));
        if s2 is Done {
            r2
        } else {
            let (s3, l3, r3) = next(s2, l2, Reply::Flag(opened));
            if s3 is Done {
                r3
            } else {
                walk(s3, l3, entries, 0)
            }
        }
    }
}

/// A new locator, answered from what the display and the registry report,
/// finishes with `locate_outcome`: built-in displays are rejected before the
/// walk, a missing location string is `DisplayLocationNotFound`, and
/// otherwise the first qualifying proxy after the display's own entry wins.
pub proof fn lemma_locate(
    builtin: bool,
    display_location: Option<PropertyValue>,
    opened: bool,
    entries: Seq<RegistryEntry>,
)
    ensures
        run(builtin, display_location, opened, entries) == Request::Finished(
            locate_outcome(builtin, display_location, opened, entries),
        ),
{
    match display_location {
        Some(PropertyValue::Text(s)) => lemma_walk_seeks_location(s@, entries, 0),
        _ => {},
    }
}

} // verus!
