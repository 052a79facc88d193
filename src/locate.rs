use vstd::prelude::*;
use crate::address::{i2c_address, is_text, chip_address, text_equals, standard_address, PropertyValue};
use crate::error::Error;

verus! {

/// What the locator is waiting for.
#[derive(Debug, Clone, Copy, PartialEq, Eq, Structural)]
pub enum Stage {
    /// Whether the display is built in.
    AwaitBuiltin,
    /// The display's "IODisplayLocation" metadata value.
    AwaitDisplayLocation,
    /// Whether the service-plane registry walk could be opened.
    AwaitRegistry,
    /// Whether the walk yielded another entry; `proxy` tells whether the
    /// display's own entry was already passed and a proxy is sought.
    AwaitEntry { proxy: bool },
    /// The registry path of the current entry.
    AwaitPath,
    /// The name of the current entry.
    AwaitName,
    /// Whether a communication handle could be created for the current entry.
    AwaitService,
    /// The current entry's "Location" property.
    AwaitServiceLocation,
    /// Whether the current entry's parent could be looked up.
    AwaitParent,
    /// The parent's "EPICProviderClass" property.
    AwaitProviderClass,
    /// The search is over.
    Done,
}

/// What the caller has to do next for the locator.
#[derive(Debug, PartialEq, Eq)]
pub enum Request {
    /// Tell whether the display is built in (`Reply::Flag`).
    IsBuiltin,
    /// Look up the display's "IODisplayLocation" metadata (`Reply::Property`).
    DisplayLocation,
    /// Open a recursive walk of the service plane (`Reply::Flag`).
    OpenRegistry,
    /// Move the walk to its next entry; tell whether there was one (`Reply::Flag`).
    NextEntry,
    /// Give the current entry's path in the service plane (`Reply::Text`).
    EntryPath,
    /// Give the current entry's name (`Reply::Text`).
    EntryName,
    /// Create a communication handle for the current entry; tell whether it
    /// is non-null (`Reply::Flag`).
    CreateService,
    /// Look up the current entry's "Location" property (`Reply::Property`).
    ServiceLocation,
    /// Look up the current entry's parent in the service plane; tell whether
    /// that succeeded (`Reply::Flag`).
    ParentEntry,
    /// Look up the parent's "EPICProviderClass" property (`Reply::Property`).
    ParentProviderClass,
    /// The search is over: the I2C address of the handle created last, or
    /// the error.
    Finished(Result<u16, Error>),
}

/// The caller's answer to a request.
#[derive(Debug, PartialEq, Eq)]
pub enum Reply {
    /// A yes/no outcome.
    Flag(bool),
    /// A string, or the kernel status of the failed lookup.
    Text(Result<String, i32>),
    /// A property value, or `None` where the property is not set.
    Property(Option<PropertyValue>),
}

/// The name of the entries that carry a display's I2C service.
pub open spec fn proxy_name() -> Seq<char> {
    "DCPAVServiceProxy"@
}

/// The "Location" value of a proxy for an externally connected display.
pub open spec fn external_location() -> Seq<char> {
    "External"@
}

/// Does `reply` answer what a locator at `stage` waits for?
pub open spec fn fits(stage: Stage, reply: Reply) -> bool {
    match stage {
        Stage::AwaitBuiltin | Stage::AwaitRegistry | Stage::AwaitEntry { .. } | Stage::AwaitService
        | Stage::AwaitParent => reply is Flag,
        Stage::AwaitDisplayLocation | Stage::AwaitServiceLocation | Stage::AwaitProviderClass => reply is Property,
        Stage::AwaitPath | Stage::AwaitName => reply is Text,
        Stage::Done => false,
    }
}

/// One step of the search: from the stage, the display's location string and
/// a fitting reply, the next stage, location string and request.
pub open spec fn next(stage: Stage, location: Seq<char>, reply: Reply) -> (Stage, Seq<char>, Request) {
    let seek_location = (Stage::AwaitEntry { proxy: false }, location, Request::NextEntry);
    let seek_proxy = (Stage::AwaitEntry { proxy: true }, location, Request::NextEntry);
    let not_found = (Stage::Done, location, Request::Finished(Err(Error::ServiceNotFound)));
    match (stage, reply) {
        (Stage::AwaitBuiltin, Reply::Flag(builtin)) => if builtin {
            not_found
        } else {
            (Stage::AwaitDisplayLocation, location, Request::DisplayLocation)
        },
        (Stage::AwaitDisplayLocation, Reply::Property(p)) => match p {
            Some(PropertyValue::Text(s)) => (Stage::AwaitRegistry, s@, Request::OpenRegistry),
            _ => (Stage::Done, location, Request::Finished(Err(Error::DisplayLocationNotFound))),
        },
        (Stage::AwaitRegistry, Reply::Flag(opened)) => if opened {
            seek_location
        } else {
            not_found
        },
        (Stage::AwaitEntry { proxy }, Reply::Flag(present)) => if !present {
            not_found
        } else if proxy {
            (Stage::AwaitName, location, Request::EntryName)
        } else {
            (Stage::AwaitPath, location, Request::EntryPath)
        },
        (Stage::AwaitPath, Reply::Text(r)) => match r {
            Ok(path) => if path@ == location {
                seek_proxy
            } else {
                seek_location
            },
            Err(_) => seek_location,
        },
        (Stage::AwaitName, Reply::Text(r)) => match r {
            Ok(name) => if name@ == proxy_name() {
                (Stage::AwaitService, location, Request::CreateService)
            } else {
                seek_proxy
            },
            Err(code) => (Stage::Done, location, Request::Finished(Err(Error::Kernel(code)))),
        },
        (Stage::AwaitService, Reply::Flag(created)) => if created {
            (Stage::AwaitServiceLocation, location, Request::ServiceLocation)
        } else {
            seek_proxy
        },
        (Stage::AwaitServiceLocation, Reply::Property(p)) => if is_text(p, external_location()) {
            (Stage::AwaitParent, location, Request::ParentEntry)
        } else {
            seek_proxy
        },
        (Stage::AwaitParent, Reply::Flag(found)) => if found {
            (Stage::AwaitProviderClass, location, Request::ParentProviderClass)
        } else {
            (Stage::Done, location, Request::Finished(Ok(standard_address())))
        },
        (Stage::AwaitProviderClass, Reply::Property(p)) => (
            Stage::Done,
            location,
            Request::Finished(Ok(chip_address(true, p))),
        ),
        _ => (stage, location, Request::Finished(Err(Error::ServiceNotFound))),
    }
}

/// A built-in display is rejected at once: answering the first request with
/// "built in" ends the search with `ServiceNotFound`, and a finished search
/// takes no further reply, so no registry walk is ever requested.
pub proof fn lemma_builtin_display_rejected(location: Seq<char>)
    ensures
        next(Stage::AwaitBuiltin, location, Reply::Flag(true)) == (
            Stage::Done,
            location,
            Request::Finished(Err(Error::ServiceNotFound)),
        ),
        forall|reply: Reply| !fits(Stage::Done, reply),
{
}

/// The search for a display's I2C service and its chip address.
pub struct Locator {
    stage: Stage,
    location: String,
}

impl Locator {
    pub closed spec fn stage(&self) -> Stage {
        self.stage
    }

    pub closed spec fn location(&self) -> Seq<char> {
        self.location@
    }

    /// Starts a search: the first request asks whether the display is built in.
    pub fn new() -> (r: (Locator, Request))
        ensures
            r.0.stage() == Stage::AwaitBuiltin,
            r.0.location() == Seq::<char>::empty(),
            r.1 == Request::IsBuiltin,
    {
        (Locator { stage: Stage::AwaitBuiltin, location: String::new() }, Request::IsBuiltin)
    }

    /// The stage the search is at.
    pub fn current_stage(&self) -> (r: Stage)
        ensures
            r == self.stage(),
    {
        self.stage
    }

    /// Does `reply` answer what this locator waits for?
    pub fn expects(&self, reply: &Reply) -> (r: bool)
        ensures
            r == fits(self.stage(), *reply),
    {
        match (self.stage, reply) {
            (Stage::AwaitBuiltin, Reply::Flag(_)) | (Stage::AwaitRegistry, Reply::Flag(_))
            | (Stage::AwaitEntry { .. }, Reply::Flag(_)) | (Stage::AwaitService, Reply::Flag(_))
            | (Stage::AwaitParent, Reply::Flag(_)) => true,
            (Stage::AwaitDisplayLocation, Reply::Property(_)) | (Stage::AwaitServiceLocation, Reply::Property(_))
            | (Stage::AwaitProviderClass, Reply::Property(_)) => true,
            (Stage::AwaitPath, Reply::Text(_)) | (Stage::AwaitName, Reply::Text(_)) => true,
            _ => false,
        }
    }

    /// Takes the answer to the last request and returns the next one.
    ///
    /// The walk is never restarted: once an entry's path equals the display's
    /// location, the entries that follow it are searched for a proxy named
    /// "DCPAVServiceProxy" with a non-null handle and "Location" = "External";
    /// the first one found ends the search with its chip address.
    pub fn step(&mut self, reply: Reply) -> (r: Request)
        requires
            fits(old(self).stage(), reply),
        ensures
            (final(self).stage(), final(self).location(), r) == next(old(self).stage(), old(self).location(), reply),
    {
        proof {
            reveal_strlit("DCPAVServiceProxy");
            reveal_strlit("External");
        }
        match reply {
            Reply::Flag(flag) => match self.stage {
                Stage::AwaitBuiltin => {
                    if flag {
                        self.stage = Stage::Done;
                        Request::Finished(Err(Error::ServiceNotFound))
                    } else {
                        self.stage = Stage::AwaitDisplayLocation;
                        Request::DisplayLocation
                    }
                },
                Stage::AwaitRegistry => {
                    if flag {
                        self.stage = Stage::AwaitEntry { proxy: false };
                        Request::NextEntry
                    } else {
                        self.stage = Stage::Done;
                        Request::Finished(Err(Error::ServiceNotFound))
                    }
                },
                Stage::AwaitEntry { proxy } => {
                    if !flag {
                        self.stage = Stage::Done;
                        Request::Finished(Err(Error::ServiceNotFound))
                    } else if proxy {
                        self.stage = Stage::AwaitName;
                        Request::EntryName
                    } else {
                        self.stage = Stage::AwaitPath;
                        Request::EntryPath
                    }
                },
                Stage::AwaitService => {
                    if flag {
                        self.stage = Stage::AwaitServiceLocation;
                        Request::ServiceLocation
                    } else {
                        self.stage = Stage::AwaitEntry { proxy: true };
                        Request::NextEntry
                    }
                },
                _ => {
                    if flag {
                        self.stage = Stage::AwaitProviderClass;
                        Request::ParentProviderClass
                    } else {
                        self.stage = Stage::Done;
                        Request::Finished(Ok(i2c_address(false, &None)))
                    }
                },
            },
            Reply::Text(r) => match self.stage {
                Stage::AwaitPath => {
                    let matched = match &r {
                        Ok(path) => *path == self.location,
                        Err(_) => false,
                    };
                    self.stage = Stage::AwaitEntry { proxy: matched };
                    Request::NextEntry
                },
                _ => match r {
                    Ok(name) => {
                        let proxy: String = "DCPAVServiceProxy".to_owned();
                        if name == proxy {
                            self.stage = Stage::AwaitService;
                            Request::CreateService
                        } else {
                            self.stage = Stage::AwaitEntry { proxy: true };
                            Request::NextEntry
                        }
                    },
                    Err(code) => {
                        self.stage = Stage::Done;
                        Request::Finished(Err(Error::Kernel(code)))
                    },
                },
            },
            Reply::Property(p) => match self.stage {
                Stage::AwaitDisplayLocation => match p {
                    Some(PropertyValue::Text(s)) => {
                        self.stage = Stage::AwaitRegistry;
                        self.location = s;
                        Request::OpenRegistry
                    },
                    _ => {
                        self.stage = Stage::Done;
                        Request::Finished(Err(Error::DisplayLocationNotFound))
                    },
                },
                Stage::AwaitServiceLocation => {
                    if text_equals(&p, "External") {
                        self.stage = Stage::AwaitParent;
                        Request::ParentEntry
                    } else {
                        self.stage = Stage::AwaitEntry { proxy: true };
                        Request::NextEntry
                    }
                },
                _ => {
                    self.stage = Stage::Done;
                    Request::Finished(Ok(i2c_address(true, &p)))
                },
            },
        }
    }
}

} // verus!
