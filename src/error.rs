use vstd::prelude::*;

verus! {

/// What can go wrong while finding or talking to a display's I2C service.
#[derive(Debug, Clone, Copy, PartialEq, Eq, Structural)]
pub enum Error {
    /// No qualifying service was found (also for built-in displays).
    ServiceNotFound,
    /// The display's metadata has no location string.
    DisplayLocationNotFound,
    /// A registry or I2C call returned this non-success status.
    Kernel(i32),
}

/// The status that kernel and I2C calls return on success.
pub const KERN_SUCCESS: i32 = 0;

/// Turns a raw status into a result: success is `Ok`, any other status is
/// carried unchanged in `Error::Kernel`.
pub fn check_status(status: i32) -> (r: Result<(), Error>)
    ensures
        status == KERN_SUCCESS ==> r == Ok::<(), Error>(()),
        status != KERN_SUCCESS ==> r == Err::<(), Error>(Error::Kernel(status)),
{
    if status == KERN_SUCCESS {
        Ok(())
    } else {
        Err(Error::Kernel(status))
    }
}

} // verus!
