//! The pointer-device cursor handle.

use vstd::prelude::*;

verus! {

/// A handle to a cursor owned by the platform's pointer-device service.
/// The service hands out the handle as an address; the library only records
/// it together with whether this value owns the underlying object and must
/// eventually release it.  A handle of zero never escapes a constructor.
#[derive(Clone, Copy, Debug, PartialEq, Eq, Structural)]
pub struct Cursor {
    /// The address of the service-owned object.
    pub raw: usize,
    /// Whether this value owns the object and is responsible for freeing it.
    pub owned: bool,
}

/// Records a handle the pointer-device service handed out.
pub fn wrap_cursor(raw: usize, owned: bool) -> (c: Cursor)
    ensures
        c.raw == raw,
        c.owned == owned,
{
    Cursor { raw, owned }
}

impl Cursor {
    /// Interprets the address returned by the service's create call: a zero
    /// address reports failure, any other address is an owned cursor.
    pub fn from_created(raw: usize) -> (r: Option<Cursor>)
        ensures
            (r is Some) == (raw != 0),
            r matches Some(c) ==> c.raw == raw && c.owned,
    {
        if raw == 0 {
            None
        } else {
            Some(wrap_cursor(raw, true))
        }
    }
}

} // verus!
