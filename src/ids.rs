use vstd::prelude::*;

verus! {

/// Identifier of an input device: an opaque number given by the platform.
/// The number zero stands for "no real device".
#[derive(Debug, Copy, Clone, PartialEq, Eq, PartialOrd, Ord, Hash, Structural)]
pub struct DeviceId(u32);

impl DeviceId {
    /// The raw device number.
    pub closed spec fn spec_raw(&self) -> u32 {
        self.0
    }

    /// Two device identifiers are equal exactly when their raw numbers are.
    pub proof fn lemma_eq_by_raw(a: DeviceId, b: DeviceId)
        ensures
            (a == b) <==> (a.spec_raw() == b.spec_raw()),
    {
    }

    /// The sentinel identifier that names no real device.
    pub fn dummy() -> (r: DeviceId)
        ensures
            r.spec_raw() == 0,
    {
        DeviceId(0)
    }

    /// The raw device number.
    pub fn raw(&self) -> (r: u32)
        ensures
            r == self.spec_raw(),
    {
        self.0
    }

    /// Whether this is the sentinel that names no real device.
    pub fn is_dummy(&self) -> (r: bool)
        ensures
            r == (self.spec_raw() == 0),
    {
        self.0 == 0
    }

    /// A persistent, human-readable name for the device, if one resolves.
    /// The sentinel never has one and `lookup` is not asked for it; any other
    /// device gets what `lookup` answers for its raw number. `None` from the
    /// lookup is a valid answer, not an error.
    pub fn get_persistent_identifier<F: Fn(u32) -> Option<String>>(&self, lookup: F) -> (r: Option<
        String,
    >)
        requires
            self.spec_raw() != 0 ==> lookup.requires((self.spec_raw(),)),
        ensures
            self.spec_raw() == 0 ==> r.is_none(),
            self.spec_raw() != 0 ==> lookup.ensures((self.spec_raw(),), r),
    {
        if self.0 != 0 {
            lookup(self.0)
        } else {
            None
        }
    }
}

/// Wraps a raw device number that the platform reported.
pub fn wrap_device_id(id: u32) -> (r: DeviceId)
    ensures
        r.spec_raw() == id,
{
    DeviceId(id)
}

/// Identifier of a window: the native handle, held as a number and never
/// dereferenced. The handle zero stands for "no real window" and is never
/// registered.
#[derive(Debug, Copy, Clone, PartialEq, Eq, PartialOrd, Ord, Hash, Structural)]
pub struct WindowId(u64);

impl WindowId {
    /// The wrapped native handle.
    pub closed spec fn spec_handle(&self) -> u64 {
        self.0
    }

    /// The identifier of the window with the given native handle.
    pub fn from_handle(handle: u64) -> (r: WindowId)
        ensures
            r.spec_handle() == handle,
    {
        WindowId(handle)
    }

    /// Two window identifiers are equal exactly when their handles are.
    pub proof fn lemma_eq_by_handle(a: WindowId, b: WindowId)
        ensures
            (a == b) <==> (a.spec_handle() == b.spec_handle()),
    {
    }

    /// The sentinel identifier that names no real window.
    pub fn dummy() -> (r: WindowId)
        ensures
            r.spec_handle() == 0,
    {
        WindowId(0)
    }

    /// The wrapped native handle.
    pub fn handle(&self) -> (r: u64)
        ensures
            r == self.spec_handle(),
    {
        self.0
    }

    /// Whether this is the sentinel that names no real window.
    pub fn is_dummy(&self) -> (r: bool)
        ensures
            r == (self.spec_handle() == 0),
    {
        self.0 == 0
    }
}

/// A window message of the native platform that has no portable
/// counterpart: the message number and its two parameters, as plain values.
#[derive(Copy, Clone, PartialEq, Eq, PartialOrd, Ord, Hash, Structural)]
pub struct OsSpecificWindowEvent {
    pub(crate) message: u32,
    pub(crate) wparam: usize,
    pub(crate) lparam: isize,
}

impl OsSpecificWindowEvent {
    /// The message number and its two parameters.
    pub closed spec fn spec_parts(&self) -> (u32, usize, isize) {
        (self.message, self.wparam, self.lparam)
    }

    /// The message `message` with parameters `wparam` and `lparam`.
    pub fn new(message: u32, wparam: usize, lparam: isize) -> (r: OsSpecificWindowEvent)
        ensures
            r.spec_parts() == (message, wparam, lparam),
    {
        OsSpecificWindowEvent { message, wparam, lparam }
    }

    /// Two messages are equal exactly when their parts are.
    pub proof fn lemma_eq_by_parts(a: OsSpecificWindowEvent, b: OsSpecificWindowEvent)
        ensures
            (a == b) <==> (a.spec_parts() == b.spec_parts()),
    {
    }

    /// The message number and its two parameters.
    pub fn parts(&self) -> (r: (u32, usize, isize))
        ensures
            r == self.spec_parts(),
    {
        (self.message, self.wparam, self.lparam)
    }
}

} // verus!
