use vstd::prelude::*;
use vstd::slice::slice_to_vec;
use crate::status::Status;

verus! {

pub open spec fn opt_units(o: Option<Vec<u16>>) -> Option<Seq<u16>> {
    match o {
        Some(v) => Some(v@),
        None => None,
    }
}

/// The state after the mount callback for `mount_point`.
pub open spec fn after_mounted(s: Option<Seq<u16>>, mount_point: Seq<u16>) -> Option<Seq<u16>> {
    Some(mount_point)
}

/// The state after the unmount callback.
pub open spec fn after_unmounted(s: Option<Seq<u16>>) -> Option<Seq<u16>> {
    None
}

/// What a read that leaves the state as it is gives.
pub open spec fn read_of(s: Option<Seq<u16>>) -> Option<Seq<u16>> {
    s
}

/// Where the volume is mounted: set by the framework's mount callback,
/// cleared by its unmount callback, and empty at every other time.
pub struct MountState {
    mount_point: Option<Vec<u16>>,
}

impl View for MountState {
    type V = Option<Seq<u16>>;

    closed spec fn view(&self) -> Self::V {
        opt_units(self.mount_point)
    }
}

impl MountState {
    /// Nothing is mounted yet.
    pub fn new() -> (r: MountState)
        ensures
            r@ is None,
    {
        MountState { mount_point: None }
    }

    /// Records `mount_point` as the place of the volume.
    pub fn set(&mut self, mount_point: &[u16])
        ensures
            final(self)@ == Some(mount_point@),
    {
        self.mount_point = Some(slice_to_vec(mount_point));
    }

    /// Clears the slot and hands back what it held.
    pub fn take(&mut self) -> (r: Option<Vec<u16>>)
        ensures
            opt_units(r) == old(self)@,
            final(self)@ is None,
    {
        let r = match &self.mount_point {
            Some(p) => Some(slice_to_vec(p.as_slice())),
            None => None,
        };
        self.mount_point = None;
        r
    }

    /// A copy of what the slot holds; the slot stays as it is.
    pub fn get_clone(&self) -> (r: Option<Vec<u16>>)
        ensures
            opt_units(r) == read_of(self@),
    {
        match &self.mount_point {
            Some(p) => Some(slice_to_vec(p.as_slice())),
            None => None,
        }
    }

    /// The framework's mount callback: always succeeds.
    pub fn mounted(&mut self, mount_point: &[u16]) -> (r: Status)
        ensures
            r == Status::Success,
            final(self)@ == after_mounted(old(self)@, mount_point@),
    {
        self.set(mount_point);
        Status::Success
    }

    /// The framework's unmount callback: always succeeds, since the framework
    /// has already detached the volume. The place it was mounted at comes
    /// back; `None` means no mount was recorded, which is out of order.
    pub fn unmounted(&mut self) -> (r: (Status, Option<Vec<u16>>))
        ensures
            r.0 == Status::Success,
            opt_units(r.1) == old(self)@,
            final(self)@ == after_unmounted(old(self)@),
    {
        let previous = self.take();
        (Status::Success, previous)
    }
}

/// A mount callback and a later unmount callback, with any number of
/// reads between them and after: each read in between gives the mounted
/// path, each read after gives nothing.
pub proof fn mount_state_follows_callbacks(before: Option<Seq<u16>>, mount_point: Seq<u16>)
    ensures
        read_of(after_mounted(before, mount_point)) == Some(mount_point),
        read_of(after_unmounted(after_mounted(before, mount_point))) is None,
{
}

} // verus!
