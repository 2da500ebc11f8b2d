use vstd::prelude::*;

verus! {

/// Published by the tray after the pin entry toggled always-on-top.
#[derive(Debug, Clone, Copy, PartialEq, Eq)]
pub struct PinnedFromTrayEvent {
    pinned: bool,
}

/// Published by a window after it changed always-on-top itself.
#[derive(Debug, Clone, Copy, PartialEq, Eq)]
pub struct PinnedFromWindowEvent {
    pinned: bool,
}

impl PinnedFromTrayEvent {
    pub closed spec fn spec_pinned(&self) -> bool {
        self.pinned
    }

    pub fn new(pinned: bool) -> (r: Self)
        ensures
            r.spec_pinned() == pinned,
    {
        PinnedFromTrayEvent { pinned }
    }

    pub fn pinned(&self) -> (r: &bool)
        ensures
            *r == self.spec_pinned(),
    {
        &self.pinned
    }
}

impl PinnedFromWindowEvent {
    pub closed spec fn spec_pinned(&self) -> bool {
        self.pinned
    }

    pub fn new(pinned: bool) -> (r: Self)
        ensures
            r.spec_pinned() == pinned,
    {
        PinnedFromWindowEvent { pinned }
    }

    pub fn pinned(&self) -> (r: &bool)
        ensures
            *r == self.spec_pinned(),
    {
        &self.pinned
    }
}

} // verus!
