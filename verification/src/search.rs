//! The fixed-layout window-search criteria record.
//!
//! The engine's search call takes this record by reference; its layout
//! is a binary contract.  Here each field is held as a plain value: a
//! pattern is `None` where the engine expects a null pointer, and
//! every numeric field defaults to zero.  The surrounding application
//! marshals a value of this record into the engine's C layout
//! unchanged.

use vstd::prelude::*;

verus! {

/// The bit of the search mask that activates the pid filter.
pub const SEARCH_PID_MASK: u32 = 1 << 3;

/// Window-search criteria, field for field as the engine's search
/// call expects them.
#[derive(Clone, Debug, PartialEq, Eq)]
pub struct Search {
    /// Pattern tested against a window title, or no title filter.
    pub title: Option<String>,
    /// Pattern tested against a window class, or no class filter.
    pub winclass: Option<String>,
    /// Pattern tested against a window class name, or no filter.
    pub winclassname: Option<String>,
    /// Pattern tested against a window name, or no name filter.
    pub winname: Option<String>,
    /// Pattern tested against a window role, or no role filter.
    pub winrole: Option<String>,
    /// Window pid to match.
    pub pid: i32,
    /// Depth of the search; 1 means only toplevel windows.
    pub max_depth: i64,
    /// Nonzero to search only visible windows.
    pub only_visible: i32,
    /// Which screen to search; zero with the bit unset means all.
    pub screen: i32,
    /// Whether the active filters combine by "and" or by "or".
    pub require: u32,
    /// Bitmask naming which filter fields are active.
    pub searchmask: u32,
    /// Which desktop to search; zero with the bit unset means all.
    pub desktop: i64,
    /// How many results to return; zero means all.
    pub limit: u32,
}

/// The all-defaults record: no patterns, every numeric field zero.
pub open spec fn default_search() -> Search {
    Search {
        title: None,
        winclass: None,
        winclassname: None,
        winname: None,
        winrole: None,
        pid: 0,
        max_depth: 0,
        only_visible: 0,
        screen: 0,
        require: 0,
        searchmask: 0,
        desktop: 0,
        limit: 0,
    }
}

/// The record that searches by owning pid alone: pid set, search
/// depth fixed at 100, only the pid bit of the mask set, everything
/// else at its default.
pub open spec fn pid_search(pid: i32) -> Search {
    Search {
        title: None,
        winclass: None,
        winclassname: None,
        winname: None,
        winrole: None,
        pid: pid,
        max_depth: 100,
        only_visible: 0,
        screen: 0,
        require: 0,
        searchmask: SEARCH_PID_MASK,
        desktop: 0,
        limit: 0,
    }
}

impl Default for Search {
    /// A record with every field at its default.
    fn default() -> (r: Self)
        ensures
            r == default_search(),
    {
        Search {
            title: None,
            winclass: None,
            winclassname: None,
            winname: None,
            winrole: None,
            pid: 0,
            max_depth: 0,
            only_visible: 0,
            screen: 0,
            require: 0,
            searchmask: 0,
            desktop: 0,
            limit: 0,
        }
    }
}

} // verus!
