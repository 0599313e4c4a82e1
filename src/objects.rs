//! Workspace and window records as the peer reports them, and the
//! normalized workspace entry handed to the widget sink.
use vstd::prelude::*;

verus! {

/// A workspace as reported by the peer.
#[derive(Clone, Debug)]
pub struct Workspace {
    pub id: usize,
    pub num: usize,
    pub name: String,
    pub output: String,
    pub focused: bool,
    pub urgent: bool,
    /// Absent in some workspace events; always present in a listing.
    pub visible: Option<bool>,
}

/// One entry of the workspace table shown by the widgets.
#[derive(Clone, Debug)]
pub struct WorkspaceInfo {
    pub name: String,
    pub num: usize,
    pub focused: bool,
    pub urgent: bool,
    pub visible: bool,
    pub active: bool,
}

impl WorkspaceInfo {
    /// Whether this entry is an inactive placeholder named `name` with number `num`.
    pub open spec fn is_placeholder(self, name: Seq<char>, num: usize) -> bool {
        &&& self.name@ == name
        &&& self.num == num
        &&& !self.focused
        &&& !self.urgent
        &&& !self.visible
        &&& !self.active
    }

    /// An inactive placeholder with the given name and number.
    pub fn new(name: &str, num: usize) -> (r: WorkspaceInfo)
        ensures
            r.is_placeholder(name@, num),
    {
        WorkspaceInfo {
            name: name.to_owned(),
            num,
            focused: false,
            urgent: false,
            visible: false,
            active: false,
        }
    }
}

impl Default for WorkspaceInfo {
    fn default() -> (r: WorkspaceInfo)
        ensures
            r.is_placeholder(Seq::empty(), 0),
    {
        WorkspaceInfo {
            name: String::new(),
            num: 0,
            focused: false,
            urgent: false,
            visible: false,
            active: false,
        }
    }
}

/// A window container as reported by the peer.
#[derive(Clone, Debug)]
pub struct Window {
    pub id: usize,
    pub name: Option<String>,
    pub focused: bool,
    pub urgent: bool,
    pub pid: Option<usize>,
    pub app_id: Option<String>,
}

} // verus!
