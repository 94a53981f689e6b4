use vstd::prelude::*;
use vstd::string::StringExecFns;

use crate::node_graph::NodeGraphMessage;
use crate::text::{remove_whitespace, spec_remove_whitespace, str_eq};
use crate::viewport::ViewportMessage;

verus! {

/// The kinds of tab a pane can open.
#[derive(Clone, Copy, Debug, PartialEq, Eq, Structural)]
pub enum Tabs {
    NodeGraph,
    Viewport,
    Properties,
}

impl Default for Tabs {
    /// The default kind: the node graph.
    fn default() -> (r: Tabs)
        ensures
            r == Tabs::NodeGraph,
    {
        Tabs::NodeGraph
    }
}

impl Tabs {
    pub open spec fn spec_variant(self) -> Seq<char> {
        match self {
            Tabs::NodeGraph => "NodeGraph"@,
            Tabs::Viewport => "Viewport"@,
            Tabs::Properties => "Properties"@,
        }
    }

    /// The name of the variant.
    pub fn variant(&self) -> (r: &'static str)
        ensures
            r@ == self.spec_variant(),
    {
        match self {
            Tabs::NodeGraph => "NodeGraph",
            Tabs::Viewport => "Viewport",
            Tabs::Properties => "Properties",
        }
    }

    pub open spec fn spec_from_variant(name: Seq<char>) -> Option<Tabs> {
        if name == "NodeGraph"@ {
            Some(Tabs::NodeGraph)
        } else if name == "Viewport"@ {
            Some(Tabs::Viewport)
        } else if name == "Properties"@ {
            Some(Tabs::Properties)
        } else {
            None
        }
    }

    /// The kind whose variant name is `name`, if there is one.
    pub fn from_variant(name: &str) -> (r: Option<Tabs>)
        ensures
            r == Self::spec_from_variant(name@),
    {
        if str_eq(name, "NodeGraph") {
            Some(Tabs::NodeGraph)
        } else if str_eq(name, "Viewport") {
            Some(Tabs::Viewport)
        } else if str_eq(name, "Properties") {
            Some(Tabs::Properties)
        } else {
            None
        }
    }

    pub open spec fn spec_all() -> Seq<Tabs> {
        seq![Tabs::NodeGraph, Tabs::Viewport, Tabs::Properties]
    }

    /// Every kind, in the order of declaration.
    pub fn iter() -> (r: Vec<Tabs>)
        ensures
            r@ == Self::spec_all(),
    {
        let r = vec![Tabs::NodeGraph, Tabs::Viewport, Tabs::Properties];
        assert(r@ =~= Self::spec_all());
        r
    }
}

/// The errors of the tabs of a pane.
#[derive(Clone, Debug)]
pub enum TabErrors {
    DeserializeError(String),
    UnknownError,
}

impl Default for TabErrors {
    /// The default error: an unknown one.
    fn default() -> (r: TabErrors)
        ensures
            r is UnknownError,
    {
        TabErrors::UnknownError
    }
}

impl TabErrors {
    pub open spec fn spec_message(&self) -> Seq<char> {
        match self {
            TabErrors::DeserializeError(error) => "DeserializeError: Could not deserialize from: "@
                + error@,
            TabErrors::UnknownError => "UnknownError: Sounds like a you problem."@,
        }
    }

    /// The text that describes the error.
    pub fn message(&self) -> (r: String)
        ensures
            r@ == self.spec_message(),
    {

        match self {
            TabErrors::DeserializeError(error) => {
                let mut r = String::from_str("DeserializeError: Could not deserialize from: ");
                r.append(error.as_str());
                r
            },
            TabErrors::UnknownError => String::from_str("UnknownError: Sounds like a you problem."),
        }
    }
}

/// The messages of a tab.
#[derive(Clone, Debug)]
pub enum TabMessage {
    NodeGraph(NodeGraphMessage),
    Viewport(ViewportMessage),
    Properties,
    Selected(usize),
    Closed(usize),
    New(Tabs),
}

impl TabMessage {
    /// Reads a message from the name of a tab kind, white space ignored:
    /// the message that opens a new tab of that kind.
    pub fn from_str(option: &str) -> (r: Result<TabMessage, TabErrors>)
        ensures
            match Tabs::spec_from_variant(spec_remove_whitespace(option@)) {
                Some(tab) => r matches Ok(TabMessage::New(t)) && t == tab,
                None => r matches Err(TabErrors::DeserializeError(v)) && v@ == spec_remove_whitespace(
                    option@,
                ),
            },
    {
        let variant = remove_whitespace(option);
        match Tabs::from_variant(variant.as_str()) {
            Some(tab) => Ok(TabMessage::New(tab)),
            None => Err(TabErrors::DeserializeError(variant)),
        }
    }
}

} // verus!

verus! {

/// A pane of a panel: its tabs, by kind, and the index of the active one.
#[derive(Clone, Debug)]
pub struct Pane {
    pub active_tab: usize,
    pub tabs: Vec<Tabs>,
}

/// The active index after a tab closed: the old index, brought inside the
/// remaining tabs, or 0 when none remain.
pub open spec fn spec_active_after_close(active_tab: int, remaining: int) -> int {
    if remaining == 0 {
        0
    } else if active_tab < remaining - 1 {
        active_tab
    } else {
        remaining - 1
    }
}

/// The pane after `message`: a selection makes its index active (whether a
/// tab stands there or not), a closing removes its tab and keeps the active
/// index inside the remaining tabs, a new tab is added at the end.
pub open spec fn spec_pane_after(active_tab: int, tabs: Seq<Tabs>, message: TabMessage) -> (
    int,
    Seq<Tabs>,
) {
    match message {
        TabMessage::Selected(i) => (i as int, tabs),
        TabMessage::Closed(i) => (
            spec_active_after_close(active_tab, tabs.len() - 1),
            tabs.remove(i as int),
        ),
        TabMessage::New(tab) => (active_tab, tabs.push(tab)),
        _ => (active_tab, tabs),
    }
}

impl Default for Pane {
    /// An empty pane.
    fn default() -> (r: Pane)
        ensures
            r.active_tab == 0,
            r.tabs@.len() == 0,
    {
        Pane { active_tab: 0, tabs: Vec::new() }
    }
}

impl Pane {
    /// Applies a message of the tabs to the pane, then hands it to the
    /// active tab: the result is the index of that tab, or nothing when the
    /// active index names no tab.
    pub fn update(&mut self, message: &TabMessage) -> (forwarded_to: Option<usize>)
        requires
            message matches TabMessage::Closed(i) ==> i < old(self).tabs@.len(),
        ensures
            (final(self).active_tab as int, final(self).tabs@) == spec_pane_after(
                old(self).active_tab as int,
                old(self).tabs@,
                *message,
            ),
            forwarded_to == (if final(self).active_tab < final(self).tabs@.len() {
                Some(final(self).active_tab)
            } else {
                None
            }),
    {
        match message {
            TabMessage::Selected(tab_index) => {
                self.active_tab = *tab_index;
            },
            TabMessage::Closed(tab_index) => {
                self.tabs.remove(*tab_index);
                self.active_tab = if self.tabs.len() == 0 {
                    0
                } else if self.active_tab < self.tabs.len() - 1 {
                    self.active_tab
                } else {
                    self.tabs.len() - 1
                };
            },
            TabMessage::New(tab) => {
                self.tabs.push(*tab);
            },
            _ => {},
        }
        if self.tabs.len() > self.active_tab {
            Some(self.active_tab)
        } else {
            None
        }
    }
}

} // verus!

verus! {

/// After a tab closes, the active index names one of the remaining tabs,
/// or is 0 when none remain.
pub proof fn lemma_close_keeps_active_in_range(active_tab: int, tabs: Seq<Tabs>, i: usize)
    requires
        0 <= active_tab,
        i < tabs.len(),
    ensures
        ({
            let (active, remaining) = spec_pane_after(active_tab, tabs, TabMessage::Closed(i));
            &&& remaining.len() == tabs.len() - 1
            &&& (remaining.len() == 0 && active == 0) || (0 <= active < remaining.len())
        }),
{
}

/// Closing a tab removes it and keeps the active index wherever it still
/// names a remaining tab; an index past the remaining tabs moves to the
/// last of them.
pub proof fn lemma_close_keeps_active_tab(active_tab: int, tabs: Seq<Tabs>, i: usize)
    requires
        0 <= active_tab,
        i < tabs.len(),
    ensures
        spec_pane_after(active_tab, tabs, TabMessage::Closed(i)).1 == tabs.remove(i as int),
        active_tab < tabs.len() - 1 ==> spec_pane_after(active_tab, tabs, TabMessage::Closed(i)).0
            == active_tab,
        0 < tabs.len() - 1 <= active_tab ==> spec_pane_after(
            active_tab,
            tabs,
            TabMessage::Closed(i),
        ).0 == tabs.len() - 2,
        tabs.len() == 1 ==> spec_pane_after(active_tab, tabs, TabMessage::Closed(i)).0 == 0,
{
}

/// A new tab is added after the others and leaves the active tab as it was.
pub proof fn lemma_new_tab_appends(active_tab: int, tabs: Seq<Tabs>, tab: Tabs)
    ensures
        spec_pane_after(active_tab, tabs, TabMessage::New(tab)) == (active_tab, tabs.push(tab)),
{
}

} // verus!

verus! {

impl Tabs {
    /// Whether a tab of this kind acts on `message`: a node graph tab on
    /// node graph messages, a viewport tab on viewport messages; a
    /// properties tab acts on none.
    pub fn handles(&self, message: &TabMessage) -> (r: bool)
        ensures
            r == match (*self, *message) {
                (Tabs::NodeGraph, TabMessage::NodeGraph(_)) => true,
                (Tabs::Viewport, TabMessage::Viewport(_)) => true,
                _ => false,
            },
    {
        match (self, message) {
            (Tabs::NodeGraph, TabMessage::NodeGraph(_)) => true,
            (Tabs::Viewport, TabMessage::Viewport(_)) => true,
            _ => false,
        }
    }
}

} // verus!

verus! {

impl From<NodeGraphMessage> for TabMessage {
    /// A message for a node graph tab.
    fn from(message: NodeGraphMessage) -> (r: Self) {
        TabMessage::NodeGraph(message)
    }
}

impl vstd::std_specs::convert::FromSpecImpl<NodeGraphMessage> for TabMessage {
    open spec fn obeys_from_spec() -> bool {
        true
    }

    open spec fn from_spec(v: NodeGraphMessage) -> TabMessage {
        TabMessage::NodeGraph(v)
    }
}

impl From<ViewportMessage> for TabMessage {
    /// A message for a viewport tab.
    fn from(message: ViewportMessage) -> (r: Self) {
        TabMessage::Viewport(message)
    }
}

impl vstd::std_specs::convert::FromSpecImpl<ViewportMessage> for TabMessage {
    open spec fn obeys_from_spec() -> bool {
        true
    }

    open spec fn from_spec(v: ViewportMessage) -> TabMessage {
        TabMessage::Viewport(v)
    }
}

} // verus!
