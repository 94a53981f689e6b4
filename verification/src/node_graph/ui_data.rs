use vstd::prelude::*;

verus! {

/// Display data shared by every node input: an optional tooltip and whether
/// the input is hidden from the node's user interface.
#[derive(Clone, Debug)]
pub struct UIData {
    tooltip: Option<String>,
    hidden: bool,
}

impl UIData {
    pub closed spec fn spec_tooltip(&self) -> Option<Seq<char>> {
        match self.tooltip {
            Some(t) => Some(t@),
            None => None,
        }
    }

    pub closed spec fn spec_hidden(&self) -> bool {
        self.hidden
    }

    /// The default data: no tooltip, visible.
    pub fn new() -> (r: Self)
        ensures
            r.spec_tooltip() is None,
            !r.spec_hidden(),
    {
        UIData { tooltip: None, hidden: false }
    }

    /// Sets the tooltip; an empty text clears it.
    pub fn with_tooltip(self, tooltip: &str) -> (r: Self)
        ensures
            r.spec_tooltip() == (if tooltip@.len() == 0 { None } else { Some(tooltip@) }),
            r.spec_hidden() == self.spec_hidden(),
    {
        let mut s = self;
        s.tooltip = if tooltip.is_empty() {
            None
        } else {
            Some(tooltip.to_string())
        };
        s
    }

    /// Hides the input.
    pub fn make_hidden(&mut self)
        ensures
            final(self).spec_hidden(),
            final(self).spec_tooltip() == old(self).spec_tooltip(),
    {
        self.hidden = true;
    }

    /// Shows the input.
    pub fn show(&mut self)
        ensures
            !final(self).spec_hidden(),
            final(self).spec_tooltip() == old(self).spec_tooltip(),
    {
        self.hidden = false;
    }

    /// Marks the input as hidden from the start.
    pub fn with_hidden(self) -> (r: Self)
        ensures
            r.spec_hidden(),
            r.spec_tooltip() == self.spec_tooltip(),
    {
        let mut s = self;
        s.hidden = true;
        s
    }

    /// The tooltip, if there is one.
    pub fn tooltip(&self) -> (r: &Option<String>)
        ensures
            match r {
                Some(t) => self.spec_tooltip() == Some(t@),
                None => self.spec_tooltip() is None,
            },
    {
        &self.tooltip
    }

    /// Whether the input is hidden.
    pub fn hidden(&self) -> (r: &bool)
        ensures
            *r == self.spec_hidden(),
    {
        &self.hidden
    }
}

impl Default for UIData {
    /// No tooltip, visible.
    fn default() -> (r: Self)
        ensures
            r.spec_tooltip() is None,
            !r.spec_hidden(),
    {
        UIData::new()
    }
}

} // verus!
