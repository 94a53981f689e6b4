use vstd::prelude::*;
use vstd::std_specs::cmp::PartialEqSpec;

verus! {

/// The status of a tab label under the mouse.
#[derive(Clone, Copy, Debug, PartialEq, Eq, Structural)]
pub enum Status {
    /// can be pressed.
    Active,
    /// can be pressed and it is being hovered.
    Hovered,
    /// is being pressed.
    Pressed,
    /// cannot be pressed.
    Disabled,
    /// is focused.
    Focused,
    /// is Selected.
    Selected,
}

/// Where the icon of a tab label stands relative to its text.
#[derive(Clone, Copy, Debug, PartialEq, Eq, Structural)]
pub enum Position {
    /// Icon is placed above of the text.
    Top,
    /// Icon is placed right of the text.
    Right,
    /// Icon is placed below of the text.
    Bottom,
    /// Icon is placed left of the text, the default.
    Left,
}

impl Default for Position {
    /// The default position: left of the text.
    fn default() -> (r: Position)
        ensures
            r == Position::Left,
    {
        Position::Left
    }
}

/// A tab label: an icon, a text, or both.
#[derive(Clone, Debug)]
pub enum TabLabel {
    /// A label showing only an icon on the tab.
    Icon(char),
    /// A label showing only a text on the tab.
    Text(String),
    /// A label showing an icon and a text on the tab.
    IconText(char, String),
}

/// What a press on the tab bar asks for: to select a tab, or to close it.
#[derive(Clone, Copy, Debug, PartialEq, Eq, Structural)]
pub enum TabBarEvent {
    Select(usize),
    Close(usize),
}

/// The index of the first id in `ids` equal to `id`, or 0 when none is.
pub open spec fn spec_position_or_zero<TabId: PartialEq>(ids: Seq<TabId>, id: TabId) -> int {
    if exists|i: int| 0 <= i < ids.len() && #[trigger] ids[i].eq_spec(&id) {
        choose|i: int|
            0 <= i < ids.len() && #[trigger] ids[i].eq_spec(&id) && forall|j: int|
                0 <= j < i ==> !ids[j].eq_spec(&id)
    } else {
        0
    }
}

/// The index of the first id in `ids` equal to `id`.
pub fn first_position<TabId: PartialEq>(ids: &Vec<TabId>, id: &TabId) -> (r: Option<usize>)
    ensures
        r matches Some(i) ==> i < ids@.len(),
        TabId::obeys_eq_spec() ==> match r {
            Some(i) => ids@[i as int].eq_spec(id) && forall|j: int|
                0 <= j < i ==> !(#[trigger] ids@[j]).eq_spec(id),
            None => forall|j: int| 0 <= j < ids@.len() ==> !(#[trigger] ids@[j]).eq_spec(id),
        },
{
    let mut i: usize = 0;
    while i < ids.len()
        invariant
            i <= ids@.len(),
            TabId::obeys_eq_spec() ==> forall|j: int|
                0 <= j < i ==> !(#[trigger] ids@[j]).eq_spec(id),
        decreases ids@.len() - i,
    {
        if ids[i] == *id {
            return Some(i);
        }
        i = i + 1;
    }
    None
}

/// The status a tab shows: hovered under the mouse, else active when it is
/// the active tab, else disabled.
pub open spec fn spec_current_status(hovered: bool, i: int, active_tab: int) -> Status {
    if hovered {
        Status::Hovered
    } else if i == active_tab {
        Status::Active
    } else {
        Status::Disabled
    }
}

/// A stored status asks for a redraw when it was set and differs from the
/// current one, or when the close icon's hover changed.
pub open spec fn spec_status_outdated(
    stored: (Option<Status>, Option<bool>),
    current: Status,
    cross: Option<bool>,
) -> bool {
    (stored.0 is Some && stored.0 != Some(current)) || stored.1 != cross
}

/// The event of a press: on the first tab hit, a close when close icons
/// are enabled and that tab's icon was hit, a selection otherwise.
pub open spec fn spec_press(close_enabled: bool, tabs_hit: Seq<bool>, close_hit: Seq<bool>) -> Option<
    TabBarEvent,
> {
    if exists|i: int| 0 <= i < tabs_hit.len() && #[trigger] tabs_hit[i] {
        let i = choose|i: int|
            0 <= i < tabs_hit.len() && #[trigger] tabs_hit[i] && forall|j: int|
                0 <= j < i ==> !tabs_hit[j];
        if close_enabled && close_hit[i] {
            Some(TabBarEvent::Close(i as usize))
        } else {
            Some(TabBarEvent::Select(i as usize))
        }
    } else {
        None
    }
}

proof fn lemma_first_hit(tabs_hit: Seq<bool>, i: int)
    requires
        0 <= i < tabs_hit.len(),
        tabs_hit[i],
        forall|j: int| 0 <= j < i ==> !tabs_hit[j],
    ensures
        (choose|c: int|
            0 <= c < tabs_hit.len() && #[trigger] tabs_hit[c] && forall|j: int|
                0 <= j < c ==> !tabs_hit[j]) == i,
{
    let c = choose|c: int|
        0 <= c < tabs_hit.len() && #[trigger] tabs_hit[c] && forall|j: int|
            0 <= j < c ==> !tabs_hit[j];
    assert(tabs_hit[i]);
    if c < i {
        assert(!tabs_hit[c]);
    } else if c > i {
        assert(!tabs_hit[i]);
    }
}

/// A bar of tabs: the labels and ids of the tabs, their statuses under the
/// mouse, and the index of the active tab.
pub struct TabBar<TabId> {
    /// The index of the currently active tab.
    active_tab: usize,
    /// The labels of the tabs.
    tab_labels: Vec<TabLabel>,
    /// The ids of the tabs.
    tab_indices: Vec<TabId>,
    /// The statuses of the tab labels and of their close icons.
    tab_statuses: Vec<(Option<Status>, Option<bool>)>,
    /// Whether the tabs carry a close icon.
    close_enabled: bool,
    /// Where the icon stands relative to the text.
    position: Position,
}

impl<TabId: PartialEq> TabBar<TabId> {
    /// The bar holds one label, one id and one status per tab.
    pub closed spec fn wf(&self) -> bool {
        &&& self.tab_labels@.len() == self.tab_indices@.len()
        &&& self.tab_statuses@.len() == self.tab_indices@.len()
    }

    /// A well-formed bar holds as many labels and statuses as ids.
    pub proof fn lemma_wf_lengths(&self)
        requires
            self.wf(),
        ensures
            self.spec_labels().len() == self.spec_ids().len(),
            self.spec_statuses().len() == self.spec_ids().len(),
    {
    }

    pub closed spec fn spec_active_tab(&self) -> int {
        self.active_tab as int
    }

    pub closed spec fn spec_ids(&self) -> Seq<TabId> {
        self.tab_indices@
    }

    pub closed spec fn spec_labels(&self) -> Seq<TabLabel> {
        self.tab_labels@
    }

    pub closed spec fn spec_statuses(&self) -> Seq<(Option<Status>, Option<bool>)> {
        self.tab_statuses@
    }

    pub closed spec fn spec_close_enabled(&self) -> bool {
        self.close_enabled
    }

    pub closed spec fn spec_position(&self) -> Position {
        self.position
    }

    /// An empty bar: no tabs, the first tab active, no close icons.
    pub fn new() -> (r: Self)
        ensures
            r.wf(),
            r.spec_active_tab() == 0,
            r.spec_ids().len() == 0,
            r.spec_labels().len() == 0,
            r.spec_statuses().len() == 0,
            !r.spec_close_enabled(),
            r.spec_position() == Position::Left,
    {
        Self::with_tab_labels(Vec::new())
    }

    /// A bar with the given tabs, the first one active.
    pub fn with_tab_labels(tab_labels: Vec<(TabId, TabLabel)>) -> (r: Self)
        ensures
            r.wf(),
            r.spec_active_tab() == 0,
            r.spec_ids() == tab_labels@.map_values(|p: (TabId, TabLabel)| p.0),
            r.spec_labels() == tab_labels@.map_values(|p: (TabId, TabLabel)| p.1),
            forall|i: int| 0 <= i < r.spec_statuses().len() ==> #[trigger] r.spec_statuses()[i] == (
            None::<Status>, None::<bool>),
            !r.spec_close_enabled(),
            r.spec_position() == Position::Left,
    {
        let ghost pairs = tab_labels@;
        let mut rest = tab_labels;
        let mut ids: Vec<TabId> = Vec::new();
        let mut labels: Vec<TabLabel> = Vec::new();
        let mut statuses: Vec<(Option<Status>, Option<bool>)> = Vec::new();
        while rest.len() > 0
            invariant
                ids@.len() + rest@.len() == pairs.len(),
                labels@.len() == ids@.len(),
                statuses@.len() == ids@.len(),
                rest@ == pairs.subrange(ids@.len() as int, pairs.len() as int),
                ids@ == pairs.subrange(0, ids@.len() as int).map_values(|p: (TabId, TabLabel)| p.0),
                labels@ == pairs.subrange(0, ids@.len() as int).map_values(
                    |p: (TabId, TabLabel)| p.1,
                ),
                forall|i: int| 0 <= i < statuses@.len() ==> #[trigger] statuses@[i] == (
                None::<Status>, None::<bool>),
            decreases rest@.len(),
        {
            let ghost n = ids@.len() as int;
            let (id, label) = rest.remove(0);
            ids.push(id);
            labels.push(label);
            statuses.push((None, None));
            assert(pairs.subrange(0, n + 1) =~= pairs.subrange(0, n).push(pairs[n]));
            assert(rest@ =~= pairs.subrange(n + 1, pairs.len() as int));
        }
        assert(pairs.subrange(0, pairs.len() as int) =~= pairs);
        TabBar {
            active_tab: 0,
            tab_labels: labels,
            tab_indices: ids,
            tab_statuses: statuses,
            close_enabled: false,
            position: Position::Left,
        }
    }

    /// Adds a tab at the end of the bar.
    pub fn push(self, id: TabId, tab_label: TabLabel) -> (r: Self)
        requires
            self.wf(),
        ensures
            r.wf(),
            r.spec_ids() == self.spec_ids().push(id),
            r.spec_labels() == self.spec_labels().push(tab_label),
            r.spec_statuses() == self.spec_statuses().push((None::<Status>, None::<bool>)),
            r.spec_active_tab() == self.spec_active_tab(),
            r.spec_close_enabled() == self.spec_close_enabled(),
            r.spec_position() == self.spec_position(),
    {
        let mut s = self;
        s.tab_labels.push(tab_label);
        s.tab_indices.push(id);
        s.tab_statuses.push((None, None));
        s
    }

    /// The number of tabs.
    pub fn size(&self) -> (r: usize)
        ensures
            r == self.spec_ids().len(),
    {
        self.tab_indices.len()
    }

    /// The index of the active tab.
    pub fn get_active_tab_idx(&self) -> (r: usize)
        ensures
            r == self.spec_active_tab(),
    {
        self.active_tab
    }

    /// The id of the active tab, if the active index names a tab.
    pub fn get_active_tab_id(&self) -> (r: Option<&TabId>)
        ensures
            match r {
                Some(id) => 0 <= self.spec_active_tab() < self.spec_ids().len() && *id
                    == self.spec_ids()[self.spec_active_tab()],
                None => self.spec_active_tab() >= self.spec_ids().len(),
            },
    {
        if self.active_tab < self.tab_indices.len() {
            Some(&self.tab_indices[self.active_tab])
        } else {
            None
        }
    }

    /// The ids of the tabs.
    pub fn tab_indices(&self) -> (r: &Vec<TabId>)
        ensures
            r@ == self.spec_ids(),
    {
        &self.tab_indices
    }

    /// The labels of the tabs.
    pub fn tab_labels(&self) -> (r: &Vec<TabLabel>)
        ensures
            r@ == self.spec_labels(),
    {
        &self.tab_labels
    }

    /// Makes the first tab with the id `active_tab` the active one, or the
    /// first tab when no tab has that id.
    pub fn set_active_tab(self, active_tab: &TabId) -> (r: Self)
        requires
            self.wf(),
        ensures
            r.wf(),
            r.spec_ids() == self.spec_ids(),
            r.spec_labels() == self.spec_labels(),
            r.spec_statuses() == self.spec_statuses(),
            r.spec_close_enabled() == self.spec_close_enabled(),
            r.spec_position() == self.spec_position(),
            TabId::obeys_eq_spec() ==> r.spec_active_tab() == spec_position_or_zero(
                self.spec_ids(),
                *active_tab,
            ),
            r.spec_active_tab() == 0 || r.spec_active_tab() < self.spec_ids().len(),
    {
        let mut s = self;
        let found = first_position(&s.tab_indices, active_tab);
        let ghost ids = s.tab_indices@;
        s.active_tab = match found {
            Some(i) => i,
            None => 0,
        };
        proof {
            if TabId::obeys_eq_spec() {
                if let Some(i) = found {
                    lemma_selected_id_is_first_match(ids, *active_tab, i as int);
                }
            }
        }
        s
    }

    /// Gives the tabs a close icon.
    pub fn on_close(self) -> (r: Self)
        requires
            self.wf(),
        ensures
            r.wf(),
            r.spec_close_enabled(),
            r.spec_ids() == self.spec_ids(),
            r.spec_labels() == self.spec_labels(),
            r.spec_statuses() == self.spec_statuses(),
            r.spec_active_tab() == self.spec_active_tab(),
            r.spec_position() == self.spec_position(),
    {
        let mut s = self;
        s.close_enabled = true;
        s
    }

    /// Whether the tabs carry a close icon.
    pub fn close_enabled(&self) -> (r: bool)
        ensures
            r == self.spec_close_enabled(),
    {
        self.close_enabled
    }

    /// Sets where the icon of a label stands relative to its text.
    pub fn set_position(self, position: Position) -> (r: Self)
        requires
            self.wf(),
        ensures
            r.wf(),
            r.spec_position() == position,
            r.spec_ids() == self.spec_ids(),
            r.spec_labels() == self.spec_labels(),
            r.spec_statuses() == self.spec_statuses(),
            r.spec_active_tab() == self.spec_active_tab(),
            r.spec_close_enabled() == self.spec_close_enabled(),
    {
        let mut s = self;
        s.position = position;
        s
    }

    /// Where the icon of a label stands relative to its text.
    pub fn position(&self) -> (r: Position)
        ensures
            r == self.spec_position(),
    {
        self.position
    }

    /// The statuses of the tab labels and of their close icons.
    pub fn tab_statuses(&self) -> (r: &Vec<(Option<Status>, Option<bool>)>)
        ensures
            r@ == self.spec_statuses(),
    {
        &self.tab_statuses
    }

    /// What a press on the bar asks for, given for each tab whether the
    /// press fell on it and whether it fell on its close icon: the first tab
    /// hit is closed when it carries a close icon and the icon was hit, and
    /// selected otherwise; nothing happens when no tab was hit.
    pub fn press(&self, tabs_hit: &Vec<bool>, close_hit: &Vec<bool>) -> (r: Option<TabBarEvent>)
        requires
            self.wf(),
            tabs_hit@.len() == self.spec_ids().len(),
            close_hit@.len() == self.spec_ids().len(),
        ensures
            r == spec_press(self.spec_close_enabled(), tabs_hit@, close_hit@),
    {
        let mut i: usize = 0;
        while i < tabs_hit.len()
            invariant
                i <= tabs_hit@.len(),
                close_hit@.len() == tabs_hit@.len(),
                forall|j: int| 0 <= j < i ==> !tabs_hit@[j],
            decreases tabs_hit@.len() - i,
        {
            if tabs_hit[i] {
                proof {
                    lemma_first_hit(tabs_hit@, i as int);
                }
                if self.close_enabled && close_hit[i] {
                    return Some(TabBarEvent::Close(i));
                } else {
                    return Some(TabBarEvent::Select(i));
                }
            }
            i = i + 1;
        }
        None
    }

    /// Refreshes the statuses of the tabs, given for each tab whether the
    /// mouse is over it and whether it is over its close icon (when the
    /// tab has one). A redraw stores the new statuses and asks for nothing;
    /// any other event keeps them and asks for a redraw when one of them is
    /// out of date.
    pub fn update_statuses(
        &mut self,
        hovered: &Vec<bool>,
        cross_hovered: &Vec<Option<bool>>,
        redraw_requested: bool,
    ) -> (request_redraw: bool)
        requires
            old(self).wf(),
            hovered@.len() == old(self).spec_ids().len(),
            cross_hovered@.len() == old(self).spec_ids().len(),
        ensures
            final(self).wf(),
            final(self).spec_ids() == old(self).spec_ids(),
            final(self).spec_labels() == old(self).spec_labels(),
            final(self).spec_active_tab() == old(self).spec_active_tab(),
            final(self).spec_close_enabled() == old(self).spec_close_enabled(),
            final(self).spec_position() == old(self).spec_position(),
            redraw_requested ==> {
                &&& !request_redraw
                &&& final(self).spec_statuses().len() == old(self).spec_statuses().len()
                &&& forall|i: int|
                    0 <= i < hovered@.len() ==> #[trigger] final(self).spec_statuses()[i] == (
                    Some(spec_current_status(hovered@[i], i, old(self).spec_active_tab())),
                    cross_hovered@[i],
                )
            },
            !redraw_requested ==> {
                &&& final(self).spec_statuses() == old(self).spec_statuses()
                &&& request_redraw == exists|i: int|
                    0 <= i < hovered@.len() && #[trigger] spec_status_outdated(
                        old(self).spec_statuses()[i],
                        spec_current_status(hovered@[i], i, old(self).spec_active_tab()),
                        cross_hovered@[i],
                    )
            },
    {
        let ghost old_statuses = self.tab_statuses@;
        let ghost old_ids = self.tab_indices@;
        let ghost old_labels = self.tab_labels@;
        let ghost old_active = self.active_tab;
        let ghost old_close = self.close_enabled;
        let ghost old_position = self.position;
        let mut request_redraw = false;
        let mut i: usize = 0;
        let n = hovered.len();
        while i < n
            invariant
                n == hovered@.len(),
                n == cross_hovered@.len(),
                n == self.tab_indices@.len(),
                i <= n,
                self.wf(),
                self.tab_indices@ == old_ids,
                self.tab_labels@ == old_labels,
                self.active_tab == old_active,
                self.close_enabled == old_close,
                self.position == old_position,
                self.tab_statuses@.len() == old_statuses.len(),
                forall|j: int|
                    i <= j < n ==> #[trigger] self.tab_statuses@[j] == old_statuses[j],
                redraw_requested ==> !request_redraw,
                redraw_requested ==> forall|j: int|
                    0 <= j < i ==> #[trigger] self.tab_statuses@[j] == (
                    Some(spec_current_status(hovered@[j], j, old_active as int)),
                    cross_hovered@[j],
                ),
                !redraw_requested ==> self.tab_statuses@ == old_statuses,
                !redraw_requested ==> request_redraw == exists|j: int|
                    0 <= j < i && #[trigger] spec_status_outdated(
                        old_statuses[j],
                        spec_current_status(hovered@[j], j, old_active as int),
                        cross_hovered@[j],
                    ),
            decreases n - i,
        {
            let current = if hovered[i] {
                Status::Hovered
            } else if i == self.active_tab {
                Status::Active
            } else {
                Status::Disabled
            };
            let cross = cross_hovered[i];
            if redraw_requested {
                self.tab_statuses.set(i, (Some(current), cross));
            } else {
                let status = self.tab_statuses[i];
                let outdated = match status.0 {
                    Some(s) => s != current,
                    None => false,
                } || status.1 != cross;
                assert(outdated == spec_status_outdated(
                    old_statuses[i as int],
                    spec_current_status(hovered@[i as int], i as int, self.active_tab as int),
                    cross_hovered@[i as int],
                ));
                if outdated {
                    request_redraw = true;
                }
            }
            i = i + 1;
        }
        assert(old_statuses == old(self).spec_statuses());
        assert(old_active as int == old(self).spec_active_tab());
        request_redraw
    }
}

} // verus!

verus! {

/// Statuses stored by a redraw are current: the same hover, seen again
/// before anything else changed, asks for no further redraw.
pub proof fn lemma_redrawn_statuses_are_current(
    statuses: Seq<(Option<Status>, Option<bool>)>,
    hovered: Seq<bool>,
    cross_hovered: Seq<Option<bool>>,
    active_tab: int,
)
    requires
        statuses.len() == hovered.len(),
        cross_hovered.len() == hovered.len(),
        forall|i: int|
            0 <= i < hovered.len() ==> #[trigger] statuses[i] == (
            Some(spec_current_status(hovered[i], i, active_tab)),
            cross_hovered[i],
        ),
    ensures
        !exists|i: int|
            0 <= i < hovered.len() && #[trigger] spec_status_outdated(
                statuses[i],
                spec_current_status(hovered[i], i, active_tab),
                cross_hovered[i],
            ),
{
    assert forall|i: int| 0 <= i < hovered.len() implies !#[trigger] spec_status_outdated(
        statuses[i],
        spec_current_status(hovered[i], i, active_tab),
        cross_hovered[i],
    ) by {
        assert(statuses[i] == (
            Some(spec_current_status(hovered[i], i, active_tab)),
            cross_hovered[i],
        ));
    }
}

/// Selecting an id that some tab carries makes the first such tab the
/// active one.
pub proof fn lemma_selected_id_is_first_match<TabId: PartialEq>(ids: Seq<TabId>, id: TabId, i: int)
    requires
        0 <= i < ids.len(),
        ids[i].eq_spec(&id),
        forall|j: int| 0 <= j < i ==> !ids[j].eq_spec(&id),
    ensures
        spec_position_or_zero(ids, id) == i,
{
    let c = choose|c: int|
        0 <= c < ids.len() && #[trigger] ids[c].eq_spec(&id) && forall|j: int|
            0 <= j < c ==> !ids[j].eq_spec(&id);
    assert(ids[i].eq_spec(&id));
    if c < i {
        assert(!ids[c].eq_spec(&id));
    } else if c > i {
        assert(!ids[i].eq_spec(&id));
    }
}

} // verus!

verus! {

impl From<char> for TabLabel {
    /// A label showing only the icon.
    fn from(value: char) -> (r: Self) {
        TabLabel::Icon(value)
    }
}

impl vstd::std_specs::convert::FromSpecImpl<char> for TabLabel {
    open spec fn obeys_from_spec() -> bool {
        true
    }

    open spec fn from_spec(v: char) -> TabLabel {
        TabLabel::Icon(v)
    }
}

impl From<String> for TabLabel {
    /// A label showing only the text.
    fn from(value: String) -> (r: Self) {
        TabLabel::Text(value)
    }
}

impl vstd::std_specs::convert::FromSpecImpl<String> for TabLabel {
    open spec fn obeys_from_spec() -> bool {
        true
    }

    open spec fn from_spec(v: String) -> TabLabel {
        TabLabel::Text(v)
    }
}

impl From<(char, String)> for TabLabel {
    /// A label showing the icon and the text.
    fn from(value: (char, String)) -> (r: Self) {
        TabLabel::IconText(value.0, value.1)
    }
}

impl vstd::std_specs::convert::FromSpecImpl<(char, String)> for TabLabel {
    open spec fn obeys_from_spec() -> bool {
        true
    }

    open spec fn from_spec(v: (char, String)) -> TabLabel {
        TabLabel::IconText(v.0, v.1)
    }
}

} // verus!
