use std::collections::BTreeMap;

use vstd::prelude::*;

use crate::toolbar::{FileMessage, Toolbar};

verus! {

broadcast use {vstd::std_specs::btree::group_btree_axioms, vstd::laws_cmp::group_laws_cmp};

/// What the window manager reads and changes of a window: its title and
/// whether its style editor is shown.
#[derive(Debug)]
pub struct Window {
    pub title: String,
    pub style_editor_visible: bool,
}

impl Window {
    /// The title a window starts with.
    pub fn default_title() -> (r: &'static str)
        ensures
            r@ == "damascus"@,
    {
        "damascus"
    }

    /// A window with the default title and its style editor hidden.
    pub fn new() -> (r: Window)
        ensures
            r.title@ == "damascus"@,
            !r.style_editor_visible,
    {
        Window { title: Window::default_title().to_string(), style_editor_visible: false }
    }

    /// Shows the style editor.
    pub fn open_style_editor(&mut self)
        ensures
            final(self).style_editor_visible,
            final(self).title == old(self).title,
    {
        self.style_editor_visible = true;
    }

    /// Hides the style editor.
    pub fn close_style_editor(&mut self)
        ensures
            !final(self).style_editor_visible,
            final(self).title == old(self).title,
    {
        self.style_editor_visible = false;
    }
}

impl Default for Window {
    /// A window with the default title and its style editor hidden.
    fn default() -> (r: Self)
        ensures
            r.title@ == "damascus"@,
            !r.style_editor_visible,
    {
        Window::new()
    }
}

/// The windows after `id` opened with `window`.
pub open spec fn spec_opened(windows: Map<u64, Window>, id: u64, window: Window) -> Map<
    u64,
    Window,
> {
    windows.insert(id, window)
}

/// The main window after `id` opened: the first window opened stays the
/// main one.
pub open spec fn spec_main_after_opened(main: Option<u64>, id: u64) -> Option<u64> {
    match main {
        Some(m) => Some(m),
        None => Some(id),
    }
}

/// The windows after `id` closed.
pub open spec fn spec_closed(windows: Map<u64, Window>, id: u64) -> Map<u64, Window> {
    windows.remove(id)
}

/// Whether the application exits after `id` closed: when no window is
/// left, or when the main window closed.
pub open spec fn spec_exits_after_closed(main: Option<u64>, windows: Map<u64, Window>, id: u64) -> bool {
    spec_closed(windows, id).is_empty() || main == Some(id)
}

/// The focused window after `id` lost the focus.
pub open spec fn spec_focus_after_unfocused(focused: Option<u64>, id: u64) -> Option<u64> {
    if focused == Some(id) {
        None
    } else {
        focused
    }
}

/// The windows of the application, by id: the main one (the first that
/// opened), the one that has the focus, and the toolbar they share.
#[derive(Debug)]
pub struct WindowManager {
    pub toolbar: Toolbar,
    pub main_window_id: Option<u64>,
    pub focused_window_id: Option<u64>,
    pub windows: BTreeMap<u64, Window>,
}

impl Default for WindowManager {
    /// No window yet, and a toolbar that shows no dialog.
    fn default() -> (r: WindowManager)
        ensures
            r.toolbar.dialog is None,
            r.main_window_id is None,
            r.focused_window_id is None,
            r.windows@ == Map::<u64, Window>::empty(),
    {
        WindowManager {
            toolbar: Toolbar::default(),
            main_window_id: None,
            focused_window_id: None,
            windows: BTreeMap::new(),
        }
    }
}

impl WindowManager {
    /// Window `id` got the focus.
    pub fn focused(&mut self, id: u64)
        ensures
            final(self).focused_window_id == Some(id),
            final(self).main_window_id == old(self).main_window_id,
            final(self).windows@ == old(self).windows@,
    {
        self.focused_window_id = Some(id);
    }

    /// Window `id` lost the focus; another window's focus is kept.
    pub fn unfocused(&mut self, id: u64)
        ensures
            final(self).focused_window_id == spec_focus_after_unfocused(
                old(self).focused_window_id,
                id,
            ),
            final(self).main_window_id == old(self).main_window_id,
            final(self).windows@ == old(self).windows@,
    {
        match self.focused_window_id {
            Some(focused) => {
                if focused == id {
                    self.focused_window_id = None;
                }
            },
            None => {},
        }
    }

    /// Window `id` opened, showing `window`, or a new window when there is
    /// none; the first window to open becomes the main one.
    pub fn opened(&mut self, id: u64, window: Option<Window>)
        ensures
            final(self).main_window_id == spec_main_after_opened(old(self).main_window_id, id),
            final(self).focused_window_id == old(self).focused_window_id,
            final(self).windows@.contains_key(id),
            final(self).windows@ == spec_opened(old(self).windows@, id, final(self).windows@[id]),
            match window {
                Some(w) => final(self).windows@[id] == w,
                None => final(self).windows@[id].title@ == "damascus"@
                    && !final(self).windows@[id].style_editor_visible,
            },
    {
        if self.main_window_id.is_none() {
            self.main_window_id = Some(id);
        }
        let window = match window {
            Some(w) => w,
            None => Window::new(),
        };
        self.windows.insert(id, window);
    }

    /// Window `id` closed; the result says whether the application exits:
    /// when no window is left, or when the main window closed.
    pub fn closed(&mut self, id: u64) -> (exit: bool)
        ensures
            final(self).windows@ == spec_closed(old(self).windows@, id),
            exit == spec_exits_after_closed(old(self).main_window_id, old(self).windows@, id),
            final(self).main_window_id == old(self).main_window_id,
            final(self).focused_window_id == old(self).focused_window_id,
    {
        self.windows.remove(&id);
        if self.windows.is_empty() {
            true
        } else {
            match self.main_window_id {
                Some(main) => main == id,
                None => false,
            }
        }
    }

    /// The window a message for `window_id` is meant for: that window, or
    /// the focused one when the message names none; nothing when that
    /// window is not open.
    pub fn target_window(&self, window_id: Option<u64>) -> (r: Option<u64>)
        ensures
            r == (match (match window_id {
                Some(i) => Some(i),
                None => self.focused_window_id,
            }) {
                Some(i) => if self.windows@.contains_key(i) {
                    Some(i)
                } else {
                    None
                },
                None => None,
            }),
    {
        let target = match window_id {
            Some(i) => Some(i),
            None => self.focused_window_id,
        };
        match target {
            Some(i) => {
                if self.windows.contains_key(&i) {
                    Some(i)
                } else {
                    None
                }
            },
            None => None,
        }
    }
}

proof fn lemma_increasing_keys(keys: Seq<&u64>)
    requires
        vstd::std_specs::btree::increasing_seq(keys),
    ensures
        forall|i: int, j: int| 0 <= i < j < keys.len() ==> *keys[i] < *keys[j],
{
    assert forall|i: int, j: int| 0 <= i < j < keys.len() implies *keys[i] < *keys[j] by {
        assert(vstd::std_specs::cmp::OrdSpec::cmp_spec(&keys[i], &keys[j]) is Less);
    }
}

impl WindowManager {
    /// The ids of the open windows, in increasing order.
    pub fn window_ids(&self) -> (r: Vec<u64>)
        ensures
            r@.to_set() == self.windows@.dom(),
            r@.no_duplicates(),
            forall|i: int, j: int| 0 <= i < j < r@.len() ==> r@[i] < r@[j],
    {
        let mut ids: Vec<u64> = Vec::new();
        for id in it: self.windows.keys()
            invariant
                ids@ == it.seq().take(it.index() as int).map_values(|k: &u64| *k),
        {
            ids.push(*id);
            assert(it.seq().take(it.index() + 1).map_values(|k: &u64| *k) =~= ids@);
        }
        proof {
            let keys = vstd::std_specs::iter::IteratorSpec::remaining(
                &vstd::std_specs::btree::spec_keys_iter(&self.windows),
            );
            assert(ids@ =~= keys.unref());
            lemma_increasing_keys(keys);
        }
        ids
    }
}

/// Every window shows its style editor when `visible` holds, and hides it
/// otherwise; titles are kept.
pub open spec fn spec_style_editors_set(
    before: Map<u64, Window>,
    after: Map<u64, Window>,
    visible: bool,
) -> bool {
    &&& after.dom() == before.dom()
    &&& forall|k: u64| #[trigger]
        after.contains_key(k) ==> after[k].style_editor_visible == visible && after[k].title
            == before[k].title
}

/// Every window carries the title `title`; style editors are kept.
pub open spec fn spec_titles_set(before: Map<u64, Window>, after: Map<u64, Window>, title: Seq<char>) -> bool {
    &&& after.dom() == before.dom()
    &&& forall|k: u64| #[trigger]
        after.contains_key(k) ==> after[k].title@ == title && after[k].style_editor_visible
            == before[k].style_editor_visible
}

proof fn lemma_take_next_contains(s: Seq<u64>, j: int, k: u64)
    requires
        0 <= j < s.len(),
    ensures
        s.take(j + 1).contains(k) <==> (s.take(j).contains(k) || k == s[j]),
{
    let nxt = s.take(j + 1);
    let cur = s.take(j);
    if nxt.contains(k) && k != s[j] {
        let a = choose|a: int| 0 <= a < nxt.len() && nxt[a] == k;
        assert(cur[a] == k);
    }
    if cur.contains(k) {
        let a = choose|a: int| 0 <= a < cur.len() && cur[a] == k;
        assert(nxt[a] == k);
    }
    if k == s[j] {
        assert(nxt[j] == k);
    }
}

impl WindowManager {
    fn set_style_editors(&mut self, visible: bool)
        ensures
            spec_style_editors_set(old(self).windows@, final(self).windows@, visible),
            final(self).main_window_id == old(self).main_window_id,
            final(self).focused_window_id == old(self).focused_window_id,
    {
        let ids = self.window_ids();
        let ghost before = self.windows@;
        let ghost main = self.main_window_id;
        let ghost focused = self.focused_window_id;
        let mut j: usize = 0;
        while j < ids.len()
            invariant
                j <= ids@.len(),
                ids@.to_set() == before.dom(),
                ids@.no_duplicates(),
                self.windows@.dom() == before.dom(),
                self.main_window_id == main,
                self.focused_window_id == focused,
                forall|k: u64| #[trigger]
                    self.windows@.contains_key(k) ==> if ids@.take(j as int).contains(k) {
                        self.windows@[k].style_editor_visible == visible
                            && self.windows@[k].title == before[k].title
                    } else {
                        self.windows@[k] == before[k]
                    },
            decreases ids@.len() - j,
        {
            let id = ids[j];
            assert(ids@.take(j + 1) =~= ids@.take(j as int).push(id));
            assert(!ids@.take(j as int).contains(id)) by {
                if ids@.take(j as int).contains(id) {
                    let i = choose|i: int| 0 <= i < j && ids@.take(j as int)[i] == id;
                    assert(ids@[i] == ids@[j as int]);
                }
            }
            assert(ids@[j as int] == id);
            assert(ids@.to_set().contains(id));
            let removed = self.windows.remove(&id);
            if let Some(mut w) = removed {
                w.style_editor_visible = visible;
                self.windows.insert(id, w);
            }
            assert forall|k: u64| #[trigger]
                self.windows@.contains_key(k) implies if ids@.take(j + 1).contains(k) {
                    self.windows@[k].style_editor_visible == visible
                        && self.windows@[k].title == before[k].title
                } else {
                    self.windows@[k] == before[k]
                } by {
                lemma_take_next_contains(ids@, j as int, k);
            }
            j = j + 1;
        }
        proof {
            assert(ids@.take(ids@.len() as int) =~= ids@);
        }
    }

    /// Shows the style editor of every window.
    pub fn open_style_editors(&mut self)
        ensures
            spec_style_editors_set(old(self).windows@, final(self).windows@, true),
            final(self).main_window_id == old(self).main_window_id,
            final(self).focused_window_id == old(self).focused_window_id,
    {
        self.set_style_editors(true);
    }

    /// Hides the style editor of every window.
    pub fn close_style_editors(&mut self)
        ensures
            spec_style_editors_set(old(self).windows@, final(self).windows@, false),
            final(self).main_window_id == old(self).main_window_id,
            final(self).focused_window_id == old(self).focused_window_id,
    {
        self.set_style_editors(false);
    }

    /// Gives every window the title `title`.
    pub fn update_titles(&mut self, title: &str)
        ensures
            spec_titles_set(old(self).windows@, final(self).windows@, title@),
            final(self).main_window_id == old(self).main_window_id,
            final(self).focused_window_id == old(self).focused_window_id,
    {
        let ids = self.window_ids();
        let ghost before = self.windows@;
        let ghost main = self.main_window_id;
        let ghost focused = self.focused_window_id;
        let mut j: usize = 0;
        while j < ids.len()
            invariant
                j <= ids@.len(),
                ids@.to_set() == before.dom(),
                ids@.no_duplicates(),
                self.windows@.dom() == before.dom(),
                self.main_window_id == main,
                self.focused_window_id == focused,
                forall|k: u64| #[trigger]
                    self.windows@.contains_key(k) ==> if ids@.take(j as int).contains(k) {
                        self.windows@[k].title@ == title@
                            && self.windows@[k].style_editor_visible
                            == before[k].style_editor_visible
                    } else {
                        self.windows@[k] == before[k]
                    },
            decreases ids@.len() - j,
        {
            let id = ids[j];
            assert(ids@.take(j + 1) =~= ids@.take(j as int).push(id));
            assert(!ids@.take(j as int).contains(id)) by {
                if ids@.take(j as int).contains(id) {
                    let i = choose|i: int| 0 <= i < j && ids@.take(j as int)[i] == id;
                    assert(ids@[i] == ids@[j as int]);
                }
            }
            assert(ids@[j as int] == id);
            assert(ids@.to_set().contains(id));
            let removed = self.windows.remove(&id);
            if let Some(mut w) = removed {
                w.title = title.to_string();
                self.windows.insert(id, w);
            }
            assert forall|k: u64| #[trigger]
                self.windows@.contains_key(k) implies if ids@.take(j + 1).contains(k) {
                    self.windows@[k].title@ == title@
                        && self.windows@[k].style_editor_visible == before[k].style_editor_visible
                } else {
                    self.windows@[k] == before[k]
                } by {
                lemma_take_next_contains(ids@, j as int, k);
            }
            j = j + 1;
        }
        proof {
            assert(ids@.take(ids@.len() as int) =~= ids@);
        }
    }

    /// The windows to close before restoring saved ones: every open window
    /// but the main one, in increasing order of id.
    pub fn windows_to_close_for_restore(&self) -> (r: Vec<u64>)
        ensures
            forall|k: u64|
                r@.contains(k) <==> self.windows@.contains_key(k) && Some(k)
                    != self.main_window_id,
            forall|i: int, j: int| 0 <= i < j < r@.len() ==> r@[i] < r@[j],
    {
        let ids = self.window_ids();
        let mut r: Vec<u64> = Vec::new();
        let mut j: usize = 0;
        while j < ids.len()
            invariant
                j <= ids@.len(),
                ids@.to_set() == self.windows@.dom(),
                forall|a: int, b: int| 0 <= a < b < ids@.len() ==> ids@[a] < ids@[b],
                forall|k: u64|
                    r@.contains(k) <==> ids@.take(j as int).contains(k) && Some(k)
                        != self.main_window_id,
                forall|a: int, b: int| 0 <= a < b < r@.len() ==> r@[a] < r@[b],
            decreases ids@.len() - j,
        {
            let id = ids[j];
            let ghost prev = r@;
            let ghost cur = ids@.take(j as int);
            let ghost nxt = ids@.take(j + 1);
            assert(nxt =~= cur.push(id));
            assert(!cur.contains(id)) by {
                if cur.contains(id) {
                    let i = choose|i: int| 0 <= i < cur.len() && cur[i] == id;
                    assert(ids@[i] < ids@[j as int]);
                }
            }
            let keep = match self.main_window_id {
                Some(main) => main != id,
                None => true,
            };
            if keep {
                r.push(id);
                assert forall|a: int, b: int| 0 <= a < b < r@.len() implies r@[a] < r@[b] by {
                    if b == r@.len() - 1 {
                        assert(prev.contains(r@[a])) by {
                            assert(prev[a] == r@[a]);
                        }
                        let i = choose|i: int| 0 <= i < j && cur[i] == r@[a];
                        assert(ids@[i] < ids@[j as int]);
                    }
                }
            }
            assert forall|k: u64|
                #![trigger r@.contains(k)]
                #![trigger nxt.contains(k)]
                r@.contains(k) <==> nxt.contains(k) && Some(k) != self.main_window_id by {
                lemma_take_next_contains(ids@, j as int, k);
                if keep {
                    if r@.contains(k) && k != id {
                        let a = choose|a: int| 0 <= a < r@.len() && r@[a] == k;
                        assert(prev[a] == k);
                    }
                    if prev.contains(k) {
                        let a = choose|a: int| 0 <= a < prev.len() && prev[a] == k;
                        assert(r@[a] == k);
                    }
                    assert(r@[r@.len() - 1] == id);
                }
            }
            j = j + 1;
        }
        proof {
            assert(ids@.take(ids@.len() as int) =~= ids@);
            assert forall|k: u64| ids@.contains(k) <==> self.windows@.contains_key(k) by {
                assert(ids@.to_set().contains(k) == ids@.contains(k));
            }
        }
        r
    }
}

} // verus!

verus! {

/// Opening a window that was not open and closing it again leaves the
/// other windows as they were.
pub proof fn lemma_open_then_close_restores(windows: Map<u64, Window>, id: u64, window: Window)
    requires
        !windows.contains_key(id),
    ensures
        spec_closed(spec_opened(windows, id, window), id) == windows,
{
    assert(spec_closed(spec_opened(windows, id, window), id) =~= windows);
}

/// The first window to open stays the main one, whatever opens later.
pub proof fn lemma_main_window_is_kept(main: u64, id: u64)
    ensures
        spec_main_after_opened(Some(main), id) == Some(main),
        spec_main_after_opened(None, id) == Some(id),
{
}

/// Closing the main window exits the application; closing another window
/// while some other window stays open does not.
pub proof fn lemma_exit_on_close(main: Option<u64>, windows: Map<u64, Window>, id: u64, other: u64)
    requires
        windows.contains_key(other),
        other != id,
    ensures
        spec_exits_after_closed(main, windows, id) == (main == Some(id)),
{
    assert(spec_closed(windows, id).contains_key(other));
}

/// Closing the last window exits the application.
pub proof fn lemma_exit_on_last_close(main: Option<u64>, windows: Map<u64, Window>, id: u64)
    requires
        windows.dom() =~= set![id],
    ensures
        spec_exits_after_closed(main, windows, id),
{
    assert(spec_closed(windows, id).dom() =~= Set::<u64>::empty());
}

/// A window that loses the focus clears it only when it had it.
pub proof fn lemma_unfocus_keeps_other_focus(focused: u64, id: u64)
    ensures
        spec_focus_after_unfocused(Some(focused), id) == (if focused == id {
            None
        } else {
            Some(focused)
        }),
        spec_focus_after_unfocused(None, id) == None::<u64>,
{
}

} // verus!

verus! {

impl Window {
    /// A copy of the window.
    pub fn duplicate(&self) -> (r: Window)
        ensures
            r == *self,
    {
        Window { title: self.title.clone(), style_editor_visible: self.style_editor_visible }
    }
}

/// The state of the windows that is saved with a file.
#[derive(Debug)]
pub struct WindowManagerContext {
    pub windows: Vec<Window>,
}

/// `ids` lists the ids of `windows`, each once, in increasing order.
pub open spec fn spec_is_id_order(ids: Seq<u64>, windows: Map<u64, Window>) -> bool {
    &&& ids.to_set() == windows.dom()
    &&& forall|i: int, j: int| 0 <= i < j < ids.len() ==> ids[i] < ids[j]
}

/// `saved` holds the windows of `windows`, in increasing order of id.
pub open spec fn spec_records(windows: Map<u64, Window>, saved: Seq<Window>) -> bool {
    exists|ids: Seq<u64>|
        #![trigger spec_is_id_order(ids, windows)]
        spec_is_id_order(ids, windows) && saved == ids.map_values(|k: u64| windows[k])
}

/// Whether restoring `saved` puts its first window into the main window:
/// there is a main window, it is open, and something was saved.
pub open spec fn spec_restores_into_main(
    main: Option<u64>,
    windows: Map<u64, Window>,
    saved: Seq<Window>,
) -> bool {
    match main {
        Some(m) => windows.contains_key(m) && saved.len() > 0,
        None => false,
    }
}

/// What restoring saved windows asks of the application: the windows to
/// close, and the windows to open, in order.
#[derive(Debug)]
pub struct RestorePlan {
    pub close: Vec<u64>,
    pub open: Vec<Window>,
}

fn duplicate_windows(saved: &Vec<Window>, start: usize) -> (r: Vec<Window>)
    requires
        start <= saved@.len(),
    ensures
        r@ == saved@.subrange(start as int, saved@.len() as int),
{
    let mut r: Vec<Window> = Vec::new();
    let mut i: usize = start;
    while i < saved.len()
        invariant
            start <= i <= saved@.len(),
            r@ == saved@.subrange(start as int, i as int),
        decreases saved@.len() - i,
    {
        r.push(saved[i].duplicate());
        assert(saved@.subrange(start as int, i + 1) =~= saved@.subrange(start as int, i as int).push(
            saved@[i as int],
        ));
        i = i + 1;
    }
    r
}

impl WindowManager {
    /// The state of the windows to save: a copy of every open window, in
    /// increasing order of id.
    pub fn context(&self) -> (r: WindowManagerContext)
        ensures
            spec_records(self.windows@, r.windows@),
    {
        let ids = self.window_ids();
        let mut saved: Vec<Window> = Vec::new();
        let mut j: usize = 0;
        while j < ids.len()
            invariant
                j <= ids@.len(),
                ids@.to_set() == self.windows@.dom(),
                saved@ == ids@.take(j as int).map_values(|k: u64| self.windows@[k]),
            decreases ids@.len() - j,
        {
            let id = ids[j];
            assert(ids@.to_set().contains(id));
            match self.windows.get(&id) {
                Some(w) => {
                    saved.push(w.duplicate());
                },
                None => {},
            }
            assert(ids@.take(j + 1).map_values(|k: u64| self.windows@[k]) =~= ids@.take(
                j as int,
            ).map_values(|k: u64| self.windows@[k]).push(self.windows@[id]));
            j = j + 1;
        }
        proof {
            assert(ids@.take(ids@.len() as int) =~= ids@);
            assert(spec_is_id_order(ids@, self.windows@));
        }
        WindowManagerContext { windows: saved }
    }

    /// The state to record for a file message: the windows' state on Save
    /// and Save As, nothing on Load.
    pub fn record_for(&self, message: FileMessage) -> (r: Option<WindowManagerContext>)
        ensures
            match message {
                FileMessage::Load => r is None,
                _ => r is Some && spec_records(self.windows@, r->0.windows@),
            },
    {
        match message {
            FileMessage::Load => None,
            _ => Some(self.context()),
        }
    }

    /// Restores saved windows: the first one goes into the main window when
    /// that is open; every other open window is to close, and the rest of
    /// the saved windows are to open, in order.
    pub fn restore_windows(&mut self, saved: &Vec<Window>) -> (r: RestorePlan)
        ensures
            final(self).main_window_id == old(self).main_window_id,
            final(self).focused_window_id == old(self).focused_window_id,
            spec_restores_into_main(old(self).main_window_id, old(self).windows@, saved@) ==> {
                &&& final(self).windows@ == old(self).windows@.insert(
                    old(self).main_window_id->0,
                    saved@[0],
                )
                &&& r.open@ == saved@.drop_first()
            },
            !spec_restores_into_main(old(self).main_window_id, old(self).windows@, saved@) ==> {
                &&& final(self).windows@ == old(self).windows@
                &&& r.open@ == saved@
            },
            forall|k: u64|
                r.close@.contains(k) <==> old(self).windows@.contains_key(k) && Some(k)
                    != old(self).main_window_id,
            forall|i: int, j: int| 0 <= i < j < r.close@.len() ==> r.close@[i] < r.close@[j],
    {
        let mut start: usize = 0;
        if let Some(main) = self.main_window_id {
            if self.windows.contains_key(&main) && saved.len() > 0 {
                self.windows.insert(main, saved[0].duplicate());
                start = 1;
            }
        }
        let open = duplicate_windows(saved, start);
        proof {
            assert(saved@.subrange(0, saved@.len() as int) =~= saved@);
            assert(saved@.subrange(1, saved@.len() as int) =~= saved@.drop_first());
        }
        let close = self.windows_to_close_for_restore();
        RestorePlan { close, open }
    }
}

} // verus!

verus! {

/// With only the main window open, restoring what was just saved puts the
/// main window back as it was and opens nothing more.
pub proof fn lemma_restore_after_save_main_only(windows: Map<u64, Window>, main: u64, saved: Seq<Window>)
    requires
        windows.dom() == set![main],
        spec_records(windows, saved),
    ensures
        spec_restores_into_main(Some(main), windows, saved),
        windows.insert(main, saved[0]) == windows,
        saved.drop_first().len() == 0,
{
    let ids = choose|ids: Seq<u64>|
        #![trigger spec_is_id_order(ids, windows)]
        spec_is_id_order(ids, windows) && saved == ids.map_values(|k: u64| windows[k]);
    assert(ids.to_set().contains(main));
    let i = choose|i: int| 0 <= i < ids.len() && ids[i] == main;
    assert(ids.to_set().contains(ids[0]));
    if ids.len() > 1 {
        assert(ids.to_set().contains(ids[1]));
        assert(ids[0] < ids[1]);
    }
    assert(ids[0] == main);
    assert(windows.insert(main, saved[0]) =~= windows);
}

} // verus!
