//! The mode indicator: it caches what the status bar shows and refreshes it
//! from the modal editing state whenever that state changes.
use vstd::prelude::*;
use vstd::string::StringExecFns;
use crate::state::{Mode, VimState, mode_name};
use crate::description::{description, current_operators_description};

verus! {

/// What the indicator has cached for display. `mode == None` means that
/// nothing is shown.
pub struct DisplayState {
    pub mode: Option<Mode>,
    pub operators: Seq<char>,
}

/// The cached display state after one update. With no modal state at hand
/// the cache is left as it was; with modal editing disabled the mode is
/// cleared and the operators text is left alone.
pub open spec fn updated(d: DisplayState, vim: Option<VimState>) -> DisplayState {
    match vim {
        None => d,
        Some(v) => if v.enabled {
            DisplayState { mode: Some(v.mode), operators: description(v) }
        } else {
            DisplayState { mode: None, operators: d.operators }
        },
    }
}

/// The text the status bar shows for a display state, if any:
/// `"{operators} -- {mode} --"`.
pub open spec fn rendered(d: DisplayState) -> Option<Seq<char>> {
    match d.mode {
        None => None,
        Some(m) => Some(d.operators + " -- "@ + mode_name(m) + " --"@),
    }
}

/// The snapshot behind an optional reference.
pub open spec fn snapshot(vim: Option<&VimState>) -> Option<VimState> {
    match vim {
        Some(v) => Some(*v),
        None => None,
    }
}

/// Displays the current mode and pending command in the status bar.
pub struct ModeIndicator {
    mode: Option<Mode>,
    operators: String,
}

impl View for ModeIndicator {
    type V = DisplayState;

    closed spec fn view(&self) -> DisplayState {
        DisplayState { mode: self.mode, operators: self.operators@ }
    }
}

impl ModeIndicator {
    /// A new indicator, brought up to date with `vim` at once; `vim` is
    /// `None` where no modal editing state exists.
    pub fn new(vim: Option<&VimState>) -> (r: ModeIndicator)
        ensures
            r@ == updated(DisplayState { mode: None, operators: Seq::empty() }, snapshot(vim)),
    {
        let mut this = ModeIndicator { mode: None, operators: String::new() };
        this.update_mode(vim);
        this
    }

    /// Refreshes the cache from the current modal editing state.
    pub fn update_mode(&mut self, vim: Option<&VimState>)
        ensures
            final(self)@ == updated(old(self)@, snapshot(vim)),
    {
        match vim {
            None => {},
            Some(v) => {
                if v.enabled {
                    self.mode = Some(v.mode);
                    self.operators = current_operators_description(v);
                } else {
                    self.mode = None;
                }
            },
        }
    }

    /// The cached mode; `None` when nothing is shown.
    pub fn mode(&self) -> (r: Option<Mode>)
        ensures
            r == self@.mode,
    {
        self.mode
    }

    /// The cached text of the pending command.
    pub fn operators(&self) -> (r: &str)
        ensures
            r@ == self@.operators,
    {
        self.operators.as_str()
    }

    /// The label for the status bar, or `None` when nothing is shown.
    pub fn render(&self) -> (r: Option<String>)
        ensures
            match r {
                Some(t) => rendered(self@) == Some(t@),
                None => rendered(self@) is None,
            },
    {
        match self.mode {
            None => None,
            Some(m) => {
                let mut t = self.operators.clone();
                t.append(" -- ");
                t.append(m.display_name());
                t.append(" --");
                Some(t)
            },
        }
    }

    /// Notice that the active pane item changed: the indicator ignores it.
    pub fn set_active_pane_item(&mut self)
        ensures
            final(self)@ == old(self)@,
    {
    }
}

/// With no counts, no register and no pending operator the pending command
/// is empty.
pub proof fn lemma_empty_description(s: VimState)
    requires
        s.pre_count is None,
        s.selected_register is None,
        s.operator_stack@.len() == 0,
        s.post_count is None,
    ensures
        description(s) == Seq::<char>::empty(),
{
    assert(description(s) =~= Seq::<char>::empty());
}

/// Updating twice from the same state leaves the cache as one update does.
pub proof fn lemma_update_idempotent(d: DisplayState, vim: Option<VimState>)
    ensures
        updated(updated(d, vim), vim) == updated(d, vim),
{
}

/// With modal editing disabled the mode is cleared and nothing is shown,
/// whatever the counts, register and operators hold.
pub proof fn lemma_disabled_shows_nothing(d: DisplayState, v: VimState)
    requires
        !v.enabled,
    ensures
        updated(d, Some(v)).mode is None,
        rendered(updated(d, Some(v))) is None,
{
}

/// Without a modal editing state an update leaves the cache unchanged.
pub proof fn lemma_absent_state_keeps_cache(d: DisplayState)
    ensures
        updated(d, None) == d,
{
}

} // verus!
