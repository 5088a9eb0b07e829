//! The control panel and mouse handling of the sandbox as a state machine:
//! each input event moves the controls to their next state and says what
//! the simulation must do.

use vstd::prelude::*;

verus! {

/// The state of the control panel and of the mouse interaction.
#[derive(Clone, Copy, Debug)]
pub struct SimControls {
    pub paused: bool,
    pub collisions_enabled: bool,
    pub gravity_enabled: bool,
    pub show_orbitals: bool,
    /// The template the spawn tool places, if the spawn tool is active.
    pub selected_template: Option<usize>,
    /// The atom being dragged, by its index among the active atoms.
    pub dragged_atom: Option<usize>,
    /// How many templates the panel offers.
    pub template_count: usize,
}

/// What a click in the simulation area asks for.
#[derive(Clone, Copy, Debug, PartialEq, Eq, Structural)]
pub enum ClickAction {
    /// Start dragging the atom under the cursor.
    StartDrag(usize),
    /// Spawn an atom from this template at the cursor.
    Spawn(usize),
    /// Nothing happens.
    Nothing,
}

/// What the element-card area of the panel shows.
#[derive(Clone, Copy, Debug, PartialEq, Eq, Structural)]
pub enum InfoPanel {
    /// The card of this atom.
    Card(usize),
    /// The usage hints.
    Instructions,
    /// Nothing.
    Blank,
}

impl SimControls {
    /// A selected template is always one that the panel offers.
    pub open spec fn wf(self) -> bool {
        self.selected_template matches Some(t) ==> t < self.template_count
    }

    pub open spec fn with_paused(self, paused: bool) -> SimControls {
        SimControls { paused, ..self }
    }

    pub open spec fn with_selection(self, selected: Option<usize>) -> SimControls {
        SimControls { selected_template: selected, ..self }
    }

    pub open spec fn with_drag(self, dragged: Option<usize>) -> SimControls {
        SimControls { dragged_atom: dragged, ..self }
    }

    /// The selection after pressing the button of template `idx`: it
    /// toggles that template.
    pub open spec fn spec_press_template(self, idx: usize) -> SimControls {
        if self.selected_template == Some(idx) {
            self.with_selection(None)
        } else {
            self.with_selection(Some(idx))
        }
    }

    /// The state after a click in the simulation area with `hovered` under
    /// the cursor, and the action it asks for.
    pub open spec fn spec_click(self, hovered: Option<usize>) -> (SimControls, ClickAction) {
        match hovered {
            Some(i) => (self.with_drag(Some(i)), ClickAction::StartDrag(i)),
            None => match self.selected_template {
                Some(t) => (self, ClickAction::Spawn(t)),
                None => (self, ClickAction::Nothing),
            },
        }
    }

    /// The controls at start-up: running, collisions on, attraction off,
    /// orbits shown, the select tool active and nothing dragged.
    pub fn new(template_count: usize) -> (c: SimControls)
        ensures
            c.wf(),
            c == (SimControls {
                paused: false,
                collisions_enabled: true,
                gravity_enabled: false,
                show_orbitals: true,
                selected_template: None,
                dragged_atom: None,
                template_count,
            }),
    {
        SimControls {
            paused: false,
            collisions_enabled: true,
            gravity_enabled: false,
            show_orbitals: true,
            selected_template: None,
            dragged_atom: None,
            template_count,
        }
    }

    /// Pauses or resumes the simulation (space bar or the pause toggle).
    pub fn toggle_pause(&mut self)
        requires
            old(self).wf(),
        ensures
            final(self).wf(),
            *final(self) == old(self).with_paused(!old(self).paused),
    {
        self.paused = !self.paused;
    }

    /// Switches collisions on or off.
    pub fn toggle_collisions(&mut self)
        requires
            old(self).wf(),
        ensures
            final(self).wf(),
            *final(self) == (SimControls { collisions_enabled: !old(self).collisions_enabled, ..*old(self) }),
    {
        self.collisions_enabled = !self.collisions_enabled;
    }

    /// Switches mutual attraction on or off.
    pub fn toggle_gravity(&mut self)
        requires
            old(self).wf(),
        ensures
            final(self).wf(),
            *final(self) == (SimControls { gravity_enabled: !old(self).gravity_enabled, ..*old(self) }),
    {
        self.gravity_enabled = !self.gravity_enabled;
    }

    /// Shows or hides the electron orbits.
    pub fn toggle_orbitals(&mut self)
        requires
            old(self).wf(),
        ensures
            final(self).wf(),
            *final(self) == (SimControls { show_orbitals: !old(self).show_orbitals, ..*old(self) }),
    {
        self.show_orbitals = !self.show_orbitals;
    }

    /// Presses the spawn button of template `idx`: selects it, or deselects
    /// it when it was already selected.
    pub fn press_template(&mut self, idx: usize)
        requires
            old(self).wf(),
            idx < old(self).template_count,
        ensures
            final(self).wf(),
            *final(self) == old(self).spec_press_template(idx),
    {
        if self.selected_template == Some(idx) {
            self.selected_template = None;
        } else {
            self.selected_template = Some(idx);
        }
    }

    /// Presses the select tool button: no template is selected any more.
    pub fn select_drag_tool(&mut self)
        requires
            old(self).wf(),
        ensures
            final(self).wf(),
            *final(self) == old(self).with_selection(None),
    {
        self.selected_template = None;
    }

    /// Whether the select tool is the active tool.
    pub fn drag_tool_active(&self) -> (b: bool)
        ensures
            b == (self.selected_template is None),
    {
        self.selected_template.is_none()
    }

    /// A left click in the simulation area: an atom under the cursor starts
    /// being dragged; otherwise the selected template, if any, is spawned.
    pub fn click_in_simulation(&mut self, hovered: Option<usize>) -> (action: ClickAction)
        requires
            old(self).wf(),
        ensures
            final(self).wf(),
            (*final(self), action) == old(self).spec_click(hovered),
            action matches ClickAction::Spawn(t) ==> t < old(self).template_count,
    {
        match hovered {
            Some(i) => {
                self.dragged_atom = Some(i);
                ClickAction::StartDrag(i)
            },
            None => match self.selected_template {
                Some(t) => ClickAction::Spawn(t),
                None => ClickAction::Nothing,
            },
        }
    }

    /// Releasing the left button ends any drag.
    pub fn release_mouse(&mut self)
        requires
            old(self).wf(),
        ensures
            final(self).wf(),
            *final(self) == old(self).with_drag(None),
    {
        self.dragged_atom = None;
    }

    /// Whether atom `idx` moves under the physics this frame: every atom
    /// but the dragged one.
    pub fn integrates(&self, idx: usize) -> (b: bool)
        ensures
            b == (self.dragged_atom != Some(idx)),
    {
        match self.dragged_atom {
            Some(d) => d != idx,
            None => true,
        }
    }

    /// The dragged atom, if it still exists among `atom_count` atoms.
    pub fn drag_target(&self, atom_count: usize) -> (t: Option<usize>)
        ensures
            t == (match self.dragged_atom {
                Some(d) => if d < atom_count { Some(d) } else { None },
                None => None,
            }),
    {
        match self.dragged_atom {
            Some(d) => if d < atom_count {
                Some(d)
            } else {
                None
            },
            None => None,
        }
    }

    /// What the element-card area shows: the hovered atom's card, else the
    /// dragged atom's card, else the hints. An index that no longer names
    /// one of the `atom_count` atoms shows nothing.
    pub fn info_panel(&self, hovered: Option<usize>, atom_count: usize) -> (p: InfoPanel)
        ensures
            p == (match hovered {
                Some(h) => if h < atom_count { InfoPanel::Card(h) } else { InfoPanel::Blank },
                None => match self.dragged_atom {
                    Some(d) => if d < atom_count { InfoPanel::Card(d) } else { InfoPanel::Blank },
                    None => InfoPanel::Instructions,
                },
            }),
            p matches InfoPanel::Card(i) ==> i < atom_count,
    {
        match hovered {
            Some(h) => if h < atom_count {
                InfoPanel::Card(h)
            } else {
                InfoPanel::Blank
            },
            None => match self.dragged_atom {
                Some(d) => if d < atom_count {
                    InfoPanel::Card(d)
                } else {
                    InfoPanel::Blank
                },
                None => InfoPanel::Instructions,
            },
        }
    }

    /// The caption of the pause toggle: `Reprendre` while paused, else `Pause`.
    pub fn pause_label(&self) -> (s: &'static str)
        ensures
            s@ == if self.paused { "Reprendre"@ } else { "Pause"@ },
    {
        if self.paused {
            "Reprendre"
        } else {
            "Pause"
        }
    }
}

/// The templates spawned at start-up and on reset: the first, the second
/// and the sixth, as far as there are that many.
pub open spec fn spec_initial_spawn(template_count: nat) -> Seq<usize> {
    if template_count == 0 {
        seq![]
    } else if template_count == 1 {
        seq![0usize]
    } else if template_count <= 5 {
        seq![0usize, 1usize]
    } else {
        seq![0usize, 1usize, 5usize]
    }
}

/// Lists the templates to spawn at start-up and on reset.
pub fn initial_spawn_indices(template_count: usize) -> (v: Vec<usize>)
    ensures
        v@ == spec_initial_spawn(template_count as nat),
        forall|i: int| 0 <= i < v@.len() ==> #[trigger] v@[i] < template_count,
        forall|t: usize| #[trigger] v@.contains(t) <==> ((t == 0 || t == 1 || t == 5) && t < template_count),
        forall|a: int, b: int| 0 <= a < b < v@.len() ==> v@[a] < v@[b],
{
    let mut v: Vec<usize> = Vec::new();
    if template_count > 0 {
        v.push(0);
    }
    if template_count > 1 {
        v.push(1);
    }
    if template_count > 5 {
        v.push(5);
    }
    proof {
        assert(v@ =~= spec_initial_spawn(template_count as nat));
        lemma_initial_spawn_set(template_count);
    }
    v
}

/// The cell of template `idx` in the two-column grid of spawn buttons, as
/// (column, row).
pub fn template_grid_cell(idx: usize) -> (cell: (usize, usize))
    ensures
        cell == (idx % 2, idx / 2),
{
    (idx % 2, idx / 2)
}

/// Pausing twice resumes: the pause toggle undoes itself.
pub proof fn lemma_pause_toggle_involutive(c: SimControls)
    ensures
        c.with_paused(!c.paused).with_paused(!c.with_paused(!c.paused).paused) == c,
{
}

/// Pressing the same template button twice restores the selection when
/// that template or none was selected; from any other selection it ends
/// with nothing selected.
pub proof fn lemma_template_press_twice(c: SimControls, idx: usize)
    ensures
        (c.selected_template == Some(idx) || c.selected_template is None)
            ==> c.spec_press_template(idx).spec_press_template(idx) == c,
        (c.selected_template is Some && c.selected_template != Some(idx))
            ==> c.spec_press_template(idx).spec_press_template(idx) == c.with_selection(None),
{
}

/// A click that starts a drag never spawns, and a click over empty space
/// never changes the controls.
pub proof fn lemma_click_effects(c: SimControls, hovered: Option<usize>)
    ensures
        hovered is Some ==> c.spec_click(hovered).1 == ClickAction::StartDrag(hovered->0)
            && c.spec_click(hovered).0.dragged_atom == hovered,
        hovered is None ==> c.spec_click(hovered).0 == c,
{
}


/// The atoms spawned at start-up and on reset are those of templates 0, 1
/// and 5 that exist, each once, in that order: template 0 whenever there is
/// a template, template 1 whenever there are more than one, template 5
/// exactly when there are more than five, and no other template.
pub proof fn lemma_initial_spawn_set(template_count: usize)
    ensures
        forall|t: usize|
            #[trigger] spec_initial_spawn(template_count as nat).contains(t) <==> ((t == 0 || t == 1
                || t == 5) && t < template_count),
        forall|a: int, b: int|
            0 <= a < b < spec_initial_spawn(template_count as nat).len() ==> spec_initial_spawn(
                template_count as nat,
            )[a] < spec_initial_spawn(template_count as nat)[b],
{
    let s = spec_initial_spawn(template_count as nat);
    assert forall|t: usize| #[trigger] s.contains(t) <==> ((t == 0 || t == 1 || t == 5) && t
        < template_count) by {
        if (t == 0 || t == 1 || t == 5) && t < template_count {
            let k: int = if t == 0 { 0 } else if t == 1 { 1 } else { 2 };
            assert(s[k] == t);
        }
    }
}

} // verus!
