//! The disk panel: the registry of its instances' states, and the panel itself.

use crossterm::event::KeyEvent;
use crossterm::event::MouseEvent;
use std::collections::hash_map::Entry;
use std::collections::HashMap;
use tui::layout::Rect;
use vstd::prelude::*;
use vstd::std_specs::hash::*;

use crate::component::empty_rect;
use crate::component::Component;
use crate::component::EventResult;
use crate::component::Widget;
use crate::state::AppScrollWidgetState;
use crate::state::CanvasTableWidthState;

verus! {

broadcast use group_hash_axioms;

/// The interface state of one disk panel instance.
#[derive(Clone, Debug, PartialEq, Eq)]
pub struct DiskWidgetState {
    /// Where the instance's list is scrolled to, and what is selected in it.
    pub scroll_state: AppScrollWidgetState,
    /// The column widths that were last computed for the instance.
    pub table_width_state: CanvasTableWidthState,
}

impl DiskWidgetState {
    /// The state of an instance that the user has not touched yet.
    pub fn init() -> (state: Self)
        ensures
            state.scroll_state.is_initial(),
            state.table_width_state.is_initial(),
    {
        DiskWidgetState {
            scroll_state: AppScrollWidgetState::default(),
            table_width_state: CanvasTableWidthState::default(),
        }
    }
}

/// The states of all disk panel instances, by instance identifier.
pub struct DiskState {
    /// The state of each registered instance, under the instance's identifier.
    pub widget_states: HashMap<u64, DiskWidgetState>,
}

impl View for DiskState {
    type V = Map<u64, DiskWidgetState>;

    /// The registry as a map from each registered identifier to its state.
    open spec fn view(&self) -> Map<u64, DiskWidgetState> {
        self.widget_states@
    }
}

impl DiskState {
    /// The state registered under `widget_id`, if there is one.
    pub open spec fn state_of(&self, widget_id: u64) -> Option<DiskWidgetState> {
        if self@.contains_key(widget_id) {
            Some(self@[widget_id])
        } else {
            None
        }
    }

    /// A registry that holds exactly the given states.
    pub fn init(widget_states: HashMap<u64, DiskWidgetState>) -> (registry: Self)
        ensures
            registry.widget_states == widget_states,
    {
        DiskState { widget_states }
    }

    /// The state of instance `widget_id` for writing, or `None` if no such
    /// instance is registered. What the caller writes through the reference
    /// becomes that instance's state; every other entry stays as it is.
    pub fn get_mut_widget_state(&mut self, widget_id: u64) -> (found: Option<&mut DiskWidgetState>)
        ensures
            match found {
                Some(state) => {
                    &&& old(self).state_of(widget_id) == Some(*state)
                    &&& final(self)@ == old(self)@.insert(widget_id, *final(state))
                },
                None => {
                    &&& old(self).state_of(widget_id) is None
                    &&& final(self)@ == old(self)@
                },
            },
    {
        match self.widget_states.entry(widget_id) {
            Entry::Occupied(occupied) => Some(occupied.into_mut()),
            Entry::Vacant(_) => None,
        }
    }

    /// The state of instance `widget_id`, or `None` if no such instance is
    /// registered.
    pub fn get_widget_state(&self, widget_id: u64) -> (found: Option<&DiskWidgetState>)
        ensures
            match found {
                Some(state) => self.state_of(widget_id) == Some(*state),
                None => self.state_of(widget_id) is None,
            },
    {
        self.widget_states.get(&widget_id)
    }

    /// Writing the state of one instance changes what is registered under no
    /// other identifier: a state that was there stays as it was, and an
    /// identifier that had none still has none.
    pub proof fn lemma_write_touches_one_instance(
        before: DiskState,
        after: DiskState,
        written_id: u64,
        written: DiskWidgetState,
        other_id: u64,
    )
        requires
            written_id != other_id,
            after@ == before@.insert(written_id, written),
        ensures
            after.state_of(other_id) == before.state_of(other_id),
    {
    }

    /// Writing the state of a registered instance registers no new
    /// identifier and drops none.
    pub proof fn lemma_write_keeps_identifiers(
        before: DiskState,
        after: DiskState,
        written_id: u64,
        written: DiskWidgetState,
    )
        requires
            before@.contains_key(written_id),
            after@ == before@.insert(written_id, written),
        ensures
            after@.dom() == before@.dom(),
            after.state_of(written_id) == Some(written),
    {
        assert(after@.dom() =~= before@.dom());
    }
}

/// A table of disk data: a table primitive together with the place that the
/// layout gave it. The panel adds nothing of its own to what the primitive
/// does with an event.
pub struct DiskTable<T: Component> {
    table: T,
    bounds: Rect,
}

impl<T: Component> DiskTable<T> {
    /// The table primitive that this panel owns.
    pub closed spec fn table(&self) -> T {
        self.table
    }

    /// This panel with `new_bounds` as its rectangle and the same table
    /// primitive.
    pub closed spec fn with_bounds(&self, new_bounds: Rect) -> Self {
        DiskTable { table: self.table, bounds: new_bounds }
    }

    /// A panel around `table`, not yet placed on the screen.
    pub fn new(table: T) -> (panel: Self)
        ensures
            panel.table() == table,
            panel.spec_bounds() == empty_rect(),
    {
        Self { table, bounds: Rect::default() }
    }

    /// A panel reads back the rectangle that it was given, whatever it was
    /// given before.
    pub proof fn lemma_bounds_round_trip(&self, new_bounds: Rect)
        ensures
            self.with_bounds(new_bounds).spec_bounds() == new_bounds,
            self.with_bounds(new_bounds).table() == self.table(),
    {
    }
}

impl<T: Component> Component for DiskTable<T> {
    closed spec fn spec_bounds(&self) -> Rect {
        self.bounds
    }

    closed spec fn key_outcome(&self, event: KeyEvent) -> EventResult {
        self.table.key_outcome(event)
    }

    closed spec fn after_key(&self, event: KeyEvent) -> Self {
        DiskTable { table: self.table.after_key(event), bounds: self.bounds }
    }

    closed spec fn mouse_outcome(&self, event: MouseEvent) -> EventResult {
        self.table.mouse_outcome(event)
    }

    closed spec fn after_mouse(&self, event: MouseEvent) -> Self {
        DiskTable { table: self.table.after_mouse(event), bounds: self.bounds }
    }

    /// Hands the event to the table primitive and returns its answer.
    fn handle_key_event(&mut self, event: KeyEvent) -> (outcome: EventResult)
        ensures
            outcome == old(self).table().key_outcome(event),
            final(self).table() == old(self).table().after_key(event),
            final(self).spec_bounds() == old(self).spec_bounds(),
    {
        self.table.handle_key_event(event)
    }

    /// Hands the event to the table primitive and returns its answer.
    fn handle_mouse_event(&mut self, event: MouseEvent) -> (outcome: EventResult)
        ensures
            outcome == old(self).table().mouse_outcome(event),
            final(self).table() == old(self).table().after_mouse(event),
            final(self).spec_bounds() == old(self).spec_bounds(),
    {
        self.table.handle_mouse_event(event)
    }

    /// The rectangle that was set last, or the empty one if none was.
    fn bounds(&self) -> (rect: Rect) {
        self.bounds
    }

    /// Replaces the rectangle and leaves the table primitive alone.
    fn set_bounds(&mut self, new_bounds: Rect)
        ensures
            *final(self) == old(self).with_bounds(new_bounds),
            final(self).table() == old(self).table(),
    {
        self.bounds = new_bounds;
    }
}

impl<T: Component> Widget for DiskTable<T> {
}

} // verus!
