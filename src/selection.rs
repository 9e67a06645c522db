use vstd::prelude::*;

use crate::extent::{
    extract_scale_and_transform, resolved_extent, resolved_transform, MeshLookup,
};

verus! {

/// The single active selection of the editor.
///
/// `entity_id`, `transform` and `scale` are only meaningful while
/// `has_selection` holds; a deselection keeps them as they were. `T` is the
/// host's transform and `E` its 3-vector of half extents.
pub struct ActiveSelection<T, E> {
    pub entity_id: u32,
    pub transform: T,
    pub scale: E,
    pub has_selection: bool,
}

/// A transition of the active selection.
#[derive(Clone, Copy)]
pub enum Transition<T, E> {
    Select { entity_id: u32, transform: T, scale: E },
    Deselect,
}

/// Marker for the host plugin that owns the active selection: it creates
/// the state, routes the selection events into it and draws the highlight.
pub struct ActiveSelectionPlugin;

/// The state after selecting `entity_id` with the given snapshot.
pub open spec fn selected<T, E>(
    s: ActiveSelection<T, E>,
    entity_id: u32,
    transform: T,
    scale: E,
) -> ActiveSelection<T, E> {
    ActiveSelection { entity_id, transform, scale, has_selection: true }
}

/// The state after a deselection: only the flag changes.
pub open spec fn deselected<T, E>(s: ActiveSelection<T, E>) -> ActiveSelection<T, E> {
    ActiveSelection { has_selection: false, ..s }
}

pub open spec fn after_transition<T, E>(
    s: ActiveSelection<T, E>,
    t: Transition<T, E>,
) -> ActiveSelection<T, E> {
    match t {
        Transition::Select { entity_id, transform, scale } => selected(
            s,
            entity_id,
            transform,
            scale,
        ),
        Transition::Deselect => deselected(s),
    }
}

/// The state after applying `ts` in order.
pub open spec fn after_transitions<T, E>(
    s: ActiveSelection<T, E>,
    ts: Seq<Transition<T, E>>,
) -> ActiveSelection<T, E>
    decreases ts.len(),
{
    if ts.len() == 0 {
        s
    } else {
        after_transition(after_transitions(s, ts.drop_last()), ts.last())
    }
}

impl<T, E> ActiveSelection<T, E> {
    /// The state at start-up: nothing selected. `transform` and `scale` are
    /// placeholders that no consumer reads while nothing is selected.
    pub fn new(transform: T, scale: E) -> (r: Self)
        ensures
            !r.has_selection,
            r.entity_id == 0,
            r.transform == transform,
            r.scale == scale,
    {
        ActiveSelection { entity_id: 0, transform, scale, has_selection: false }
    }

    /// Selects `entity_id`, snapshotting its transform and extent. Selecting
    /// the selected object again refreshes the snapshot.
    pub fn select(&mut self, entity_id: u32, transform: T, scale: E)
        ensures
            *final(self) == selected(*old(self), entity_id, transform, scale),
    {
        self.has_selection = true;
        self.entity_id = entity_id;
        self.transform = transform;
        self.scale = scale;
    }

    /// Clears the selection flag; the last id and snapshot stay as they were.
    pub fn deselect(&mut self)
        ensures
            *final(self) == deselected(*old(self)),
    {
        self.has_selection = false;
    }

    /// Whether `entity_id` is the selected object.
    pub fn is_selected(&self, entity_id: u32) -> (r: bool)
        ensures
            r == (self.has_selection && self.entity_id == entity_id),
    {
        self.has_selection && self.entity_id == entity_id
    }

    /// Selects `entity_id` from its scene data: the snapshot is what the
    /// bounding extent resolver gives for `transform` and `mesh`.
    pub fn change_selection(
        &mut self,
        entity_id: u32,
        transform: Option<T>,
        mesh: MeshLookup<E>,
        identity: T,
        default_extent: E,
    )
        ensures
            *final(self) == selected(
                *old(self),
                entity_id,
                resolved_transform(transform, identity),
                resolved_extent(mesh, default_extent),
            ),
    {
        let (scale, transform) = extract_scale_and_transform(
            transform,
            mesh,
            identity,
            default_extent,
        );
        self.select(entity_id, transform, scale);
    }

    /// Applies one transition.
    pub fn apply(&mut self, t: Transition<T, E>)
        ensures
            *final(self) == after_transition(*old(self), t),
    {
        match t {
            Transition::Select { entity_id, transform, scale } => {
                self.select(entity_id, transform, scale);
            },
            Transition::Deselect => {
                self.deselect();
            },
        }
    }
}

impl<T: Copy, E: Copy> ActiveSelection<T, E> {
    /// What the highlight renderer and the inspector draw: the snapshot of
    /// the selected object, or nothing while nothing is selected.
    pub fn highlight(&self) -> (r: Option<(T, E)>)
        ensures
            r == (if self.has_selection {
                Some((self.transform, self.scale))
            } else {
                None
            }),
    {
        if self.has_selection {
            Some((self.transform, self.scale))
        } else {
            None
        }
    }

    /// Applies the transitions of `ts` in order.
    pub fn apply_all(&mut self, ts: &Vec<Transition<T, E>>)
        ensures
            *final(self) == after_transitions(*old(self), ts@),
    {
        let mut i: usize = 0;
        while i < ts.len()
            invariant
                i <= ts@.len(),
                *self == after_transitions(*old(self), ts@.take(i as int)),
            decreases ts@.len() - i,
        {
            let t = ts[i];
            self.apply(t);
            assert(ts@.take(i + 1).drop_last() =~= ts@.take(i as int));
            i = i + 1;
        }
        assert(ts@.take(i as int) =~= ts@);
    }
}

/// After any non-empty sequence of transitions, the selection flag is set
/// exactly when the last transition is a selection.
pub proof fn lemma_flag_follows_last_transition<T, E>(
    s: ActiveSelection<T, E>,
    ts: Seq<Transition<T, E>>,
)
    requires
        ts.len() > 0,
    ensures
        after_transitions(s, ts).has_selection == (ts.last() is Select),
        ts.last() is Select ==> after_transitions(s, ts).entity_id
            == ts.last()->Select_entity_id,
{
}

/// Scene data of a picked object, as the scene collaborator resolved it.
#[derive(Clone, Copy)]
pub struct PickTarget<T, E> {
    pub transform: Option<T>,
    pub mesh: MeshLookup<E>,
}

/// A pick event of this frame. `scene` is `None` when the target no longer
/// resolves in the scene (it vanished after the event was queued).
#[derive(Clone, Copy)]
pub struct PickEvent<T, E> {
    pub target: u32,
    pub scene: Option<PickTarget<T, E>>,
}

/// The pointer state of this frame, and how many explicit deselection events
/// it brought.
pub struct SelectionFrame {
    pub pointer_over_ui: bool,
    pub primary_pressed: bool,
    pub deselect_events: usize,
}

/// The state after one pick event: a resolvable target is selected, an
/// unresolvable one changes nothing.
pub open spec fn after_pick<T, E>(
    s: ActiveSelection<T, E>,
    p: PickEvent<T, E>,
    identity: T,
    default_extent: E,
) -> ActiveSelection<T, E> {
    match p.scene {
        Some(target) => selected(
            s,
            p.target,
            resolved_transform(target.transform, identity),
            resolved_extent(target.mesh, default_extent),
        ),
        None => s,
    }
}

/// The state after the pick events `ps`, in stream order.
pub open spec fn after_picks<T, E>(
    s: ActiveSelection<T, E>,
    ps: Seq<PickEvent<T, E>>,
    identity: T,
    default_extent: E,
) -> ActiveSelection<T, E>
    decreases ps.len(),
{
    if ps.len() == 0 {
        s
    } else {
        after_pick(
            after_picks(s, ps.drop_last(), identity, default_extent),
            ps.last(),
            identity,
            default_extent,
        )
    }
}

/// The router's policy for one frame. Over a UI surface nothing changes.
/// Otherwise a frame without picks deselects when the primary button is
/// held, the picks are applied in order, and any explicit deselection event
/// deselects last.
pub open spec fn routed<T, E>(
    s: ActiveSelection<T, E>,
    frame: SelectionFrame,
    picks: Seq<PickEvent<T, E>>,
    identity: T,
    default_extent: E,
) -> ActiveSelection<T, E> {
    if frame.pointer_over_ui {
        s
    } else {
        let picked = if picks.len() == 0 {
            if frame.primary_pressed {
                deselected(s)
            } else {
                s
            }
        } else {
            after_picks(s, picks, identity, default_extent)
        };
        if frame.deselect_events > 0 {
            deselected(picked)
        } else {
            picked
        }
    }
}

/// Selection event router: applies one frame's pointer state, pick events
/// and deselection events to the active selection.
pub fn try_to_select_target<T: Copy, E: Copy>(
    selection: &mut ActiveSelection<T, E>,
    frame: &SelectionFrame,
    picks: &Vec<PickEvent<T, E>>,
    identity: T,
    default_extent: E,
)
    ensures
        *final(selection) == routed(*old(selection), *frame, picks@, identity, default_extent),
        frame.pointer_over_ui ==> *final(selection) == *old(selection),
{
    if frame.pointer_over_ui {
        return;
    }
    if picks.len() == 0 {
        if frame.primary_pressed {
            selection.deselect();
        }
    } else {
        let mut i: usize = 0;
        while i < picks.len()
            invariant
                i <= picks@.len(),
                *selection == after_picks(
                    *old(selection),
                    picks@.take(i as int),
                    identity,
                    default_extent,
                ),
            decreases picks@.len() - i,
        {
            let p = picks[i];
            match p.scene {
                Some(target) => {
                    selection.change_selection(
                        p.target,
                        target.transform,
                        target.mesh,
                        identity,
                        default_extent,
                    );
                },
                None => {},
            }
            assert(picks@.take(i + 1).drop_last() =~= picks@.take(i as int));
            i = i + 1;
        }
        assert(picks@.take(i as int) =~= picks@);
    }
    if frame.deselect_events > 0 {
        selection.deselect();
    }
}

/// When several picks arrive in one frame away from the UI and without an
/// explicit deselection, the last one wins if its target resolves.
pub proof fn lemma_last_pick_wins<T, E>(
    s: ActiveSelection<T, E>,
    frame: SelectionFrame,
    picks: Seq<PickEvent<T, E>>,
    identity: T,
    default_extent: E,
)
    requires
        !frame.pointer_over_ui,
        frame.deselect_events == 0,
        picks.len() > 0,
        picks.last().scene is Some,
    ensures
        routed(s, frame, picks, identity, default_extent).has_selection,
        routed(s, frame, picks, identity, default_extent).entity_id == picks.last().target,
{
}

} // verus!
