use crate::geometry::Scalar;
use crate::integrity::lemma_step_valid;
use crate::mode::{CanvasMode, ModeView, Tool};
use crate::object::{EntityRef, SelectedItem};
use crate::store::{EntityStore, GraphView};
use vstd::prelude::*;

verus! {

/// The length every new bisector is drawn with: 150 units, as the bits of a double.
pub const DEFAULT_BISECTOR_LENGTH_BITS: u64 = 0x4062_C000_0000_0000;

/// The distance every new point along a line starts with: 50 units, as the
/// bits of a double.
pub const DEFAULT_ALONG_LINE_DISTANCE_BITS: u64 = 0x4049_0000_0000_0000;

/// The length every new bisector is drawn with.
pub open spec fn default_bisector_length() -> Scalar {
    Scalar { bits: DEFAULT_BISECTOR_LENGTH_BITS }
}

/// The distance every new point along a line starts with.
pub open spec fn default_along_line_distance() -> Scalar {
    Scalar { bits: DEFAULT_ALONG_LINE_DISTANCE_BITS }
}

/// What an event asks of, or tells, the caller.
#[derive(Debug, Clone, Copy, PartialEq, Eq, Structural)]
pub enum Outcome {
    /// No entity was made and nothing is asked.
    Done,
    /// The entity `id` was made.
    Created { id: u32 },
    /// An arc about `center` waits for its measure: the caller works out the
    /// distance and the bearing from `center` to `rim` and hands them to
    /// `arc_measured`.
    MeasureArc { center: u32, rim: u32 },
}

/// What a creation that was tried on `store` reports.
pub open spec fn creation_outcome(store: GraphView) -> Outcome {
    match store.issued() {
        Some(id) => Outcome::Created { id },
        None => Outcome::Done,
    }
}

/// The whole state of a drawing session as a value.
pub struct AppView {
    pub store: GraphView,
    pub mode: ModeView,
    pub selection: SelectedItem,
    pub dragging: Option<u32>,
}

impl AppView {
    /// A new session: an empty graph, the point tool, nothing selected or dragged.
    pub open spec fn initial() -> AppView {
        AppView {
            store: GraphView::empty(),
            mode: ModeView::PlacePoint,
            selection: SelectedItem::Nothing,
            dragging: None,
        }
    }

    /// The state after the tool `tool` was picked. Whatever a chain had
    /// collected is dropped. Picking the contour tool makes a new, empty
    /// contour and starts adding to it; when the generator has run out, no
    /// contour can be made, and the pick falls back to the point tool.
    pub open spec fn select_tool(self, tool: Tool) -> AppView {
        match tool {
            Tool::Point => AppView { mode: ModeView::PlacePoint, ..self },
            Tool::Line => AppView { mode: ModeView::AwaitingLineStart, ..self },
            Tool::Spline => AppView { mode: ModeView::BezierStart, ..self },
            Tool::Bisector => AppView { mode: ModeView::BisectorStart, ..self },
            Tool::AlongLine => AppView { mode: ModeView::AlongLineStart, ..self },
            Tool::Arc => AppView { mode: ModeView::ArcCenter, ..self },
            Tool::Mirror => AppView {
                mode: ModeView::MirrorSelecting { refs: Seq::empty() },
                ..self
            },
            Tool::Contour => match self.store.issued() {
                Some(id) => AppView {
                    store: self.store.add_contour(),
                    mode: ModeView::ContourCreation { active_contour_id: id },
                    ..self
                },
                None => AppView { mode: ModeView::PlacePoint, ..self },
            },
        }
    }

    /// The state after a click on the empty background at `(x, y)`: the
    /// selection is cleared, and the point tool places a point there.
    pub open spec fn click_background(self, x: Scalar, y: Scalar) -> AppView {
        AppView {
            store: if self.mode is PlacePoint {
                self.store.add_point(x, y)
            } else {
                self.store
            },
            selection: SelectedItem::Nothing,
            ..self
        }
    }

    /// What a click on the background reports: the point it placed, if any.
    pub open spec fn click_background_outcome(self) -> Outcome {
        if self.mode is PlacePoint {
            creation_outcome(self.store)
        } else {
            Outcome::Done
        }
    }

    /// Whether a click on the point `pid` completes the chain of the current
    /// mode into an entity: the mode is the last step of a chain, `pid`
    /// differs from the points that it must differ from, and every point
    /// picked before is still in the graph.
    pub open spec fn commits(self, pid: u32) -> bool {
        match self.mode {
            ModeView::AwaitingLineEnd { first_point_id } => pid != first_point_id
                && self.store.has_point(first_point_id),
            ModeView::BezierEnd { p1, p2, p3 } => pid != p1 && pid != p2 && pid != p3
                && self.store.has_point(p1) && self.store.has_point(p2) && self.store.has_point(
                p3,
            ),
            ModeView::BisectorEnd { p1, vertex } => pid != p1 && pid != vertex
                && self.store.has_point(p1) && self.store.has_point(vertex),
            ModeView::AlongLineEnd { p1 } => pid != p1 && self.store.has_point(p1),
            ModeView::MirrorAxisEnd { axis_p1, .. } => pid != axis_p1 && self.store.has_point(
                axis_p1,
            ),
            _ => false,
        }
    }

    /// The state after a click on the point `pid`. A click on a point that is
    /// not in the graph changes nothing.
    ///
    /// The point tool selects the point and starts dragging it. A chain takes
    /// the point as its next one; at its last step it makes its entity if
    /// `commits` holds, makes nothing otherwise, and returns to its first
    /// step either way. An arc waiting for its radius stays as it is until
    /// its measure arrives, unless its center is gone. A mirror that is
    /// collecting sources adds the point to them. The contour tool selects
    /// the point.
    pub open spec fn click_point(self, pid: u32) -> AppView {
        if !self.store.has_point(pid) {
            self
        } else {
            match self.mode {
                ModeView::PlacePoint => AppView {
                    selection: SelectedItem::Point(pid),
                    dragging: Some(pid),
                    ..self
                },
                ModeView::AwaitingLineStart => AppView {
                    mode: ModeView::AwaitingLineEnd { first_point_id: pid },
                    ..self
                },
                ModeView::AwaitingLineEnd { first_point_id } => AppView {
                    store: if self.commits(pid) {
                        self.store.add_line(first_point_id, pid)
                    } else {
                        self.store
                    },
                    mode: ModeView::AwaitingLineStart,
                    ..self
                },
                ModeView::BezierStart => AppView {
                    mode: ModeView::BezierControl1 { p1: pid },
                    ..self
                },
                ModeView::BezierControl1 { p1 } => AppView {
                    mode: ModeView::BezierControl2 { p1, p2: pid },
                    ..self
                },
                ModeView::BezierControl2 { p1, p2 } => AppView {
                    mode: ModeView::BezierEnd { p1, p2, p3: pid },
                    ..self
                },
                ModeView::BezierEnd { p1, p2, p3 } => AppView {
                    store: if self.commits(pid) {
                        self.store.add_spline(p1, p2, p3, pid)
                    } else {
                        self.store
                    },
                    mode: ModeView::BezierStart,
                    ..self
                },
                ModeView::BisectorStart => AppView {
                    mode: ModeView::BisectorVertex { p1: pid },
                    ..self
                },
                ModeView::BisectorVertex { p1 } => AppView {
                    mode: ModeView::BisectorEnd { p1, vertex: pid },
                    ..self
                },
                ModeView::BisectorEnd { p1, vertex } => AppView {
                    store: if self.commits(pid) {
                        self.store.add_bisector(p1, vertex, pid, default_bisector_length())
                    } else {
                        self.store
                    },
                    mode: ModeView::BisectorStart,
                    ..self
                },
                ModeView::AlongLineStart => AppView {
                    mode: ModeView::AlongLineEnd { p1: pid },
                    ..self
                },
                ModeView::AlongLineEnd { p1 } => AppView {
                    store: if self.commits(pid) {
                        self.store.add_along_line(p1, pid, default_along_line_distance())
                    } else {
                        self.store
                    },
                    mode: ModeView::AlongLineStart,
                    ..self
                },
                ModeView::ArcCenter => AppView { mode: ModeView::ArcRadius { center: pid }, ..self },
                ModeView::ArcRadius { center } => if self.store.has_point(center) {
                    self
                } else {
                    AppView { mode: ModeView::ArcCenter, ..self }
                },
                ModeView::MirrorSelecting { refs } => AppView {
                    mode: ModeView::MirrorSelecting { refs: refs.push(EntityRef::Point(pid)) },
                    ..self
                },
                ModeView::MirrorAxisStart { refs } => AppView {
                    mode: ModeView::MirrorAxisEnd { refs, axis_p1: pid },
                    ..self
                },
                ModeView::MirrorAxisEnd { refs, axis_p1 } => AppView {
                    store: if self.commits(pid) {
                        self.store.add_mirror(refs, axis_p1, pid)
                    } else {
                        self.store
                    },
                    mode: ModeView::MirrorSelecting { refs: Seq::empty() },
                    ..self
                },
                ModeView::ContourCreation { .. } => AppView {
                    selection: SelectedItem::Point(pid),
                    ..self
                },
            }
        }
    }

    /// What a click on the point `pid` reports.
    pub open spec fn click_point_outcome(self, pid: u32) -> Outcome {
        if !self.store.has_point(pid) {
            Outcome::Done
        } else if self.commits(pid) {
            creation_outcome(self.store)
        } else {
            match self.mode {
                ModeView::ArcRadius { center } if self.store.has_point(center) =>
                Outcome::MeasureArc { center, rim: pid },
                _ => Outcome::Done,
            }
        }
    }

    /// The state after the measure of the arc about `center` arrived. It
    /// counts only while the arc tool still waits for the radius of that very
    /// arc; then the arc is made if its center is still in the graph, and the
    /// tool returns to its first step either way.
    pub open spec fn arc_measured(
        self,
        center: u32,
        radius: Scalar,
        start_angle: Scalar,
        end_angle: Scalar,
    ) -> AppView {
        if self.mode == (ModeView::ArcRadius { center }) {
            AppView {
                store: if self.store.has_point(center) {
                    self.store.add_arc(center, radius, start_angle, end_angle)
                } else {
                    self.store
                },
                mode: ModeView::ArcCenter,
                ..self
            }
        } else {
            self
        }
    }

    /// What the arrival of an arc's measure reports: the arc it made, if any.
    pub open spec fn arc_measured_outcome(self, center: u32) -> Outcome {
        if self.mode == (ModeView::ArcRadius { center }) && self.store.has_point(center) {
            creation_outcome(self.store)
        } else {
            Outcome::Done
        }
    }

    /// Whether the contour tool takes `target` into its contour.
    pub open spec fn contour_takes(target: EntityRef) -> bool {
        target is Line || target is Spline || target is Bisector
    }

    /// Whether a mirror that is collecting sources takes `target`.
    pub open spec fn mirror_takes(target: EntityRef) -> bool {
        target is Line || target is Spline || target is Point
    }

    /// The state after a click on the entity that `target` names. A click on
    /// an entity that is not in the graph changes nothing; a click on a point
    /// is `click_point`.
    ///
    /// The contour tool adds a line, a curve or a bisector to its contour; a
    /// mirror that is collecting sources adds a line or a curve to them; in
    /// every other case the entity becomes the selection.
    pub open spec fn click_entity(self, target: EntityRef) -> AppView {
        match target {
            EntityRef::Point(pid) => self.click_point(pid),
            _ => if !self.store.contains(target) {
                self
            } else {
                match self.mode {
                    ModeView::ContourCreation { active_contour_id } if Self::contour_takes(
                        target,
                    ) => AppView {
                        store: self.store.append_to_contour(active_contour_id, target),
                        ..self
                    },
                    ModeView::MirrorSelecting { refs } if Self::mirror_takes(target) => AppView {
                        mode: ModeView::MirrorSelecting { refs: refs.push(target) },
                        ..self
                    },
                    _ => AppView { selection: target.spec_selection(), ..self },
                }
            },
        }
    }

    /// What a click on an entity reports. Only a click on a point can make or ask anything.
    pub open spec fn click_entity_outcome(self, target: EntityRef) -> Outcome {
        match target {
            EntityRef::Point(pid) => self.click_point_outcome(pid),
            _ => Outcome::Done,
        }
    }

    /// The state after the user said that the sources of the mirror are
    /// complete: the chain goes on to the axis. In any other mode nothing
    /// changes.
    pub open spec fn finish_selection(self) -> AppView {
        match self.mode {
            ModeView::MirrorSelecting { refs } => AppView {
                mode: ModeView::MirrorAxisStart { refs },
                ..self
            },
            _ => self,
        }
    }

    /// The state after the pointer moved to `(x, y)`: the dragged point, if
    /// there is one, is there now.
    pub open spec fn move_pointer(self, x: Scalar, y: Scalar) -> AppView {
        match self.dragging {
            Some(pid) => AppView { store: self.store.move_point(pid, x, y), ..self },
            None => self,
        }
    }

    /// The state after the pointer was released: nothing is dragged.
    pub open spec fn release_pointer(self) -> AppView {
        AppView { dragging: None, ..self }
    }

    /// The state after the selected entity was deleted: it is gone from the
    /// graph, a point together with what references it, and nothing is
    /// selected.
    pub open spec fn delete_selected(self) -> AppView {
        AppView {
            store: self.store.delete(self.selection),
            selection: SelectedItem::Nothing,
            ..self
        }
    }
}

/// What can happen to a session from outside, apart from loading a project.
#[derive(Debug, Clone, Copy, PartialEq, Eq, Structural)]
pub enum Event {
    /// A tool was picked.
    ToolSelected(Tool),
    /// The empty background was clicked at `(x, y)`.
    BackgroundClicked { x: Scalar, y: Scalar },
    /// An entity was clicked.
    EntityClicked(EntityRef),
    /// The measure that `Outcome::MeasureArc` asked for has arrived.
    ArcMeasured { center: u32, radius: Scalar, start_angle: Scalar, end_angle: Scalar },
    /// The sources of a mirror are complete.
    SelectionFinished,
    /// The pointer moved to `(x, y)`.
    PointerMoved { x: Scalar, y: Scalar },
    /// The pointer was released.
    PointerReleased,
    /// The selected entity is to be deleted.
    DeleteRequested,
}

impl AppView {
    /// The state after `event`.
    pub open spec fn step(self, event: Event) -> AppView {
        match event {
            Event::ToolSelected(tool) => self.select_tool(tool),
            Event::BackgroundClicked { x, y } => self.click_background(x, y),
            Event::EntityClicked(target) => self.click_entity(target),
            Event::ArcMeasured { center, radius, start_angle, end_angle } => self.arc_measured(
                center,
                radius,
                start_angle,
                end_angle,
            ),
            Event::SelectionFinished => self.finish_selection(),
            Event::PointerMoved { x, y } => self.move_pointer(x, y),
            Event::PointerReleased => self.release_pointer(),
            Event::DeleteRequested => self.delete_selected(),
        }
    }

    /// What `event` reports.
    pub open spec fn outcome(self, event: Event) -> Outcome {
        match event {
            Event::ToolSelected(tool) => if tool == Tool::Contour {
                creation_outcome(self.store)
            } else {
                Outcome::Done
            },
            Event::BackgroundClicked { .. } => self.click_background_outcome(),
            Event::EntityClicked(target) => self.click_entity_outcome(target),
            Event::ArcMeasured { center, .. } => self.arc_measured_outcome(center),
            _ => Outcome::Done,
        }
    }
}

/// The whole state of a drawing session: the entity graph, the active tool
/// with its chain, the selection, and the point that is being dragged.
#[derive(Debug)]
pub struct AppState {
    pub store: EntityStore,
    pub mode: CanvasMode,
    pub selection: SelectedItem,
    pub dragging: Option<u32>,
}

impl View for AppState {
    type V = AppView;

    open spec fn view(&self) -> AppView {
        AppView {
            store: self.store@,
            mode: self.mode@,
            selection: self.selection,
            dragging: self.dragging,
        }
    }
}

/// Reports what a creation returned.
fn report(created: Option<u32>) -> (out: Outcome)
    ensures
        out == match created {
            Some(id) => Outcome::Created { id },
            None => Outcome::Done,
        },
{
    match created {
        Some(id) => Outcome::Created { id },
        None => Outcome::Done,
    }
}

impl AppState {
    /// A new session.
    pub fn new() -> (r: Self)
        ensures
            r@ == AppView::initial(),
    {
        Self {
            store: EntityStore::new(),
            mode: CanvasMode::PlacePoint,
            selection: SelectedItem::Nothing,
            dragging: None,
        }
    }

    /// Picks a tool, dropping whatever the chain of the tool before had
    /// collected. The contour tool makes a new contour to add to, whose id
    /// comes back.
    pub fn select_tool(&mut self, tool: Tool) -> (out: Outcome)
        ensures
            final(self)@ == old(self)@.select_tool(tool),
            out == if tool == Tool::Contour {
                creation_outcome(old(self)@.store)
            } else {
                Outcome::Done
            },
            old(self)@.store.valid() ==> final(self)@.store.valid(),
    {
        proof {
            if self@.store.valid() {
                lemma_step_valid(self@, Event::ToolSelected(tool));
            }
        }
        match tool {
            Tool::Point => {
                self.mode = CanvasMode::PlacePoint;
                Outcome::Done
            },
            Tool::Line => {
                self.mode = CanvasMode::AwaitingLineStart;
                Outcome::Done
            },
            Tool::Spline => {
                self.mode = CanvasMode::BezierStart;
                Outcome::Done
            },
            Tool::Bisector => {
                self.mode = CanvasMode::BisectorStart;
                Outcome::Done
            },
            Tool::AlongLine => {
                self.mode = CanvasMode::AlongLineStart;
                Outcome::Done
            },
            Tool::Arc => {
                self.mode = CanvasMode::ArcCenter;
                Outcome::Done
            },
            Tool::Mirror => {
                self.mode = CanvasMode::MirrorSelecting { refs: Vec::new() };
                Outcome::Done
            },
            Tool::Contour => match self.store.create_contour() {
                Some(id) => {
                    self.mode = CanvasMode::ContourCreation { active_contour_id: id };
                    Outcome::Created { id }
                },
                None => {
                    self.mode = CanvasMode::PlacePoint;
                    Outcome::Done
                },
            },
        }
    }

    /// Handles a click on the empty background at `(x, y)`.
    pub fn background_clicked(&mut self, x: Scalar, y: Scalar) -> (out: Outcome)
        ensures
            final(self)@ == old(self)@.click_background(x, y),
            out == old(self)@.click_background_outcome(),
            old(self)@.store.valid() ==> final(self)@.store.valid(),
    {
        proof {
            if self@.store.valid() {
                lemma_step_valid(self@, Event::BackgroundClicked { x, y });
            }
        }
        self.selection = SelectedItem::Nothing;
        match self.mode {
            CanvasMode::PlacePoint => report(self.store.create_point(x, y)),
            _ => Outcome::Done,
        }
    }

    /// Handles a click on the point `pid`.
    pub fn point_clicked(&mut self, pid: u32) -> (out: Outcome)
        ensures
            final(self)@ == old(self)@.click_point(pid),
            out == old(self)@.click_point_outcome(pid),
            old(self)@.store.valid() ==> final(self)@.store.valid(),
    {
        proof {
            if self@.store.valid() {
                lemma_step_valid(self@, Event::EntityClicked(EntityRef::Point(pid)));
            }
        }
        if !self.store.contains(EntityRef::Point(pid)) {
            return Outcome::Done;
        }
        let mut mode = CanvasMode::PlacePoint;
        core::mem::swap(&mut self.mode, &mut mode);
        match mode {
            CanvasMode::PlacePoint => {
                self.selection = SelectedItem::Point(pid);
                self.dragging = Some(pid);
                Outcome::Done
            },
            CanvasMode::AwaitingLineStart => {
                self.mode = CanvasMode::AwaitingLineEnd { first_point_id: pid };
                Outcome::Done
            },
            CanvasMode::AwaitingLineEnd { first_point_id } => {
                self.mode = CanvasMode::AwaitingLineStart;
                if pid != first_point_id && self.store.contains(EntityRef::Point(first_point_id)) {
                    report(self.store.create_line(first_point_id, pid))
                } else {
                    Outcome::Done
                }
            },
            CanvasMode::BezierStart => {
                self.mode = CanvasMode::BezierControl1 { p1: pid };
                Outcome::Done
            },
            CanvasMode::BezierControl1 { p1 } => {
                self.mode = CanvasMode::BezierControl2 { p1, p2: pid };
                Outcome::Done
            },
            CanvasMode::BezierControl2 { p1, p2 } => {
                self.mode = CanvasMode::BezierEnd { p1, p2, p3: pid };
                Outcome::Done
            },
            CanvasMode::BezierEnd { p1, p2, p3 } => {
                self.mode = CanvasMode::BezierStart;
                if pid != p1 && pid != p2 && pid != p3 && self.store.contains(EntityRef::Point(p1))
                    && self.store.contains(EntityRef::Point(p2)) && self.store.contains(
                    EntityRef::Point(p3),
                ) {
                    report(self.store.create_spline(p1, p2, p3, pid))
                } else {
                    Outcome::Done
                }
            },
            CanvasMode::BisectorStart => {
                self.mode = CanvasMode::BisectorVertex { p1: pid };
                Outcome::Done
            },
            CanvasMode::BisectorVertex { p1 } => {
                self.mode = CanvasMode::BisectorEnd { p1, vertex: pid };
                Outcome::Done
            },
            CanvasMode::BisectorEnd { p1, vertex } => {
                self.mode = CanvasMode::BisectorStart;
                if pid != p1 && pid != vertex && self.store.contains(EntityRef::Point(p1))
                    && self.store.contains(EntityRef::Point(vertex)) {
                    report(
                        self.store.create_bisector(
                            p1,
                            vertex,
                            pid,
                            Scalar::from_bits(DEFAULT_BISECTOR_LENGTH_BITS),
                        ),
                    )
                } else {
                    Outcome::Done
                }
            },
            CanvasMode::AlongLineStart => {
                self.mode = CanvasMode::AlongLineEnd { p1: pid };
                Outcome::Done
            },
            CanvasMode::AlongLineEnd { p1 } => {
                self.mode = CanvasMode::AlongLineStart;
                if pid != p1 && self.store.contains(EntityRef::Point(p1)) {
                    report(
                        self.store.create_along_line(
                            p1,
                            pid,
                            Scalar::from_bits(DEFAULT_ALONG_LINE_DISTANCE_BITS),
                        ),
                    )
                } else {
                    Outcome::Done
                }
            },
            CanvasMode::ArcCenter => {
                self.mode = CanvasMode::ArcRadius { center: pid };
                Outcome::Done
            },
            CanvasMode::ArcRadius { center } => {
                if self.store.contains(EntityRef::Point(center)) {
                    self.mode = CanvasMode::ArcRadius { center };
                    Outcome::MeasureArc { center, rim: pid }
                } else {
                    self.mode = CanvasMode::ArcCenter;
                    Outcome::Done
                }
            },
            CanvasMode::MirrorSelecting { refs } => {
                let mut refs = refs;
                refs.push(EntityRef::Point(pid));
                self.mode = CanvasMode::MirrorSelecting { refs };
                Outcome::Done
            },
            CanvasMode::MirrorAxisStart { refs } => {
                self.mode = CanvasMode::MirrorAxisEnd { refs, axis_p1: pid };
                Outcome::Done
            },
            CanvasMode::MirrorAxisEnd { refs, axis_p1 } => {
                self.mode = CanvasMode::MirrorSelecting { refs: Vec::new() };
                if pid != axis_p1 && self.store.contains(EntityRef::Point(axis_p1)) {
                    report(self.store.create_mirror(refs, axis_p1, pid))
                } else {
                    Outcome::Done
                }
            },
            CanvasMode::ContourCreation { active_contour_id } => {
                self.mode = CanvasMode::ContourCreation { active_contour_id };
                self.selection = SelectedItem::Point(pid);
                Outcome::Done
            },
        }
    }

    /// Takes the measure of the arc about `center`: its radius and its two
    /// angles in degrees. A measure for an arc that the tool no longer waits
    /// for is dropped.
    pub fn arc_measured(
        &mut self,
        center: u32,
        radius: Scalar,
        start_angle: Scalar,
        end_angle: Scalar,
    ) -> (out: Outcome)
        ensures
            final(self)@ == old(self)@.arc_measured(center, radius, start_angle, end_angle),
            out == old(self)@.arc_measured_outcome(center),
            old(self)@.store.valid() ==> final(self)@.store.valid(),
    {
        proof {
            if self@.store.valid() {
                lemma_step_valid(self@, Event::ArcMeasured { center, radius, start_angle, end_angle });
            }
        }
        let waits = match self.mode {
            CanvasMode::ArcRadius { center: c } => c == center,
            _ => false,
        };
        if !waits {
            return Outcome::Done;
        }
        self.mode = CanvasMode::ArcCenter;
        if self.store.contains(EntityRef::Point(center)) {
            report(self.store.create_arc(center, radius, start_angle, end_angle))
        } else {
            Outcome::Done
        }
    }

    /// Handles a click on the entity that `target` names.
    pub fn entity_clicked(&mut self, target: EntityRef) -> (out: Outcome)
        ensures
            final(self)@ == old(self)@.click_entity(target),
            out == old(self)@.click_entity_outcome(target),
            old(self)@.store.valid() ==> final(self)@.store.valid(),
    {
        proof {
            if self@.store.valid() {
                lemma_step_valid(self@, Event::EntityClicked(target));
            }
        }
        if let EntityRef::Point(pid) = target {
            return self.point_clicked(pid);
        }
        if !self.store.contains(target) {
            return Outcome::Done;
        }
        let is_line_or_curve = match target {
            EntityRef::Line(_) => true,
            EntityRef::Spline(_) => true,
            _ => false,
        };
        let is_bisector = match target {
            EntityRef::Bisector(_) => true,
            _ => false,
        };
        match &mut self.mode {
            CanvasMode::ContourCreation { active_contour_id } => {
                if is_line_or_curve || is_bisector {
                    let cid = *active_contour_id;
                    self.store.append_to_contour(cid, target);
                } else {
                    self.selection = target.selection();
                }
            },
            CanvasMode::MirrorSelecting { refs } => {
                if is_line_or_curve {
                    refs.push(target);
                } else {
                    self.selection = target.selection();
                }
            },
            _ => {
                self.selection = target.selection();
            },
        }
        Outcome::Done
    }

    /// Ends the collecting of a mirror's sources and goes on to its axis.
    pub fn finish_selection(&mut self)
        ensures
            final(self)@ == old(self)@.finish_selection(),
    {
        let mut mode = CanvasMode::PlacePoint;
        core::mem::swap(&mut self.mode, &mut mode);
        match mode {
            CanvasMode::MirrorSelecting { refs } => {
                self.mode = CanvasMode::MirrorAxisStart { refs };
            },
            other => {
                self.mode = other;
            },
        }
    }

    /// Moves the dragged point, if there is one, to `(x, y)`.
    pub fn pointer_moved(&mut self, x: Scalar, y: Scalar)
        ensures
            final(self)@ == old(self)@.move_pointer(x, y),
            old(self)@.store.valid() ==> final(self)@.store.valid(),
    {
        proof {
            if self@.store.valid() {
                lemma_step_valid(self@, Event::PointerMoved { x, y });
            }
        }
        match self.dragging {
            Some(pid) => {
                self.store.move_point(pid, x, y);
            },
            None => {},
        }
    }

    /// Ends the drag, wherever the pointer is.
    pub fn pointer_released(&mut self)
        ensures
            final(self)@ == old(self)@.release_pointer(),
    {
        self.dragging = None;
    }

    /// Deletes the selected entity and clears the selection.
    pub fn delete_selected(&mut self)
        ensures
            final(self)@ == old(self)@.delete_selected(),
            old(self)@.store.valid() ==> final(self)@.store.valid(),
    {
        proof {
            if self@.store.valid() {
                lemma_step_valid(self@, Event::DeleteRequested);
            }
        }
        self.store.delete(self.selection);
        self.selection = SelectedItem::Nothing;
    }

    /// Takes one event: moves the session to its next state and says what
    /// was made or what is asked of the caller.
    pub fn handle(&mut self, event: Event) -> (out: Outcome)
        ensures
            final(self)@ == old(self)@.step(event),
            out == old(self)@.outcome(event),
            old(self)@.store.valid() ==> final(self)@.store.valid(),
    {
        proof {
            if self@.store.valid() {
                lemma_step_valid(self@, event);
            }
        }
        match event {
            Event::ToolSelected(tool) => self.select_tool(tool),
            Event::BackgroundClicked { x, y } => self.background_clicked(x, y),
            Event::EntityClicked(target) => self.entity_clicked(target),
            Event::ArcMeasured { center, radius, start_angle, end_angle } => self.arc_measured(
                center,
                radius,
                start_angle,
                end_angle,
            ),
            Event::SelectionFinished => {
                self.finish_selection();
                Outcome::Done
            },
            Event::PointerMoved { x, y } => {
                self.pointer_moved(x, y);
                Outcome::Done
            },
            Event::PointerReleased => {
                self.pointer_released();
                Outcome::Done
            },
            Event::DeleteRequested => {
                self.delete_selected();
                Outcome::Done
            },
        }
    }
}

} // verus!
