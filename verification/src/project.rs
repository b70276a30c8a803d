use crate::collection::duplicate_all;
use crate::object::{
    views, SelectedItem, VArc, VArcView, VBisector, VBisectorView, VContour, VContourView,
    VCubicBezier, VCubicBezierView, VLine, VLineView, VMirror, VMirrorView, VPoint,
    VPointAlongLine, VPointAlongLineView, VPointView,
};
use crate::state::{AppState, AppView};
use crate::store::{EntityStore, GraphView};
use vstd::prelude::*;

verus! {

/// A saved project as a value.
pub struct ProjectDataView {
    pub points: Seq<VPointView>,
    pub lines: Seq<VLineView>,
    pub splines: Seq<VCubicBezierView>,
    pub bisectors: Seq<VBisectorView>,
    pub along_lines: Seq<VPointAlongLineView>,
    pub arcs: Seq<VArcView>,
    pub contours: Seq<VContourView>,
    pub mirrors: Seq<VMirrorView>,
    pub next_id: u32,
}

/// A project as it is saved: every entity with all its fields, and the id
/// that the generator would hand out next.
#[derive(Debug)]
pub struct ProjectData {
    pub points: Vec<VPoint>,
    pub lines: Vec<VLine>,
    pub splines: Vec<VCubicBezier>,
    pub bisectors: Vec<VBisector>,
    pub along_lines: Vec<VPointAlongLine>,
    pub arcs: Vec<VArc>,
    pub contours: Vec<VContour>,
    pub mirrors: Vec<VMirror>,
    pub next_id: u32,
}

impl View for ProjectData {
    type V = ProjectDataView;

    open spec fn view(&self) -> ProjectDataView {
        ProjectDataView {
            points: views(self.points@),
            lines: views(self.lines@),
            splines: views(self.splines@),
            bisectors: views(self.bisectors@),
            along_lines: views(self.along_lines@),
            arcs: views(self.arcs@),
            contours: views(self.contours@),
            mirrors: views(self.mirrors@),
            next_id: self.next_id,
        }
    }
}

impl Clone for ProjectData {
    fn clone(&self) -> (r: Self)
        ensures
            r@ == self@,
    {
        ProjectData {
            points: duplicate_all(&self.points),
            lines: duplicate_all(&self.lines),
            splines: duplicate_all(&self.splines),
            bisectors: duplicate_all(&self.bisectors),
            along_lines: duplicate_all(&self.along_lines),
            arcs: duplicate_all(&self.arcs),
            contours: duplicate_all(&self.contours),
            mirrors: duplicate_all(&self.mirrors),
            next_id: self.next_id,
        }
    }
}

impl ProjectDataView {
    /// The graph that loading this project gives: its entities as they are
    /// listed, and a generator that goes on from `next_id`. Nothing is
    /// checked: references may dangle if they dangle in the project.
    pub open spec fn to_store(self) -> GraphView {
        GraphView {
            points: self.points,
            lines: self.lines,
            splines: self.splines,
            bisectors: self.bisectors,
            along_lines: self.along_lines,
            arcs: self.arcs,
            contours: self.contours,
            mirrors: self.mirrors,
            next_id: self.next_id,
        }
    }
}

impl GraphView {
    /// The project that saving this graph gives.
    pub open spec fn to_project(self) -> ProjectDataView {
        ProjectDataView {
            points: self.points,
            lines: self.lines,
            splines: self.splines,
            bisectors: self.bisectors,
            along_lines: self.along_lines,
            arcs: self.arcs,
            contours: self.contours,
            mirrors: self.mirrors,
            next_id: self.next_id,
        }
    }
}

impl AppView {
    /// The state after the project `data` was loaded: its graph replaces the
    /// current one whole, and nothing is selected. The tool stays.
    pub open spec fn load(self, data: ProjectDataView) -> AppView {
        AppView { store: data.to_store(), selection: SelectedItem::Nothing, ..self }
    }
}

/// Saving a graph and loading what was saved gives the same graph back:
/// every entity with every field, in the same order, and the same next id.
pub proof fn lemma_save_load_round_trip(store: GraphView)
    ensures
        store.to_project().to_store() == store,
{
}

/// Loading a project and saving the graph gives the same project back.
pub proof fn lemma_load_save_round_trip(data: ProjectDataView)
    ensures
        data.to_store().to_project() == data,
{
}

impl EntityStore {
    /// A copy of the whole graph, to be saved.
    pub fn snapshot(&self) -> (data: ProjectData)
        ensures
            data@ == self@.to_project(),
    {
        ProjectData {
            points: duplicate_all(&self.points),
            lines: duplicate_all(&self.lines),
            splines: duplicate_all(&self.splines),
            bisectors: duplicate_all(&self.bisectors),
            along_lines: duplicate_all(&self.along_lines),
            arcs: duplicate_all(&self.arcs),
            contours: duplicate_all(&self.contours),
            mirrors: duplicate_all(&self.mirrors),
            next_id: self.next_id,
        }
    }

    /// The graph of a saved project.
    pub fn from_project(data: ProjectData) -> (store: Self)
        ensures
            store@ == data@.to_store(),
    {
        EntityStore {
            points: data.points,
            lines: data.lines,
            splines: data.splines,
            bisectors: data.bisectors,
            along_lines: data.along_lines,
            arcs: data.arcs,
            contours: data.contours,
            mirrors: data.mirrors,
            next_id: data.next_id,
        }
    }
}

impl AppState {
    /// A copy of the whole graph, to be saved.
    pub fn snapshot(&self) -> (data: ProjectData)
        ensures
            data@ == self@.store.to_project(),
    {
        self.store.snapshot()
    }

    /// Replaces the whole graph by that of `data` and clears the selection.
    pub fn load(&mut self, data: ProjectData)
        ensures
            final(self)@ == old(self)@.load(data@),
    {
        self.store = EntityStore::from_project(data);
        self.selection = SelectedItem::Nothing;
    }
}

} // verus!
