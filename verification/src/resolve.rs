use crate::collection::lookup;
use crate::geometry::{Point2D, Scalar};
use crate::object::{
    EntityRef, VArc, VBisector, VCubicBezier, VLine, VMirror, VPoint, VPointAlongLine,
};
use crate::store::{EntityStore, GraphView};
use vstd::prelude::*;

verus! {

/// An entity with each referenced point replaced by that point's current
/// position: everything its geometry is computed from. Nothing of it is kept;
/// it is worked out anew on every query.
#[derive(Debug, Clone, Copy, PartialEq, Eq, Structural)]
pub enum Resolved {
    Point { at: Point2D },
    Line { start: Point2D, end: Point2D },
    Spline { p1: Point2D, p2: Point2D, p3: Point2D, p4: Point2D },
    Bisector { p1: Point2D, vertex: Point2D, p3: Point2D, length: Scalar },
    Arc { center: Point2D, radius: Scalar, start_angle: Scalar, end_angle: Scalar },
    AlongLine { p1: Point2D, p2: Point2D, distance: Scalar },
}

/// A mirror with its axis and its sources resolved.
pub struct ResolvedMirrorView {
    pub axis_p1: Point2D,
    pub axis_p2: Point2D,
    pub sources: Seq<Resolved>,
}

/// A mirror with its axis and its sources resolved: the two axis positions,
/// and the sources that could be resolved, in their listed order.
#[derive(Debug)]
pub struct ResolvedMirror {
    pub axis_p1: Point2D,
    pub axis_p2: Point2D,
    pub sources: Vec<Resolved>,
}

impl View for ResolvedMirror {
    type V = ResolvedMirrorView;

    open spec fn view(&self) -> ResolvedMirrorView {
        ResolvedMirrorView { axis_p1: self.axis_p1, axis_p2: self.axis_p2, sources: self.sources@ }
    }
}

impl GraphView {
    /// Where the point `pid` is; none when it is missing.
    pub open spec fn coords_of(self, pid: u32) -> Option<Point2D> {
        match lookup::<VPoint>(self.points, pid) {
            Some(p) => Some(p.coords),
            None => None,
        }
    }

    /// The entity that `r` names, resolved; none when the entity or one of
    /// the points it references is missing.
    pub open spec fn resolve(self, r: EntityRef) -> Option<Resolved> {
        match r {
            EntityRef::Point(id) => match self.coords_of(id) {
                Some(at) => Some(Resolved::Point { at }),
                None => None,
            },
            EntityRef::Line(id) => match lookup::<VLine>(self.lines, id) {
                Some(l) => match (self.coords_of(l.start_point_id), self.coords_of(l.end_point_id)) {
                    (Some(start), Some(end)) => Some(Resolved::Line { start, end }),
                    _ => None,
                },
                None => None,
            },
            EntityRef::Spline(id) => match lookup::<VCubicBezier>(self.splines, id) {
                Some(s) => match (
                    self.coords_of(s.p1_id),
                    self.coords_of(s.p2_id),
                    self.coords_of(s.p3_id),
                    self.coords_of(s.p4_id),
                ) {
                    (Some(p1), Some(p2), Some(p3), Some(p4)) => Some(
                        Resolved::Spline { p1, p2, p3, p4 },
                    ),
                    _ => None,
                },
                None => None,
            },
            EntityRef::Bisector(id) => match lookup::<VBisector>(self.bisectors, id) {
                Some(b) => match (
                    self.coords_of(b.p1_id),
                    self.coords_of(b.vertex_id),
                    self.coords_of(b.p3_id),
                ) {
                    (Some(p1), Some(vertex), Some(p3)) => Some(
                        Resolved::Bisector { p1, vertex, p3, length: b.length },
                    ),
                    _ => None,
                },
                None => None,
            },
            EntityRef::Arc(id) => match lookup::<VArc>(self.arcs, id) {
                Some(a) => match self.coords_of(a.center_id) {
                    Some(center) => Some(
                        Resolved::Arc {
                            center,
                            radius: a.radius,
                            start_angle: a.start_angle,
                            end_angle: a.end_angle,
                        },
                    ),
                    None => None,
                },
                None => None,
            },
            EntityRef::AlongLine(id) => match lookup::<VPointAlongLine>(self.along_lines, id) {
                Some(a) => match (self.coords_of(a.p1_id), self.coords_of(a.p2_id)) {
                    (Some(p1), Some(p2)) => Some(
                        Resolved::AlongLine { p1, p2, distance: a.distance },
                    ),
                    _ => None,
                },
                None => None,
            },
        }
    }

    /// The entities of `refs` that can be resolved, resolved, in order.
    pub open spec fn resolve_all(self, refs: Seq<EntityRef>) -> Seq<Resolved> {
        refs.filter_map(|r: EntityRef| self.resolve(r))
    }

    /// The mirror `id` resolved; none when the mirror or one of its axis
    /// points is missing. Sources that cannot be resolved are left out.
    pub open spec fn resolve_mirror(self, id: u32) -> Option<ResolvedMirrorView> {
        match lookup::<VMirror>(self.mirrors, id) {
            Some(m) => match (self.coords_of(m.axis_p1_id), self.coords_of(m.axis_p2_id)) {
                (Some(axis_p1), Some(axis_p2)) => Some(
                    ResolvedMirrorView {
                        axis_p1,
                        axis_p2,
                        sources: self.resolve_all(m.source_entities),
                    },
                ),
                _ => None,
            },
            None => None,
        }
    }
}

impl EntityStore {
    /// Where the point `pid` is; none when it is missing.
    pub fn coords_of(&self, pid: u32) -> (r: Option<Point2D>)
        ensures
            r == self@.coords_of(pid),
    {
        match self.get_point(pid) {
            Some(p) => Some(p.coords),
            None => None,
        }
    }

    /// Resolves the entity that `r` names: looks it up, then looks up every
    /// point it references. None when any of them is missing, so that what
    /// would be drawn from it is left out.
    pub fn resolve(&self, r: EntityRef) -> (out: Option<Resolved>)
        ensures
            out == self@.resolve(r),
    {
        match r {
            EntityRef::Point(id) => match self.coords_of(id) {
                Some(at) => Some(Resolved::Point { at }),
                None => None,
            },
            EntityRef::Line(id) => match self.get_line(id) {
                Some(l) => match (self.coords_of(l.start_point_id), self.coords_of(l.end_point_id)) {
                    (Some(start), Some(end)) => Some(Resolved::Line { start, end }),
                    _ => None,
                },
                None => None,
            },
            EntityRef::Spline(id) => match self.get_spline(id) {
                Some(s) => match (
                    self.coords_of(s.p1_id),
                    self.coords_of(s.p2_id),
                    self.coords_of(s.p3_id),
                    self.coords_of(s.p4_id),
                ) {
                    (Some(p1), Some(p2), Some(p3), Some(p4)) => Some(
                        Resolved::Spline { p1, p2, p3, p4 },
                    ),
                    _ => None,
                },
                None => None,
            },
            EntityRef::Bisector(id) => match self.get_bisector(id) {
                Some(b) => match (
                    self.coords_of(b.p1_id),
                    self.coords_of(b.vertex_id),
                    self.coords_of(b.p3_id),
                ) {
                    (Some(p1), Some(vertex), Some(p3)) => Some(
                        Resolved::Bisector { p1, vertex, p3, length: b.length },
                    ),
                    _ => None,
                },
                None => None,
            },
            EntityRef::Arc(id) => match self.get_arc(id) {
                Some(a) => match self.coords_of(a.center_id) {
                    Some(center) => Some(
                        Resolved::Arc {
                            center,
                            radius: a.radius,
                            start_angle: a.start_angle,
                            end_angle: a.end_angle,
                        },
                    ),
                    None => None,
                },
                None => None,
            },
            EntityRef::AlongLine(id) => match self.get_along_line(id) {
                Some(a) => match (self.coords_of(a.p1_id), self.coords_of(a.p2_id)) {
                    (Some(p1), Some(p2)) => Some(
                        Resolved::AlongLine { p1, p2, distance: a.distance },
                    ),
                    _ => None,
                },
                None => None,
            },
        }
    }

    /// Resolves each entity of `refs`, leaving out those that cannot be resolved.
    pub fn resolve_all(&self, refs: &Vec<EntityRef>) -> (out: Vec<Resolved>)
        ensures
            out@ == self@.resolve_all(refs@),
    {
        let mut out: Vec<Resolved> = Vec::new();
        let ghost f = |r: EntityRef| self@.resolve(r);
        let mut i: usize = 0;
        assert(refs@.take(0).filter_map(f) =~= Seq::empty());
        while i < refs.len()
            invariant
                i <= refs.len(),
                f == |r: EntityRef| self@.resolve(r),
                out@ == refs@.take(i as int).filter_map(f),
            decreases refs.len() - i,
        {
            proof {
                refs@.lemma_filter_map_take_succ(f, i as int);
            }
            match self.resolve(refs[i]) {
                Some(x) => {
                    out.push(x);
                },
                None => {},
            }
            i += 1;
        }
        assert(refs@.take(refs.len() as int) =~= refs@);
        out
    }

    /// Resolves the mirror `id`: its two axis positions and its sources.
    /// None when the mirror or one of its axis points is missing.
    pub fn resolve_mirror(&self, id: u32) -> (out: Option<ResolvedMirror>)
        ensures
            match out {
                Some(m) => self@.resolve_mirror(id) == Some(m@),
                None => self@.resolve_mirror(id) is None,
            },
    {
        match self.get_mirror(id) {
            Some(m) => match (self.coords_of(m.axis_p1_id), self.coords_of(m.axis_p2_id)) {
                (Some(axis_p1), Some(axis_p2)) => {
                    let sources = self.resolve_all(&m.source_entities);
                    Some(ResolvedMirror { axis_p1, axis_p2, sources })
                },
                _ => None,
            },
            None => None,
        }
    }
}

} // verus!
