use crate::collection::{
    find, has_id, lemma_position_some_iff_has_id, lookup, position, remove_by_id,
    remove_dependents, without_dependents, without_id,
};
use crate::geometry::{Point2D, Scalar};
use crate::naming::{entity_name, label};
use crate::object::{
    modeling_object, views, EntityRef, SelectedItem, VArc, VArcView, VBisector, VBisectorView,
    VContour, VContourView, VCubicBezier, VCubicBezierView, VLine, VLineView, VMirror, VMirrorView,
    VPoint, VPointAlongLine, VPointAlongLineView, VPointView,
};
use crate::types::GOType;
use vstd::prelude::*;

verus! {

/// The entity graph as a value: every collection in insertion order, and the
/// id that the generator hands out next.
pub struct GraphView {
    pub points: Seq<VPointView>,
    pub lines: Seq<VLineView>,
    pub splines: Seq<VCubicBezierView>,
    pub bisectors: Seq<VBisectorView>,
    pub along_lines: Seq<VPointAlongLineView>,
    pub arcs: Seq<VArcView>,
    pub contours: Seq<VContourView>,
    pub mirrors: Seq<VMirrorView>,
    pub next_id: u32,
}

impl GraphView {
    /// The graph before anything was made. Ids start at 1.
    pub open spec fn empty() -> GraphView {
        GraphView {
            points: Seq::empty(),
            lines: Seq::empty(),
            splines: Seq::empty(),
            bisectors: Seq::empty(),
            along_lines: Seq::empty(),
            arcs: Seq::empty(),
            contours: Seq::empty(),
            mirrors: Seq::empty(),
            next_id: 1,
        }
    }

    /// Whether the generator has run out: it never hands out the largest id,
    /// so that the next one always exists.
    pub open spec fn exhausted(self) -> bool {
        self.next_id == u32::MAX
    }

    /// The id that a creation hands out: none when the generator has run out.
    pub open spec fn issued(self) -> Option<u32> {
        if self.exhausted() {
            None
        } else {
            Some(self.next_id)
        }
    }

    /// The generator's value after it has handed out one id.
    pub open spec fn advanced(self) -> u32 {
        (self.next_id + 1) as u32
    }

    /// Whether a point with the id `id` is in the graph.
    pub open spec fn has_point(self, id: u32) -> bool {
        has_id::<VPoint>(self.points, id)
    }

    /// The graph after a point was made at `(x, y)`.
    pub open spec fn add_point(self, x: Scalar, y: Scalar) -> GraphView {
        if self.exhausted() {
            self
        } else {
            GraphView {
                points: self.points.push(
                    VPointView {
                        metadata: modeling_object(
                            self.next_id,
                            label("P"@, self.next_id),
                            GOType::Point,
                        ),
                        coords: Point2D { x, y },
                    },
                ),
                next_id: self.advanced(),
                ..self
            }
        }
    }

    /// The graph after a line was made from `start` to `end`.
    pub open spec fn add_line(self, start: u32, end: u32) -> GraphView {
        if self.exhausted() {
            self
        } else {
            GraphView {
                lines: self.lines.push(
                    VLineView {
                        metadata: modeling_object(
                            self.next_id,
                            label("L"@, self.next_id),
                            GOType::Line,
                        ),
                        start_point_id: start,
                        end_point_id: end,
                    },
                ),
                next_id: self.advanced(),
                ..self
            }
        }
    }

    /// The graph after a curve was made through `p1`, `p2`, `p3`, `p4`.
    pub open spec fn add_spline(self, p1: u32, p2: u32, p3: u32, p4: u32) -> GraphView {
        if self.exhausted() {
            self
        } else {
            GraphView {
                splines: self.splines.push(
                    VCubicBezierView {
                        metadata: modeling_object(
                            self.next_id,
                            label("S"@, self.next_id),
                            GOType::Spline,
                        ),
                        p1_id: p1,
                        p2_id: p2,
                        p3_id: p3,
                        p4_id: p4,
                    },
                ),
                next_id: self.advanced(),
                ..self
            }
        }
    }

    /// The graph after a bisector was made.
    pub open spec fn add_bisector(self, p1: u32, vertex: u32, p3: u32, length: Scalar) -> GraphView {
        if self.exhausted() {
            self
        } else {
            GraphView {
                bisectors: self.bisectors.push(
                    VBisectorView {
                        metadata: modeling_object(
                            self.next_id,
                            label("B"@, self.next_id),
                            GOType::Line,
                        ),
                        p1_id: p1,
                        vertex_id: vertex,
                        p3_id: p3,
                        length,
                    },
                ),
                next_id: self.advanced(),
                ..self
            }
        }
    }

    /// The graph after a point along a line was made.
    pub open spec fn add_along_line(self, p1: u32, p2: u32, distance: Scalar) -> GraphView {
        if self.exhausted() {
            self
        } else {
            GraphView {
                along_lines: self.along_lines.push(
                    VPointAlongLineView {
                        metadata: modeling_object(
                            self.next_id,
                            label("PL"@, self.next_id),
                            GOType::Point,
                        ),
                        p1_id: p1,
                        p2_id: p2,
                        distance,
                    },
                ),
                next_id: self.advanced(),
                ..self
            }
        }
    }

    /// The graph after an arc was made.
    pub open spec fn add_arc(
        self,
        center: u32,
        radius: Scalar,
        start_angle: Scalar,
        end_angle: Scalar,
    ) -> GraphView {
        if self.exhausted() {
            self
        } else {
            GraphView {
                arcs: self.arcs.push(
                    VArcView {
                        metadata: modeling_object(
                            self.next_id,
                            label("A"@, self.next_id),
                            GOType::Arc,
                        ),
                        center_id: center,
                        radius,
                        start_angle,
                        end_angle,
                    },
                ),
                next_id: self.advanced(),
                ..self
            }
        }
    }

    /// The graph after an empty contour was made.
    pub open spec fn add_contour(self) -> GraphView {
        if self.exhausted() {
            self
        } else {
            GraphView {
                contours: self.contours.push(
                    VContourView {
                        metadata: modeling_object(
                            self.next_id,
                            label("Path"@, self.next_id),
                            GOType::Spline,
                        ),
                        entities: Seq::empty(),
                    },
                ),
                next_id: self.advanced(),
                ..self
            }
        }
    }

    /// The graph after a mirror of `sources` across the axis was made.
    pub open spec fn add_mirror(self, sources: Seq<EntityRef>, axis_p1: u32, axis_p2: u32)
        -> GraphView {
        if self.exhausted() {
            self
        } else {
            GraphView {
                mirrors: self.mirrors.push(
                    VMirrorView {
                        metadata: modeling_object(
                            self.next_id,
                            label("M"@, self.next_id),
                            GOType::Line,
                        ),
                        source_entities: sources,
                        axis_p1_id: axis_p1,
                        axis_p2_id: axis_p2,
                    },
                ),
                next_id: self.advanced(),
                ..self
            }
        }
    }

    /// Whether the entity that `r` names is in the graph.
    pub open spec fn contains(self, r: EntityRef) -> bool {
        match r {
            EntityRef::Point(id) => has_id::<VPoint>(self.points, id),
            EntityRef::Line(id) => has_id::<VLine>(self.lines, id),
            EntityRef::Spline(id) => has_id::<VCubicBezier>(self.splines, id),
            EntityRef::Bisector(id) => has_id::<VBisector>(self.bisectors, id),
            EntityRef::Arc(id) => has_id::<VArc>(self.arcs, id),
            EntityRef::AlongLine(id) => has_id::<VPointAlongLine>(self.along_lines, id),
        }
    }

    /// The graph after the point `pid` was deleted: the point is gone, and
    /// with it every line, curve, bisector, point along a line and arc that
    /// references it. Contours and mirrors stay as they are.
    pub open spec fn delete_point(self, pid: u32) -> GraphView {
        GraphView {
            points: without_id::<VPoint>(self.points, pid),
            lines: without_dependents::<VLine>(self.lines, pid),
            splines: without_dependents::<VCubicBezier>(self.splines, pid),
            bisectors: without_dependents::<VBisector>(self.bisectors, pid),
            along_lines: without_dependents::<VPointAlongLine>(self.along_lines, pid),
            arcs: without_dependents::<VArc>(self.arcs, pid),
            ..self
        }
    }

    /// The graph after the entity that `item` names was deleted. Only the
    /// deletion of a point reaches other entities.
    pub open spec fn delete(self, item: SelectedItem) -> GraphView {
        match item {
            SelectedItem::Nothing => self,
            SelectedItem::Point(id) => self.delete_point(id),
            SelectedItem::Line(id) => GraphView {
                lines: without_id::<VLine>(self.lines, id),
                ..self
            },
            SelectedItem::Spline(id) => GraphView {
                splines: without_id::<VCubicBezier>(self.splines, id),
                ..self
            },
            SelectedItem::Bisector(id) => GraphView {
                bisectors: without_id::<VBisector>(self.bisectors, id),
                ..self
            },
            SelectedItem::Arc(id) => GraphView { arcs: without_id::<VArc>(self.arcs, id), ..self },
            SelectedItem::AlongLine(id) => GraphView {
                along_lines: without_id::<VPointAlongLine>(self.along_lines, id),
                ..self
            },
            SelectedItem::Contour(id) => GraphView {
                contours: without_id::<VContour>(self.contours, id),
                ..self
            },
        }
    }

    /// The graph after the point `id` was moved to `(x, y)`. A missing point
    /// moves nothing.
    pub open spec fn move_point(self, id: u32, x: Scalar, y: Scalar) -> GraphView {
        match position::<VPoint>(self.points, id) {
            Some(k) => GraphView {
                points: self.points.update(
                    k,
                    VPointView { coords: Point2D { x, y }, ..self.points[k] },
                ),
                ..self
            },
            None => self,
        }
    }

    /// The graph after `r` was added at the end of the contour `cid`. A
    /// missing contour takes nothing.
    pub open spec fn append_to_contour(self, cid: u32, r: EntityRef) -> GraphView {
        match position::<VContour>(self.contours, cid) {
            Some(k) => GraphView {
                contours: self.contours.update(
                    k,
                    VContourView {
                        entities: self.contours[k].entities.push(r),
                        ..self.contours[k]
                    },
                ),
                ..self
            },
            None => self,
        }
    }

    /// Whether some contour lists `r`.
    pub open spec fn in_any_contour(self, r: EntityRef) -> bool {
        exists|c: int, i: int|
            0 <= c < self.contours.len() && 0 <= i < self.contours[c].entities.len()
                && #[trigger] self.contours[c].entities[i] == r
    }
}

/// The entity graph: one collection per kind of entity, each in insertion
/// order, and the generator that gives every entity of every kind its id.
/// Entities refer to each other by id only.
#[derive(Debug)]
pub struct EntityStore {
    pub points: Vec<VPoint>,
    pub lines: Vec<VLine>,
    pub splines: Vec<VCubicBezier>,
    pub bisectors: Vec<VBisector>,
    pub along_lines: Vec<VPointAlongLine>,
    pub arcs: Vec<VArc>,
    pub contours: Vec<VContour>,
    pub mirrors: Vec<VMirror>,
    pub next_id: u32,
}

impl View for EntityStore {
    type V = GraphView;

    open spec fn view(&self) -> GraphView {
        GraphView {
            points: views(self.points@),
            lines: views(self.lines@),
            splines: views(self.splines@),
            bisectors: views(self.bisectors@),
            along_lines: views(self.along_lines@),
            arcs: views(self.arcs@),
            contours: views(self.contours@),
            mirrors: views(self.mirrors@),
            next_id: self.next_id,
        }
    }
}

impl EntityStore {
    /// An empty graph whose first id will be 1.
    pub fn new() -> (r: Self)
        ensures
            r@ == GraphView::empty(),
    {
        let r = Self {
            points: Vec::new(),
            lines: Vec::new(),
            splines: Vec::new(),
            bisectors: Vec::new(),
            along_lines: Vec::new(),
            arcs: Vec::new(),
            contours: Vec::new(),
            mirrors: Vec::new(),
            next_id: 1,
        };
        assert(r@.points =~= Seq::empty());
        assert(r@.lines =~= Seq::empty());
        assert(r@.splines =~= Seq::empty());
        assert(r@.bisectors =~= Seq::empty());
        assert(r@.along_lines =~= Seq::empty());
        assert(r@.arcs =~= Seq::empty());
        assert(r@.contours =~= Seq::empty());
        assert(r@.mirrors =~= Seq::empty());
        r
    }

    /// Makes a point at `(x, y)` and returns its id. When the generator has
    /// run out, nothing is made.
    pub fn create_point(&mut self, x: Scalar, y: Scalar) -> (r: Option<u32>)
        ensures
            final(self)@ == old(self)@.add_point(x, y),
            r == old(self)@.issued(),
    {
        if self.next_id == u32::MAX {
            return None;
        }
        let id = self.next_id;
        let name = entity_name("P", id);
        let e = VPoint::new(id, name.as_str(), x, y);
        assert(views(self.points@.push(e)) =~= views(self.points@).push(e@));
        self.points.push(e);
        self.next_id = id + 1;
        Some(id)
    }

    /// Makes a line from `start` to `end` and returns its id. When the
    /// generator has run out, nothing is made.
    pub fn create_line(&mut self, start: u32, end: u32) -> (r: Option<u32>)
        ensures
            final(self)@ == old(self)@.add_line(start, end),
            r == old(self)@.issued(),
    {
        if self.next_id == u32::MAX {
            return None;
        }
        let id = self.next_id;
        let name = entity_name("L", id);
        let e = VLine::new(id, name.as_str(), start, end);
        assert(views(self.lines@.push(e)) =~= views(self.lines@).push(e@));
        self.lines.push(e);
        self.next_id = id + 1;
        Some(id)
    }

    /// Makes a curve with start `p1`, controls `p2` and `p3`, end `p4`, and
    /// returns its id. When the generator has run out, nothing is made.
    pub fn create_spline(&mut self, p1: u32, p2: u32, p3: u32, p4: u32) -> (r: Option<u32>)
        ensures
            final(self)@ == old(self)@.add_spline(p1, p2, p3, p4),
            r == old(self)@.issued(),
    {
        if self.next_id == u32::MAX {
            return None;
        }
        let id = self.next_id;
        let name = entity_name("S", id);
        let e = VCubicBezier::new(id, name.as_str(), p1, p2, p3, p4);
        assert(views(self.splines@.push(e)) =~= views(self.splines@).push(e@));
        self.splines.push(e);
        self.next_id = id + 1;
        Some(id)
    }

    /// Makes a bisector at `vertex` between the arms to `p1` and `p3`, and
    /// returns its id. When the generator has run out, nothing is made.
    pub fn create_bisector(&mut self, p1: u32, vertex: u32, p3: u32, length: Scalar) -> (r: Option<
        u32,
    >)
        ensures
            final(self)@ == old(self)@.add_bisector(p1, vertex, p3, length),
            r == old(self)@.issued(),
    {
        if self.next_id == u32::MAX {
            return None;
        }
        let id = self.next_id;
        let name = entity_name("B", id);
        let e = VBisector::new(id, name.as_str(), p1, vertex, p3, length);
        assert(views(self.bisectors@.push(e)) =~= views(self.bisectors@).push(e@));
        self.bisectors.push(e);
        self.next_id = id + 1;
        Some(id)
    }

    /// Makes a point along the line from `p1` towards `p2`, and returns its
    /// id. When the generator has run out, nothing is made.
    pub fn create_along_line(&mut self, p1: u32, p2: u32, distance: Scalar) -> (r: Option<u32>)
        ensures
            final(self)@ == old(self)@.add_along_line(p1, p2, distance),
            r == old(self)@.issued(),
    {
        if self.next_id == u32::MAX {
            return None;
        }
        let id = self.next_id;
        let name = entity_name("PL", id);
        let e = VPointAlongLine::new(id, name.as_str(), p1, p2, distance);
        assert(views(self.along_lines@.push(e)) =~= views(self.along_lines@).push(e@));
        self.along_lines.push(e);
        self.next_id = id + 1;
        Some(id)
    }

    /// Makes an arc about `center`, and returns its id. When the generator has
    /// run out, nothing is made.
    pub fn create_arc(
        &mut self,
        center: u32,
        radius: Scalar,
        start_angle: Scalar,
        end_angle: Scalar,
    ) -> (r: Option<u32>)
        ensures
            final(self)@ == old(self)@.add_arc(center, radius, start_angle, end_angle),
            r == old(self)@.issued(),
    {
        if self.next_id == u32::MAX {
            return None;
        }
        let id = self.next_id;
        let name = entity_name("A", id);
        let e = VArc::new(id, name.as_str(), center, radius, start_angle, end_angle);
        assert(views(self.arcs@.push(e)) =~= views(self.arcs@).push(e@));
        self.arcs.push(e);
        self.next_id = id + 1;
        Some(id)
    }

    /// Makes an empty contour and returns its id. When the generator has run
    /// out, nothing is made.
    pub fn create_contour(&mut self) -> (r: Option<u32>)
        ensures
            final(self)@ == old(self)@.add_contour(),
            r == old(self)@.issued(),
    {
        if self.next_id == u32::MAX {
            return None;
        }
        let id = self.next_id;
        let name = entity_name("Path", id);
        let e = VContour::new(id, name.as_str());
        assert(views(self.contours@.push(e)) =~= views(self.contours@).push(e@));
        self.contours.push(e);
        self.next_id = id + 1;
        Some(id)
    }

    /// Makes a mirror of `sources` across the line through `axis_p1` and
    /// `axis_p2`, and returns its id. When the generator has run out, nothing
    /// is made.
    pub fn create_mirror(&mut self, sources: Vec<EntityRef>, axis_p1: u32, axis_p2: u32) -> (r:
        Option<u32>)
        ensures
            final(self)@ == old(self)@.add_mirror(sources@, axis_p1, axis_p2),
            r == old(self)@.issued(),
    {
        if self.next_id == u32::MAX {
            return None;
        }
        let id = self.next_id;
        let name = entity_name("M", id);
        let e = VMirror::new(id, name.as_str(), sources, axis_p1, axis_p2);
        assert(views(self.mirrors@.push(e)) =~= views(self.mirrors@).push(e@));
        self.mirrors.push(e);
        self.next_id = id + 1;
        Some(id)
    }

    /// The point with the id `id`; none when it is missing.
    pub fn get_point(&self, id: u32) -> (r: Option<&VPoint>)
        ensures
            match r {
                Some(e) => lookup::<VPoint>(self@.points, id) == Some(e@),
                None => lookup::<VPoint>(self@.points, id) is None,
            },
    {
        match find(&self.points, id) {
            Some(k) => Some(&self.points[k]),
            None => None,
        }
    }

    /// The line with the id `id`; none when it is missing.
    pub fn get_line(&self, id: u32) -> (r: Option<&VLine>)
        ensures
            match r {
                Some(e) => lookup::<VLine>(self@.lines, id) == Some(e@),
                None => lookup::<VLine>(self@.lines, id) is None,
            },
    {
        match find(&self.lines, id) {
            Some(k) => Some(&self.lines[k]),
            None => None,
        }
    }

    /// The curve with the id `id`; none when it is missing.
    pub fn get_spline(&self, id: u32) -> (r: Option<&VCubicBezier>)
        ensures
            match r {
                Some(e) => lookup::<VCubicBezier>(self@.splines, id) == Some(e@),
                None => lookup::<VCubicBezier>(self@.splines, id) is None,
            },
    {
        match find(&self.splines, id) {
            Some(k) => Some(&self.splines[k]),
            None => None,
        }
    }

    /// The bisector with the id `id`; none when it is missing.
    pub fn get_bisector(&self, id: u32) -> (r: Option<&VBisector>)
        ensures
            match r {
                Some(e) => lookup::<VBisector>(self@.bisectors, id) == Some(e@),
                None => lookup::<VBisector>(self@.bisectors, id) is None,
            },
    {
        match find(&self.bisectors, id) {
            Some(k) => Some(&self.bisectors[k]),
            None => None,
        }
    }

    /// The point along a line with the id `id`; none when it is missing.
    pub fn get_along_line(&self, id: u32) -> (r: Option<&VPointAlongLine>)
        ensures
            match r {
                Some(e) => lookup::<VPointAlongLine>(self@.along_lines, id) == Some(e@),
                None => lookup::<VPointAlongLine>(self@.along_lines, id) is None,
            },
    {
        match find(&self.along_lines, id) {
            Some(k) => Some(&self.along_lines[k]),
            None => None,
        }
    }

    /// The arc with the id `id`; none when it is missing.
    pub fn get_arc(&self, id: u32) -> (r: Option<&VArc>)
        ensures
            match r {
                Some(e) => lookup::<VArc>(self@.arcs, id) == Some(e@),
                None => lookup::<VArc>(self@.arcs, id) is None,
            },
    {
        match find(&self.arcs, id) {
            Some(k) => Some(&self.arcs[k]),
            None => None,
        }
    }

    /// The contour with the id `id`; none when it is missing.
    pub fn get_contour(&self, id: u32) -> (r: Option<&VContour>)
        ensures
            match r {
                Some(e) => lookup::<VContour>(self@.contours, id) == Some(e@),
                None => lookup::<VContour>(self@.contours, id) is None,
            },
    {
        match find(&self.contours, id) {
            Some(k) => Some(&self.contours[k]),
            None => None,
        }
    }

    /// The mirror with the id `id`; none when it is missing.
    pub fn get_mirror(&self, id: u32) -> (r: Option<&VMirror>)
        ensures
            match r {
                Some(e) => lookup::<VMirror>(self@.mirrors, id) == Some(e@),
                None => lookup::<VMirror>(self@.mirrors, id) is None,
            },
    {
        match find(&self.mirrors, id) {
            Some(k) => Some(&self.mirrors[k]),
            None => None,
        }
    }

    /// Whether the entity that `r` names is in the graph.
    pub fn contains(&self, r: EntityRef) -> (b: bool)
        ensures
            b == self@.contains(r),
    {
        proof {
            lemma_position_some_iff_has_id::<VPoint>(self@.points, r.spec_id());
            lemma_position_some_iff_has_id::<VLine>(self@.lines, r.spec_id());
            lemma_position_some_iff_has_id::<VCubicBezier>(
                self@.splines,
                r.spec_id(),
            );
            lemma_position_some_iff_has_id::<VBisector>(
                self@.bisectors,
                r.spec_id(),
            );
            lemma_position_some_iff_has_id::<VArc>(self@.arcs, r.spec_id());
            lemma_position_some_iff_has_id::<VPointAlongLine>(
                self@.along_lines,
                r.spec_id(),
            );
        }
        match r {
            EntityRef::Point(id) => find(&self.points, id).is_some(),
            EntityRef::Line(id) => find(&self.lines, id).is_some(),
            EntityRef::Spline(id) => find(&self.splines, id).is_some(),
            EntityRef::Bisector(id) => find(&self.bisectors, id).is_some(),
            EntityRef::Arc(id) => find(&self.arcs, id).is_some(),
            EntityRef::AlongLine(id) => find(&self.along_lines, id).is_some(),
        }
    }

    /// Deletes the point `pid` and, in the same step, every line, curve,
    /// bisector, point along a line and arc that references it.
    pub fn delete_point(&mut self, pid: u32)
        ensures
            final(self)@ == old(self)@.delete_point(pid),
    {
        remove_by_id(&mut self.points, pid);
        remove_dependents(&mut self.lines, pid);
        remove_dependents(&mut self.splines, pid);
        remove_dependents(&mut self.bisectors, pid);
        remove_dependents(&mut self.along_lines, pid);
        remove_dependents(&mut self.arcs, pid);
    }

    /// Deletes the entity that `item` names. A point takes its dependents
    /// with it; any other entity leaves alone.
    pub fn delete(&mut self, item: SelectedItem)
        ensures
            final(self)@ == old(self)@.delete(item),
    {
        match item {
            SelectedItem::Nothing => {},
            SelectedItem::Point(id) => self.delete_point(id),
            SelectedItem::Line(id) => remove_by_id(&mut self.lines, id),
            SelectedItem::Spline(id) => remove_by_id(&mut self.splines, id),
            SelectedItem::Bisector(id) => remove_by_id(&mut self.bisectors, id),
            SelectedItem::Arc(id) => remove_by_id(&mut self.arcs, id),
            SelectedItem::AlongLine(id) => remove_by_id(&mut self.along_lines, id),
            SelectedItem::Contour(id) => remove_by_id(&mut self.contours, id),
        }
    }

    /// Moves the point `id` to `(x, y)`; returns whether there was such a point.
    pub fn move_point(&mut self, id: u32, x: Scalar, y: Scalar) -> (moved: bool)
        ensures
            final(self)@ == old(self)@.move_point(id, x, y),
            moved == old(self)@.has_point(id),
    {
        proof {
            lemma_position_some_iff_has_id::<VPoint>(self@.points, id);
        }
        match find(&self.points, id) {
            Some(k) => {
                let ghost before = self.points@;
                self.points[k].coords = Point2D::new(x, y);
                assert(views(self.points@) =~= views(before).update(
                    k as int,
                    VPointView { coords: Point2D { x, y }, ..views(before)[k as int] },
                ));
                true
            },
            None => false,
        }
    }

    /// Adds `r` at the end of the contour `cid`; returns whether there was
    /// such a contour.
    pub fn append_to_contour(&mut self, cid: u32, r: EntityRef) -> (added: bool)
        ensures
            final(self)@ == old(self)@.append_to_contour(cid, r),
            added == has_id::<VContour>(old(self)@.contours, cid),
    {
        proof {
            lemma_position_some_iff_has_id::<VContour>(self@.contours, cid);
        }
        match find(&self.contours, cid) {
            Some(k) => {
                let ghost before = self.contours@;
                self.contours[k].entities.push(r);
                assert(views(self.contours@) =~= views(before).update(
                    k as int,
                    VContourView {
                        entities: views(before)[k as int].entities.push(r),
                        ..views(before)[k as int]
                    },
                ));
                true
            },
            None => false,
        }
    }

    /// Whether some contour lists `r`.
    pub fn in_any_contour(&self, r: EntityRef) -> (b: bool)
        ensures
            b == self@.in_any_contour(r),
    {
        let mut c: usize = 0;
        while c < self.contours.len()
            invariant
                c <= self.contours.len(),
                forall|cc: int, i: int|
                    0 <= cc < c && 0 <= i < self@.contours[cc].entities.len()
                        ==> #[trigger] self@.contours[cc].entities[i] != r,
            decreases self.contours.len() - c,
        {
            let list = &self.contours[c].entities;
            assert(self@.contours[c as int].entities == list@);
            let mut i: usize = 0;
            while i < list.len()
                invariant
                    i <= list.len(),
                    c < self.contours.len(),
                    self@.contours[c as int].entities == list@,
                    forall|ii: int| 0 <= ii < i ==> #[trigger] list@[ii] != r,
                decreases list.len() - i,
            {
                if list[i] == r {
                    assert(self@.contours[c as int].entities[i as int] == r);
                    return true;
                }
                i += 1;
            }
            c += 1;
        }
        false
    }
}

} // verus!
