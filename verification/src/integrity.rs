use crate::collection::{
    count_id, has_id, has_other_id, is_independent, lemma_count_filter, lemma_count_push,
    lemma_count_update, lemma_count_zero_iff_absent, lemma_filter_membership, lemma_has_id_push,
    lemma_has_id_update, lemma_has_id_without, lemma_position_some_iff_has_id,
    lemma_push_membership, lemma_refs_present_after_cascade, lemma_refs_present_after_filter,
    lemma_refs_present_after_push, lemma_refs_present_more_points, position, refs_present,
};
use crate::geometry::{Point2D, Scalar};
use crate::object::{
    depends_on, Dependent, EntityRef, SelectedItem, VArc, VBisector, VContour, VContourView,
    VCubicBezier, VLine, VMirror, VPoint, VPointAlongLine, VPointView,
};
use crate::mode::{ModeView, Tool};
use crate::state::{
    default_along_line_distance, default_bisector_length, AppView, Event, Outcome,
};
use crate::store::GraphView;
use vstd::prelude::*;

verus! {

impl GraphView {
    /// How many entities, of all kinds together, have the id `id`.
    pub open spec fn occurrences(self, id: u32) -> nat {
        count_id::<VPoint>(self.points, id) + count_id::<VLine>(self.lines, id) + count_id::<
            VCubicBezier,
        >(self.splines, id) + count_id::<VBisector>(self.bisectors, id) + count_id::<
            VPointAlongLine,
        >(self.along_lines, id) + count_id::<VArc>(self.arcs, id) + count_id::<VContour>(
            self.contours,
            id,
        ) + count_id::<VMirror>(self.mirrors, id)
    }

    /// No two entities of any kind share an id, and the generator is past
    /// every id in use: it will hand none of them out again.
    pub open spec fn ids_sound(self) -> bool {
        forall|id: u32|
            #![trigger self.occurrences(id)]
            self.occurrences(id) <= 1 && (self.occurrences(id) >= 1 ==> id < self.next_id)
    }

    /// Every point that a line, a curve, a bisector, a point along a line or
    /// an arc references is in the graph.
    pub open spec fn references_present(self) -> bool {
        &&& refs_present::<VLine>(self.points, self.lines)
        &&& refs_present::<VCubicBezier>(self.points, self.splines)
        &&& refs_present::<VBisector>(self.points, self.bisectors)
        &&& refs_present::<VPointAlongLine>(self.points, self.along_lines)
        &&& refs_present::<VArc>(self.points, self.arcs)
    }

    /// The point that completed an entity differs from the points picked
    /// before it where it must: a line's two ends differ, a curve's end is
    /// none of its other three points, a bisector's third point is neither
    /// its first nor its vertex, a point along a line has two different
    /// points, and a mirror's axis has two different points.
    pub open spec fn roles_distinct(self) -> bool {
        &&& forall|v| #[trigger] self.lines.contains(v) ==> v.start_point_id != v.end_point_id
        &&& forall|v| #[trigger]
            self.splines.contains(v) ==> v.p4_id != v.p1_id && v.p4_id != v.p2_id && v.p4_id
                != v.p3_id
        &&& forall|v| #[trigger]
            self.bisectors.contains(v) ==> v.p3_id != v.p1_id && v.p3_id != v.vertex_id
        &&& forall|v| #[trigger] self.along_lines.contains(v) ==> v.p2_id != v.p1_id
        &&& forall|v| #[trigger] self.mirrors.contains(v) ==> v.axis_p2_id != v.axis_p1_id
    }

    /// What holds of every graph that a session builds from nothing.
    pub open spec fn valid(self) -> bool {
        &&& self.ids_sound()
        &&& self.references_present()
        &&& self.roles_distinct()
    }
}

/// In a graph with sound ids, the id handed out next belongs to no entity.
pub proof fn lemma_next_id_is_unused(s: GraphView)
    requires
        s.ids_sound(),
    ensures
        s.occurrences(s.next_id) == 0,
        forall|r: EntityRef| #[trigger] s.contains(r) ==> r.spec_id() != s.next_id,
        !has_id::<VContour>(s.contours, s.next_id),
        !has_id::<VMirror>(s.mirrors, s.next_id),
{
    let id = s.next_id;
    assert(s.occurrences(id) <= 1 && (s.occurrences(id) >= 1 ==> id < s.next_id));
    lemma_count_zero_iff_absent::<VPoint>(s.points, id);
    lemma_count_zero_iff_absent::<VLine>(s.lines, id);
    lemma_count_zero_iff_absent::<VCubicBezier>(s.splines, id);
    lemma_count_zero_iff_absent::<VBisector>(s.bisectors, id);
    lemma_count_zero_iff_absent::<VPointAlongLine>(s.along_lines, id);
    lemma_count_zero_iff_absent::<VArc>(s.arcs, id);
    lemma_count_zero_iff_absent::<VContour>(s.contours, id);
    lemma_count_zero_iff_absent::<VMirror>(s.mirrors, id);
}

/// The empty graph is valid.
pub proof fn lemma_empty_valid()
    ensures
        GraphView::empty().valid(),
{
    let s = GraphView::empty();
    assert forall|id: u32| #![trigger s.occurrences(id)] s.occurrences(id) == 0 by {}
}

/// Making a point keeps a graph valid.
pub proof fn lemma_add_point_valid(s: GraphView, x: Scalar, y: Scalar)
    requires
        s.valid(),
    ensures
        s.add_point(x, y).valid(),
{
    let t = s.add_point(x, y);
    if !s.exhausted() {
        let e = t.points.last();
        assert(t.points == s.points.push(e));
        assert forall|id: u32|
            #![trigger t.occurrences(id)]
            t.occurrences(id) <= 1 && (t.occurrences(id) >= 1 ==> id < t.next_id) by {
            lemma_count_push::<VPoint>(s.points, e, id);
            assert(s.occurrences(id) <= 1 && (s.occurrences(id) >= 1 ==> id < s.next_id));
        }
        assert forall|pid: u32| has_id::<VPoint>(s.points, pid) implies has_id::<VPoint>(
            t.points,
            pid,
        ) by {
            lemma_has_id_push::<VPoint>(s.points, e, pid);
        }
        lemma_refs_present_more_points::<VLine>(s.points, t.points, s.lines);
        lemma_refs_present_more_points::<VCubicBezier>(s.points, t.points, s.splines);
        lemma_refs_present_more_points::<VBisector>(s.points, t.points, s.bisectors);
        lemma_refs_present_more_points::<VPointAlongLine>(s.points, t.points, s.along_lines);
        lemma_refs_present_more_points::<VArc>(s.points, t.points, s.arcs);
    }
}

/// Making a line between two different points of the graph keeps it valid.
pub proof fn lemma_add_line_valid(s: GraphView, start: u32, end: u32)
    requires
        s.valid(),
        s.has_point(start),
        s.has_point(end),
        start != end,
    ensures
        s.add_line(start, end).valid(),
{
    let t = s.add_line(start, end);
    if !s.exhausted() {
        let e = t.lines.last();
        assert(t.lines == s.lines.push(e));
        assert forall|id: u32|
            #![trigger t.occurrences(id)]
            t.occurrences(id) <= 1 && (t.occurrences(id) >= 1 ==> id < t.next_id) by {
            lemma_count_push::<VLine>(s.lines, e, id);
            assert(s.occurrences(id) <= 1 && (s.occurrences(id) >= 1 ==> id < s.next_id));
        }
        assert forall|pid: u32| #[trigger] depends_on::<VLine>(e, pid) implies has_id::<VPoint>(
            s.points,
            pid,
        ) by {}
        lemma_refs_present_after_push::<VLine>(s.points, s.lines, e);
        lemma_push_membership(s.lines, e);
    }
}

/// Making a curve through points of the graph, whose end is none of its
/// other three points, keeps the graph valid.
pub proof fn lemma_add_spline_valid(s: GraphView, p1: u32, p2: u32, p3: u32, p4: u32)
    requires
        s.valid(),
        s.has_point(p1),
        s.has_point(p2),
        s.has_point(p3),
        s.has_point(p4),
        p4 != p1 && p4 != p2 && p4 != p3,
    ensures
        s.add_spline(p1, p2, p3, p4).valid(),
{
    let t = s.add_spline(p1, p2, p3, p4);
    if !s.exhausted() {
        let e = t.splines.last();
        assert(t.splines == s.splines.push(e));
        assert forall|id: u32|
            #![trigger t.occurrences(id)]
            t.occurrences(id) <= 1 && (t.occurrences(id) >= 1 ==> id < t.next_id) by {
            lemma_count_push::<VCubicBezier>(s.splines, e, id);
            assert(s.occurrences(id) <= 1 && (s.occurrences(id) >= 1 ==> id < s.next_id));
        }
        assert forall|pid: u32| #[trigger]
            depends_on::<VCubicBezier>(e, pid) implies has_id::<VPoint>(s.points, pid) by {}
        lemma_refs_present_after_push::<VCubicBezier>(s.points, s.splines, e);
        lemma_push_membership(s.splines, e);
    }
}

/// Making a bisector on points of the graph, whose third point is neither
/// its first nor its vertex, keeps the graph valid.
pub proof fn lemma_add_bisector_valid(s: GraphView, p1: u32, vertex: u32, p3: u32, length: Scalar)
    requires
        s.valid(),
        s.has_point(p1),
        s.has_point(vertex),
        s.has_point(p3),
        p3 != p1 && p3 != vertex,
    ensures
        s.add_bisector(p1, vertex, p3, length).valid(),
{
    let t = s.add_bisector(p1, vertex, p3, length);
    if !s.exhausted() {
        let e = t.bisectors.last();
        assert(t.bisectors == s.bisectors.push(e));
        assert forall|id: u32|
            #![trigger t.occurrences(id)]
            t.occurrences(id) <= 1 && (t.occurrences(id) >= 1 ==> id < t.next_id) by {
            lemma_count_push::<VBisector>(s.bisectors, e, id);
            assert(s.occurrences(id) <= 1 && (s.occurrences(id) >= 1 ==> id < s.next_id));
        }
        assert forall|pid: u32| #[trigger] depends_on::<VBisector>(e, pid) implies has_id::<VPoint>(
            s.points,
            pid,
        ) by {}
        lemma_refs_present_after_push::<VBisector>(s.points, s.bisectors, e);
        lemma_push_membership(s.bisectors, e);
    }
}

/// Making a point along a line on two different points of the graph keeps
/// it valid.
pub proof fn lemma_add_along_line_valid(s: GraphView, p1: u32, p2: u32, distance: Scalar)
    requires
        s.valid(),
        s.has_point(p1),
        s.has_point(p2),
        p2 != p1,
    ensures
        s.add_along_line(p1, p2, distance).valid(),
{
    let t = s.add_along_line(p1, p2, distance);
    if !s.exhausted() {
        let e = t.along_lines.last();
        assert(t.along_lines == s.along_lines.push(e));
        assert forall|id: u32|
            #![trigger t.occurrences(id)]
            t.occurrences(id) <= 1 && (t.occurrences(id) >= 1 ==> id < t.next_id) by {
            lemma_count_push::<VPointAlongLine>(s.along_lines, e, id);
            assert(s.occurrences(id) <= 1 && (s.occurrences(id) >= 1 ==> id < s.next_id));
        }
        assert forall|pid: u32| #[trigger]
            depends_on::<VPointAlongLine>(e, pid) implies has_id::<VPoint>(s.points, pid) by {}
        lemma_refs_present_after_push::<VPointAlongLine>(s.points, s.along_lines, e);
        lemma_push_membership(s.along_lines, e);
    }
}

/// Making an arc about a point of the graph keeps it valid.
pub proof fn lemma_add_arc_valid(
    s: GraphView,
    center: u32,
    radius: Scalar,
    start_angle: Scalar,
    end_angle: Scalar,
)
    requires
        s.valid(),
        s.has_point(center),
    ensures
        s.add_arc(center, radius, start_angle, end_angle).valid(),
{
    let t = s.add_arc(center, radius, start_angle, end_angle);
    if !s.exhausted() {
        let e = t.arcs.last();
        assert(t.arcs == s.arcs.push(e));
        assert forall|id: u32|
            #![trigger t.occurrences(id)]
            t.occurrences(id) <= 1 && (t.occurrences(id) >= 1 ==> id < t.next_id) by {
            lemma_count_push::<VArc>(s.arcs, e, id);
            assert(s.occurrences(id) <= 1 && (s.occurrences(id) >= 1 ==> id < s.next_id));
        }
        assert forall|pid: u32| #[trigger] depends_on::<VArc>(e, pid) implies has_id::<VPoint>(
            s.points,
            pid,
        ) by {}
        lemma_refs_present_after_push::<VArc>(s.points, s.arcs, e);
    }
}

/// Making a contour keeps a graph valid.
pub proof fn lemma_add_contour_valid(s: GraphView)
    requires
        s.valid(),
    ensures
        s.add_contour().valid(),
{
    let t = s.add_contour();
    if !s.exhausted() {
        let e = t.contours.last();
        assert(t.contours == s.contours.push(e));
        assert forall|id: u32|
            #![trigger t.occurrences(id)]
            t.occurrences(id) <= 1 && (t.occurrences(id) >= 1 ==> id < t.next_id) by {
            lemma_count_push::<VContour>(s.contours, e, id);
            assert(s.occurrences(id) <= 1 && (s.occurrences(id) >= 1 ==> id < s.next_id));
        }
    }
}

/// Making a mirror across an axis of two different points keeps a graph valid.
pub proof fn lemma_add_mirror_valid(
    s: GraphView,
    sources: Seq<EntityRef>,
    axis_p1: u32,
    axis_p2: u32,
)
    requires
        s.valid(),
        axis_p2 != axis_p1,
    ensures
        s.add_mirror(sources, axis_p1, axis_p2).valid(),
{
    let t = s.add_mirror(sources, axis_p1, axis_p2);
    if !s.exhausted() {
        let e = t.mirrors.last();
        assert(t.mirrors == s.mirrors.push(e));
        assert forall|id: u32|
            #![trigger t.occurrences(id)]
            t.occurrences(id) <= 1 && (t.occurrences(id) >= 1 ==> id < t.next_id) by {
            lemma_count_push::<VMirror>(s.mirrors, e, id);
            assert(s.occurrences(id) <= 1 && (s.occurrences(id) >= 1 ==> id < s.next_id));
        }
        lemma_push_membership(s.mirrors, e);
    }
}

/// Deleting a point removes the point and, in the same step, exactly the
/// lines, curves, bisectors, points along a line and arcs that reference it
/// in any role. Every entity that does not reference it stays, in its place
/// among those that stay; contours, mirrors and the generator are untouched.
pub proof fn lemma_delete_point_cascades(s: GraphView, pid: u32)
    ensures
        !s.delete_point(pid).has_point(pid),
        forall|v| #[trigger]
            s.delete_point(pid).points.contains(v) <==> s.points.contains(v) && v.metadata.id
                != pid,
        forall|v| #[trigger]
            s.delete_point(pid).lines.contains(v) <==> s.lines.contains(v) && !depends_on::<VLine>(
                v,
                pid,
            ),
        forall|v| #[trigger]
            s.delete_point(pid).splines.contains(v) <==> s.splines.contains(v) && !depends_on::<
                VCubicBezier,
            >(v, pid),
        forall|v| #[trigger]
            s.delete_point(pid).bisectors.contains(v) <==> s.bisectors.contains(v) && !depends_on::<
                VBisector,
            >(v, pid),
        forall|v| #[trigger]
            s.delete_point(pid).along_lines.contains(v) <==> s.along_lines.contains(v)
                && !depends_on::<VPointAlongLine>(v, pid),
        forall|v| #[trigger]
            s.delete_point(pid).arcs.contains(v) <==> s.arcs.contains(v) && !depends_on::<VArc>(
                v,
                pid,
            ),
        s.delete_point(pid).contours == s.contours,
        s.delete_point(pid).mirrors == s.mirrors,
        s.delete_point(pid).next_id == s.next_id,
{
    lemma_has_id_without::<VPoint>(s.points, pid, pid);
    lemma_filter_membership(s.points, has_other_id::<VPoint>(pid));
    lemma_filter_membership(s.lines, is_independent::<VLine>(pid));
    lemma_filter_membership(s.splines, is_independent::<VCubicBezier>(pid));
    lemma_filter_membership(s.bisectors, is_independent::<VBisector>(pid));
    lemma_filter_membership(s.along_lines, is_independent::<VPointAlongLine>(pid));
    lemma_filter_membership(s.arcs, is_independent::<VArc>(pid));
}

/// What it is to reference a point, role by role.
pub proof fn lemma_roles(pid: u32)
    ensures
        forall|v| #[trigger]
            depends_on::<VLine>(v, pid) <==> v.start_point_id == pid || v.end_point_id == pid,
        forall|v| #[trigger]
            depends_on::<VCubicBezier>(v, pid) <==> v.p1_id == pid || v.p2_id == pid || v.p3_id
                == pid || v.p4_id == pid,
        forall|v| #[trigger]
            depends_on::<VBisector>(v, pid) <==> v.p1_id == pid || v.vertex_id == pid || v.p3_id
                == pid,
        forall|v| #[trigger]
            depends_on::<VPointAlongLine>(v, pid) <==> v.p1_id == pid || v.p2_id == pid,
        forall|v| #[trigger] depends_on::<VArc>(v, pid) <==> v.center_id == pid,
{
    assert forall|v| #[trigger]
        depends_on::<VLine>(v, pid) <==> v.start_point_id == pid || v.end_point_id == pid by {
        let refs = VLine::point_refs(v);
        assert(refs[0] == v.start_point_id && refs[1] == v.end_point_id);
    }
    assert forall|v| #[trigger]
        depends_on::<VCubicBezier>(v, pid) <==> v.p1_id == pid || v.p2_id == pid || v.p3_id == pid
            || v.p4_id == pid by {
        let refs = VCubicBezier::point_refs(v);
        assert(refs[0] == v.p1_id && refs[1] == v.p2_id && refs[2] == v.p3_id && refs[3]
            == v.p4_id);
    }
    assert forall|v| #[trigger]
        depends_on::<VBisector>(v, pid) <==> v.p1_id == pid || v.vertex_id == pid || v.p3_id
            == pid by {
        let refs = VBisector::point_refs(v);
        assert(refs[0] == v.p1_id && refs[1] == v.vertex_id && refs[2] == v.p3_id);
    }
    assert forall|v| #[trigger]
        depends_on::<VPointAlongLine>(v, pid) <==> v.p1_id == pid || v.p2_id == pid by {
        let refs = VPointAlongLine::point_refs(v);
        assert(refs[0] == v.p1_id && refs[1] == v.p2_id);
    }
    assert forall|v| #[trigger] depends_on::<VArc>(v, pid) <==> v.center_id == pid by {
        let refs = VArc::point_refs(v);
        assert(refs[0] == v.center_id);
    }
}

/// Deleting a point, with what references it, keeps a graph valid.
pub proof fn lemma_delete_point_valid(s: GraphView, pid: u32)
    requires
        s.valid(),
    ensures
        s.delete_point(pid).valid(),
{
    let t = s.delete_point(pid);
    assert forall|id: u32|
        #![trigger t.occurrences(id)]
        t.occurrences(id) <= 1 && (t.occurrences(id) >= 1 ==> id < t.next_id) by {
        lemma_count_filter::<VPoint>(s.points, has_other_id::<VPoint>(pid), id);
        lemma_count_filter::<VLine>(s.lines, is_independent::<VLine>(pid), id);
        lemma_count_filter::<VCubicBezier>(s.splines, is_independent::<VCubicBezier>(pid), id);
        lemma_count_filter::<VBisector>(s.bisectors, is_independent::<VBisector>(pid), id);
        lemma_count_filter::<VPointAlongLine>(
            s.along_lines,
            is_independent::<VPointAlongLine>(pid),
            id,
        );
        lemma_count_filter::<VArc>(s.arcs, is_independent::<VArc>(pid), id);
        assert(s.occurrences(id) <= 1 && (s.occurrences(id) >= 1 ==> id < s.next_id));
    }
    lemma_refs_present_after_cascade::<VLine>(s.points, s.lines, pid);
    lemma_refs_present_after_cascade::<VCubicBezier>(s.points, s.splines, pid);
    lemma_refs_present_after_cascade::<VBisector>(s.points, s.bisectors, pid);
    lemma_refs_present_after_cascade::<VPointAlongLine>(s.points, s.along_lines, pid);
    lemma_refs_present_after_cascade::<VArc>(s.points, s.arcs, pid);
    lemma_delete_point_cascades(s, pid);
}

/// Deleting any entity keeps a graph valid.
pub proof fn lemma_delete_valid(s: GraphView, item: SelectedItem)
    requires
        s.valid(),
    ensures
        s.delete(item).valid(),
{
    let t = s.delete(item);
    match item {
        SelectedItem::Nothing => {},
        SelectedItem::Point(id) => {
            lemma_delete_point_valid(s, id);
        },
        SelectedItem::Line(gone) => {
            assert forall|id: u32|
                #![trigger t.occurrences(id)]
                t.occurrences(id) <= 1 && (t.occurrences(id) >= 1 ==> id < t.next_id) by {
                lemma_count_filter::<VLine>(s.lines, has_other_id::<VLine>(gone), id);
                assert(s.occurrences(id) <= 1 && (s.occurrences(id) >= 1 ==> id < s.next_id));
            }
            lemma_refs_present_after_filter::<VLine>(
                s.points,
                s.lines,
                has_other_id::<VLine>(gone),
            );
            lemma_filter_membership(s.lines, has_other_id::<VLine>(gone));
        },
        SelectedItem::Spline(gone) => {
            assert forall|id: u32|
                #![trigger t.occurrences(id)]
                t.occurrences(id) <= 1 && (t.occurrences(id) >= 1 ==> id < t.next_id) by {
                lemma_count_filter::<VCubicBezier>(
                    s.splines,
                    has_other_id::<VCubicBezier>(gone),
                    id,
                );
                assert(s.occurrences(id) <= 1 && (s.occurrences(id) >= 1 ==> id < s.next_id));
            }
            lemma_refs_present_after_filter::<VCubicBezier>(
                s.points,
                s.splines,
                has_other_id::<VCubicBezier>(gone),
            );
            lemma_filter_membership(s.splines, has_other_id::<VCubicBezier>(gone));
        },
        SelectedItem::Bisector(gone) => {
            assert forall|id: u32|
                #![trigger t.occurrences(id)]
                t.occurrences(id) <= 1 && (t.occurrences(id) >= 1 ==> id < t.next_id) by {
                lemma_count_filter::<VBisector>(s.bisectors, has_other_id::<VBisector>(gone), id);
                assert(s.occurrences(id) <= 1 && (s.occurrences(id) >= 1 ==> id < s.next_id));
            }
            lemma_refs_present_after_filter::<VBisector>(
                s.points,
                s.bisectors,
                has_other_id::<VBisector>(gone),
            );
            lemma_filter_membership(s.bisectors, has_other_id::<VBisector>(gone));
        },
        SelectedItem::Arc(gone) => {
            assert forall|id: u32|
                #![trigger t.occurrences(id)]
                t.occurrences(id) <= 1 && (t.occurrences(id) >= 1 ==> id < t.next_id) by {
                lemma_count_filter::<VArc>(s.arcs, has_other_id::<VArc>(gone), id);
                assert(s.occurrences(id) <= 1 && (s.occurrences(id) >= 1 ==> id < s.next_id));
            }
            lemma_refs_present_after_filter::<VArc>(s.points, s.arcs, has_other_id::<VArc>(gone));
        },
        SelectedItem::AlongLine(gone) => {
            assert forall|id: u32|
                #![trigger t.occurrences(id)]
                t.occurrences(id) <= 1 && (t.occurrences(id) >= 1 ==> id < t.next_id) by {
                lemma_count_filter::<VPointAlongLine>(
                    s.along_lines,
                    has_other_id::<VPointAlongLine>(gone),
                    id,
                );
                assert(s.occurrences(id) <= 1 && (s.occurrences(id) >= 1 ==> id < s.next_id));
            }
            lemma_refs_present_after_filter::<VPointAlongLine>(
                s.points,
                s.along_lines,
                has_other_id::<VPointAlongLine>(gone),
            );
            lemma_filter_membership(s.along_lines, has_other_id::<VPointAlongLine>(gone));
        },
        SelectedItem::Contour(gone) => {
            assert forall|id: u32|
                #![trigger t.occurrences(id)]
                t.occurrences(id) <= 1 && (t.occurrences(id) >= 1 ==> id < t.next_id) by {
                lemma_count_filter::<VContour>(s.contours, has_other_id::<VContour>(gone), id);
                assert(s.occurrences(id) <= 1 && (s.occurrences(id) >= 1 ==> id < s.next_id));
            }
        },
    }
}

/// Moving a point keeps a graph valid.
pub proof fn lemma_move_point_valid(s: GraphView, pid: u32, x: Scalar, y: Scalar)
    requires
        s.valid(),
    ensures
        s.move_point(pid, x, y).valid(),
{
    let t = s.move_point(pid, x, y);
    lemma_position_some_iff_has_id::<VPoint>(s.points, pid);
    match position::<VPoint>(s.points, pid) {
        Some(k) => {
            let moved = VPointView { coords: Point2D { x, y }, ..s.points[k] };
            assert(t.points == s.points.update(k, moved));
            assert forall|id: u32|
                #![trigger t.occurrences(id)]
                t.occurrences(id) <= 1 && (t.occurrences(id) >= 1 ==> id < t.next_id) by {
                lemma_count_update::<VPoint>(s.points, k, moved, id);
                assert(s.occurrences(id) <= 1 && (s.occurrences(id) >= 1 ==> id < s.next_id));
            }
            assert forall|q: u32| has_id::<VPoint>(s.points, q) implies has_id::<VPoint>(
                t.points,
                q,
            ) by {
                lemma_has_id_update::<VPoint>(s.points, k, moved, q);
            }
            lemma_refs_present_more_points::<VLine>(s.points, t.points, s.lines);
            lemma_refs_present_more_points::<VCubicBezier>(s.points, t.points, s.splines);
            lemma_refs_present_more_points::<VBisector>(s.points, t.points, s.bisectors);
            lemma_refs_present_more_points::<VPointAlongLine>(s.points, t.points, s.along_lines);
            lemma_refs_present_more_points::<VArc>(s.points, t.points, s.arcs);
        },
        None => {},
    }
}

/// Adding a reference to a contour keeps a graph valid.
pub proof fn lemma_append_to_contour_valid(s: GraphView, cid: u32, r: EntityRef)
    requires
        s.valid(),
    ensures
        s.append_to_contour(cid, r).valid(),
{
    let t = s.append_to_contour(cid, r);
    lemma_position_some_iff_has_id::<VContour>(s.contours, cid);
    match position::<VContour>(s.contours, cid) {
        Some(k) => {
            let longer = VContourView {
                entities: s.contours[k].entities.push(r),
                ..s.contours[k]
            };
            assert(t.contours == s.contours.update(k, longer));
            assert forall|id: u32|
                #![trigger t.occurrences(id)]
                t.occurrences(id) <= 1 && (t.occurrences(id) >= 1 ==> id < t.next_id) by {
                lemma_count_update::<VContour>(s.contours, k, longer, id);
                assert(s.occurrences(id) <= 1 && (s.occurrences(id) >= 1 ==> id < s.next_id));
            }
        },
        None => {},
    }
}

/// A click on a point keeps the graph valid: a chain makes its entity only
/// from points that are in the graph and that differ where they must.
pub proof fn lemma_click_point_valid(s: AppView, pid: u32)
    requires
        s.store.valid(),
    ensures
        s.click_point(pid).store.valid(),
{
    if s.store.has_point(pid) && s.commits(pid) {
        match s.mode {
            ModeView::AwaitingLineEnd { first_point_id } => {
                lemma_add_line_valid(s.store, first_point_id, pid);
            },
            ModeView::BezierEnd { p1, p2, p3 } => {
                lemma_add_spline_valid(s.store, p1, p2, p3, pid);
            },
            ModeView::BisectorEnd { p1, vertex } => {
                lemma_add_bisector_valid(s.store, p1, vertex, pid, default_bisector_length());
            },
            ModeView::AlongLineEnd { p1 } => {
                lemma_add_along_line_valid(s.store, p1, pid, default_along_line_distance());
            },
            ModeView::MirrorAxisEnd { refs, axis_p1 } => {
                lemma_add_mirror_valid(s.store, refs, axis_p1, pid);
            },
            _ => {},
        }
    }
}

/// Every event keeps the graph valid. So every graph that a session builds
/// from nothing is valid: ids are never shared nor handed out twice, no
/// line, curve, bisector, point along a line or arc is without one of its
/// points, and no entity was completed by a point it had already picked.
pub proof fn lemma_step_valid(s: AppView, event: Event)
    requires
        s.store.valid(),
    ensures
        s.step(event).store.valid(),
{
    match event {
        Event::ToolSelected(tool) => {
            lemma_add_contour_valid(s.store);
        },
        Event::BackgroundClicked { x, y } => {
            lemma_add_point_valid(s.store, x, y);
        },
        Event::EntityClicked(target) => {
            match target {
                EntityRef::Point(pid) => {
                    lemma_click_point_valid(s, pid);
                },
                _ => {
                    if let ModeView::ContourCreation { active_contour_id } = s.mode {
                        lemma_append_to_contour_valid(s.store, active_contour_id, target);
                    }
                },
            }
        },
        Event::ArcMeasured { center, radius, start_angle, end_angle } => {
            if s.store.has_point(center) {
                lemma_add_arc_valid(s.store, center, radius, start_angle, end_angle);
            }
        },
        Event::SelectionFinished => {},
        Event::PointerMoved { x, y } => {
            if let Some(pid) = s.dragging {
                lemma_move_point_valid(s.store, pid, x, y);
            }
        },
        Event::PointerReleased => {},
        Event::DeleteRequested => {
            lemma_delete_valid(s.store, s.selection);
        },
    }
}

/// A new session starts valid.
pub proof fn lemma_initial_valid()
    ensures
        AppView::initial().store.valid(),
{
    lemma_empty_valid();
}

/// Picking a tool drops whatever a chain had collected: the new mode is the
/// first state of its tool, and no entity but a new, empty contour is made.
pub proof fn lemma_select_tool_restarts(s: AppView, tool: Tool)
    ensures
        s.select_tool(tool).mode.is_initial(),
        s.select_tool(tool).mode.tool() == tool || (tool == Tool::Contour && s.store.exhausted()),
        s.select_tool(tool).store == if tool == Tool::Contour {
            s.store.add_contour()
        } else {
            s.store
        },
{
}

/// At the last step of a chain, a click on a point of the graph always
/// returns the tool to its first state, and makes nothing unless the click
/// commits. In particular a click on a point that the chain had already
/// picked where it may not recur makes nothing.
pub proof fn lemma_last_step_restarts(s: AppView, pid: u32)
    requires
        s.store.has_point(pid),
        s.mode is AwaitingLineEnd || s.mode is BezierEnd || s.mode is BisectorEnd
            || s.mode is AlongLineEnd || s.mode is MirrorAxisEnd,
    ensures
        s.click_point(pid).mode.is_initial(),
        s.click_point(pid).mode.tool() == s.mode.tool(),
        !s.commits(pid) ==> s.click_point(pid).store == s.store,
        !s.commits(pid) ==> s.click_point_outcome(pid) == Outcome::Done,
{
}

/// Saving and loading keeps soundness of ids: after a round trip the
/// generator still hands out no id that is in use.
pub proof fn lemma_round_trip_keeps_ids(s: GraphView)
    requires
        s.ids_sound(),
    ensures
        s.to_project().to_store().ids_sound(),
        s.to_project().to_store().occurrences(s.to_project().to_store().next_id) == 0,
{
    crate::project::lemma_save_load_round_trip(s);
    lemma_next_id_is_unused(s);
}

} // verus!
