use crate::object::{duplicate_refs, EntityRef};
use vstd::prelude::*;

verus! {

/// The tools a user can pick.
#[derive(Debug, Clone, Copy, PartialEq, Eq, Structural)]
pub enum Tool {
    Point,
    Line,
    Spline,
    Bisector,
    AlongLine,
    Arc,
    Mirror,
    Contour,
}

/// The active tool together with what its construction chain has collected
/// so far, as a value.
pub enum ModeView {
    PlacePoint,
    AwaitingLineStart,
    AwaitingLineEnd { first_point_id: u32 },
    BezierStart,
    BezierControl1 { p1: u32 },
    BezierControl2 { p1: u32, p2: u32 },
    BezierEnd { p1: u32, p2: u32, p3: u32 },
    BisectorStart,
    BisectorVertex { p1: u32 },
    BisectorEnd { p1: u32, vertex: u32 },
    AlongLineStart,
    AlongLineEnd { p1: u32 },
    ArcCenter,
    ArcRadius { center: u32 },
    MirrorSelecting { refs: Seq<EntityRef> },
    MirrorAxisStart { refs: Seq<EntityRef> },
    MirrorAxisEnd { refs: Seq<EntityRef>, axis_p1: u32 },
    ContourCreation { active_contour_id: u32 },
}

impl ModeView {
    /// The tool that a mode belongs to.
    pub open spec fn tool(self) -> Tool {
        match self {
            ModeView::PlacePoint => Tool::Point,
            ModeView::AwaitingLineStart => Tool::Line,
            ModeView::AwaitingLineEnd { .. } => Tool::Line,
            ModeView::BezierStart => Tool::Spline,
            ModeView::BezierControl1 { .. } => Tool::Spline,
            ModeView::BezierControl2 { .. } => Tool::Spline,
            ModeView::BezierEnd { .. } => Tool::Spline,
            ModeView::BisectorStart => Tool::Bisector,
            ModeView::BisectorVertex { .. } => Tool::Bisector,
            ModeView::BisectorEnd { .. } => Tool::Bisector,
            ModeView::AlongLineStart => Tool::AlongLine,
            ModeView::AlongLineEnd { .. } => Tool::AlongLine,
            ModeView::ArcCenter => Tool::Arc,
            ModeView::ArcRadius { .. } => Tool::Arc,
            ModeView::MirrorSelecting { .. } => Tool::Mirror,
            ModeView::MirrorAxisStart { .. } => Tool::Mirror,
            ModeView::MirrorAxisEnd { .. } => Tool::Mirror,
            ModeView::ContourCreation { .. } => Tool::Contour,
        }
    }

    /// Whether a mode is the first state of its tool: nothing has been
    /// collected yet.
    pub open spec fn is_initial(self) -> bool {
        match self {
            ModeView::PlacePoint => true,
            ModeView::AwaitingLineStart => true,
            ModeView::BezierStart => true,
            ModeView::BisectorStart => true,
            ModeView::AlongLineStart => true,
            ModeView::ArcCenter => true,
            ModeView::MirrorSelecting { refs } => refs.len() == 0,
            ModeView::ContourCreation { .. } => true,
            _ => false,
        }
    }

    /// The points that the chain has picked so far, in the order of picking.
    /// What a mirror lists as its sources does not count.
    pub open spec fn chain_points(self) -> Seq<u32> {
        match self {
            ModeView::AwaitingLineEnd { first_point_id } => seq![first_point_id],
            ModeView::BezierControl1 { p1 } => seq![p1],
            ModeView::BezierControl2 { p1, p2 } => seq![p1, p2],
            ModeView::BezierEnd { p1, p2, p3 } => seq![p1, p2, p3],
            ModeView::BisectorVertex { p1 } => seq![p1],
            ModeView::BisectorEnd { p1, vertex } => seq![p1, vertex],
            ModeView::AlongLineEnd { p1 } => seq![p1],
            ModeView::ArcRadius { center } => seq![center],
            ModeView::MirrorAxisEnd { axis_p1, .. } => seq![axis_p1],
            _ => Seq::empty(),
        }
    }
}

/// The active tool together with what its construction chain has collected
/// so far. Each step of a chain is a variant of its own, so a half-built
/// entity can hold neither too few nor too many points.
#[derive(Debug, PartialEq)]
pub enum CanvasMode {
    /// Place points, select, drag.
    PlacePoint,
    AwaitingLineStart,
    AwaitingLineEnd { first_point_id: u32 },
    BezierStart,
    BezierControl1 { p1: u32 },
    BezierControl2 { p1: u32, p2: u32 },
    BezierEnd { p1: u32, p2: u32, p3: u32 },
    BisectorStart,
    BisectorVertex { p1: u32 },
    BisectorEnd { p1: u32, vertex: u32 },
    AlongLineStart,
    AlongLineEnd { p1: u32 },
    ArcCenter,
    ArcRadius { center: u32 },
    /// Collecting what a mirror will reflect.
    MirrorSelecting { refs: Vec<EntityRef> },
    MirrorAxisStart { refs: Vec<EntityRef> },
    MirrorAxisEnd { refs: Vec<EntityRef>, axis_p1: u32 },
    /// Adding to the contour `active_contour_id`; this mode never ends by itself.
    ContourCreation { active_contour_id: u32 },
}

impl View for CanvasMode {
    type V = ModeView;

    open spec fn view(&self) -> ModeView {
        match self {
            CanvasMode::PlacePoint => ModeView::PlacePoint,
            CanvasMode::AwaitingLineStart => ModeView::AwaitingLineStart,
            CanvasMode::AwaitingLineEnd { first_point_id } => ModeView::AwaitingLineEnd {
                first_point_id: *first_point_id,
            },
            CanvasMode::BezierStart => ModeView::BezierStart,
            CanvasMode::BezierControl1 { p1 } => ModeView::BezierControl1 { p1: *p1 },
            CanvasMode::BezierControl2 { p1, p2 } => ModeView::BezierControl2 { p1: *p1, p2: *p2 },
            CanvasMode::BezierEnd { p1, p2, p3 } => ModeView::BezierEnd {
                p1: *p1,
                p2: *p2,
                p3: *p3,
            },
            CanvasMode::BisectorStart => ModeView::BisectorStart,
            CanvasMode::BisectorVertex { p1 } => ModeView::BisectorVertex { p1: *p1 },
            CanvasMode::BisectorEnd { p1, vertex } => ModeView::BisectorEnd {
                p1: *p1,
                vertex: *vertex,
            },
            CanvasMode::AlongLineStart => ModeView::AlongLineStart,
            CanvasMode::AlongLineEnd { p1 } => ModeView::AlongLineEnd { p1: *p1 },
            CanvasMode::ArcCenter => ModeView::ArcCenter,
            CanvasMode::ArcRadius { center } => ModeView::ArcRadius { center: *center },
            CanvasMode::MirrorSelecting { refs } => ModeView::MirrorSelecting { refs: refs@ },
            CanvasMode::MirrorAxisStart { refs } => ModeView::MirrorAxisStart { refs: refs@ },
            CanvasMode::MirrorAxisEnd { refs, axis_p1 } => ModeView::MirrorAxisEnd {
                refs: refs@,
                axis_p1: *axis_p1,
            },
            CanvasMode::ContourCreation { active_contour_id } => ModeView::ContourCreation {
                active_contour_id: *active_contour_id,
            },
        }
    }
}

impl Clone for CanvasMode {
    fn clone(&self) -> (r: Self)
        ensures
            r@ == self@,
    {
        match self {
            CanvasMode::PlacePoint => CanvasMode::PlacePoint,
            CanvasMode::AwaitingLineStart => CanvasMode::AwaitingLineStart,
            CanvasMode::AwaitingLineEnd { first_point_id } => CanvasMode::AwaitingLineEnd {
                first_point_id: *first_point_id,
            },
            CanvasMode::BezierStart => CanvasMode::BezierStart,
            CanvasMode::BezierControl1 { p1 } => CanvasMode::BezierControl1 { p1: *p1 },
            CanvasMode::BezierControl2 { p1, p2 } => CanvasMode::BezierControl2 {
                p1: *p1,
                p2: *p2,
            },
            CanvasMode::BezierEnd { p1, p2, p3 } => CanvasMode::BezierEnd {
                p1: *p1,
                p2: *p2,
                p3: *p3,
            },
            CanvasMode::BisectorStart => CanvasMode::BisectorStart,
            CanvasMode::BisectorVertex { p1 } => CanvasMode::BisectorVertex { p1: *p1 },
            CanvasMode::BisectorEnd { p1, vertex } => CanvasMode::BisectorEnd {
                p1: *p1,
                vertex: *vertex,
            },
            CanvasMode::AlongLineStart => CanvasMode::AlongLineStart,
            CanvasMode::AlongLineEnd { p1 } => CanvasMode::AlongLineEnd { p1: *p1 },
            CanvasMode::ArcCenter => CanvasMode::ArcCenter,
            CanvasMode::ArcRadius { center } => CanvasMode::ArcRadius { center: *center },
            CanvasMode::MirrorSelecting { refs } => CanvasMode::MirrorSelecting {
                refs: duplicate_refs(refs),
            },
            CanvasMode::MirrorAxisStart { refs } => CanvasMode::MirrorAxisStart {
                refs: duplicate_refs(refs),
            },
            CanvasMode::MirrorAxisEnd { refs, axis_p1 } => CanvasMode::MirrorAxisEnd {
                refs: duplicate_refs(refs),
                axis_p1: *axis_p1,
            },
            CanvasMode::ContourCreation { active_contour_id } => CanvasMode::ContourCreation {
                active_contour_id: *active_contour_id,
            },
        }
    }
}

impl CanvasMode {
    /// The tool that this mode belongs to.
    pub fn tool(&self) -> (t: Tool)
        ensures
            t == self@.tool(),
    {
        match self {
            CanvasMode::PlacePoint => Tool::Point,
            CanvasMode::AwaitingLineStart => Tool::Line,
            CanvasMode::AwaitingLineEnd { .. } => Tool::Line,
            CanvasMode::BezierStart => Tool::Spline,
            CanvasMode::BezierControl1 { .. } => Tool::Spline,
            CanvasMode::BezierControl2 { .. } => Tool::Spline,
            CanvasMode::BezierEnd { .. } => Tool::Spline,
            CanvasMode::BisectorStart => Tool::Bisector,
            CanvasMode::BisectorVertex { .. } => Tool::Bisector,
            CanvasMode::BisectorEnd { .. } => Tool::Bisector,
            CanvasMode::AlongLineStart => Tool::AlongLine,
            CanvasMode::AlongLineEnd { .. } => Tool::AlongLine,
            CanvasMode::ArcCenter => Tool::Arc,
            CanvasMode::ArcRadius { .. } => Tool::Arc,
            CanvasMode::MirrorSelecting { .. } => Tool::Mirror,
            CanvasMode::MirrorAxisStart { .. } => Tool::Mirror,
            CanvasMode::MirrorAxisEnd { .. } => Tool::Mirror,
            CanvasMode::ContourCreation { .. } => Tool::Contour,
        }
    }

    /// Whether the point `pid` is one of those the chain has picked so far.
    pub fn involves_point(&self, pid: u32) -> (b: bool)
        ensures
            b == self@.chain_points().contains(pid),
    {
        let ghost pts = self@.chain_points();
        match self {
            CanvasMode::AwaitingLineEnd { first_point_id } => {
                assert(pts[0] == *first_point_id);
                *first_point_id == pid
            },
            CanvasMode::BezierControl1 { p1 } => {
                assert(pts[0] == *p1);
                *p1 == pid
            },
            CanvasMode::BezierControl2 { p1, p2 } => {
                assert(pts[0] == *p1 && pts[1] == *p2);
                *p1 == pid || *p2 == pid
            },
            CanvasMode::BezierEnd { p1, p2, p3 } => {
                assert(pts[0] == *p1 && pts[1] == *p2 && pts[2] == *p3);
                *p1 == pid || *p2 == pid || *p3 == pid
            },
            CanvasMode::BisectorVertex { p1 } => {
                assert(pts[0] == *p1);
                *p1 == pid
            },
            CanvasMode::BisectorEnd { p1, vertex } => {
                assert(pts[0] == *p1 && pts[1] == *vertex);
                *p1 == pid || *vertex == pid
            },
            CanvasMode::AlongLineEnd { p1 } => {
                assert(pts[0] == *p1);
                *p1 == pid
            },
            CanvasMode::ArcRadius { center } => {
                assert(pts[0] == *center);
                *center == pid
            },
            CanvasMode::MirrorAxisEnd { axis_p1, .. } => {
                assert(pts[0] == *axis_p1);
                *axis_p1 == pid
            },
            _ => false,
        }
    }
}

} // verus!
