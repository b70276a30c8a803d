use crate::geometry::{Point2D, Scalar};
use crate::types::{DrawMode, GOType};
use vstd::prelude::*;

verus! {

/// The current selection: nothing, or one entity named by kind and id.
#[derive(Clone, Copy, PartialEq, Eq, Debug, Structural)]
pub enum SelectedItem {
    Nothing,
    Point(u32),
    Line(u32),
    Spline(u32),
    Bisector(u32),
    Arc(u32),
    AlongLine(u32),
    Contour(u32),
}

/// A tagged reference to an entity, by kind and id. Contours and mirrors group
/// entities through such references without owning them.
#[derive(Debug, Clone, Copy, PartialEq, Eq, Structural)]
pub enum EntityRef {
    Point(u32),
    Line(u32),
    Spline(u32),
    Bisector(u32),
    Arc(u32),
    AlongLine(u32),
}

impl EntityRef {
    /// The id inside the reference.
    pub open spec fn spec_id(self) -> u32 {
        match self {
            EntityRef::Point(id) => id,
            EntityRef::Line(id) => id,
            EntityRef::Spline(id) => id,
            EntityRef::Bisector(id) => id,
            EntityRef::Arc(id) => id,
            EntityRef::AlongLine(id) => id,
        }
    }

    /// The selection that names the same entity.
    pub open spec fn spec_selection(self) -> SelectedItem {
        match self {
            EntityRef::Point(id) => SelectedItem::Point(id),
            EntityRef::Line(id) => SelectedItem::Line(id),
            EntityRef::Spline(id) => SelectedItem::Spline(id),
            EntityRef::Bisector(id) => SelectedItem::Bisector(id),
            EntityRef::Arc(id) => SelectedItem::Arc(id),
            EntityRef::AlongLine(id) => SelectedItem::AlongLine(id),
        }
    }

    /// The id inside the reference.
    pub fn id(&self) -> (r: u32)
        ensures
            r == self.spec_id(),
    {
        match self {
            EntityRef::Point(id) => *id,
            EntityRef::Line(id) => *id,
            EntityRef::Spline(id) => *id,
            EntityRef::Bisector(id) => *id,
            EntityRef::Arc(id) => *id,
            EntityRef::AlongLine(id) => *id,
        }
    }

    /// The selection that names the same entity.
    pub fn selection(&self) -> (r: SelectedItem)
        ensures
            r == self.spec_selection(),
    {
        match self {
            EntityRef::Point(id) => SelectedItem::Point(*id),
            EntityRef::Line(id) => SelectedItem::Line(*id),
            EntityRef::Spline(id) => SelectedItem::Spline(*id),
            EntityRef::Bisector(id) => SelectedItem::Bisector(*id),
            EntityRef::Arc(id) => SelectedItem::Arc(*id),
            EntityRef::AlongLine(id) => SelectedItem::AlongLine(*id),
        }
    }
}

/// What an entity is, as a value: an exec entity seen through `@`.
pub trait Entity: View + Sized {
    /// The id of an entity, read off its view.
    spec fn id_of(v: Self::V) -> u32;

    fn id(&self) -> (r: u32)
        ensures
            r == Self::id_of(self@),
    ;

    /// A copy with the same view.
    fn duplicate(&self) -> (r: Self)
        ensures
            r@ == self@,
    ;
}

/// An entity whose geometry follows from points it references by id, and that
/// cannot outlive any of them.
pub trait Dependent: Entity {
    /// The ids of the referenced points, one per role, in role order.
    spec fn point_refs(v: Self::V) -> Seq<u32>;

    fn references_point(&self, pid: u32) -> (r: bool)
        ensures
            r == Self::point_refs(self@).contains(pid),
    ;
}

/// Whether the point `pid` fills one of the roles of the entity `v`.
pub open spec fn depends_on<T: Dependent>(v: T::V, pid: u32) -> bool {
    T::point_refs(v).contains(pid)
}

/// The views of a sequence of entities, in order.
pub open spec fn views<T: View>(s: Seq<T>) -> Seq<T::V> {
    s.map_values(|e: T| e@)
}

/// The identity record as a value.
pub struct VGObjectView {
    pub id: u32,
    pub name: Seq<char>,
    pub obj_type: GOType,
    pub mode: DrawMode,
}

/// The identity record that every entity carries.
#[derive(Debug, PartialEq)]
pub struct VGObject {
    pub id: u32,
    pub name: String,
    pub obj_type: GOType,
    pub mode: DrawMode,
}

impl View for VGObject {
    type V = VGObjectView;

    open spec fn view(&self) -> VGObjectView {
        VGObjectView { id: self.id, name: self.name@, obj_type: self.obj_type, mode: self.mode }
    }
}

/// The identity record of a freshly made entity: it belongs to the finished drawing.
pub open spec fn modeling_object(id: u32, name: Seq<char>, obj_type: GOType) -> VGObjectView {
    VGObjectView { id, name, obj_type, mode: DrawMode::Modeling }
}

impl VGObject {
    /// The identity record of a new entity, which belongs to the finished drawing.
    pub fn new(id: u32, name: &str, obj_type: GOType) -> (r: Self)
        ensures
            r@ == modeling_object(id, name@, obj_type),
    {
        Self { id, name: name.to_owned(), obj_type, mode: DrawMode::Modeling }
    }
}

impl Clone for VGObject {
    fn clone(&self) -> (r: Self)
        ensures
            r@ == self@,
    {
        Self { id: self.id, name: self.name.clone(), obj_type: self.obj_type, mode: self.mode }
    }
}

/// A point as a value.
pub struct VPointView {
    pub metadata: VGObjectView,
    pub coords: Point2D,
}

/// A point: the only entity that stores coordinates.
#[derive(Debug, PartialEq)]
pub struct VPoint {
    pub metadata: VGObject,
    pub coords: Point2D,
}

impl View for VPoint {
    type V = VPointView;

    open spec fn view(&self) -> VPointView {
        VPointView { metadata: self.metadata@, coords: self.coords }
    }
}

impl VPoint {
    /// A point at `(x, y)`.
    pub fn new(id: u32, name: &str, x: Scalar, y: Scalar) -> (r: Self)
        ensures
            r@ == (VPointView {
                metadata: modeling_object(id, name@, GOType::Point),
                coords: Point2D { x, y },
            }),
    {
        Self { metadata: VGObject::new(id, name, GOType::Point), coords: Point2D::new(x, y) }
    }

    /// The point's first coordinate.
    pub fn x(&self) -> (r: Scalar)
        ensures
            r == self.coords.x,
    {
        self.coords.x
    }

    /// The point's second coordinate.
    pub fn y(&self) -> (r: Scalar)
        ensures
            r == self.coords.y,
    {
        self.coords.y
    }
}

impl Clone for VPoint {
    fn clone(&self) -> (r: Self)
        ensures
            r@ == self@,
    {
        Self { metadata: self.metadata.clone(), coords: self.coords }
    }
}

impl Entity for VPoint {
    open spec fn id_of(v: VPointView) -> u32 {
        v.metadata.id
    }

    fn id(&self) -> (r: u32) {
        self.metadata.id
    }

    fn duplicate(&self) -> (r: Self) {
        self.clone()
    }
}

/// A line segment as a value.
pub struct VLineView {
    pub metadata: VGObjectView,
    pub start_point_id: u32,
    pub end_point_id: u32,
}

/// A line segment between two points.
#[derive(Debug, PartialEq)]
pub struct VLine {
    pub metadata: VGObject,
    pub start_point_id: u32,
    pub end_point_id: u32,
}

impl View for VLine {
    type V = VLineView;

    open spec fn view(&self) -> VLineView {
        VLineView {
            metadata: self.metadata@,
            start_point_id: self.start_point_id,
            end_point_id: self.end_point_id,
        }
    }
}

impl VLine {
    /// A line from the point `start_id` to the point `end_id`.
    pub fn new(id: u32, name: &str, start_id: u32, end_id: u32) -> (r: Self)
        ensures
            r@ == (VLineView {
                metadata: modeling_object(id, name@, GOType::Line),
                start_point_id: start_id,
                end_point_id: end_id,
            }),
    {
        Self {
            metadata: VGObject::new(id, name, GOType::Line),
            start_point_id: start_id,
            end_point_id: end_id,
        }
    }
}

impl Clone for VLine {
    fn clone(&self) -> (r: Self)
        ensures
            r@ == self@,
    {
        Self {
            metadata: self.metadata.clone(),
            start_point_id: self.start_point_id,
            end_point_id: self.end_point_id,
        }
    }
}

impl Entity for VLine {
    open spec fn id_of(v: VLineView) -> u32 {
        v.metadata.id
    }

    fn id(&self) -> (r: u32) {
        self.metadata.id
    }

    fn duplicate(&self) -> (r: Self) {
        self.clone()
    }
}

impl Dependent for VLine {
    open spec fn point_refs(v: VLineView) -> Seq<u32> {
        seq![v.start_point_id, v.end_point_id]
    }

    fn references_point(&self, pid: u32) -> (r: bool) {
        proof {
            let refs = Self::point_refs(self@);
            assert(refs[0] == self.start_point_id && refs[1] == self.end_point_id);
        }
        self.start_point_id == pid || self.end_point_id == pid
    }
}

/// A cubic Bezier curve as a value.
pub struct VCubicBezierView {
    pub metadata: VGObjectView,
    pub p1_id: u32,
    pub p2_id: u32,
    pub p3_id: u32,
    pub p4_id: u32,
}

/// A cubic Bezier curve: start point, two control points, end point.
#[derive(Debug, PartialEq)]
pub struct VCubicBezier {
    pub metadata: VGObject,
    pub p1_id: u32,
    pub p2_id: u32,
    pub p3_id: u32,
    pub p4_id: u32,
}

impl View for VCubicBezier {
    type V = VCubicBezierView;

    open spec fn view(&self) -> VCubicBezierView {
        VCubicBezierView {
            metadata: self.metadata@,
            p1_id: self.p1_id,
            p2_id: self.p2_id,
            p3_id: self.p3_id,
            p4_id: self.p4_id,
        }
    }
}

impl VCubicBezier {
    /// A curve from `p1` to `p4`, pulled towards `p2` and `p3`.
    pub fn new(id: u32, name: &str, p1: u32, p2: u32, p3: u32, p4: u32) -> (r: Self)
        ensures
            r@ == (VCubicBezierView {
                metadata: modeling_object(id, name@, GOType::Spline),
                p1_id: p1,
                p2_id: p2,
                p3_id: p3,
                p4_id: p4,
            }),
    {
        Self {
            metadata: VGObject::new(id, name, GOType::Spline),
            p1_id: p1,
            p2_id: p2,
            p3_id: p3,
            p4_id: p4,
        }
    }
}

impl Clone for VCubicBezier {
    fn clone(&self) -> (r: Self)
        ensures
            r@ == self@,
    {
        Self {
            metadata: self.metadata.clone(),
            p1_id: self.p1_id,
            p2_id: self.p2_id,
            p3_id: self.p3_id,
            p4_id: self.p4_id,
        }
    }
}

impl Entity for VCubicBezier {
    open spec fn id_of(v: VCubicBezierView) -> u32 {
        v.metadata.id
    }

    fn id(&self) -> (r: u32) {
        self.metadata.id
    }

    fn duplicate(&self) -> (r: Self) {
        self.clone()
    }
}

impl Dependent for VCubicBezier {
    open spec fn point_refs(v: VCubicBezierView) -> Seq<u32> {
        seq![v.p1_id, v.p2_id, v.p3_id, v.p4_id]
    }

    fn references_point(&self, pid: u32) -> (r: bool) {
        proof {
            let refs = Self::point_refs(self@);
            assert(refs[0] == self.p1_id && refs[1] == self.p2_id && refs[2] == self.p3_id
                && refs[3] == self.p4_id);
        }
        self.p1_id == pid || self.p2_id == pid || self.p3_id == pid || self.p4_id == pid
    }
}

/// A bisector as a value.
pub struct VBisectorView {
    pub metadata: VGObjectView,
    pub p1_id: u32,
    pub vertex_id: u32,
    pub p3_id: u32,
    pub length: Scalar,
}

/// The ray from `vertex` that halves the angle between the arms towards `p1`
/// and `p3`, drawn `length` long.
#[derive(Debug, PartialEq)]
pub struct VBisector {
    pub metadata: VGObject,
    pub p1_id: u32,
    pub vertex_id: u32,
    pub p3_id: u32,
    pub length: Scalar,
}

impl View for VBisector {
    type V = VBisectorView;

    open spec fn view(&self) -> VBisectorView {
        VBisectorView {
            metadata: self.metadata@,
            p1_id: self.p1_id,
            vertex_id: self.vertex_id,
            p3_id: self.p3_id,
            length: self.length,
        }
    }
}

impl VBisector {
    /// A bisector of the angle at `vertex` between `p1` and `p3`. It is drawn as a line.
    pub fn new(id: u32, name: &str, p1: u32, vertex: u32, p3: u32, length: Scalar) -> (r: Self)
        ensures
            r@ == (VBisectorView {
                metadata: modeling_object(id, name@, GOType::Line),
                p1_id: p1,
                vertex_id: vertex,
                p3_id: p3,
                length,
            }),
    {
        Self {
            metadata: VGObject::new(id, name, GOType::Line),
            p1_id: p1,
            vertex_id: vertex,
            p3_id: p3,
            length,
        }
    }
}

impl Clone for VBisector {
    fn clone(&self) -> (r: Self)
        ensures
            r@ == self@,
    {
        Self {
            metadata: self.metadata.clone(),
            p1_id: self.p1_id,
            vertex_id: self.vertex_id,
            p3_id: self.p3_id,
            length: self.length,
        }
    }
}

impl Entity for VBisector {
    open spec fn id_of(v: VBisectorView) -> u32 {
        v.metadata.id
    }

    fn id(&self) -> (r: u32) {
        self.metadata.id
    }

    fn duplicate(&self) -> (r: Self) {
        self.clone()
    }
}

impl Dependent for VBisector {
    open spec fn point_refs(v: VBisectorView) -> Seq<u32> {
        seq![v.p1_id, v.vertex_id, v.p3_id]
    }

    fn references_point(&self, pid: u32) -> (r: bool) {
        proof {
            let refs = Self::point_refs(self@);
            assert(refs[0] == self.p1_id && refs[1] == self.vertex_id && refs[2] == self.p3_id);
        }
        self.p1_id == pid || self.vertex_id == pid || self.p3_id == pid
    }
}

/// A circular arc as a value.
pub struct VArcView {
    pub metadata: VGObjectView,
    pub center_id: u32,
    pub radius: Scalar,
    pub start_angle: Scalar,
    pub end_angle: Scalar,
}

/// A circular arc about a center point, between two angles in degrees.
#[derive(Debug, PartialEq)]
pub struct VArc {
    pub metadata: VGObject,
    pub center_id: u32,
    pub radius: Scalar,
    pub start_angle: Scalar,
    pub end_angle: Scalar,
}

impl View for VArc {
    type V = VArcView;

    open spec fn view(&self) -> VArcView {
        VArcView {
            metadata: self.metadata@,
            center_id: self.center_id,
            radius: self.radius,
            start_angle: self.start_angle,
            end_angle: self.end_angle,
        }
    }
}

impl VArc {
    /// An arc about the point `center_id`.
    pub fn new(
        id: u32,
        name: &str,
        center_id: u32,
        radius: Scalar,
        start_angle: Scalar,
        end_angle: Scalar,
    ) -> (r: Self)
        ensures
            r@ == (VArcView {
                metadata: modeling_object(id, name@, GOType::Arc),
                center_id,
                radius,
                start_angle,
                end_angle,
            }),
    {
        Self {
            metadata: VGObject::new(id, name, GOType::Arc),
            center_id,
            radius,
            start_angle,
            end_angle,
        }
    }
}

impl Clone for VArc {
    fn clone(&self) -> (r: Self)
        ensures
            r@ == self@,
    {
        Self {
            metadata: self.metadata.clone(),
            center_id: self.center_id,
            radius: self.radius,
            start_angle: self.start_angle,
            end_angle: self.end_angle,
        }
    }
}

impl Entity for VArc {
    open spec fn id_of(v: VArcView) -> u32 {
        v.metadata.id
    }

    fn id(&self) -> (r: u32) {
        self.metadata.id
    }

    fn duplicate(&self) -> (r: Self) {
        self.clone()
    }
}

impl Dependent for VArc {
    open spec fn point_refs(v: VArcView) -> Seq<u32> {
        seq![v.center_id]
    }

    fn references_point(&self, pid: u32) -> (r: bool) {
        proof {
            let refs = Self::point_refs(self@);
            assert(refs[0] == self.center_id);
        }
        self.center_id == pid
    }
}

/// A contour as a value.
pub struct VContourView {
    pub metadata: VGObjectView,
    pub entities: Seq<EntityRef>,
}

/// A path that groups lines and curves into one piece, in the order they were added.
#[derive(Debug, PartialEq)]
pub struct VContour {
    pub metadata: VGObject,
    pub entities: Vec<EntityRef>,
}

impl View for VContour {
    type V = VContourView;

    open spec fn view(&self) -> VContourView {
        VContourView { metadata: self.metadata@, entities: self.entities@ }
    }
}

impl VContour {
    /// An empty contour.
    pub fn new(id: u32, name: &str) -> (r: Self)
        ensures
            r@ == (VContourView {
                metadata: modeling_object(id, name@, GOType::Spline),
                entities: Seq::empty(),
            }),
    {
        Self { metadata: VGObject::new(id, name, GOType::Spline), entities: Vec::new() }
    }
}

/// A copy of a list of references.
pub fn duplicate_refs(refs: &Vec<EntityRef>) -> (r: Vec<EntityRef>)
    ensures
        r@ == refs@,
{
    let mut out: Vec<EntityRef> = Vec::new();
    let mut i: usize = 0;
    while i < refs.len()
        invariant
            i <= refs.len(),
            out@ == refs@.take(i as int),
        decreases refs.len() - i,
    {
        out.push(refs[i]);
        assert(refs@.take(i + 1) =~= refs@.take(i as int).push(refs@[i as int]));
        i += 1;
    }
    assert(refs@.take(refs.len() as int) =~= refs@);
    out
}

impl Clone for VContour {
    fn clone(&self) -> (r: Self)
        ensures
            r@ == self@,
    {
        Self { metadata: self.metadata.clone(), entities: duplicate_refs(&self.entities) }
    }
}

impl Entity for VContour {
    open spec fn id_of(v: VContourView) -> u32 {
        v.metadata.id
    }

    fn id(&self) -> (r: u32) {
        self.metadata.id
    }

    fn duplicate(&self) -> (r: Self) {
        self.clone()
    }
}

/// A point along a line as a value.
pub struct VPointAlongLineView {
    pub metadata: VGObjectView,
    pub p1_id: u32,
    pub p2_id: u32,
    pub distance: Scalar,
}

/// The point at `distance` from `p1` in the direction of `p2`.
#[derive(Debug, PartialEq)]
pub struct VPointAlongLine {
    pub metadata: VGObject,
    pub p1_id: u32,
    pub p2_id: u32,
    pub distance: Scalar,
}

impl View for VPointAlongLine {
    type V = VPointAlongLineView;

    open spec fn view(&self) -> VPointAlongLineView {
        VPointAlongLineView {
            metadata: self.metadata@,
            p1_id: self.p1_id,
            p2_id: self.p2_id,
            distance: self.distance,
        }
    }
}

impl VPointAlongLine {
    /// A point at `distance` from `p1` towards `p2`.
    pub fn new(id: u32, name: &str, p1: u32, p2: u32, distance: Scalar) -> (r: Self)
        ensures
            r@ == (VPointAlongLineView {
                metadata: modeling_object(id, name@, GOType::Point),
                p1_id: p1,
                p2_id: p2,
                distance,
            }),
    {
        Self { metadata: VGObject::new(id, name, GOType::Point), p1_id: p1, p2_id: p2, distance }
    }
}

impl Clone for VPointAlongLine {
    fn clone(&self) -> (r: Self)
        ensures
            r@ == self@,
    {
        Self {
            metadata: self.metadata.clone(),
            p1_id: self.p1_id,
            p2_id: self.p2_id,
            distance: self.distance,
        }
    }
}

impl Entity for VPointAlongLine {
    open spec fn id_of(v: VPointAlongLineView) -> u32 {
        v.metadata.id
    }

    fn id(&self) -> (r: u32) {
        self.metadata.id
    }

    fn duplicate(&self) -> (r: Self) {
        self.clone()
    }
}

impl Dependent for VPointAlongLine {
    open spec fn point_refs(v: VPointAlongLineView) -> Seq<u32> {
        seq![v.p1_id, v.p2_id]
    }

    fn references_point(&self, pid: u32) -> (r: bool) {
        proof {
            let refs = Self::point_refs(self@);
            assert(refs[0] == self.p1_id && refs[1] == self.p2_id);
        }
        self.p1_id == pid || self.p2_id == pid
    }
}

/// A mirror as a value.
pub struct VMirrorView {
    pub metadata: VGObjectView,
    pub source_entities: Seq<EntityRef>,
    pub axis_p1_id: u32,
    pub axis_p2_id: u32,
}

/// A mirror constraint: the source entities reflected across the line through
/// the two axis points.
#[derive(Debug, PartialEq)]
pub struct VMirror {
    pub metadata: VGObject,
    pub source_entities: Vec<EntityRef>,
    pub axis_p1_id: u32,
    pub axis_p2_id: u32,
}

impl View for VMirror {
    type V = VMirrorView;

    open spec fn view(&self) -> VMirrorView {
        VMirrorView {
            metadata: self.metadata@,
            source_entities: self.source_entities@,
            axis_p1_id: self.axis_p1_id,
            axis_p2_id: self.axis_p2_id,
        }
    }
}

impl VMirror {
    /// A mirror of `sources` across the line through `axis_p1` and `axis_p2`.
    pub fn new(id: u32, name: &str, sources: Vec<EntityRef>, axis_p1: u32, axis_p2: u32) -> (r:
        Self)
        ensures
            r@ == (VMirrorView {
                metadata: modeling_object(id, name@, GOType::Line),
                source_entities: sources@,
                axis_p1_id: axis_p1,
                axis_p2_id: axis_p2,
            }),
    {
        Self {
            metadata: VGObject::new(id, name, GOType::Line),
            source_entities: sources,
            axis_p1_id: axis_p1,
            axis_p2_id: axis_p2,
        }
    }
}

impl Clone for VMirror {
    fn clone(&self) -> (r: Self)
        ensures
            r@ == self@,
    {
        Self {
            metadata: self.metadata.clone(),
            source_entities: duplicate_refs(&self.source_entities),
            axis_p1_id: self.axis_p1_id,
            axis_p2_id: self.axis_p2_id,
        }
    }
}

impl Entity for VMirror {
    open spec fn id_of(v: VMirrorView) -> u32 {
        v.metadata.id
    }

    fn id(&self) -> (r: u32) {
        self.metadata.id
    }

    fn duplicate(&self) -> (r: Self) {
        self.clone()
    }
}

} // verus!
