use drafting_core::geometry::Scalar;
use drafting_core::mode::{CanvasMode, Tool};
use drafting_core::object::{EntityRef, SelectedItem, VLine, VPoint};
use drafting_core::project::ProjectData;
use drafting_core::state::AppState;
use drafting_core::store::EntityStore;

fn scalar(v: f64) -> Scalar {
    Scalar::from_bits(v.to_bits())
}

fn full_store() -> EntityStore {
    let mut s = EntityStore::new();
    s.create_point(scalar(0.5), scalar(-0.25));
    s.create_point(scalar(10.0), scalar(0.0));
    s.create_point(scalar(0.0), scalar(10.0));
    s.create_line(1, 2);
    s.create_spline(1, 2, 3, 1);
    s.create_bisector(2, 1, 3, scalar(10.0));
    s.create_along_line(1, 2, scalar(3.0));
    s.create_arc(1, scalar(5.0), scalar(0.0), scalar(90.0));
    let c = s.create_contour().unwrap();
    s.append_to_contour(c, EntityRef::Line(4));
    s.append_to_contour(c, EntityRef::Spline(5));
    s.create_mirror(vec![EntityRef::Line(4), EntityRef::Point(3)], 1, 2);
    s
}

fn same(a: &EntityStore, b: &EntityStore) -> bool {
    a.points == b.points
        && a.lines == b.lines
        && a.splines == b.splines
        && a.bisectors == b.bisectors
        && a.along_lines == b.along_lines
        && a.arcs == b.arcs
        && a.contours == b.contours
        && a.mirrors == b.mirrors
        && a.next_id == b.next_id
}

#[test]
fn snapshot_holds_every_entity_and_the_next_id() {
    let s = full_store();
    let data = s.snapshot();
    assert_eq!(data.points, s.points);
    assert_eq!(data.lines, s.lines);
    assert_eq!(data.splines, s.splines);
    assert_eq!(data.bisectors, s.bisectors);
    assert_eq!(data.along_lines, s.along_lines);
    assert_eq!(data.arcs, s.arcs);
    assert_eq!(data.contours, s.contours);
    assert_eq!(data.mirrors, s.mirrors);
    assert_eq!(data.next_id, 11);
    assert_eq!(data.points.len(), 3);
    assert_eq!(data.contours[0].entities, vec![EntityRef::Line(4), EntityRef::Spline(5)]);
}

#[test]
fn saving_then_loading_gives_the_same_graph() {
    let s = full_store();
    let back = EntityStore::from_project(s.snapshot());
    assert!(same(&s, &back));
    let again = EntityStore::from_project(back.snapshot().clone());
    assert!(same(&s, &again));
}

#[test]
fn a_loaded_graph_goes_on_with_unused_ids() {
    let s = full_store();
    let mut back = EntityStore::from_project(s.snapshot());
    assert_eq!(back.create_line(2, 3), Some(11));
    assert_eq!(back.create_point(scalar(1.0), scalar(1.0)), Some(12));
    for used in 1..=10u32 {
        assert!(used < 11);
        assert!(back.lines.iter().filter(|l| l.metadata.id == used).count() <= 1);
    }
}

#[test]
fn loading_replaces_the_graph_and_clears_the_selection() {
    let mut app = AppState::new();
    app.background_clicked(scalar(1.0), scalar(1.0));
    app.background_clicked(scalar(2.0), scalar(2.0));
    app.point_clicked(1);
    app.select_tool(Tool::Line);
    app.point_clicked(2);
    assert_eq!(app.selection, SelectedItem::Point(1));
    let saved = full_store();
    app.load(saved.snapshot());
    assert!(same(&app.store, &saved));
    assert_eq!(app.selection, SelectedItem::Nothing);
    // the tool stays where it was
    assert_eq!(app.mode, CanvasMode::AwaitingLineEnd { first_point_id: 2 });
    let data = app.snapshot();
    assert_eq!(data.next_id, 11);
    assert_eq!(data.mirrors, saved.mirrors);
}

#[test]
fn loading_checks_no_reference() {
    let data = ProjectData {
        points: vec![VPoint::new(17, "P17", scalar(0.0), scalar(0.0))],
        lines: vec![VLine::new(18, "L18", 17, 500)],
        splines: vec![],
        bisectors: vec![],
        along_lines: vec![],
        arcs: vec![],
        contours: vec![],
        mirrors: vec![],
        next_id: 19,
    };
    let mut app = AppState::new();
    app.load(data);
    assert_eq!(app.store.lines.len(), 1);
    assert_eq!(app.store.lines[0].end_point_id, 500);
    assert_eq!(app.store.next_id, 19);
    assert!(app.store.resolve(EntityRef::Line(18)).is_none());
    assert!(app.store.resolve(EntityRef::Point(17)).is_some());
}

#[test]
fn snapshot_is_a_copy() {
    let mut s = full_store();
    let data = s.snapshot();
    s.delete_point(1);
    s.move_point(2, scalar(-1.0), scalar(-1.0));
    assert_eq!(data.points.len(), 3);
    assert_eq!(data.lines.len(), 1);
    assert_eq!(data.points[1].x(), scalar(10.0));
}
