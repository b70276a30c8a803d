use drafting_core::geometry::{Point2D, Scalar};
use drafting_core::mode::{CanvasMode, Tool};
use drafting_core::object::{EntityRef, SelectedItem};
use drafting_core::state::AppState;

fn scalar(v: f64) -> Scalar {
    Scalar::from_bits(v.to_bits())
}

fn drawing() -> AppState {
    let mut app = AppState::new();
    app.background_clicked(scalar(0.0), scalar(0.0));
    app.background_clicked(scalar(10.0), scalar(0.0));
    app.background_clicked(scalar(0.0), scalar(10.0));
    app.store.create_line(1, 2);
    app.store.create_spline(1, 2, 3, 1);
    app.store.create_bisector(2, 1, 3, scalar(10.0));
    app.store.create_arc(3, scalar(5.0), scalar(0.0), scalar(90.0));
    app.store.create_along_line(2, 3, scalar(1.0));
    app
}

#[test]
fn clicking_an_entity_selects_it_and_replaces_the_selection() {
    let mut app = drawing();
    app.entity_clicked(EntityRef::Line(4));
    assert_eq!(app.selection, SelectedItem::Line(4));
    app.entity_clicked(EntityRef::Spline(5));
    assert_eq!(app.selection, SelectedItem::Spline(5));
    app.entity_clicked(EntityRef::Bisector(6));
    assert_eq!(app.selection, SelectedItem::Bisector(6));
    app.entity_clicked(EntityRef::Arc(7));
    assert_eq!(app.selection, SelectedItem::Arc(7));
    app.entity_clicked(EntityRef::AlongLine(8));
    assert_eq!(app.selection, SelectedItem::AlongLine(8));
    app.entity_clicked(EntityRef::Point(2));
    assert_eq!(app.selection, SelectedItem::Point(2));
    assert_eq!(app.mode, CanvasMode::PlacePoint);
}

#[test]
fn clicking_the_background_clears_the_selection() {
    let mut app = drawing();
    app.select_tool(Tool::Line);
    app.entity_clicked(EntityRef::Line(4));
    assert_eq!(app.selection, SelectedItem::Line(4));
    app.background_clicked(scalar(1.0), scalar(1.0));
    assert_eq!(app.selection, SelectedItem::Nothing);
}

#[test]
fn a_chain_click_on_a_point_does_not_select_it() {
    let mut app = drawing();
    app.select_tool(Tool::Line);
    app.point_clicked(1);
    assert_eq!(app.selection, SelectedItem::Nothing);
    assert_eq!(app.dragging, None);
    // a line clicked while a chain runs is selected, and the chain goes on
    app.entity_clicked(EntityRef::Line(4));
    assert_eq!(app.selection, SelectedItem::Line(4));
    assert_eq!(app.mode, CanvasMode::AwaitingLineEnd { first_point_id: 1 });
}

#[test]
fn dragging_moves_the_point_until_release() {
    let mut app = drawing();
    app.pointer_moved(scalar(99.0), scalar(99.0));
    assert_eq!(app.store.get_point(2).unwrap().coords, Point2D::new(scalar(10.0), scalar(0.0)));
    app.point_clicked(2);
    assert_eq!(app.dragging, Some(2));
    assert_eq!(app.selection, SelectedItem::Point(2));
    app.pointer_moved(scalar(11.0), scalar(1.0));
    app.pointer_moved(scalar(12.0), scalar(2.0));
    assert_eq!(app.store.get_point(2).unwrap().coords, Point2D::new(scalar(12.0), scalar(2.0)));
    app.pointer_released();
    assert_eq!(app.dragging, None);
    assert_eq!(app.selection, SelectedItem::Point(2));
    app.pointer_moved(scalar(50.0), scalar(50.0));
    assert_eq!(app.store.get_point(2).unwrap().coords, Point2D::new(scalar(12.0), scalar(2.0)));
    app.pointer_released();
    assert_eq!(app.dragging, None);
}

#[test]
fn deleting_the_selected_point_cascades_and_clears_the_selection() {
    let mut app = drawing();
    app.point_clicked(3);
    app.pointer_released();
    app.delete_selected();
    assert_eq!(app.selection, SelectedItem::Nothing);
    assert!(app.store.get_point(3).is_none());
    assert_eq!(app.store.lines.len(), 1);
    assert!(app.store.splines.is_empty());
    assert!(app.store.bisectors.is_empty());
    assert!(app.store.arcs.is_empty());
    assert!(app.store.along_lines.is_empty());
    assert_eq!(app.store.points.len(), 2);
}

#[test]
fn deleting_a_selected_line_leaves_everything_else() {
    let mut app = drawing();
    app.entity_clicked(EntityRef::Line(4));
    app.delete_selected();
    assert_eq!(app.selection, SelectedItem::Nothing);
    assert!(app.store.lines.is_empty());
    assert_eq!(app.store.points.len(), 3);
    assert_eq!(app.store.splines.len(), 1);
    assert_eq!(app.store.bisectors.len(), 1);
    assert_eq!(app.store.arcs.len(), 1);
    assert_eq!(app.store.along_lines.len(), 1);
}

#[test]
fn deleting_with_nothing_selected_does_nothing() {
    let mut app = drawing();
    app.delete_selected();
    assert_eq!(app.store.points.len(), 3);
    assert_eq!(app.store.lines.len(), 1);
    assert_eq!(app.selection, SelectedItem::Nothing);
}

#[test]
fn deleting_a_selected_contour_removes_it() {
    let mut app = drawing();
    app.select_tool(Tool::Contour);
    app.entity_clicked(EntityRef::Line(4));
    app.selection = SelectedItem::Contour(9);
    app.delete_selected();
    assert!(app.store.contours.is_empty());
    assert_eq!(app.store.lines.len(), 1);
    // the tool still names the contour that is gone; clicks then add nothing
    assert_eq!(app.mode, CanvasMode::ContourCreation { active_contour_id: 9 });
    app.entity_clicked(EntityRef::Line(4));
    assert!(app.store.contours.is_empty());
}

#[test]
fn ids_are_not_used_again_after_a_deletion() {
    let mut app = drawing();
    app.entity_clicked(EntityRef::AlongLine(8));
    app.delete_selected();
    app.point_clicked(3);
    app.pointer_released();
    app.delete_selected();
    let next = app.store.next_id;
    assert_eq!(next, 9);
    assert_eq!(app.store.create_line(1, 2), Some(9));
}
