use drafting_core::geometry::Scalar;
use drafting_core::mode::{CanvasMode, Tool};
use drafting_core::object::{EntityRef, SelectedItem};
use drafting_core::state::{
    AppState, Event, Outcome, DEFAULT_ALONG_LINE_DISTANCE_BITS, DEFAULT_BISECTOR_LENGTH_BITS,
};

fn scalar(v: f64) -> Scalar {
    Scalar::from_bits(v.to_bits())
}

/// A session with `n` points, numbered from 1, still in the point tool.
fn with_points(n: u32) -> AppState {
    let mut app = AppState::new();
    for i in 0..n {
        let made = app.background_clicked(scalar(i as f64 * 10.0), scalar(i as f64));
        assert_eq!(made, Outcome::Created { id: i + 1 });
    }
    app
}

#[test]
fn new_session_is_idle_and_empty() {
    let app = AppState::new();
    assert_eq!(app.mode, CanvasMode::PlacePoint);
    assert_eq!(app.selection, SelectedItem::Nothing);
    assert_eq!(app.dragging, None);
    assert_eq!(app.store.next_id, 1);
    assert!(app.store.points.is_empty());
}

#[test]
fn clicking_the_same_point_twice_makes_no_line() {
    let mut app = AppState::new();
    let made = app.background_clicked(scalar(3.0), scalar(4.0));
    assert_eq!(made, Outcome::Created { id: 1 });
    app.select_tool(Tool::Line);
    assert_eq!(app.mode, CanvasMode::AwaitingLineStart);
    assert_eq!(app.point_clicked(1), Outcome::Done);
    assert_eq!(app.mode, CanvasMode::AwaitingLineEnd { first_point_id: 1 });
    assert_eq!(app.point_clicked(1), Outcome::Done);
    assert_eq!(app.store.lines.len(), 0);
    assert_eq!(app.mode, CanvasMode::AwaitingLineStart);
    assert_eq!(app.store.next_id, 2);
}

#[test]
fn line_tool_joins_two_points_and_starts_over() {
    let mut app = with_points(3);
    app.select_tool(Tool::Line);
    app.point_clicked(2);
    assert_eq!(app.point_clicked(3), Outcome::Created { id: 4 });
    assert_eq!(app.mode, CanvasMode::AwaitingLineStart);
    let l = app.store.get_line(4).unwrap();
    assert_eq!((l.start_point_id, l.end_point_id), (2, 3));
    assert_eq!(l.metadata.name, "L4");
    // the tool goes on to the next line
    app.point_clicked(3);
    assert_eq!(app.point_clicked(1), Outcome::Created { id: 5 });
    assert_eq!(app.store.lines.len(), 2);
}

#[test]
fn background_click_places_points_only_with_the_point_tool() {
    let mut app = with_points(1);
    assert_eq!(app.store.points[0].metadata.id, 1);
    assert_eq!(app.store.points[0].x(), scalar(0.0));
    app.select_tool(Tool::Line);
    assert_eq!(app.background_clicked(scalar(5.0), scalar(5.0)), Outcome::Done);
    assert_eq!(app.store.points.len(), 1);
    assert_eq!(app.mode, CanvasMode::AwaitingLineStart);
    app.select_tool(Tool::Point);
    assert_eq!(app.background_clicked(scalar(5.0), scalar(6.0)), Outcome::Created { id: 2 });
    assert_eq!(app.store.points[1].x(), scalar(5.0));
    assert_eq!(app.store.points[1].y(), scalar(6.0));
}

#[test]
fn background_click_does_not_end_a_chain() {
    let mut app = with_points(2);
    app.select_tool(Tool::Line);
    app.point_clicked(1);
    app.background_clicked(scalar(0.0), scalar(0.0));
    assert_eq!(app.mode, CanvasMode::AwaitingLineEnd { first_point_id: 1 });
    assert_eq!(app.point_clicked(2), Outcome::Created { id: 3 });
}

#[test]
fn curve_tool_takes_four_points() {
    let mut app = with_points(4);
    app.select_tool(Tool::Spline);
    assert_eq!(app.mode, CanvasMode::BezierStart);
    app.point_clicked(1);
    assert_eq!(app.mode, CanvasMode::BezierControl1 { p1: 1 });
    app.point_clicked(2);
    assert_eq!(app.mode, CanvasMode::BezierControl2 { p1: 1, p2: 2 });
    app.point_clicked(3);
    assert_eq!(app.mode, CanvasMode::BezierEnd { p1: 1, p2: 2, p3: 3 });
    assert_eq!(app.point_clicked(4), Outcome::Created { id: 5 });
    assert_eq!(app.mode, CanvasMode::BezierStart);
    let c = app.store.get_spline(5).unwrap();
    assert_eq!((c.p1_id, c.p2_id, c.p3_id, c.p4_id), (1, 2, 3, 4));
    assert_eq!(c.metadata.name, "S5");
}

#[test]
fn curve_end_on_an_earlier_point_is_discarded() {
    for repeated in [1u32, 2, 3] {
        let mut app = with_points(4);
        app.select_tool(Tool::Spline);
        app.point_clicked(1);
        app.point_clicked(2);
        app.point_clicked(3);
        assert_eq!(app.point_clicked(repeated), Outcome::Done);
        assert_eq!(app.mode, CanvasMode::BezierStart);
        assert!(app.store.splines.is_empty());
    }
}

#[test]
fn curve_controls_may_repeat_the_start() {
    let mut app = with_points(2);
    app.select_tool(Tool::Spline);
    app.point_clicked(1);
    app.point_clicked(1);
    app.point_clicked(1);
    assert_eq!(app.mode, CanvasMode::BezierEnd { p1: 1, p2: 1, p3: 1 });
    assert_eq!(app.point_clicked(2), Outcome::Created { id: 3 });
}

#[test]
fn bisector_tool_uses_the_default_length() {
    assert_eq!(f64::from_bits(DEFAULT_BISECTOR_LENGTH_BITS), 150.0);
    let mut app = with_points(3);
    app.select_tool(Tool::Bisector);
    assert_eq!(app.mode, CanvasMode::BisectorStart);
    app.point_clicked(2);
    assert_eq!(app.mode, CanvasMode::BisectorVertex { p1: 2 });
    app.point_clicked(1);
    assert_eq!(app.mode, CanvasMode::BisectorEnd { p1: 2, vertex: 1 });
    assert_eq!(app.point_clicked(3), Outcome::Created { id: 4 });
    assert_eq!(app.mode, CanvasMode::BisectorStart);
    let b = app.store.get_bisector(4).unwrap();
    assert_eq!((b.p1_id, b.vertex_id, b.p3_id), (2, 1, 3));
    assert_eq!(f64::from_bits(b.length.to_bits()), 150.0);
    assert_eq!(b.metadata.name, "B4");
}

#[test]
fn bisector_third_point_on_an_earlier_one_is_discarded() {
    for repeated in [1u32, 2] {
        let mut app = with_points(3);
        app.select_tool(Tool::Bisector);
        app.point_clicked(1);
        app.point_clicked(2);
        assert_eq!(app.point_clicked(repeated), Outcome::Done);
        assert_eq!(app.mode, CanvasMode::BisectorStart);
        assert!(app.store.bisectors.is_empty());
    }
}

#[test]
fn along_line_tool_uses_the_default_distance() {
    assert_eq!(f64::from_bits(DEFAULT_ALONG_LINE_DISTANCE_BITS), 50.0);
    let mut app = with_points(2);
    app.select_tool(Tool::AlongLine);
    assert_eq!(app.mode, CanvasMode::AlongLineStart);
    app.point_clicked(1);
    assert_eq!(app.mode, CanvasMode::AlongLineEnd { p1: 1 });
    assert_eq!(app.point_clicked(1), Outcome::Done);
    assert_eq!(app.mode, CanvasMode::AlongLineStart);
    assert!(app.store.along_lines.is_empty());
    app.point_clicked(1);
    assert_eq!(app.point_clicked(2), Outcome::Created { id: 3 });
    let a = app.store.get_along_line(3).unwrap();
    assert_eq!((a.p1_id, a.p2_id), (1, 2));
    assert_eq!(f64::from_bits(a.distance.to_bits()), 50.0);
    assert_eq!(a.metadata.name, "PL3");
}

#[test]
fn arc_tool_asks_for_the_measure_and_then_makes_the_arc() {
    let mut app = with_points(2);
    app.select_tool(Tool::Arc);
    assert_eq!(app.mode, CanvasMode::ArcCenter);
    assert_eq!(app.point_clicked(1), Outcome::Done);
    assert_eq!(app.mode, CanvasMode::ArcRadius { center: 1 });
    assert_eq!(app.point_clicked(2), Outcome::MeasureArc { center: 1, rim: 2 });
    assert_eq!(app.mode, CanvasMode::ArcRadius { center: 1 });
    assert!(app.store.arcs.is_empty());
    let made = app.arc_measured(1, scalar(5.0), scalar(0.0), scalar(90.0));
    assert_eq!(made, Outcome::Created { id: 3 });
    assert_eq!(app.mode, CanvasMode::ArcCenter);
    let a = app.store.get_arc(3).unwrap();
    assert_eq!(a.center_id, 1);
    assert_eq!(a.radius, scalar(5.0));
    assert_eq!(a.start_angle, scalar(0.0));
    assert_eq!(a.end_angle, scalar(90.0));
    assert_eq!(a.metadata.name, "A3");
}

#[test]
fn arc_measure_for_another_arc_or_another_tool_is_dropped() {
    let mut app = with_points(2);
    app.select_tool(Tool::Arc);
    app.point_clicked(1);
    // a measure for a center the tool does not wait for
    assert_eq!(app.arc_measured(2, scalar(5.0), scalar(0.0), scalar(90.0)), Outcome::Done);
    assert_eq!(app.mode, CanvasMode::ArcRadius { center: 1 });
    // the tool was left before the measure arrived
    app.select_tool(Tool::Line);
    assert_eq!(app.arc_measured(1, scalar(5.0), scalar(0.0), scalar(90.0)), Outcome::Done);
    assert_eq!(app.mode, CanvasMode::AwaitingLineStart);
    assert!(app.store.arcs.is_empty());
    // a measure arriving twice makes one arc
    app.select_tool(Tool::Arc);
    app.point_clicked(1);
    assert_eq!(
        app.arc_measured(1, scalar(5.0), scalar(0.0), scalar(90.0)),
        Outcome::Created { id: 3 }
    );
    assert_eq!(app.arc_measured(1, scalar(5.0), scalar(0.0), scalar(90.0)), Outcome::Done);
    assert_eq!(app.store.arcs.len(), 1);
}

#[test]
fn arc_whose_center_is_gone_is_discarded() {
    let mut app = with_points(2);
    app.select_tool(Tool::Arc);
    app.point_clicked(1);
    app.store.delete_point(1);
    assert_eq!(app.point_clicked(2), Outcome::Done);
    assert_eq!(app.mode, CanvasMode::ArcCenter);

    let mut app = with_points(2);
    app.select_tool(Tool::Arc);
    app.point_clicked(1);
    assert_eq!(app.point_clicked(2), Outcome::MeasureArc { center: 1, rim: 2 });
    app.store.delete_point(1);
    assert_eq!(app.arc_measured(1, scalar(1.0), scalar(0.0), scalar(90.0)), Outcome::Done);
    assert_eq!(app.mode, CanvasMode::ArcCenter);
    assert!(app.store.arcs.is_empty());
}

#[test]
fn mirror_tool_collects_sources_then_takes_an_axis() {
    let mut app = with_points(3);
    app.select_tool(Tool::Line);
    app.point_clicked(1);
    app.point_clicked(2);
    app.select_tool(Tool::Mirror);
    assert_eq!(app.mode, CanvasMode::MirrorSelecting { refs: vec![] });
    assert_eq!(app.entity_clicked(EntityRef::Line(4)), Outcome::Done);
    assert_eq!(app.point_clicked(3), Outcome::Done);
    assert_eq!(
        app.mode,
        CanvasMode::MirrorSelecting { refs: vec![EntityRef::Line(4), EntityRef::Point(3)] }
    );
    app.finish_selection();
    assert_eq!(
        app.mode,
        CanvasMode::MirrorAxisStart { refs: vec![EntityRef::Line(4), EntityRef::Point(3)] }
    );
    app.point_clicked(1);
    assert_eq!(
        app.mode,
        CanvasMode::MirrorAxisEnd {
            refs: vec![EntityRef::Line(4), EntityRef::Point(3)],
            axis_p1: 1
        }
    );
    assert_eq!(app.point_clicked(2), Outcome::Created { id: 5 });
    assert_eq!(app.mode, CanvasMode::MirrorSelecting { refs: vec![] });
    let m = app.store.get_mirror(5).unwrap();
    assert_eq!(m.source_entities, vec![EntityRef::Line(4), EntityRef::Point(3)]);
    assert_eq!((m.axis_p1_id, m.axis_p2_id), (1, 2));
    assert_eq!(m.metadata.name, "M5");
}

#[test]
fn mirror_axis_of_one_point_is_discarded() {
    let mut app = with_points(2);
    app.select_tool(Tool::Mirror);
    app.point_clicked(2);
    app.finish_selection();
    app.point_clicked(1);
    assert_eq!(app.point_clicked(1), Outcome::Done);
    assert_eq!(app.mode, CanvasMode::MirrorSelecting { refs: vec![] });
    assert!(app.store.mirrors.is_empty());
}

#[test]
fn mirror_takes_lines_curves_and_points_only() {
    let mut app = with_points(3);
    app.store.create_line(1, 2);
    app.store.create_spline(1, 2, 3, 1);
    app.store.create_bisector(2, 1, 3, scalar(1.0));
    app.store.create_arc(1, scalar(1.0), scalar(0.0), scalar(1.0));
    app.store.create_along_line(1, 2, scalar(1.0));
    app.select_tool(Tool::Mirror);
    app.entity_clicked(EntityRef::Spline(5));
    app.entity_clicked(EntityRef::Bisector(6));
    assert_eq!(app.selection, SelectedItem::Bisector(6));
    app.entity_clicked(EntityRef::Arc(7));
    assert_eq!(app.selection, SelectedItem::Arc(7));
    app.entity_clicked(EntityRef::AlongLine(8));
    assert_eq!(app.selection, SelectedItem::AlongLine(8));
    app.entity_clicked(EntityRef::Line(4));
    app.entity_clicked(EntityRef::Point(2));
    assert_eq!(
        app.mode,
        CanvasMode::MirrorSelecting {
            refs: vec![EntityRef::Spline(5), EntityRef::Line(4), EntityRef::Point(2)]
        }
    );
    // once the sources are complete, a line is no source any more
    app.finish_selection();
    app.entity_clicked(EntityRef::Line(4));
    assert_eq!(app.selection, SelectedItem::Line(4));
    assert_eq!(
        app.mode,
        CanvasMode::MirrorAxisStart {
            refs: vec![EntityRef::Spline(5), EntityRef::Line(4), EntityRef::Point(2)]
        }
    );
}

#[test]
fn finishing_a_selection_means_nothing_to_other_tools() {
    let mut app = with_points(2);
    app.finish_selection();
    assert_eq!(app.mode, CanvasMode::PlacePoint);
    app.select_tool(Tool::Line);
    app.point_clicked(1);
    app.finish_selection();
    assert_eq!(app.mode, CanvasMode::AwaitingLineEnd { first_point_id: 1 });
}

#[test]
fn contour_tool_makes_a_contour_and_keeps_adding_in_click_order() {
    let mut app = with_points(3);
    app.store.create_line(1, 2);
    app.store.create_spline(1, 2, 3, 1);
    app.store.create_bisector(2, 1, 3, scalar(1.0));
    app.store.create_arc(1, scalar(1.0), scalar(0.0), scalar(1.0));
    assert_eq!(app.select_tool(Tool::Contour), Outcome::Created { id: 8 });
    assert_eq!(app.mode, CanvasMode::ContourCreation { active_contour_id: 8 });
    assert_eq!(app.store.get_contour(8).unwrap().metadata.name, "Path8");
    app.entity_clicked(EntityRef::Spline(5));
    app.entity_clicked(EntityRef::Line(4));
    app.entity_clicked(EntityRef::Bisector(6));
    app.entity_clicked(EntityRef::Line(4));
    assert_eq!(
        app.store.get_contour(8).unwrap().entities,
        vec![
            EntityRef::Spline(5),
            EntityRef::Line(4),
            EntityRef::Bisector(6),
            EntityRef::Line(4)
        ]
    );
    assert_eq!(app.mode, CanvasMode::ContourCreation { active_contour_id: 8 });
    assert_eq!(app.selection, SelectedItem::Nothing);
    // what a contour does not take is selected instead
    app.entity_clicked(EntityRef::Arc(7));
    assert_eq!(app.selection, SelectedItem::Arc(7));
    app.point_clicked(2);
    assert_eq!(app.selection, SelectedItem::Point(2));
    assert_eq!(app.dragging, None);
    assert_eq!(app.store.get_contour(8).unwrap().entities.len(), 4);
    // picking the tool again starts another contour
    assert_eq!(app.select_tool(Tool::Contour), Outcome::Created { id: 9 });
    app.entity_clicked(EntityRef::Line(4));
    assert_eq!(app.store.get_contour(9).unwrap().entities, vec![EntityRef::Line(4)]);
    assert_eq!(app.store.get_contour(8).unwrap().entities.len(), 4);
}

#[test]
fn switching_tools_drops_the_chain() {
    let mut app = with_points(4);
    app.select_tool(Tool::Spline);
    app.point_clicked(1);
    app.point_clicked(2);
    app.point_clicked(3);
    app.select_tool(Tool::Line);
    assert_eq!(app.mode, CanvasMode::AwaitingLineStart);
    app.point_clicked(4);
    assert_eq!(app.mode, CanvasMode::AwaitingLineEnd { first_point_id: 4 });
    app.select_tool(Tool::Line);
    assert_eq!(app.mode, CanvasMode::AwaitingLineStart);
    app.select_tool(Tool::Mirror);
    app.point_clicked(1);
    app.select_tool(Tool::Mirror);
    assert_eq!(app.mode, CanvasMode::MirrorSelecting { refs: vec![] });
    assert!(app.store.splines.is_empty() && app.store.lines.is_empty());
    assert!(app.store.mirrors.is_empty());
    assert_eq!(app.store.next_id, 5);
}

#[test]
fn click_on_a_missing_target_changes_nothing() {
    let mut app = with_points(2);
    app.select_tool(Tool::Line);
    assert_eq!(app.point_clicked(9), Outcome::Done);
    assert_eq!(app.mode, CanvasMode::AwaitingLineStart);
    app.point_clicked(1);
    assert_eq!(app.point_clicked(9), Outcome::Done);
    assert_eq!(app.mode, CanvasMode::AwaitingLineEnd { first_point_id: 1 });
    assert_eq!(app.entity_clicked(EntityRef::Line(1)), Outcome::Done);
    assert_eq!(app.selection, SelectedItem::Nothing);
    assert_eq!(app.entity_clicked(EntityRef::Point(9)), Outcome::Done);
    assert_eq!(app.mode, CanvasMode::AwaitingLineEnd { first_point_id: 1 });
}

#[test]
fn chain_whose_earlier_point_was_deleted_is_discarded() {
    let mut app = with_points(3);
    app.select_tool(Tool::Line);
    app.point_clicked(1);
    app.store.delete_point(1);
    assert_eq!(app.point_clicked(2), Outcome::Done);
    assert_eq!(app.mode, CanvasMode::AwaitingLineStart);
    assert!(app.store.lines.is_empty());

    let mut app = with_points(4);
    app.select_tool(Tool::Bisector);
    app.point_clicked(1);
    app.point_clicked(2);
    app.store.delete_point(2);
    assert_eq!(app.point_clicked(3), Outcome::Done);
    assert_eq!(app.mode, CanvasMode::BisectorStart);
    assert!(app.store.bisectors.is_empty());
}

#[test]
fn exhausted_generator_makes_nothing_and_resets_the_chain() {
    let mut app = with_points(2);
    app.store.next_id = u32::MAX;
    assert_eq!(app.background_clicked(scalar(1.0), scalar(1.0)), Outcome::Done);
    assert_eq!(app.store.points.len(), 2);
    app.select_tool(Tool::Line);
    app.point_clicked(1);
    assert_eq!(app.point_clicked(2), Outcome::Done);
    assert_eq!(app.mode, CanvasMode::AwaitingLineStart);
    assert!(app.store.lines.is_empty());
    app.point_clicked(1);
    assert_eq!(app.select_tool(Tool::Contour), Outcome::Done);
    assert_eq!(app.mode, CanvasMode::PlacePoint);
    assert!(app.store.contours.is_empty());
    assert_eq!(app.store.next_id, u32::MAX);
}

#[test]
fn handle_does_what_the_single_handlers_do() {
    let mut by_event = AppState::new();
    let mut by_call = AppState::new();
    let x = scalar(1.0);
    let y = scalar(2.0);
    assert_eq!(
        by_event.handle(Event::BackgroundClicked { x, y }),
        by_call.background_clicked(x, y)
    );
    assert_eq!(
        by_event.handle(Event::BackgroundClicked { x: y, y: x }),
        by_call.background_clicked(y, x)
    );
    assert_eq!(by_event.handle(Event::ToolSelected(Tool::Line)), by_call.select_tool(Tool::Line));
    assert_eq!(
        by_event.handle(Event::EntityClicked(EntityRef::Point(1))),
        by_call.point_clicked(1)
    );
    assert_eq!(
        by_event.handle(Event::EntityClicked(EntityRef::Point(2))),
        by_call.entity_clicked(EntityRef::Point(2))
    );
    assert_eq!(by_event.handle(Event::ToolSelected(Tool::Arc)), by_call.select_tool(Tool::Arc));
    by_event.handle(Event::EntityClicked(EntityRef::Point(1)));
    by_call.point_clicked(1);
    assert_eq!(
        by_event.handle(Event::EntityClicked(EntityRef::Point(2))),
        Outcome::MeasureArc { center: 1, rim: 2 }
    );
    by_call.point_clicked(2);
    assert_eq!(
        by_event.handle(Event::ArcMeasured {
            center: 1,
            radius: x,
            start_angle: y,
            end_angle: x
        }),
        by_call.arc_measured(1, x, y, x)
    );
    assert_eq!(by_event.handle(Event::ToolSelected(Tool::Mirror)), Outcome::Done);
    by_call.select_tool(Tool::Mirror);
    by_event.handle(Event::EntityClicked(EntityRef::Line(3)));
    by_call.entity_clicked(EntityRef::Line(3));
    assert_eq!(by_event.handle(Event::SelectionFinished), Outcome::Done);
    by_call.finish_selection();
    assert_eq!(by_event.handle(Event::ToolSelected(Tool::Point)), Outcome::Done);
    by_call.select_tool(Tool::Point);
    by_event.handle(Event::EntityClicked(EntityRef::Point(2)));
    by_call.point_clicked(2);
    assert_eq!(by_event.handle(Event::PointerMoved { x: y, y }), Outcome::Done);
    by_call.pointer_moved(y, y);
    assert_eq!(by_event.handle(Event::PointerReleased), Outcome::Done);
    by_call.pointer_released();
    assert_eq!(by_event.handle(Event::DeleteRequested), Outcome::Done);
    by_call.delete_selected();

    assert_eq!(by_event.mode, by_call.mode);
    assert_eq!(by_event.selection, by_call.selection);
    assert_eq!(by_event.dragging, by_call.dragging);
    assert_eq!(by_event.store.points, by_call.store.points);
    assert_eq!(by_event.store.lines, by_call.store.lines);
    assert_eq!(by_event.store.arcs, by_call.store.arcs);
    assert_eq!(by_event.store.next_id, by_call.store.next_id);
    // the deleted point took the line with it; the arc about the other point stays
    assert_eq!(by_event.store.points.len(), 1);
    assert!(by_event.store.lines.is_empty());
    assert_eq!(by_event.store.arcs.len(), 1);
    assert_eq!(by_event.store.arcs[0].center_id, 1);
}
