use winshape::path::{
    morph_end_path, morph_start_path, path_with_lines, regular_polygon_path,
    regular_polygon_vertices, FigureLoop, PathCommand, PolygonVertex,
};

fn begin(sides: u32, index: u32) -> PathCommand<PolygonVertex> {
    PathCommand::BeginFigure(PolygonVertex { sides, index })
}

fn line(sides: u32, index: u32) -> PathCommand<PolygonVertex> {
    PathCommand::AddLine(PolygonVertex { sides, index })
}

fn closed() -> PathCommand<PolygonVertex> {
    PathCommand::EndFigure(FigureLoop::Closed)
}

#[test]
fn no_point_gives_no_command() {
    let none: [(i32, i32); 0] = [];
    assert_eq!(path_with_lines(&none, FigureLoop::Closed), Vec::new());
    assert_eq!(path_with_lines(&none, FigureLoop::Open), Vec::new());
}

#[test]
fn one_point_gives_a_figure_without_lines() {
    assert_eq!(
        path_with_lines(&[(1, 2)], FigureLoop::Open),
        vec![PathCommand::BeginFigure((1, 2)), PathCommand::EndFigure(FigureLoop::Open)]
    );
}

#[test]
fn lines_go_through_the_points_in_turn() {
    assert_eq!(
        path_with_lines(&['a', 'b', 'c', 'b'], FigureLoop::Closed),
        vec![
            PathCommand::BeginFigure('a'),
            PathCommand::AddLine('b'),
            PathCommand::AddLine('c'),
            PathCommand::AddLine('b'),
            PathCommand::EndFigure(FigureLoop::Closed),
        ]
    );
}

#[test]
fn corners_of_a_triangle() {
    assert_eq!(
        regular_polygon_vertices(3),
        vec![
            PolygonVertex { sides: 3, index: 0 },
            PolygonVertex { sides: 3, index: 1 },
            PolygonVertex { sides: 3, index: 2 },
        ]
    );
}

#[test]
fn corners_of_the_largest_polygon() {
    let corners = regular_polygon_vertices(u16::MAX);
    assert_eq!(corners.len(), 65535);
    assert_eq!(corners[65534], PolygonVertex { sides: 65535, index: 65534 });
}

#[test]
fn a_square_as_a_closed_figure() {
    assert_eq!(
        regular_polygon_path(4),
        vec![begin(4, 0), line(4, 1), line(4, 2), line(4, 3), closed()]
    );
}

#[test]
fn a_triangle_that_grows_a_side_starts_with_doubled_corners() {
    assert_eq!(
        morph_start_path(3),
        vec![begin(3, 0), line(3, 1), line(3, 1), line(3, 2), line(3, 2), closed()]
    );
}

#[test]
fn a_triangle_that_grows_a_side_ends_as_a_square() {
    assert_eq!(
        morph_end_path(3),
        vec![begin(4, 0), line(4, 1), line(4, 2), line(4, 2), line(4, 3), closed()]
    );
}

#[test]
fn a_pentagon_that_grows_a_side() {
    assert_eq!(
        morph_start_path(5),
        vec![
            begin(5, 0),
            line(5, 1),
            line(5, 1),
            line(5, 2),
            line(5, 2),
            line(5, 3),
            line(5, 3),
            line(5, 4),
            line(5, 4),
            closed(),
        ]
    );
    assert_eq!(
        morph_end_path(5),
        vec![
            begin(6, 0),
            line(6, 1),
            line(6, 2),
            line(6, 2),
            line(6, 3),
            line(6, 3),
            line(6, 4),
            line(6, 4),
            line(6, 5),
            closed(),
        ]
    );
}

#[test]
fn the_two_figures_of_a_morph_match_command_by_command() {
    for sides in 3..40u32 {
        let start = morph_start_path(sides);
        let end = morph_end_path(sides);
        assert_eq!(start.len(), 2 * sides as usize);
        assert_eq!(end.len(), start.len());
        for (from, to) in start.iter().zip(end.iter()) {
            assert_eq!(std::mem::discriminant(from), std::mem::discriminant(to));
        }
        assert_eq!(start[start.len() - 1], closed());
        assert_eq!(end[end.len() - 1], closed());
    }
}

#[test]
fn a_morph_passes_through_every_corner() {
    for sides in 3..40u32 {
        let start = morph_start_path(sides);
        for index in 0..sides {
            let corner = PolygonVertex { sides, index };
            assert!(start
                .iter()
                .any(|c| *c == PathCommand::BeginFigure(corner) || *c == PathCommand::AddLine(corner)));
        }
        let end = morph_end_path(sides);
        for index in 0..=sides {
            let corner = PolygonVertex { sides: sides + 1, index };
            assert!(end
                .iter()
                .any(|c| *c == PathCommand::BeginFigure(corner) || *c == PathCommand::AddLine(corner)));
        }
    }
}
