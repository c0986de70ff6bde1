//! Figures as lists of path commands, and the two figures between which a
//! regular polygon grows a side.
//!
//! A path builder takes a figure as one `BeginFigure`, any number of
//! `AddLine` and one `EndFigure`. The functions here say which commands to
//! give it, in which order; a point of a polygon is named by its place among
//! the corners, and whoever draws turns that into coordinates.

use vstd::prelude::*;

verus! {

/// How a figure ends: left open, or closed by a line back to its start.
#[derive(Clone, Copy, Debug, PartialEq, Eq, Structural)]
pub enum FigureLoop {
    Open,
    Closed,
}

/// One call on a path builder, with points of type `P`.
#[derive(Clone, Copy, Debug, PartialEq, Eq)]
pub enum PathCommand<P> {
    /// Start a figure at the point.
    BeginFigure(P),
    /// Draw a line from where the figure stands to the point.
    AddLine(P),
    /// End the figure.
    EndFigure(FigureLoop),
}

/// A corner of a regular polygon with `sides` sides on the unit circle:
/// corner `index`, counted from the corner at angle 0, stands at the angle
/// of `index` times the `sides`-th part of a full turn.
#[derive(Clone, Copy, Debug, PartialEq, Eq, Structural)]
pub struct PolygonVertex {
    pub sides: u32,
    pub index: u32,
}

/// The corner `index` of the polygon with `sides` sides.
pub open spec fn corner(sides: int, index: int) -> PolygonVertex {
    PolygonVertex { sides: sides as u32, index: index as u32 }
}

/// The commands that draw lines through `points`: nothing for no point; else
/// a figure that begins at the first point, has a line to each of the
/// others in turn, and ends as `figure_loop` says.
pub open spec fn lines_path<P>(points: Seq<P>, figure_loop: FigureLoop) -> Seq<PathCommand<P>> {
    if points.len() == 0 {
        Seq::empty()
    } else {
        Seq::new(
            points.len() + 1,
            |k: int|
                if k == 0 {
                    PathCommand::BeginFigure(points[0])
                } else if k < points.len() {
                    PathCommand::AddLine(points[k])
                } else {
                    PathCommand::EndFigure(figure_loop)
                },
        )
    }
}

/// The corners of the polygon with `sides` sides, from corner 0 on.
pub open spec fn polygon_corners(sides: int) -> Seq<PolygonVertex> {
    Seq::new(sides as nat, |i: int| corner(sides, i))
}

/// The figure that a polygon with `sides` sides starts from when it grows a
/// side: it begins at corner 0 and has two lines to each other corner in
/// turn, the second of no length.
pub open spec fn morph_start(sides: int) -> Seq<PathCommand<PolygonVertex>> {
    Seq::new(
        (2 * sides) as nat,
        |k: int|
            if k == 0 {
                PathCommand::BeginFigure(corner(sides, 0))
            } else if k < 2 * sides - 1 {
                PathCommand::AddLine(corner(sides, (k + 1) / 2))
            } else {
                PathCommand::EndFigure(FigureLoop::Closed)
            },
    )
}

/// The figure that a polygon with `sides` sides ends in when it grows a
/// side: on the polygon with one side more it begins at corner 0 and has,
/// for each corner from 1 up to `sides - 1`, a line to that corner and a line
/// to the next.
pub open spec fn morph_end(sides: int) -> Seq<PathCommand<PolygonVertex>> {
    Seq::new(
        (2 * sides) as nat,
        |k: int|
            if k == 0 {
                PathCommand::BeginFigure(corner(sides + 1, 0))
            } else if k < 2 * sides - 1 {
                PathCommand::AddLine(corner(sides + 1, k / 2 + 1))
            } else {
                PathCommand::EndFigure(FigureLoop::Closed)
            },
    )
}

/// The commands that draw lines through `points`.
pub fn path_with_lines<P: Copy>(points: &[P], figure_loop: FigureLoop) -> (path: Vec<
    PathCommand<P>,
>)
    requires
        points@.len() < usize::MAX,
    ensures
        path@ == lines_path(points@, figure_loop),
{
    let mut path: Vec<PathCommand<P>> = Vec::new();
    if points.len() == 0 {
        return path;
    }
    path.push(PathCommand::BeginFigure(points[0]));
    let mut at: usize = 1;
    while at < points.len()
        invariant
            1 <= at <= points.len(),
            path@.len() == at,
            forall|k: int| 0 <= k < at ==> path@[k] == lines_path(points@, figure_loop)[k],
        decreases points.len() - at,
    {
        path.push(PathCommand::AddLine(points[at]));
        at += 1;
    }
    path.push(PathCommand::EndFigure(figure_loop));
    assert(path@ =~= lines_path(points@, figure_loop));
    path
}

/// The corners of a regular polygon, from corner 0 on.
pub fn regular_polygon_vertices(sides: u16) -> (vertices: Vec<PolygonVertex>)
    requires
        sides >= 3,
    ensures
        vertices@ == polygon_corners(sides as int),
{
    let mut vertices: Vec<PolygonVertex> = Vec::new();
    let mut index: u16 = 0;
    while index < sides
        invariant
            index <= sides,
            vertices@.len() == index,
            forall|i: int| 0 <= i < index ==> vertices@[i] == corner(sides as int, i),
        decreases sides - index,
    {
        vertices.push(PolygonVertex { sides: sides as u32, index: index as u32 });
        index += 1;
    }
    assert(vertices@ =~= polygon_corners(sides as int));
    vertices
}

/// The closed figure of a regular polygon: its corners in turn.
pub fn regular_polygon_path(sides: u16) -> (path: Vec<PathCommand<PolygonVertex>>)
    requires
        sides >= 3,
    ensures
        path@ == lines_path(polygon_corners(sides as int), FigureLoop::Closed),
{
    let vertices = regular_polygon_vertices(sides);
    path_with_lines(vertices.as_slice(), FigureLoop::Closed)
}

/// The figure that a polygon with `sides` sides starts from when it grows a
/// side.
pub fn morph_start_path(sides: u32) -> (path: Vec<PathCommand<PolygonVertex>>)
    requires
        sides >= 3,
        2 * sides <= usize::MAX,
    ensures
        path@ == morph_start(sides as int),
{
    let mut path: Vec<PathCommand<PolygonVertex>> = Vec::new();
    path.push(PathCommand::BeginFigure(PolygonVertex { sides, index: 0 }));
    let mut i: u32 = 1;
    while i < sides
        invariant
            1 <= i <= sides,
            path@.len() == 2 * i - 1,
            forall|k: int| 0 <= k < 2 * i - 1 ==> path@[k] == morph_start(sides as int)[k],
        decreases sides - i,
    {
        let vertex = PolygonVertex { sides, index: i };
        path.push(PathCommand::AddLine(vertex));
        path.push(PathCommand::AddLine(vertex));
        i += 1;
    }
    path.push(PathCommand::EndFigure(FigureLoop::Closed));
    assert(path@ =~= morph_start(sides as int));
    path
}

/// The figure that a polygon with `sides` sides ends in when it grows a
/// side.
pub fn morph_end_path(sides: u32) -> (path: Vec<PathCommand<PolygonVertex>>)
    requires
        sides >= 3,
        sides < u32::MAX,
        2 * sides <= usize::MAX,
    ensures
        path@ == morph_end(sides as int),
{
    let more = sides + 1;
    let mut path: Vec<PathCommand<PolygonVertex>> = Vec::new();
    path.push(PathCommand::BeginFigure(PolygonVertex { sides: more, index: 0 }));
    let mut i: u32 = 1;
    while i < sides
        invariant
            1 <= i <= sides,
            more == sides + 1,
            path@.len() == 2 * i - 1,
            forall|k: int| 0 <= k < 2 * i - 1 ==> path@[k] == morph_end(sides as int)[k],
        decreases sides - i,
    {
        path.push(PathCommand::AddLine(PolygonVertex { sides: more, index: i }));
        path.push(PathCommand::AddLine(PolygonVertex { sides: more, index: i + 1 }));
        i += 1;
    }
    path.push(PathCommand::EndFigure(FigureLoop::Closed));
    assert(path@ =~= morph_end(sides as int));
    path
}

/// True if the commands make one whole figure: a begin first, an end last,
/// and lines between.
pub open spec fn is_figure<P>(path: Seq<PathCommand<P>>) -> bool {
    &&& path.len() >= 2
    &&& path[0] is BeginFigure
    &&& path[path.len() - 1] is EndFigure
    &&& forall|k: int| 0 < k < path.len() - 1 ==> (#[trigger] path[k]) is AddLine
}

/// The point that a command names, if it names one.
pub open spec fn point_of<P>(command: PathCommand<P>) -> Option<P> {
    match command {
        PathCommand::BeginFigure(point) => Some(point),
        PathCommand::AddLine(point) => Some(point),
        PathCommand::EndFigure(_) => None,
    }
}

/// True if one of the commands names `point`.
pub open spec fn passes_through<P>(path: Seq<PathCommand<P>>, point: P) -> bool {
    exists|k: int| 0 <= k < path.len() && point_of(#[trigger] path[k]) == Some(point)
}

/// Lines through one point or more make one whole figure, with a command
/// more than there are points.
pub proof fn lemma_lines_path_is_figure<P>(points: Seq<P>, figure_loop: FigureLoop)
    requires
        points.len() > 0,
    ensures
        is_figure(lines_path(points, figure_loop)),
        lines_path(points, figure_loop).len() == points.len() + 1,
        forall|i: int|
            0 <= i < points.len() ==> point_of(#[trigger] lines_path(points, figure_loop)[i])
                == Some(points[i]),
{
}

/// The two figures of a morph are whole figures of the same length, both
/// closed: the one can go over into the other command by command.
pub proof fn lemma_morph_figures_match(sides: int)
    requires
        sides >= 3,
    ensures
        is_figure(morph_start(sides)),
        is_figure(morph_end(sides)),
        morph_start(sides).len() == 2 * sides,
        morph_end(sides).len() == 2 * sides,
        morph_start(sides)[2 * sides - 1] == PathCommand::<PolygonVertex>::EndFigure(
            FigureLoop::Closed,
        ),
        morph_end(sides)[2 * sides - 1] == PathCommand::<PolygonVertex>::EndFigure(
            FigureLoop::Closed,
        ),
{
}

/// The first figure of a morph passes through the corners of the polygon and
/// through nothing else.
pub proof fn lemma_morph_start_corners(sides: int)
    requires
        3 <= sides <= u32::MAX,
    ensures
        forall|index: int|
            0 <= index < sides ==> passes_through(morph_start(sides), #[trigger] corner(sides, index)),
        forall|k: int|
            0 <= k < 2 * sides - 1 ==> (point_of(#[trigger] morph_start(sides)[k]) matches Some(
                point,
            ) && point.sides == sides && point.index < sides),
{
    let path = morph_start(sides);
    assert forall|index: int| 0 <= index < sides implies passes_through(
        path,
        #[trigger] corner(sides, index),
    ) by {
        let k = if index == 0 {
            0
        } else {
            2 * index
        };
        assert(point_of(path[k]) == Some(corner(sides, index)));
    }
}

/// The second figure of a morph passes through the corners of the polygon
/// with one side more and through nothing else.
pub proof fn lemma_morph_end_corners(sides: int)
    requires
        3 <= sides < u32::MAX,
    ensures
        forall|index: int|
            0 <= index <= sides ==> passes_through(
                morph_end(sides),
                #[trigger] corner(sides + 1, index),
            ),
        forall|k: int|
            0 <= k < 2 * sides - 1 ==> (point_of(#[trigger] morph_end(sides)[k]) matches Some(
                point,
            ) && point.sides == sides + 1 && point.index <= sides),
{
    let path = morph_end(sides);
    assert forall|index: int| 0 <= index <= sides implies passes_through(
        path,
        #[trigger] corner(sides + 1, index),
    ) by {
        let k = if index == 0 {
            0
        } else if index == 1 {
            1
        } else {
            2 * index - 2
        };
        assert(point_of(path[k]) == Some(corner(sides + 1, index)));
    }
}

/// Each line of the second figure goes to the corner where the figure
/// stands or to the one after it: the figure walks once round the polygon.
pub proof fn lemma_morph_end_walks_round(sides: int, k: int)
    requires
        3 <= sides < u32::MAX,
        0 <= k < 2 * sides - 2,
    ensures
        point_of(morph_end(sides)[k]) matches Some(from) && point_of(morph_end(sides)[k + 1])
            matches Some(to) && from.index <= to.index <= from.index + 1,
{
}

} // verus!
