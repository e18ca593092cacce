//! Positions and paths, as the well-known text of geometry names them: a point has `x` for
//! the longitude, `y` for the latitude and `z` for the altitude.

use vstd::prelude::*;
use crate::fixed::{
    fixed_point, fixed_text, parse_fixed, push_fixed, push_signed, signed_decimal, whole_of,
    whole_part,
};
use crate::patterns::{
    captures, first_match, group, group_text, groups_of, COORDINATES_PATTERN, LINE_PATTERN,
    POINT_PATTERN,
};
use crate::text::{chars_of, split, split_at_char, string_of};

verus! {

/// A position. Longitude and latitude are in millionths of a degree.
#[derive(Clone, Copy, Debug, PartialEq, Eq, Structural)]
pub struct WKTPoint {
    pub x: i64,
    pub y: i64,
    pub z: i64,
}

impl WKTPoint {
    /// A position is given unless both longitude and latitude are 0.
    pub open spec fn is_given(self) -> bool {
        self.x != 0 || self.y != 0
    }

    pub fn valid(&self) -> (out: bool)
        ensures
            out == self.is_given(),
    {
        self.x != 0 || self.y != 0
    }

    pub fn as_tuple(&self) -> (out: (i64, i64, i64))
        ensures
            out == (self.x, self.y, self.z),
    {
        (self.x, self.y, self.z)
    }
}

/// A path: its points in order.
#[derive(Debug, PartialEq, Eq)]
pub struct WKTPolyline {
    pub points: Vec<(i64, i64, i64)>,
}

impl WKTPolyline {
    /// The path from `from` to `to`.
    pub fn between(from: &WKTPoint, to: &WKTPoint) -> (out: WKTPolyline)
        ensures
            out.points@ == seq![(from.x, from.y, from.z), (to.x, to.y, to.z)],
    {
        let mut points: Vec<(i64, i64, i64)> = Vec::new();
        points.push(from.as_tuple());
        points.push(to.as_tuple());
        assert(points@ =~= seq![(from.x, from.y, from.z), (to.x, to.y, to.z)]);
        WKTPolyline { points }
    }
}

/// Three coordinates as they are written: longitude and latitude in degrees, the altitude as
/// a whole number, with a space between them.
pub open spec fn coordinates_text(p: (i64, i64, i64)) -> Seq<char> {
    fixed_text(p.0 as int) + seq![' '] + fixed_text(p.1 as int) + seq![' '] + signed_decimal(
        p.2 as int,
    )
}

/// The points of a path as they are written, with a comma and a space between them.
pub open spec fn path_text(points: Seq<(i64, i64, i64)>) -> Seq<char>
    decreases points.len(),
{
    if points.len() == 0 {
        Seq::empty()
    } else if points.len() == 1 {
        coordinates_text(points[0])
    } else {
        path_text(points.drop_last()) + seq![',', ' '] + coordinates_text(points.last())
    }
}

fn push_coordinates(out: &mut Vec<char>, p: (i64, i64, i64))
    ensures
        final(out)@ == old(out)@ + coordinates_text(p),
{
    push_fixed(out, p.0);
    out.push(' ');
    push_fixed(out, p.1);
    out.push(' ');
    push_signed(out, p.2);
    assert(out@ =~= old(out)@ + coordinates_text(p));
}

/// The coordinates that the groups of a match write: the first three groups as numbers, the
/// altitude cut to a whole number. `None` where one of them is no number.
pub open spec fn coordinates_of(groups: Seq<Option<Seq<char>>>) -> Option<(i64, i64, i64)> {
    match (
        fixed_point(group(groups, 1)),
        fixed_point(group(groups, 2)),
        fixed_point(group(groups, 3)),
    ) {
        (Some(x), Some(y), Some(z)) => Some((x as i64, y as i64, whole_of(z) as i64)),
        _ => None,
    }
}

/// Reads the coordinates that the groups of a match write.
pub fn coordinates_from(groups: &Vec<Option<String>>) -> (out: Option<(i64, i64, i64)>)
    ensures
        out == coordinates_of(groups_of(groups@)),
{
    let x = parse_fixed(&chars_of(group_text(groups, 1).as_str()));
    let y = parse_fixed(&chars_of(group_text(groups, 2).as_str()));
    let z = parse_fixed(&chars_of(group_text(groups, 3).as_str()));
    match (x, y, z) {
        (Some(x), Some(y), Some(z)) => Some((x, y, whole_part(z))),
        _ => None,
    }
}

/// The position that a match of the pattern of positions writes.
pub open spec fn point_in(m: Option<Seq<Option<Seq<char>>>>) -> Option<WKTPoint> {
    match m {
        Some(groups) => match coordinates_of(groups) {
            Some(c) => Some(WKTPoint { x: c.0, y: c.1, z: c.2 }),
            None => None,
        },
        None => None,
    }
}

/// The points that the pieces of a path write, piece by piece. `None` where a piece does not
/// hold three numbers.
pub open spec fn path_of(pieces: Seq<Seq<char>>) -> Option<Seq<(i64, i64, i64)>>
    decreases pieces.len(),
{
    if pieces.len() == 0 {
        Some(Seq::empty())
    } else {
        match (path_of(pieces.drop_last()), first_match(COORDINATES_PATTERN@, pieces.last())) {
            (Some(before), Some(groups)) => match coordinates_of(groups) {
                Some(c) => Some(before.push(c)),
                None => None,
            },
            _ => None,
        }
    }
}

/// The points that a match of the pattern of paths writes: what stands between the brackets,
/// cut at its commas.
pub open spec fn path_in(m: Option<Seq<Option<Seq<char>>>>) -> Option<Seq<(i64, i64, i64)>> {
    match m {
        Some(groups) => path_of(split(group(groups, 1), ',')),
        None => None,
    }
}

proof fn lemma_path_needs_prefix(pieces: Seq<Seq<char>>, i: int)
    requires
        0 <= i <= pieces.len(),
        path_of(pieces.take(i)) is None,
    ensures
        path_of(pieces) is None,
    decreases pieces.len(),
{
    if i < pieces.len() {
        assert(pieces.drop_last().take(i) =~= pieces.take(i));
        lemma_path_needs_prefix(pieces.drop_last(), i);
    } else {
        assert(pieces.take(i) =~= pieces);
    }
}

impl WKTPoint {
    /// The position as it is written.
    pub open spec fn text(self) -> Seq<char> {
        seq!['P', 'O', 'I', 'N', 'T', ' ', '('] + coordinates_text((self.x, self.y, self.z))
            + seq![')']
    }

    /// Writes the position.
    pub fn to_text(&self) -> (out: String)
        ensures
            out@ == self.text(),
    {
        let mut out: Vec<char> = vec!['P', 'O', 'I', 'N', 'T', ' ', '('];
        push_coordinates(&mut out, (self.x, self.y, self.z));
        out.push(')');
        assert(out@ =~= self.text());
        string_of(&out)
    }

    /// The position that the first match of the pattern of positions writes.
    pub fn from_match(m: &Option<Vec<Option<String>>>) -> (out: Option<WKTPoint>)
        ensures
            out == point_in(
                match *m {
                    Some(groups) => Some(groups_of(groups@)),
                    None => None,
                },
            ),
    {
        match m {
            Some(groups) => match coordinates_from(groups) {
                Some(c) => Some(WKTPoint { x: c.0, y: c.1, z: c.2 }),
                None => None,
            },
            None => None,
        }
    }

    /// Reads a position from the text that writes it.
    pub fn parse(text: &str) -> (out: Option<WKTPoint>)
        ensures
            out == point_in(first_match(POINT_PATTERN@, text@)),
    {
        WKTPoint::from_match(&captures(POINT_PATTERN, text))
    }
}

impl WKTPolyline {
    /// The path as it is written.
    pub open spec fn text(self) -> Seq<char> {
        seq!['L', 'I', 'N', 'E', 'S', 'T', 'R', 'I', 'N', 'G', ' ', '('] + path_text(self.points@)
            + seq![')']
    }

    /// Writes the path.
    pub fn to_text(&self) -> (out: String)
        ensures
            out@ == self.text(),
    {
        let mut out: Vec<char> = vec!['L', 'I', 'N', 'E', 'S', 'T', 'R', 'I', 'N', 'G', ' ', '('];
        let ghost head = out@;
        let mut i: usize = 0;
        while i < self.points.len()
            invariant
                i <= self.points.len(),
                out@ == head + path_text(self.points@.take(i as int)),
            decreases self.points.len() - i,
        {
            if i > 0 {
                out.push(',');
                out.push(' ');
            }
            push_coordinates(&mut out, self.points[i]);
            proof {
                let now = self.points@.take(i + 1);
                assert(now.drop_last() =~= self.points@.take(i as int));
                assert(now.last() == self.points@[i as int]);
                if i == 0 {
                    assert(path_text(self.points@.take(0)) =~= Seq::<char>::empty());
                    assert(now[0] == self.points@[0]);
                }
                assert(out@ =~= head + path_text(now));
            }
            i += 1;
        }
        assert(self.points@.take(self.points.len() as int) =~= self.points@);
        out.push(')');
        string_of(&out)
    }

    /// The path that the pieces between the brackets write.
    pub fn from_pieces(pieces: &Vec<Vec<char>>) -> (out: Option<WKTPolyline>)
        ensures
            match path_of(Seq::new(pieces@.len(), |k: int| pieces@[k]@)) {
                Some(points) => out matches Some(l) && l.points@ == points,
                None => out is None,
            },
    {
        let ghost all = Seq::new(pieces@.len(), |k: int| pieces@[k]@);
        let mut points: Vec<(i64, i64, i64)> = Vec::new();
        let mut i: usize = 0;
        while i < pieces.len()
            invariant
                i <= pieces.len(),
                all == Seq::new(pieces@.len(), |k: int| pieces@[k]@),
                path_of(all.take(i as int)) == Some(points@),
            decreases pieces.len() - i,
        {
            let piece = string_of(&pieces[i]);
            let found = captures(COORDINATES_PATTERN, piece.as_str());
            proof {
                assert(all.take(i + 1).drop_last() =~= all.take(i as int));
                assert(all.take(i + 1).last() == piece@);
            }
            let c = match found {
                Some(groups) => coordinates_from(&groups),
                None => None,
            };
            match c {
                Some(c) => {
                    points.push(c);
                },
                None => {
                    proof {
                        lemma_path_needs_prefix(all, i + 1);
                    }
                    return None;
                },
            }
            i += 1;
        }
        assert(all.take(pieces.len() as int) =~= all);
        Some(WKTPolyline { points })
    }

    /// Reads a path from the text that writes it.
    pub fn parse(text: &str) -> (out: Option<WKTPolyline>)
        ensures
            match path_in(first_match(LINE_PATTERN@, text@)) {
                Some(points) => out matches Some(l) && l.points@ == points,
                None => out is None,
            },
    {
        match captures(LINE_PATTERN, text) {
            Some(groups) => {
                let inner = chars_of(group_text(&groups, 1).as_str());
                let pieces = split_at_char(&inner, ',');
                assert(Seq::new(pieces@.len(), |k: int| pieces@[k]@) =~= split(inner@, ','));
                WKTPolyline::from_pieces(&pieces)
            },
            None => None,
        }
    }
}

} // verus!
