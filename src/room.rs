//! The walled room: a square floor centred on the origin, closed on each of
//! its four sides by an upright wall.
use vstd::prelude::*;
use crate::point::Point;

verus! {

/// Which edge of the floor a wall stands on.
#[derive(Clone, Copy, Debug, PartialEq, Eq, Structural)]
pub enum Side {
    /// The edge at `x == +half_extent`.
    Right,
    /// The edge at `x == -half_extent`.
    Left,
    /// The edge at `z == -half_extent`.
    Back,
    /// The edge at `z == +half_extent`.
    Front,
}

/// An upright rectangular wall, given by the centre of its face.
#[derive(Clone, Copy, Debug, PartialEq, Eq, Structural)]
pub struct Wall {
    pub side: Side,
    pub center: Point,
    /// Horizontal extent, along the edge it stands on.
    pub length: i32,
    pub height: i32,
}

/// A room whose floor spans `[-half_extent, half_extent]` on `x` and `z`
/// at `y == 0`, with walls `wall_height` tall.
#[derive(Clone, Copy, Debug, PartialEq, Eq, Structural)]
pub struct Room {
    pub half_extent: i32,
    pub wall_height: i32,
}

impl Room {
    /// Both sizes positive, and the floor's side fits in an `i32`.
    pub open spec fn wf(self) -> bool {
        0 < self.half_extent <= i32::MAX / 2 && 0 < self.wall_height
    }

    pub open spec fn floor_side(self) -> int {
        2 * self.half_extent
    }

    pub open spec fn wall_spec(self, side: Side) -> Wall {
        let h = self.half_extent;
        let y = (self.wall_height / 2) as i32;
        let center = match side {
            Side::Right => Point { x: h, y, z: 0 },
            Side::Left => Point { x: (-h) as i32, y, z: 0 },
            Side::Back => Point { x: 0, y, z: (-h) as i32 },
            Side::Front => Point { x: 0, y, z: h },
        };
        Wall { side, center, length: (2 * h) as i32, height: self.wall_height }
    }

    pub open spec fn walls_spec(self) -> Seq<Wall> {
        seq![
            self.wall_spec(Side::Right),
            self.wall_spec(Side::Left),
            self.wall_spec(Side::Back),
            self.wall_spec(Side::Front),
        ]
    }

    /// Strictly inside the walls, at or above the floor and not above the walls.
    pub open spec fn holds(self, p: Point) -> bool {
        &&& -self.half_extent < p.x < self.half_extent
        &&& -self.half_extent < p.z < self.half_extent
        &&& 0 <= p.y <= self.wall_height
    }

    /// A room of the given sizes (millimetres); `None` unless both are
    /// positive and twice `half_extent` fits in an `i32`.
    pub fn new(half_extent: i32, wall_height: i32) -> (r: Option<Room>)
        ensures
            r is Some <==> (0 < half_extent <= i32::MAX / 2 && 0 < wall_height),
            r matches Some(room) ==> room.wf() && room.half_extent == half_extent
                && room.wall_height == wall_height,
    {
        if 0 < half_extent && half_extent <= i32::MAX / 2 && 0 < wall_height {
            Some(Room { half_extent, wall_height })
        } else {
            None
        }
    }

    /// Length of each side of the square floor.
    pub fn floor_size(&self) -> (r: i32)
        requires
            self.wf(),
        ensures
            r == self.floor_side(),
    {
        2 * self.half_extent
    }

    /// The wall on `side`: centred on that edge of the floor, as long as the
    /// floor is wide, standing on the floor.
    pub fn wall(&self, side: Side) -> (r: Wall)
        requires
            self.wf(),
        ensures
            r == self.wall_spec(side),
    {
        let h = self.half_extent;
        let y = self.wall_height / 2;
        let center = match side {
            Side::Right => Point { x: h, y, z: 0 },
            Side::Left => Point { x: -h, y, z: 0 },
            Side::Back => Point { x: 0, y, z: -h },
            Side::Front => Point { x: 0, y, z: h },
        };
        Wall { side, center, length: 2 * h, height: self.wall_height }
    }

    /// The four walls, right, left, back and front.
    pub fn walls(&self) -> (r: Vec<Wall>)
        requires
            self.wf(),
        ensures
            r@ == self.walls_spec(),
    {
        let mut r: Vec<Wall> = Vec::new();
        r.push(self.wall(Side::Right));
        r.push(self.wall(Side::Left));
        r.push(self.wall(Side::Back));
        r.push(self.wall(Side::Front));
        assert(r@ =~= self.walls_spec());
        r
    }

    /// Whether `p` is inside the room.
    pub fn contains(&self, p: &Point) -> (r: bool)
        ensures
            r == self.holds(*p),
    {
        let h: i64 = self.half_extent as i64;
        -h < p.x as i64 && (p.x as i64) < h && -h < p.z as i64 && (p.z as i64) < h && 0 <= p.y
            && p.y <= self.wall_height
    }
}

/// The walls close the room: each side of the floor has one wall, in the
/// order right, left, back, front,
/// centred on that edge, exactly as long as the edge, whose lower rim lies on
/// the floor.
pub proof fn lemma_walls_enclose_floor(room: Room)
    requires
        room.wf(),
    ensures
        room.walls_spec().len() == 4,
        room.walls_spec()[0].side == Side::Right,
        room.walls_spec()[1].side == Side::Left,
        room.walls_spec()[2].side == Side::Back,
        room.walls_spec()[3].side == Side::Front,
        forall|i: int|
            0 <= i < 4 ==> {
                let w = #[trigger] room.walls_spec()[i];
                &&& w.length == room.floor_side()
                &&& w.center.y - w.height / 2 == 0
                &&& match w.side {
                    Side::Right => w.center.x == room.half_extent && w.center.z == 0,
                    Side::Left => w.center.x == -room.half_extent && w.center.z == 0,
                    Side::Back => w.center.z == -room.half_extent && w.center.x == 0,
                    Side::Front => w.center.z == room.half_extent && w.center.x == 0,
                }
            },
{
}

} // verus!
