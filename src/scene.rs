//! Where the sandbox puts things when play starts: the room, the player,
//! two loose bodies, two lights and the camera.
use vstd::prelude::*;
use crate::point::Point;
use crate::room::Room;

verus! {

pub const ROOM_HALF_EXTENT_MM: i32 = 10_000;

pub const ROOM_WALL_HEIGHT_MM: i32 = 10_000;

pub const PLAYER_RADIUS_MM: i32 = 400;

/// Length of the player capsule's straight middle part.
pub const PLAYER_LENGTH_MM: i32 = 1_000;

pub const CUBE_SIDE_MM: i32 = 1_000;

pub const SPHERE_RADIUS_MM: i32 = 500;

/// What is placed.
#[derive(Clone, Copy, Debug, PartialEq, Eq, Structural)]
pub enum Piece {
    Player,
    Cube,
    Sphere,
    Light,
    Camera,
}

/// A piece and the point it starts at (its centre).
#[derive(Clone, Copy, Debug, PartialEq, Eq, Structural)]
pub struct Placement {
    pub piece: Piece,
    pub at: Point,
}

pub open spec fn sandbox_room_spec() -> Room {
    Room { half_extent: ROOM_HALF_EXTENT_MM, wall_height: ROOM_WALL_HEIGHT_MM }
}

pub open spec fn placed(piece: Piece, x: i32, y: i32, z: i32) -> Placement {
    Placement { piece, at: Point { x, y, z } }
}

pub open spec fn placements_spec() -> Seq<Placement> {
    seq![
        placed(Piece::Player, 0, 1_500, 0),
        placed(Piece::Cube, 0, 4_000, 0),
        placed(Piece::Sphere, 3_000, 4_000, 0),
        placed(Piece::Light, 4_000, 8_000, -7_000i32),
        placed(Piece::Light, 4_000, 8_000, 7_000),
        placed(Piece::Camera, 0, 15_000, 25_000),
    ]
}

/// The room the sandbox is played in: 20 m square, walls 10 m tall.
pub fn sandbox_room() -> (r: Room)
    ensures
        r == sandbox_room_spec(),
        r.wf(),
{
    Room { half_extent: ROOM_HALF_EXTENT_MM, wall_height: ROOM_WALL_HEIGHT_MM }
}

/// The starting placements, in spawn order. Everything but the camera
/// starts inside the room; the camera watches from beyond the front wall.
pub fn placements() -> (r: Vec<Placement>)
    ensures
        r@ == placements_spec(),
        forall|i: int|
            0 <= i < r@.len() ==> (#[trigger] r@[i]).piece != Piece::Camera
                ==> sandbox_room_spec().holds(r@[i].at),
        forall|i: int|
            0 <= i < r@.len() ==> (#[trigger] r@[i]).piece == Piece::Camera
                ==> !sandbox_room_spec().holds(r@[i].at),
{
    let mut r: Vec<Placement> = Vec::new();
    r.push(Placement { piece: Piece::Player, at: Point { x: 0, y: 1_500, z: 0 } });
    r.push(Placement { piece: Piece::Cube, at: Point { x: 0, y: 4_000, z: 0 } });
    r.push(Placement { piece: Piece::Sphere, at: Point { x: 3_000, y: 4_000, z: 0 } });
    r.push(Placement { piece: Piece::Light, at: Point { x: 4_000, y: 8_000, z: -7_000 } });
    r.push(Placement { piece: Piece::Light, at: Point { x: 4_000, y: 8_000, z: 7_000 } });
    r.push(Placement { piece: Piece::Camera, at: Point { x: 0, y: 15_000, z: 25_000 } });
    assert(r@ =~= placements_spec());
    r
}

} // verus!
