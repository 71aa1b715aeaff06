use red_room::point::Point;
use red_room::room::{Room, Side, Wall};
use red_room::scene::{placements, sandbox_room, Piece, Placement};

#[test]
fn room_sizes_must_be_positive_and_fit() {
    assert_eq!(Room::new(0, 10), None);
    assert_eq!(Room::new(10, 0), None);
    assert_eq!(Room::new(-5, 10), None);
    assert_eq!(Room::new(i32::MAX / 2 + 1, 1), None);
    let big = Room::new(i32::MAX / 2, 1).unwrap();
    assert_eq!(big.floor_size(), i32::MAX - 1);
    let small = Room::new(3, 4).unwrap();
    assert_eq!(small.half_extent, 3);
    assert_eq!(small.wall_height, 4);
}

#[test]
fn sandbox_room_walls() {
    let room = sandbox_room();
    assert_eq!(room.floor_size(), 20_000);
    let walls = room.walls();
    let expected = vec![
        Wall { side: Side::Right, center: Point::new(10_000, 5_000, 0), length: 20_000, height: 10_000 },
        Wall { side: Side::Left, center: Point::new(-10_000, 5_000, 0), length: 20_000, height: 10_000 },
        Wall { side: Side::Back, center: Point::new(0, 5_000, -10_000), length: 20_000, height: 10_000 },
        Wall { side: Side::Front, center: Point::new(0, 5_000, 10_000), length: 20_000, height: 10_000 },
    ];
    assert_eq!(walls, expected);
    assert_eq!(room.wall(Side::Back), expected[2]);
}

#[test]
fn odd_wall_height_centre_rounds_down() {
    let room = Room::new(7, 5).unwrap();
    let w = room.wall(Side::Front);
    assert_eq!(w.center, Point::new(0, 2, 7));
    assert_eq!(w.length, 14);
    assert_eq!(w.height, 5);
}

#[test]
fn containment_excludes_walls_and_below_floor() {
    let room = sandbox_room();
    assert!(room.contains(&Point::new(0, 0, 0)));
    assert!(room.contains(&Point::new(9_999, 10_000, -9_999)));
    assert!(!room.contains(&Point::new(10_000, 5_000, 0)));
    assert!(!room.contains(&Point::new(0, 5_000, -10_000)));
    assert!(!room.contains(&Point::new(0, -1, 0)));
    assert!(!room.contains(&Point::new(0, 10_001, 0)));
    assert!(!room.contains(&Point::new(i32::MIN, 0, 0)));
}

#[test]
fn starting_placements() {
    let room = sandbox_room();
    let ps = placements();
    let expected = vec![
        Placement { piece: Piece::Player, at: Point::new(0, 1_500, 0) },
        Placement { piece: Piece::Cube, at: Point::new(0, 4_000, 0) },
        Placement { piece: Piece::Sphere, at: Point::new(3_000, 4_000, 0) },
        Placement { piece: Piece::Light, at: Point::new(4_000, 8_000, -7_000) },
        Placement { piece: Piece::Light, at: Point::new(4_000, 8_000, 7_000) },
        Placement { piece: Piece::Camera, at: Point::new(0, 15_000, 25_000) },
    ];
    assert_eq!(ps, expected);
    for p in &ps {
        assert_eq!(room.contains(&p.at), p.piece != Piece::Camera);
    }
}
