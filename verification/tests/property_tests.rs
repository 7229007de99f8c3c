use rubiks_cube_representation::geometry::Face;
use rubiks_cube_representation::moves::BasicMove;
use rubiks_cube_representation::partial::{rotate_face_only, rotate_outside_of_slice};
use rubiks_cube_representation::restrictions::{increment_pos, slice_range, Restriction, Slice, SliceIter};
use rubiks_cube_representation::rotations::CubeRotation;
use rubiks_cube_representation::schemes::{ColourPerm, ColourScheme, Japanese, Western};
use rubiks_cube_representation::state::RubiksState;
use rubiks_cube_representation::tiles::TilePos;
use rubiks_cube_representation::{Angle, Colour};
use rubiks_cube_representation::Angle::{ACWQuarter, CWQuarter, Half, Zero};

#[test]
fn angle_addition_table() {
    // Two quarter turns make a half turn
    assert_eq!(CWQuarter.plus(CWQuarter), Half);
    // Quarter + three-quarters = full rotation = zero
    assert_eq!(CWQuarter.plus(ACWQuarter), Zero);
    // Half + half = full rotation = zero
    assert_eq!(Half.plus(Half), Zero);
    // Subtracting an angle from itself gives zero
    assert_eq!(CWQuarter.minus(CWQuarter), Zero);
    // Half - quarter = quarter
    assert_eq!(Half.minus(CWQuarter), CWQuarter);
    // Subtracting from zero gives the inverse
    assert_eq!(Zero.minus(CWQuarter), ACWQuarter);
    assert_eq!(CWQuarter.negate(), ACWQuarter);
    assert_eq!(Half.negate(), Half);
}

#[test]
fn rotate_indices_exact_values() {
    // On a 2×2 grid, a clockwise quarter turn sends (0,0) to (0,1)
    assert_eq!(CWQuarter.rotate_indices(2, 0, 0), (0, 1));
    assert_eq!(CWQuarter.rotate_indices(2, 1, 0), (0, 0));
    assert_eq!(Half.rotate_indices(3, 0, 0), (2, 2));
    assert_eq!(ACWQuarter.rotate_indices(3, 0, 2), (0, 0));
    assert_eq!(Zero.rotate_indices(3, 1, 2), (1, 2));
    // The centre of an odd grid is fixed by every angle
    assert_eq!(CWQuarter.rotate_indices(3, 1, 1), (1, 1));
}

#[test]
fn inverse_of_inverse_is_original() {
    let combined = BasicMove::R
        .to_tile_perm(3)
        .compose(&BasicMove::U.to_tile_perm(3))
        .compose(&CubeRotation::z().to_tile_perm(3));
    let double_inverse = combined.inverse().inverse();
    assert_eq!(combined, double_inverse);
}

#[test]
fn four_basic_moves_restore_the_state() {
    // Four consecutive applications of any basic move return a cube state to
    // its original configuration.
    let start = BasicMove::F.to_tile_perm(3).on(&RubiksState::solved_in(Japanese, 3));
    let moves = [
        BasicMove::U,
        BasicMove::D,
        BasicMove::L,
        BasicMove::R,
        BasicMove::F,
        BasicMove::B,
        BasicMove::U2,
        BasicMove::R3,
    ];
    for mov in moves {
        let perm = mov.to_tile_perm(3);
        let mut state = start.clone();
        for _ in 0..4 {
            state = perm.on(&state);
        }
        assert_eq!(state, start, "{:?} applied four times should restore the state", mov);
    }
}

#[test]
fn get_face_missing_colour() {
    // A colour absent from the scheme has no face
    let all_white = ColourPerm {
        up: Colour::White,
        down: Colour::White,
        left: Colour::White,
        right: Colour::White,
        front: Colour::White,
        back: Colour::White,
    };
    assert_eq!(all_white.get_face(Colour::Red), None);
    assert_eq!(all_white.get_face(Colour::White), Some(Face::Up));
    // A complete scheme finds every colour
    assert_eq!(Western.get_face(Colour::Green), Some(Face::Front));
    assert_eq!(Western.get_face(Colour::Yellow), Some(Face::Down));
}

#[test]
fn scrambled_cube_is_not_solved() {
    let cube = RubiksState::solved_in(Western, 3);
    assert!(cube.is_solved());
    let turned = BasicMove::U.to_tile_perm(3).on(&cube);
    assert!(!turned.is_solved());
    assert!(!turned.is_solved_in(Western));
    // A whole-cube rotation keeps the cube solved
    let rotated = CubeRotation::y().to_tile_perm(3).on(&cube);
    assert!(rotated.is_solved());
}

#[test]
fn zero_dimension_cube_is_solved() {
    let cube = RubiksState::solved_in(Western, 0);
    assert!(cube.is_solved());
    assert!(cube.is_solved_in(Western));
    assert!(cube.is_solved_up_to_rotation_in(Western));
}

#[test]
fn one_by_one_slice_counts() {
    // For n = 1 the single slice is an end cap: one face tile and one ring
    // tile per side
    let slice = Slice { face: Face::Up, slice_index: 0 };
    assert_eq!(slice.restricted_positions(1).len(), 5);
}

#[test]
fn slice_iter_walks_all_positions() {
    let slice = Slice { face: Face::Up, slice_index: 0 };
    let expected = slice.restricted_positions(3);
    let mut iter = SliceIter::new(&slice, 3);
    let mut seen: Vec<TilePos> = Vec::new();
    while let Some(p) = iter.next() {
        seen.push(p);
    }
    assert_eq!(seen, expected);
    assert_eq!(iter.next(), None);
}

#[test]
fn slice_range_iter_walks_all_positions() {
    let mut iter = slice_range(Face::Front, 0, 2, 3);
    let mut count = 0;
    while let Some(_) = iter.next() {
        count += 1;
    }
    // Slices 0 and 2 are end caps (21 tiles each), slice 1 a ring (12 tiles)
    assert_eq!(count, 21 + 12 + 21);
}

#[test]
fn increment_pos_walks_row_major() {
    let mut pos = (0usize, 0usize);
    increment_pos(&mut pos, 3);
    assert_eq!(pos, (1, 0));
    increment_pos(&mut pos, 3);
    assert_eq!(pos, (2, 0));
    increment_pos(&mut pos, 3);
    assert_eq!(pos, (0, 1));
}

#[test]
fn face_rotation_partial_round_trip() {
    // The inverse of a face rotation undoes it on every tile of the face
    let pp = rotate_face_only(Face::Up, Angle::CWQuarter, 3);
    let inv = pp.inverse();
    for row in 0..3 {
        for col in 0..3 {
            let p = TilePos { face: Face::Up, row, col };
            assert_eq!(inv.ext_at(pp.ext_at(p)), p);
        }
    }
    // Tiles of other faces are untouched
    let q = TilePos { face: Face::Down, row: 0, col: 0 };
    assert_eq!(pp.ext_at(q), q);
    assert_eq!(pp.entry_at(q), None);
}

#[test]
fn ring_rotation_domain_size() {
    // The ring of a middle slice holds 4·n tiles
    let pp = rotate_outside_of_slice(Slice { face: Face::Up, slice_index: 1 }, Angle::CWQuarter, 3);
    let domain = pp.restriction_domain();
    assert_eq!(domain.positions.len(), 12);
    // And none of them lies on the reference face or its opposite
    for p in &domain.positions {
        assert_ne!(p.face, Face::Up);
        assert_ne!(p.face, Face::Down);
    }
}

#[test]
fn wide_move_of_full_depth_equals_rotation() {
    // Turning every layer of the cube is the same as rotating the whole cube
    let wide = rubiks_cube_representation::moves::WideMove::Uw(2).to_tile_perm(2);
    let rotation = CubeRotation::y().to_tile_perm(2);
    for face in [Face::Up, Face::Down, Face::Left, Face::Right, Face::Front, Face::Back] {
        for row in 0..2 {
            for col in 0..2 {
                let p = TilePos { face, row, col };
                assert_eq!(wide.apply(p), rotation.apply(p), "mismatch at {:?}", p);
            }
        }
    }
}

#[test]
fn middle_move_matches_slice_move_on_odd_cube() {
    // On a 3×3×3 cube the M move is the middle slice of the Left face
    let middle = rubiks_cube_representation::moves::MiddleMove::M.to_tile_perm(3);
    let slice = rubiks_cube_representation::moves::SliceMove::Ls(2).to_tile_perm(3);
    assert_eq!(middle, slice);
}

#[test]
fn slice_move_at_far_layer_matches_prime_move() {
    // The layer farthest from Left is the Right face's own layer, spinning
    // the other way round
    let far_slice = rubiks_cube_representation::moves::SliceMove::Ls(3).to_tile_perm(3);
    let prime = BasicMove::R3.to_tile_perm(3);
    assert_eq!(far_slice, prime);
}
