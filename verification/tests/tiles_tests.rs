use rubiks_cube_representation::geometry::Face;
use rubiks_cube_representation::moves::BasicMove;
use rubiks_cube_representation::restrictions::{Restriction, Slice};
use rubiks_cube_representation::rotations::CubeRotation;

#[test]
fn test_u_move_affects_only_top_slice() {
    let u_move = BasicMove::U.to_tile_perm(3);
    let identity = CubeRotation::id().to_tile_perm(3);
    let top_slice = Slice { face: Face::Up, slice_index: 0 };
    let second_slice = Slice { face: Face::Up, slice_index: 1 };

    // Check if U move affects the top slice (it should)
    let affects_top = !u_move.agree_on(&identity, &top_slice);
    println!("U move affects top slice (slice_index=0): {}", affects_top);
    assert!(affects_top, "U move should affect the top slice");

    // Check if U move affects the second slice (it shouldn't)
    let affects_second = !u_move.agree_on(&identity, &second_slice);
    println!("U move affects second slice (slice_index=1): {}", affects_second);

    if affects_second {
        // Debug: find which positions disagree
        println!("\nPositions where U move disagrees with identity on second slice:");
        for pos in second_slice.restricted_positions(3) {
            let u_dest = u_move.apply(pos);
            let id_dest = identity.apply(pos);
            if u_dest != id_dest {
                println!("  Position {:?} -> U: {:?}, Identity: {:?}", pos, u_dest, id_dest);
            }
        }
    }

    assert!(!affects_second, "U move should NOT affect the second slice");
}

#[test]
fn test_basic_moves_have_order_4() {
    // All basic quarter-turn moves should have order 4 (M^4 = identity)
    let identity = CubeRotation::id().to_tile_perm(3);

    let moves = [
        BasicMove::U,
        BasicMove::D,
        BasicMove::L,
        BasicMove::R,
        BasicMove::F,
        BasicMove::B,
    ];

    for mov in moves {
        let m = mov.to_tile_perm(3);
        let m4 = m.compose(&m).compose(&m).compose(&m);
        assert_eq!(m4, identity, "{:?}^4 should equal identity", mov);
    }
}

#[test]
fn test_basic_moves_double_equals_half_turn() {
    // M * M should equal M2 for all basic moves
    let test_pairs = [
        (BasicMove::U, BasicMove::U2),
        (BasicMove::D, BasicMove::D2),
        (BasicMove::L, BasicMove::L2),
        (BasicMove::R, BasicMove::R2),
        (BasicMove::F, BasicMove::F2),
        (BasicMove::B, BasicMove::B2),
    ];

    for (quarter, half) in test_pairs {
        let m = quarter.to_tile_perm(3);
        let m2_composed = m.compose(&m);
        let m2_direct = half.to_tile_perm(3);
        assert_eq!(m2_composed, m2_direct, "{:?} * {:?} should equal {:?}", quarter, quarter, half);
    }
}

#[test]
fn test_basic_moves_affect_only_their_face_slice() {
    // Each basic move should affect slice 0 of its face and edge tiles on adjacent faces,
    // but should NOT affect other slices of its own face
    let identity = CubeRotation::id().to_tile_perm(3);

    let test_cases = [
        (BasicMove::U, Face::Up),
        (BasicMove::D, Face::Down),
        (BasicMove::L, Face::Left),
        (BasicMove::R, Face::Right),
        (BasicMove::F, Face::Front),
        (BasicMove::B, Face::Back),
    ];

    for (mov, face) in test_cases {
        let m = mov.to_tile_perm(3);
        let face_slice = Slice { face, slice_index: 0 };

        // Should affect the face's slice 0
        assert!(!m.agree_on(&identity, &face_slice), "{:?} should affect {:?} slice 0", mov, face);

        // Should not affect other slices of that face (slices 1 and 2 are internal/opposite)
        for slice_idx in 1..3 {
            let other_slice = Slice { face, slice_index: slice_idx };
            assert!(
                m.agree_on(&identity, &other_slice),
                "{:?} should NOT affect {:?} slice {}",
                mov,
                face,
                slice_idx
            );
        }
    }
}
