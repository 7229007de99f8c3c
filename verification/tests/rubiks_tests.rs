use rubiks_cube_representation::geometry::Face;
use rubiks_cube_representation::moves::{BasicMove, MiddleMove, RangeMove, SliceMove, WideMove};
use rubiks_cube_representation::restrictions::Slice;
use rubiks_cube_representation::rotations::CubeRotation;
use rubiks_cube_representation::schemes::{ColourPerm, ColourScheme, Western};
use rubiks_cube_representation::state::{FaceState, RubiksState};
use rubiks_cube_representation::Colour;
use rubiks_cube_representation::Colour::{Blue, Green, Orange, Red, White, Yellow};

#[test]
fn test_solved_up_to_rotation() {
    let western = Western;

    // Create a cube solved in standard Western orientation
    let cube_standard = RubiksState::solved_in(western, 3);

    // Create cubes solved in rotated Western orientations
    let western_x_rotated = western.rotated(CubeRotation::x());
    let cube_x_rotated = RubiksState::solved_in(western_x_rotated, 3);

    println!("Standard Western: Up={:?}, Front={:?}", western.up(), western.front());
    println!(
        "X-rotated Western: Up={:?}, Front={:?}",
        western_x_rotated.up(),
        western_x_rotated.front()
    );

    let western_y_rotated = western.rotated(CubeRotation::y());
    let cube_y_rotated = RubiksState::solved_in(western_y_rotated, 3);

    // Test some more complex rotations
    let complex_rotation1 = CubeRotation::x()
        .compose(CubeRotation::y())
        .compose(CubeRotation::z3())
        .compose(CubeRotation::x3());
    let western_complex1 = western.rotated(complex_rotation1);
    let cube_complex1 = RubiksState::solved_in(western_complex1, 3);

    let complex_rotation2 = CubeRotation::y()
        .compose(CubeRotation::y())
        .compose(CubeRotation::z())
        .compose(CubeRotation::x());
    let western_complex2 = western.rotated(complex_rotation2);
    let cube_complex2 = RubiksState::solved_in(western_complex2, 3);

    // All these cubes should be detected as solved in Western up to rotation
    assert!(cube_standard.is_solved_up_to_rotation_in(western));
    assert!(cube_x_rotated.is_solved_up_to_rotation_in(western));
    assert!(cube_y_rotated.is_solved_up_to_rotation_in(western));
    assert!(cube_complex1.is_solved_up_to_rotation_in(western));
    assert!(cube_complex2.is_solved_up_to_rotation_in(western));

    // But cubes with rotations shouldn't be solved in the standard orientation
    assert!(!cube_x_rotated.is_solved_in(western));
    assert!(!cube_y_rotated.is_solved_in(western));
    assert!(!cube_complex1.is_solved_in(western));
    assert!(!cube_complex2.is_solved_in(western));
}

#[test]
fn test_1x1_cube_rotations() {
    // Create a simple 1x1 cube with distinct colors on each face
    let original_scheme = ColourPerm {
        up: Colour::White,
        down: Colour::Yellow,
        left: Colour::Orange,
        right: Colour::Red,
        front: Colour::Green,
        back: Colour::Blue,
    };

    let cube = RubiksState::solved_in(original_scheme, 1);

    // Test X rotation: Up→Back, Down→Front, Front→Up, Back→Down, Left→Left, Right→Right
    let rotated_cube = CubeRotation::x().to_tile_perm(1).on(&cube);

    let expected_after_x = ColourPerm {
        up: Colour::Green,     // Front went to Up
        down: Colour::Blue,    // Back went to Down
        left: Colour::Orange,  // Left stayed Left
        right: Colour::Red,    // Right stayed Right
        front: Colour::Yellow, // Down went to Front
        back: Colour::White,   // Up went to Back
    };

    let expected_cube = RubiksState::solved_in(expected_after_x, 1);
    assert_eq!(rotated_cube, expected_cube, "X rotation should move faces correctly");

    // Test Y rotation on original: Front→Left, Left→Back, Back→Right, Right→Front, Up→Up, Down→Down
    let y_rotated_cube = CubeRotation::y().to_tile_perm(1).on(&cube);

    let expected_after_y = ColourPerm {
        up: Colour::White,    // Up stayed Up
        down: Colour::Yellow, // Down stayed Down
        left: Colour::Green,  // Front went to Left
        right: Colour::Blue,  // Back went to Right
        front: Colour::Red,   // Right went to Front
        back: Colour::Orange, // Left went to Back
    };

    let expected_y_cube = RubiksState::solved_in(expected_after_y, 1);
    assert_eq!(y_rotated_cube, expected_y_cube, "Y rotation should move faces correctly");

    // Test Z rotation on original: Up→Right, Right→Down, Down→Left, Left→Up, Front→Front, Back→Back
    let z_rotated_cube = CubeRotation::z().to_tile_perm(1).on(&cube);

    let expected_after_z = ColourPerm {
        up: Colour::Orange,   // Left went to Up
        down: Colour::Red,    // Right went to Down
        left: Colour::Yellow, // Down went to Left
        right: Colour::White, // Up went to Right
        front: Colour::Green, // Front stayed Front
        back: Colour::Blue,   // Back stayed Back
    };

    let expected_z_cube = RubiksState::solved_in(expected_after_z, 1);
    assert_eq!(z_rotated_cube, expected_z_cube, "Z rotation should move faces correctly");
}

fn face2(a: Colour, b: Colour, c: Colour, d: Colour) -> FaceState {
    FaceState { n: 2, vals: vec![a, b, c, d] }
}

#[test]
fn test_2x2_cube_x_rotation() {
    let initial = RubiksState {
        n: 2,
        up: face2(Orange, Red, Yellow, White),
        down: face2(Blue, Green, Red, Orange),
        left: face2(White, Yellow, Blue, Green),
        right: face2(Green, Blue, Orange, Red),
        front: face2(Yellow, White, Green, Blue),
        back: face2(Red, Orange, White, Yellow),
    };

    let expected_after_x = RubiksState {
        n: 2,
        up: face2(Yellow, White, Green, Blue),
        down: face2(Red, Orange, White, Yellow),
        left: face2(Yellow, Green, White, Blue),
        right: face2(Orange, Green, Red, Blue),
        front: face2(Blue, Green, Red, Orange),
        back: face2(Orange, Red, Yellow, White),
    };

    assert_eq!(CubeRotation::x().to_tile_perm(2).on(&initial), expected_after_x);
}

#[test]
fn test_2x2_cube_y_rotation() {
    let initial = RubiksState {
        n: 2,
        up: face2(Orange, Red, Yellow, White),
        down: face2(Blue, Green, Red, Orange),
        left: face2(White, Yellow, Blue, Green),
        right: face2(Green, Blue, Orange, Red),
        front: face2(Yellow, White, Green, Blue),
        back: face2(Red, Orange, White, Yellow),
    };

    let expected_after_y = RubiksState {
        n: 2,
        up: face2(Yellow, Orange, White, Red),
        down: face2(Green, Orange, Blue, Red),
        left: face2(Yellow, White, Green, Blue),
        right: face2(Yellow, White, Orange, Red),
        front: face2(Green, Blue, Orange, Red),
        back: face2(Green, Blue, Yellow, White),
    };

    assert_eq!(CubeRotation::y().to_tile_perm(2).on(&initial), expected_after_y);
}

#[test]
fn test_2x2_cube_z_rotation() {
    let initial = RubiksState {
        n: 2,
        up: face2(Orange, Red, Yellow, White),
        down: face2(Blue, Green, Red, Orange),
        left: face2(White, Yellow, Blue, Green),
        right: face2(Green, Blue, Orange, Red),
        front: face2(Yellow, White, Green, Blue),
        back: face2(Red, Orange, White, Yellow),
    };

    let expected_after_z = RubiksState {
        n: 2,
        up: face2(Blue, White, Green, Yellow),
        down: face2(Orange, Green, Red, Blue),
        left: face2(Red, Blue, Orange, Green),
        right: face2(Yellow, Orange, White, Red),
        front: face2(Green, Yellow, Blue, White),
        back: face2(Orange, Yellow, Red, White),
    };

    assert_eq!(CubeRotation::z().to_tile_perm(2).on(&initial), expected_after_z);
}

#[test]
fn test_basic_moves_agree_with_rotations_on_slices() {
    // Each move should agree with the corresponding rotation on its slice,
    // and agree with identity on all other slices

    let identity = CubeRotation::id().to_tile_perm(3);

    let test_cases = [
        (BasicMove::U, CubeRotation::y(), Face::Up), // U rotates like Y around Up face
        (BasicMove::D, CubeRotation::y3(), Face::Down), // D rotates like Y' around Down face
        (BasicMove::L, CubeRotation::x3(), Face::Left), // L rotates like X' around Left face
        (BasicMove::R, CubeRotation::x(), Face::Right), // R rotates like X around Right face
        (BasicMove::F, CubeRotation::z(), Face::Front), // F rotates like Z around Front face
        (BasicMove::B, CubeRotation::z3(), Face::Back), // B rotates like Z' around Back face
    ];

    for (mov, rotation, face) in test_cases {
        let move_perm = mov.to_tile_perm(3);
        let rotation_perm = rotation.to_tile_perm(3);

        let move_slice = Slice { face, slice_index: 0 };

        // The move should agree with the rotation on its slice
        assert!(
            move_perm.agree_on(&rotation_perm, &move_slice),
            "{:?} should agree with {:?} on {:?} slice 0",
            mov,
            rotation,
            face
        );

        // The move should agree with identity on other slices of the same face
        for slice_idx in 1..3 {
            let other_slice = Slice { face, slice_index: slice_idx };
            assert!(
                move_perm.agree_on(&identity, &other_slice),
                "{:?} should agree with identity on {:?} slice {}",
                mov,
                face,
                slice_idx
            );
        }
    }
}

#[test]
fn test_slice_moves_agree_with_rotations_on_slices() {
    // SliceMove should agree with rotation on the specific slice it affects
    let identity = CubeRotation::id().to_tile_perm(3);

    let test_cases = [
        (SliceMove::Us(2), CubeRotation::y(), Face::Up, 1), // Layer 2 = slice index 1
        (SliceMove::Ds(2), CubeRotation::y3(), Face::Down, 1),
        (SliceMove::Ls(2), CubeRotation::x3(), Face::Left, 1),
        (SliceMove::Rs(2), CubeRotation::x(), Face::Right, 1),
        (SliceMove::Fs(2), CubeRotation::z(), Face::Front, 1),
        (SliceMove::Bs(2), CubeRotation::z3(), Face::Back, 1),
    ];

    for (mov, rotation, face, slice_index) in test_cases {
        let move_perm = mov.to_tile_perm(3);
        let rotation_perm = rotation.to_tile_perm(3);

        let target_slice = Slice { face, slice_index };

        // Should agree with rotation on the target slice
        assert!(
            move_perm.agree_on(&rotation_perm, &target_slice),
            "{:?} should agree with {:?} on {:?} slice {}",
            mov,
            rotation,
            face,
            slice_index
        );

        // Should agree with identity on all other slices of that face
        for other_idx in 0..3 {
            if other_idx != slice_index {
                let other_slice = Slice { face, slice_index: other_idx };
                assert!(
                    move_perm.agree_on(&identity, &other_slice),
                    "{:?} should agree with identity on {:?} slice {}",
                    mov,
                    face,
                    other_idx
                );
            }
        }
    }
}

#[test]
fn test_wide_moves_agree_with_rotations_on_slices() {
    // WideMove should agree with rotation on slices 0..depth
    let identity = CubeRotation::id().to_tile_perm(3);

    let test_cases = [
        (WideMove::Uw(2), CubeRotation::y(), Face::Up),
        (WideMove::Dw(2), CubeRotation::y3(), Face::Down),
        (WideMove::Lw(2), CubeRotation::x3(), Face::Left),
        (WideMove::Rw(2), CubeRotation::x(), Face::Right),
        (WideMove::Fw(2), CubeRotation::z(), Face::Front),
        (WideMove::Bw(2), CubeRotation::z3(), Face::Back),
    ];

    for (mov, rotation, face) in test_cases {
        let move_perm = mov.to_tile_perm(3);
        let rotation_perm = rotation.to_tile_perm(3);

        // Should agree with rotation on slices 0 and 1 (depth=2)
        for slice_idx in 0..2 {
            let affected_slice = Slice { face, slice_index: slice_idx };
            assert!(
                move_perm.agree_on(&rotation_perm, &affected_slice),
                "{:?} should agree with {:?} on {:?} slice {}",
                mov,
                rotation,
                face,
                slice_idx
            );
        }

        // Should agree with identity on slice 2
        let unaffected_slice = Slice { face, slice_index: 2 };
        assert!(
            move_perm.agree_on(&identity, &unaffected_slice),
            "{:?} should agree with identity on {:?} slice 2",
            mov,
            face
        );
    }
}

#[test]
fn test_range_moves_agree_with_rotations_on_slices() {
    // RangeMove should agree with rotation on slices in the specified range
    let identity = CubeRotation::id().to_tile_perm(3);

    let test_cases = [
        (RangeMove::Ur(2, 2), CubeRotation::y(), Face::Up, 1, 1), // Layer 2-2 = slice index 1-1
        (RangeMove::Dr(1, 2), CubeRotation::y3(), Face::Down, 0, 1), // Layer 1-2 = slice index 0-1
        (RangeMove::Lr(2, 3), CubeRotation::x3(), Face::Left, 1, 2), // Layer 2-3 = slice index 1-2
    ];

    for (mov, rotation, face, start_slice, end_slice) in test_cases {
        let move_perm = mov.to_tile_perm(3);
        let rotation_perm = rotation.to_tile_perm(3);

        // Should agree with rotation on slices in the range
        for slice_idx in start_slice..=end_slice {
            let affected_slice = Slice { face, slice_index: slice_idx };
            assert!(
                move_perm.agree_on(&rotation_perm, &affected_slice),
                "{:?} should agree with {:?} on {:?} slice {}",
                mov,
                rotation,
                face,
                slice_idx
            );
        }

        // Should agree with identity on slices outside the range
        for slice_idx in 0..3 {
            if slice_idx < start_slice || slice_idx > end_slice {
                let unaffected_slice = Slice { face, slice_index: slice_idx };
                assert!(
                    move_perm.agree_on(&identity, &unaffected_slice),
                    "{:?} should agree with identity on {:?} slice {}",
                    mov,
                    face,
                    slice_idx
                );
            }
        }
    }
}

#[test]
fn test_middle_moves_agree_with_rotations_on_slices() {
    // MiddleMove should agree with rotation on the middle slice (N/2)
    // Test with 3x3 (middle = slice 1) and 5x5 (middle = slice 2)

    let identity_3x3 = CubeRotation::id().to_tile_perm(3);
    let identity_5x5 = CubeRotation::id().to_tile_perm(5);

    // 3x3 tests (middle slice at index 1)
    let test_cases_3x3 = [
        (MiddleMove::M, CubeRotation::x3(), Face::Left, 1),
        (MiddleMove::E, CubeRotation::y3(), Face::Down, 1),
        (MiddleMove::S, CubeRotation::z(), Face::Front, 1),
    ];

    for (mov, rotation, face, middle_idx) in test_cases_3x3 {
        let move_perm = mov.to_tile_perm(3);
        let rotation_perm = rotation.to_tile_perm(3);

        let middle_slice = Slice { face, slice_index: middle_idx };

        // Should agree with rotation on the middle slice
        assert!(
            move_perm.agree_on(&rotation_perm, &middle_slice),
            "{:?} should agree with {:?} on {:?} slice {} (3x3)",
            mov,
            rotation,
            face,
            middle_idx
        );

        // Should agree with identity on other slices
        for slice_idx in 0..3 {
            if slice_idx != middle_idx {
                let other_slice = Slice { face, slice_index: slice_idx };
                assert!(
                    move_perm.agree_on(&identity_3x3, &other_slice),
                    "{:?} should agree with identity on {:?} slice {} (3x3)",
                    mov,
                    face,
                    slice_idx
                );
            }
        }
    }

    // 5x5 tests (middle slice at index 2)
    let test_cases_5x5 = [
        (MiddleMove::M, CubeRotation::x3(), Face::Left, 2),
        (MiddleMove::E, CubeRotation::y3(), Face::Down, 2),
        (MiddleMove::S, CubeRotation::z(), Face::Front, 2),
    ];

    for (mov, rotation, face, middle_idx) in test_cases_5x5 {
        let move_perm = mov.to_tile_perm(5);
        let rotation_perm = rotation.to_tile_perm(5);

        let middle_slice = Slice { face, slice_index: middle_idx };

        // Should agree with rotation on the middle slice
        assert!(
            move_perm.agree_on(&rotation_perm, &middle_slice),
            "{:?} should agree with {:?} on {:?} slice {} (5x5)",
            mov,
            rotation,
            face,
            middle_idx
        );

        // Should agree with identity on other slices
        for slice_idx in 0..5 {
            if slice_idx != middle_idx {
                let other_slice = Slice { face, slice_index: slice_idx };
                assert!(
                    move_perm.agree_on(&identity_5x5, &other_slice),
                    "{:?} should agree with identity on {:?} slice {} (5x5)",
                    mov,
                    face,
                    slice_idx
                );
            }
        }
    }
}
