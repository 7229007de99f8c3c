use rubiks_cube_representation::moves::{BasicMove, MiddleMove, WideMove};
use rubiks_cube_representation::rotations::CubeRotation;
use rubiks_cube_representation::schemes::Western;
use rubiks_cube_representation::state::RubiksState;
use rubiks_cube_representation::tiles::TilePerm;

#[test]
fn basic_cube_manipulation() {
    // Create a solved 3×3×3 cube in Western colors
    let cube = RubiksState::solved_in(Western, 3);

    // Apply a U move
    let _cube_after_u = BasicMove::U.to_tile_perm(3).on(&cube);

    // Compose operations algebraically
    let ops = CubeRotation::y()
        .to_tile_perm(3)
        .compose(&BasicMove::R.to_tile_perm(3))
        .compose(&BasicMove::U.to_tile_perm(3));
    let _cube_rotated = ops.on(&cube);

    // Check solving state
    assert!(cube.is_solved_in(Western));
    assert!(cube.is_solved_up_to_rotation_in(Western));
}

#[test]
fn tile_permutation_tracking() {
    // Convert operations to tile permutations
    let u_perm = BasicMove::U.to_tile_perm(3);
    let x_perm = CubeRotation::x().to_tile_perm(3);

    // Compose permutations
    let combined = u_perm.compose(&x_perm).compose(&u_perm);

    // Compute inverse
    let inverse = combined.inverse();
    assert_eq!(combined.compose(&inverse), TilePerm::identity(3));
}

#[test]
fn multi_dimensional_cubes() {
    // Create a 5×5×5 cube
    let cube_5x5 = RubiksState::solved_in(Western, 5);

    // Wide moves work on any dimension
    let _after_wide = WideMove::Uw(3).to_tile_perm(5).on(&cube_5x5);

    // Middle moves adjust to cube size (N/2 for odd N)
    let _after_middle = MiddleMove::M.to_tile_perm(5).on(&cube_5x5);
}
