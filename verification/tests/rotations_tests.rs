use rubiks_cube_representation::rotations::{CubeRotation, FacePerm};
use rubiks_cube_representation::geometry::Face::{Back, Down, Front, Left, Right, Up};

#[test]
fn test_rotation_orders() {
    let x = CubeRotation::x();
    let y = CubeRotation::y();
    let z = CubeRotation::z();
    let id = CubeRotation::id();

    // X rotation should have order 4 (x^4 = identity)
    assert_eq!(x.compose(x).compose(x).compose(x), id);
    assert_ne!(x.compose(x).compose(x), id);

    // Y rotation should have order 4
    assert_eq!(y.compose(y).compose(y).compose(y), id);
    assert_ne!(y.compose(y).compose(y), id);

    // Z rotation should have order 4
    assert_eq!(z.compose(z).compose(z).compose(z), id);
    assert_ne!(z.compose(z).compose(z), id);
}

#[test]
fn test_xyz_order() {
    // Let's find what order X*Y*Z actually has
    let xyz = CubeRotation::x().compose(CubeRotation::y()).compose(CubeRotation::z());
    let mut power = xyz;
    let mut order = 1;

    while power != CubeRotation::id() && order <= 24 {
        power = power.compose(xyz);
        order += 1;
    }

    println!("XYZ = {:?}", xyz);
    println!("Order of XYZ: {}", order);

    // Also check XZY
    let xzy = CubeRotation::x().compose(CubeRotation::z()).compose(CubeRotation::y());
    let mut power_xzy = xzy;
    let mut order_xzy = 1;
    while power_xzy != CubeRotation::id() && order_xzy <= 24 {
        power_xzy = power_xzy.compose(xzy);
        order_xzy += 1;
    }
    println!("XZY = {:?}", xzy);
    println!("Order of XZY: {}", order_xzy);

    assert!(order <= 24, "XYZ should have finite order");
}

#[test]
fn test_group_closure() {
    // The group should be closed under multiplication
    // Test that xyz has finite order
    let xyz = CubeRotation::x().compose(CubeRotation::y()).compose(CubeRotation::z());
    let mut power = xyz;
    let mut found_identity = false;

    for _ in 1..25 {
        // At most 24 elements in the group
        if power == CubeRotation::id() {
            found_identity = true;
            break;
        }
        power = power.compose(xyz);
    }
    assert!(found_identity, "xyz should have finite order");
}

#[test]
fn test_associativity() {
    let x = CubeRotation::x();
    let y = CubeRotation::y();
    let z = CubeRotation::z();

    // Check associativity: (X*Y)*Z = X*(Y*Z)
    assert_eq!(x.compose(y).compose(z), x.compose(y.compose(z)));
    assert_eq!(y.compose(z).compose(x), y.compose(z.compose(x)));
    assert_eq!(z.compose(x).compose(y), z.compose(x.compose(y)));
}

#[test]
fn test_identity_constants() {
    let x = CubeRotation::x();
    let y = CubeRotation::y();

    // All identity constants should be equal
    assert_eq!(CubeRotation::id(), CubeRotation::one());
    assert_eq!(CubeRotation::one(), CubeRotation::e());

    // Identity should be a left and right identity
    assert_eq!(CubeRotation::id().compose(x), x);
    assert_eq!(x.compose(CubeRotation::id()), x);
    assert_eq!(CubeRotation::e().compose(y), y);
    assert_eq!(y.compose(CubeRotation::e()), y);
}

#[test]
fn test_rotation_inverses() {
    let x = CubeRotation::x();
    let y = CubeRotation::y();
    let z = CubeRotation::z();

    // Verify all X3 = X*X*X by computing manually
    let x_cubed = x.compose(x).compose(x);
    let y_cubed = y.compose(y).compose(y);
    let z_cubed = z.compose(z).compose(z);

    println!("X*X*X = {:?}, X3 = {:?}", x_cubed, CubeRotation::x3());
    println!("Y*Y*Y = {:?}, Y3 = {:?}", y_cubed, CubeRotation::y3());
    println!("Z*Z*Z = {:?}, Z3 = {:?}", z_cubed, CubeRotation::z3());

    assert_eq!(x_cubed, CubeRotation::x3());
    assert_eq!(y_cubed, CubeRotation::y3());
    assert_eq!(z_cubed, CubeRotation::z3());

    // Test that X3 is the inverse of X
    assert_eq!(x.compose(CubeRotation::x3()), CubeRotation::id());
    assert_eq!(CubeRotation::x3().compose(x), CubeRotation::id());

    // Test that Y3 is the inverse of Y
    assert_eq!(y.compose(CubeRotation::y3()), CubeRotation::id());
    assert_eq!(CubeRotation::y3().compose(y), CubeRotation::id());

    // Test that Z3 is the inverse of Z
    assert_eq!(z.compose(CubeRotation::z3()), CubeRotation::id());
    assert_eq!(CubeRotation::z3().compose(z), CubeRotation::id());
}

#[test]
fn test_rotation_squares() {
    let x = CubeRotation::x();
    let y = CubeRotation::y();
    let z = CubeRotation::z();

    // Test that X2 = X * X
    assert_eq!(x.compose(x), CubeRotation::x2());

    // Test that Y2 = Y * Y
    assert_eq!(y.compose(y), CubeRotation::y2());

    // Test that Z2 = Z * Z
    assert_eq!(z.compose(z), CubeRotation::z2());

    // Test that X2 is its own inverse
    assert_eq!(CubeRotation::x2().compose(CubeRotation::x2()), CubeRotation::id());

    // Test that Y2 is its own inverse
    assert_eq!(CubeRotation::y2().compose(CubeRotation::y2()), CubeRotation::id());

    // Test that Z2 is its own inverse
    assert_eq!(CubeRotation::z2().compose(CubeRotation::z2()), CubeRotation::id());
}

#[test]
fn test_face_perm_conversion() {
    // Test X rotation face permutation
    let x_face_perm = FacePerm::from_rotation(CubeRotation::x());

    // X rotation (90° around X-axis) moves:
    // Up -> Back, Down -> Front, Left -> Left, Right -> Right, Front -> Up, Back -> Down
    assert_eq!(x_face_perm.apply(Up), Back);
    assert_eq!(x_face_perm.apply(Down), Front);
    assert_eq!(x_face_perm.apply(Left), Left);
    assert_eq!(x_face_perm.apply(Right), Right);
    assert_eq!(x_face_perm.apply(Front), Up);
    assert_eq!(x_face_perm.apply(Back), Down);

    // Test Y rotation face permutation
    let y_face_perm = FacePerm::from_rotation(CubeRotation::y());

    // Y rotation (90° around Y-axis) moves:
    // Up -> Up, Down -> Down, Left -> Back, Right -> Front, Front -> Left, Back -> Right
    assert_eq!(y_face_perm.apply(Up), Up);
    assert_eq!(y_face_perm.apply(Down), Down);
    assert_eq!(y_face_perm.apply(Left), Back);
    assert_eq!(y_face_perm.apply(Right), Front);
    assert_eq!(y_face_perm.apply(Front), Left);
    assert_eq!(y_face_perm.apply(Back), Right);

    // Test Z rotation face permutation
    let z_face_perm = FacePerm::from_rotation(CubeRotation::z());

    // Z rotation (90° around Z-axis) moves:
    // Up -> Right, Down -> Left, Left -> Up, Right -> Down, Front -> Front, Back -> Back
    assert_eq!(z_face_perm.apply(Up), Right);
    assert_eq!(z_face_perm.apply(Down), Left);
    assert_eq!(z_face_perm.apply(Left), Up);
    assert_eq!(z_face_perm.apply(Right), Down);
    assert_eq!(z_face_perm.apply(Front), Front);
    assert_eq!(z_face_perm.apply(Back), Back);
}

#[test]
fn test_identity_face_perm() {
    // Identity rotation should map each face to itself
    let id_face_perm = FacePerm::from_rotation(CubeRotation::id());

    assert_eq!(id_face_perm.apply(Up), Up);
    assert_eq!(id_face_perm.apply(Down), Down);
    assert_eq!(id_face_perm.apply(Left), Left);
    assert_eq!(id_face_perm.apply(Right), Right);
    assert_eq!(id_face_perm.apply(Front), Front);
    assert_eq!(id_face_perm.apply(Back), Back);
}
