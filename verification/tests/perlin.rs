use raytracer::perlin::{generate_permutation, Perlin};

#[test]
fn test_generate_permutation() {
    let n = 256;
    let p1 = generate_permutation(n);

    // make sure every element appears once and only once. Order not important
    for i in 0..n {
        assert_eq!(p1.iter().filter(|&j| *j == i).count(), 1);
    }

    // not impossible, but it will take a few lifetimes-of-the-universe to be false(1 / 256!)
    let p2 = generate_permutation(n);
    assert_ne!(p1, p2);
}

#[test]
fn test_generate_permutation_small() {
    assert_eq!(generate_permutation(0), Vec::<usize>::new());
    assert_eq!(generate_permutation(1), vec![0]);

    let p = generate_permutation(2);
    assert!(p == vec![0, 1] || p == vec![1, 0]);
}

#[test]
fn test_lattice_index_in_range() {
    let perlin = Perlin::new();
    for &(i, j, k) in &[
        (0usize, 0usize, 0usize),
        (1, 2, 3),
        (255, 255, 255),
        (256, 511, 1024),
        (usize::MAX, usize::MAX - 1, 7),
    ] {
        for di in 0..2 {
            for dj in 0..2 {
                for dk in 0..2 {
                    let r = perlin.lattice_index(i, j, k, di, dj, dk);
                    assert!(r < 256);
                }
            }
        }
    }
}

#[test]
fn test_lattice_index_deterministic() {
    let perlin = Perlin::new();
    let a = perlin.lattice_index(12, 34, 56, 1, 0, 1);
    let b = perlin.lattice_index(12, 34, 56, 1, 0, 1);
    assert_eq!(a, b);

    // indexing wraps modulo 256 per axis
    let c = perlin.lattice_index(12 + 256, 34 + 512, 56, 1, 0, 1);
    assert_eq!(a, c);
}
