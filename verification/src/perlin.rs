//! Hashed permutation tables behind the Perlin noise texture.

use vstd::prelude::*;
use vstd::seq_lib::group_to_multiset_ensures;
use rand::seq::SliceRandom;

verus! {

/// Selects the noise function a noise texture evaluates.
pub enum NoiseStrategy {
    PerlinInterpolation,
}

/// `s` holds each of `0 .. s.len()` exactly once.
pub open spec fn is_permutation(s: Seq<usize>) -> bool {
    &&& forall|v: int| 0 <= v < s.len() ==> #[trigger] s.to_multiset().count(v as usize) == 1
    &&& forall|i: int| 0 <= i < s.len() ==> s[i] < s.len()
}

/// The identity sequence is a permutation.
proof fn lemma_identity_is_permutation(s: Seq<usize>)
    requires
        forall|i: int| 0 <= i < s.len() ==> s[i] == i,
    ensures
        is_permutation(s),
{
    broadcast use group_to_multiset_ensures;

    assert(s.no_duplicates());
    s.lemma_multiset_has_no_duplicates();
    assert forall|v: int| 0 <= v < s.len() implies #[trigger] s.to_multiset().count(v as usize)
        == 1 by {
        assert(s[v] == v as usize);
        assert(s.contains(v as usize));
    }
}

/// Reordering a sequence keeps it a permutation.
proof fn lemma_permutation_reordered(a: Seq<usize>, b: Seq<usize>)
    requires
        a.to_multiset() == b.to_multiset(),
        is_permutation(a),
    ensures
        b.len() == a.len(),
        is_permutation(b),
{
    broadcast use group_to_multiset_ensures;

    assert(a.len() == a.to_multiset().len());
    assert(b.len() == b.to_multiset().len());
    assert forall|i: int| 0 <= i < b.len() implies b[i] < b.len() by {
        assert(b.contains(b[i]));
        assert(b.to_multiset().count(b[i]) > 0);
        if b[i] >= b.len() {
            assert(!a.contains(b[i]));
            assert(a.to_multiset().count(b[i]) == 0);
        }
    }
}

/// Relies on rand's `SliceRandom::shuffle`: it reorders the elements of the
/// slice in place by swaps and neither adds nor removes any.
#[verifier::external_body]
fn shuffle(v: &mut Vec<usize>)
    ensures
        final(v)@.to_multiset() == old(v)@.to_multiset(),
{
    v.shuffle(&mut rand::thread_rng());
}

/// A uniformly random permutation of `0 .. n`.
pub fn generate_permutation(n: usize) -> (r: Vec<usize>)
    ensures
        r@.len() == n,
        is_permutation(r@),
{
    let mut v: Vec<usize> = Vec::new();
    let mut i: usize = 0;
    while i < n
        invariant
            i <= n,
            v@.len() == i,
            forall|j: int| 0 <= j < i ==> v@[j] == j,
        decreases n - i,
    {
        v.push(i);
        i += 1;
    }
    proof {
        lemma_identity_is_permutation(v@);
    }
    let ghost before = v@;
    shuffle(&mut v);
    proof {
        lemma_permutation_reordered(before, v@);
    }
    v
}

/// `(x + d) % 256`, computed by masking as the lattice hash does.
fn wrap_index(x: usize, d: usize) -> (r: usize)
    requires
        d < 2,
    ensures
        r == (x + d) % 256,
{
    proof {
        assert(x & 255 < 256) by (bit_vector);
    }
    let s = (x & 255) + d;
    let r = s & 255;
    proof {
        assert(s & 255 == s % 256) by (bit_vector);
        assert(x & 255 == x % 256) by (bit_vector);
        vstd::arithmetic::div_mod::lemma_small_mod(d as nat, 256);
        vstd::arithmetic::div_mod::lemma_add_mod_noop(x as int, d as int, 256);
    }
    r
}

/// The three hashed permutation tables a Perlin noise field indexes.
///
/// The 256 random unit gradient vectors and the Hermite-smoothed
/// interpolation they feed are floating point and live with the renderer;
/// this type owns the integer side: the tables themselves and the hashing of
/// lattice corners into them.
pub struct Perlin {
    perm_x: Vec<usize>,
    perm_y: Vec<usize>,
    perm_z: Vec<usize>,
}

impl Perlin {
    #[verifier::type_invariant]
    spec fn wf(self) -> bool {
        &&& self.perm_x@.len() == 256 && is_permutation(self.perm_x@)
        &&& self.perm_y@.len() == 256 && is_permutation(self.perm_y@)
        &&& self.perm_z@.len() == 256 && is_permutation(self.perm_z@)
    }

    /// The permutation table hashing the x coordinate.
    pub closed spec fn x_table(self) -> Seq<usize> {
        self.perm_x@
    }

    /// The permutation table hashing the y coordinate.
    pub closed spec fn y_table(self) -> Seq<usize> {
        self.perm_y@
    }

    /// The permutation table hashing the z coordinate.
    pub closed spec fn z_table(self) -> Seq<usize> {
        self.perm_z@
    }

    /// Three freshly generated random permutations of `0 .. 256`.
    pub fn new() -> (r: Perlin)
        ensures
            r.x_table().len() == 256 && is_permutation(r.x_table()),
            r.y_table().len() == 256 && is_permutation(r.y_table()),
            r.z_table().len() == 256 && is_permutation(r.z_table()),
    {
        Perlin {
            perm_x: generate_permutation(256),
            perm_y: generate_permutation(256),
            perm_z: generate_permutation(256),
        }
    }

    /// Hash of the lattice corner `(i + di, j + dj, k + dk)`: one entry of
    /// each table, indexed mod 256, combined by XOR. The result is below 256
    /// and so indexes the renderer's table of 256 gradient vectors.
    pub fn lattice_index(&self, i: usize, j: usize, k: usize, di: usize, dj: usize, dk: usize)
        -> (r: usize)
        requires
            di < 2,
            dj < 2,
            dk < 2,
        ensures
            r == (self.x_table()[(i + di) % 256] ^ self.y_table()[(j + dj) % 256]
                ^ self.z_table()[(k + dk) % 256]),
            r < 256,
    {
        proof {
            use_type_invariant(self);
        }
        let xi = wrap_index(i, di);
        let yi = wrap_index(j, dj);
        let zi = wrap_index(k, dk);
        let a = self.perm_x[xi];
        let b = self.perm_y[yi];
        let c = self.perm_z[zi];
        let r = a ^ b ^ c;
        proof {
            assert(a ^ b ^ c < 256) by (bit_vector)
                requires
                    a < 256 && b < 256 && c < 256,
            ;
        }
        r
    }
}

} // verus!
