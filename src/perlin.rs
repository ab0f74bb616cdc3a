use crate::rtweekend::random_up_to;
use vstd::prelude::*;

verus! {

/// Number of lattice points along each axis of a permutation table.
pub const POINT_COUNT: usize = 256;

/// `s` is a permutation of `0..POINT_COUNT`: that many entries, each below
/// `POINT_COUNT`, no two equal.
pub open spec fn is_perm(s: Seq<usize>) -> bool {
    &&& s.len() == POINT_COUNT
    &&& forall|i: int| 0 <= i < s.len() ==> #[trigger] s[i] < POINT_COUNT
    &&& forall|i: int, j: int|
        0 <= i < s.len() && 0 <= j < s.len() && i != j ==> #[trigger] s[i] != #[trigger] s[j]
}

/// The hashed lattice index of the corner `(i, j, k)`: the three tables,
/// each read at its coordinate modulo `POINT_COUNT`, combined by xor.
pub open spec fn lattice_hash(
    px: Seq<usize>,
    py: Seq<usize>,
    pz: Seq<usize>,
    i: usize,
    j: usize,
    k: usize,
) -> usize {
    px[(i % 256) as int] ^ py[(j % 256) as int] ^ pz[(k % 256) as int]
}

proof fn lemma_swap_keeps_perm(s: Seq<usize>, i: int, t: int)
    requires
        is_perm(s),
        0 <= i < s.len(),
        0 <= t < s.len(),
    ensures
        is_perm(s.update(i, s[t]).update(t, s[i])),
{
    let r = s.update(i, s[t]).update(t, s[i]);
    assert forall|a: int| 0 <= a < r.len() implies #[trigger] r[a] < POINT_COUNT by {
        if a != i && a != t {
            assert(r[a] == s[a]);
        }
    }
    assert forall|a: int, b: int| 0 <= a < r.len() && 0 <= b < r.len() && a != b implies #[trigger] r[a]
        != #[trigger] r[b] by {
        let sa = if a == t {
            i
        } else if a == i {
            t
        } else {
            a
        };
        let sb = if b == t {
            i
        } else if b == i {
            t
        } else {
            b
        };
        assert(r[a] == s[sa]);
        assert(r[b] == s[sb]);
    }
}

/// Relies on `array_init::array_init`: entry `i` of the array it builds is
/// what the initializer returns for `i`.
#[verifier::external_body]
fn identity_table() -> (r: [usize; POINT_COUNT])
    ensures
        forall|i: int| 0 <= i < POINT_COUNT ==> r@[i] == i,
{
    array_init::array_init(|i| i)
}

/// `s` with the entries at `a` and `b` exchanged.
pub open spec fn swap_spec(s: Seq<usize>, a: int, b: int) -> Seq<usize> {
    s.update(a, s[b]).update(b, s[a])
}

/// The Fisher-Yates steps `i, i - 1, ..., 1` applied to `s`: step `n`
/// exchanges entry `n` with entry `targets[n]`.
pub open spec fn shuffle_spec(s: Seq<usize>, targets: Seq<usize>, i: nat) -> Seq<usize>
    decreases i,
{
    if i == 0 {
        s
    } else {
        shuffle_spec(swap_spec(s, i as int, targets[i as int] as int), targets, (i - 1) as nat)
    }
}

/// Applies the Fisher-Yates steps from the last entry down to entry 1, step
/// `i` exchanging entries `i` and `targets[i]` (`targets[0]` is not read). A
/// permutation stays a permutation.
pub fn shuffle(p: &mut [usize; POINT_COUNT], targets: &Vec<usize>)
    requires
        targets@.len() == POINT_COUNT,
        forall|i: int| 0 < i < POINT_COUNT ==> #[trigger] targets@[i] <= i,
    ensures
        final(p)@ == shuffle_spec(old(p)@, targets@, (POINT_COUNT - 1) as nat),
        is_perm(old(p)@) ==> is_perm(final(p)@),
{
    let ghost start = p@;
    let mut i: usize = POINT_COUNT - 1;
    while i > 0
        invariant
            i < POINT_COUNT,
            targets@.len() == POINT_COUNT,
            forall|n: int| 0 < n < POINT_COUNT ==> #[trigger] targets@[n] <= n,
            shuffle_spec(p@, targets@, i as nat) == shuffle_spec(
                start,
                targets@,
                (POINT_COUNT - 1) as nat,
            ),
            is_perm(start) ==> is_perm(p@),
        decreases i,
    {
        let target = targets[i];
        let ghost before = p@;
        let a = p[i];
        let b = p[target];
        proof {
            if is_perm(p@) {
                lemma_swap_keeps_perm(p@, i as int, target as int);
            }
        }
        p[i] = b;
        p[target] = a;
        assert(p@ =~= swap_spec(before, i as int, target as int));
        i = i - 1;
    }
}

/// Shuffles a permutation in place (Fisher-Yates), drawing the target of
/// step `i` uniformly from `0..=i`: it stays a permutation.
fn permute(p: &mut [usize; POINT_COUNT], rng: &mut rand::rngs::StdRng)
    requires
        is_perm(old(p)@),
    ensures
        is_perm(final(p)@),
{
    let mut targets: Vec<usize> = vec![0usize; POINT_COUNT];
    let mut i: usize = POINT_COUNT - 1;
    while i > 0
        invariant
            i < POINT_COUNT,
            targets@.len() == POINT_COUNT,
            forall|n: int| 0 < n < POINT_COUNT ==> #[trigger] targets@[n] <= n,
        decreases i,
    {
        let target = random_up_to(rng, i as u64) as usize;
        targets.set(i, target);
        i = i - 1;
    }
    shuffle(p, &targets);
}

/// A random permutation of `0..POINT_COUNT`.
fn generate_perm(rng: &mut rand::rngs::StdRng) -> (p: [usize; POINT_COUNT])
    ensures
        is_perm(p@),
{
    let mut p = identity_table();
    assert(is_perm(p@)) by {
        assert forall|i: int, j: int|
            0 <= i < p@.len() && 0 <= j < p@.len() && i != j implies #[trigger] p@[i]
            != #[trigger] p@[j] by {}
    }
    permute(&mut p, rng);
    p
}

/// The three random permutation tables of Perlin noise, which hash an
/// integer lattice corner to one of `POINT_COUNT` gradient slots.
pub struct LatticeHash {
    perm_x: [usize; POINT_COUNT],
    perm_y: [usize; POINT_COUNT],
    perm_z: [usize; POINT_COUNT],
}

impl View for LatticeHash {
    type V = (Seq<usize>, Seq<usize>, Seq<usize>);

    closed spec fn view(&self) -> Self::V {
        (self.perm_x@, self.perm_y@, self.perm_z@)
    }
}

impl LatticeHash {
    #[verifier::type_invariant]
    spec fn inv(&self) -> bool {
        &&& is_perm(self.perm_x@)
        &&& is_perm(self.perm_y@)
        &&& is_perm(self.perm_z@)
    }

    /// Each of the three tables is a permutation of `0..POINT_COUNT`. Every
    /// value of the type has this property: `new` and `hash` ensure it.
    pub open spec fn wf(&self) -> bool {
        &&& is_perm(self@.0)
        &&& is_perm(self@.1)
        &&& is_perm(self@.2)
    }

    /// Three tables, shuffled in turn (x, y, z) with draws from `rng`.
    pub fn new(rng: &mut rand::rngs::StdRng) -> (h: Self)
        ensures
            h.wf(),
    {
        let perm_x = generate_perm(rng);
        let perm_y = generate_perm(rng);
        let perm_z = generate_perm(rng);
        LatticeHash { perm_x, perm_y, perm_z }
    }

    /// The gradient slot of the lattice corner `(i, j, k)`.
    pub fn hash(&self, i: usize, j: usize, k: usize) -> (r: usize)
        ensures
            self.wf(),
            r < POINT_COUNT,
            r == lattice_hash(self@.0, self@.1, self@.2, i, j, k),
    {
        proof {
            use_type_invariant(self);
        }
        assert(i & 255 == i % 256) by (bit_vector);
        assert(j & 255 == j % 256) by (bit_vector);
        assert(k & 255 == k % 256) by (bit_vector);
        let a = self.perm_x[i & 255];
        let b = self.perm_y[j & 255];
        let c = self.perm_z[k & 255];
        assert(a ^ b ^ c < 256) by (bit_vector)
            requires
                a < 256,
                b < 256,
                c < 256,
        ;
        a ^ b ^ c
    }
}

} // verus!
