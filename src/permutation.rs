//! The shuffled byte table that hashes integer lattice coordinates.
use rand::rngs::StdRng;
use rand::Rng;
use vstd::arithmetic::div_mod::lemma_mod_multiples_vanish;
use vstd::prelude::*;

verus! {

/// rand's standard generator, carried through opaquely.
#[verifier::external_type_specification]
#[verifier::external_body]
pub struct ExStdRng(rand::rngs::StdRng);

/// Relies on rand's `Rng::random_range`: on the inclusive range `0..=bound`
/// it returns a value of that range (the range is never empty).
#[verifier::external_body]
fn draw_at_most(rng: &mut StdRng, bound: usize) -> (r: usize)
    ensures
        r <= bound,
{
    rng.random_range(0..=bound)
}

/// Number of entries of the permutation; lattice coordinates are hashed modulo this.
pub const PERIOD: usize = 256;

/// The byte values `0, 1, ..., 255` in order.
pub open spec fn identity_perm() -> Seq<u8> {
    Seq::new(256, |i: int| i as u8)
}

/// `s` holds every byte value exactly once.
pub open spec fn is_byte_permutation(s: Seq<u8>) -> bool {
    &&& s.len() == 256
    &&& s.no_duplicates()
    &&& forall|v: u8| #[trigger] s.contains(v)
}

/// `s` with the entries at positions `i` and `j` exchanged.
pub open spec fn swap_at(s: Seq<u8>, i: int, j: int) -> Seq<u8> {
    s.update(i, s[j]).update(j, s[i])
}

/// What a Fisher–Yates shuffle draws: for the step that places position `255 - k`,
/// an index in `[0, 255 - k]`.
pub open spec fn valid_draws(draws: Seq<usize>) -> bool {
    &&& draws.len() == 255
    &&& forall|k: int| 0 <= k < 255 ==> #[trigger] draws[k] <= 255 - k
}

/// The identity after the first `n` steps of a Fisher–Yates shuffle:
/// step `k` exchanges position `255 - k` with position `draws[k]`.
pub open spec fn fisher_yates(draws: Seq<usize>, n: nat) -> Seq<u8>
    decreases n,
{
    if n == 0 {
        identity_perm()
    } else {
        swap_at(fisher_yates(draws, (n - 1) as nat), 256 - n, draws[n - 1] as int)
    }
}

/// One level of hashing: the entry at `(h + c) mod 256`.
pub open spec fn hash_step(p: Seq<u8>, h: int, c: int) -> int {
    p[(h + c % 256) % 256] as int
}

/// Hash of a 2D lattice point: `p[(p[x mod 256] + y mod 256) mod 256]`.
pub open spec fn hash2_spec(p: Seq<u8>, x: int, y: int) -> int {
    hash_step(p, hash_step(p, 0, x), y)
}

/// Hash of a 4D lattice point: the 2D chain carried two levels further.
pub open spec fn hash4_spec(p: Seq<u8>, x: int, y: int, z: int, w: int) -> int {
    hash_step(p, hash_step(p, hash2_spec(p, x, y), z), w)
}

/// Hashing repeats every 256 lattice steps along each axis.
pub proof fn lemma_hash_period(p: Seq<u8>, x: int, y: int, z: int, w: int)
    ensures
        hash2_spec(p, x + 256, y) == hash2_spec(p, x, y),
        hash2_spec(p, x, y + 256) == hash2_spec(p, x, y),
        hash4_spec(p, x + 256, y, z, w) == hash4_spec(p, x, y, z, w),
        hash4_spec(p, x, y + 256, z, w) == hash4_spec(p, x, y, z, w),
        hash4_spec(p, x, y, z + 256, w) == hash4_spec(p, x, y, z, w),
        hash4_spec(p, x, y, z, w + 256) == hash4_spec(p, x, y, z, w),
{
    lemma_mod_multiples_vanish(1, x, 256);
    lemma_mod_multiples_vanish(1, y, 256);
    lemma_mod_multiples_vanish(1, z, 256);
    lemma_mod_multiples_vanish(1, w, 256);
}

proof fn lemma_identity_is_permutation()
    ensures
        is_byte_permutation(identity_perm()),
{
    let s = identity_perm();
    assert forall|v: u8| #[trigger] s.contains(v) by {
        assert(s[v as int] == v);
    }
}

proof fn lemma_swap_keeps_permutation(s: Seq<u8>, i: int, j: int)
    requires
        is_byte_permutation(s),
        0 <= i < 256,
        0 <= j < 256,
    ensures
        is_byte_permutation(swap_at(s, i, j)),
{
    let t = swap_at(s, i, j);
    assert forall|a: int, b: int| 0 <= a < t.len() && 0 <= b < t.len() && a != b implies t[a]
        != t[b] by {
        let sa = if a == j { i } else if a == i { j } else { a };
        let sb = if b == j { i } else if b == i { j } else { b };
        assert(t[a] == s[sa]);
        assert(t[b] == s[sb]);
    }
    assert forall|v: u8| #[trigger] t.contains(v) by {
        assert(s.contains(v));
        let k = choose|k: int| 0 <= k < s.len() && s[k] == v;
        let tk = if k == j { i } else if k == i { j } else { k };
        assert(t[tk] == v);
    }
}

proof fn lemma_fisher_yates_is_permutation(draws: Seq<usize>, n: nat)
    requires
        valid_draws(draws),
        n <= 255,
    ensures
        is_byte_permutation(fisher_yates(draws, n)),
    decreases n,
{
    if n == 0 {
        lemma_identity_is_permutation();
    } else {
        lemma_fisher_yates_is_permutation(draws, (n - 1) as nat);
        assert(draws[n - 1] <= 255 - (n - 1));
        lemma_swap_keeps_permutation(
            fisher_yates(draws, (n - 1) as nat),
            256 - n,
            draws[n - 1] as int,
        );
    }
}

proof fn lemma_low_byte(c: i32)
    ensures
        0 <= (c & 255) < 256,
        (c & 255) as int == (c as int) % 256,
{
    assert(0 <= (c & 255) < 256) by (bit_vector);
    assert((c & 255) as int == (c as int) % 256) by (bit_vector);
}

/// A random permutation of the bytes, stored twice in a row so that a hash
/// step can index with `h + c` instead of wrapping.
#[derive(Clone, Debug)]
pub struct PermutationTable {
    entries: Vec<u8>,
}

impl View for PermutationTable {
    type V = Seq<u8>;

    /// The permutation itself (the first copy).
    closed spec fn view(&self) -> Seq<u8> {
        self.entries@.subrange(0, 256)
    }
}

impl PermutationTable {
    /// The table holds a byte permutation followed by a copy of it.
    pub closed spec fn wf(&self) -> bool {
        &&& self.entries@.len() == 512
        &&& is_byte_permutation(self@)
        &&& forall|i: int| 0 <= i < 256 ==> #[trigger] self.entries@[i + 256] == self.entries@[i]
    }

    /// Shuffles `0..=255` with Fisher–Yates: for `i` from 255 down to 1,
    /// position `i` is exchanged with position `draws[255 - i]`.
    pub fn from_draws(draws: &Vec<usize>) -> (t: Self)
        requires
            valid_draws(draws@),
        ensures
            t.wf(),
            t@ == fisher_yates(draws@, 255),
            is_byte_permutation(t@),
    {
        let mut p: Vec<u8> = Vec::new();
        let mut i: usize = 0;
        while i < PERIOD
            invariant
                i <= 256,
                p@ =~= identity_perm().take(i as int),
            decreases 256 - i,
        {
            p.push(i as u8);
            i = i + 1;
        }
        assert(p@ =~= fisher_yates(draws@, 0));
        let mut k: usize = 0;
        while k < 255
            invariant
                k <= 255,
                valid_draws(draws@),
                p@ == fisher_yates(draws@, k as nat),
            decreases 255 - k,
        {
            proof {
                lemma_fisher_yates_is_permutation(draws@, k as nat);
            }
            let i: usize = 255 - k;
            let j: usize = draws[k];
            let a: u8 = p[i];
            let b: u8 = p[j];
            p.set(i, b);
            p.set(j, a);
            k = k + 1;
        }
        proof {
            lemma_fisher_yates_is_permutation(draws@, 255);
        }
        let mut entries: Vec<u8> = Vec::new();
        let mut n: usize = 0;
        while n < 2 * PERIOD
            invariant
                n <= 512,
                p@.len() == 256,
                entries@.len() == n,
                forall|m: int| 0 <= m < n ==> #[trigger] entries@[m] == p@[m % 256],
            decreases 512 - n,
        {
            entries.push(p[n % PERIOD]);
            n = n + 1;
        }
        let t = PermutationTable { entries };
        assert(t@ =~= p@);
        t
    }

    /// The permutation, one entry per byte value.
    pub fn values(&self) -> (r: Vec<u8>)
        requires
            self.wf(),
        ensures
            r@ == self@,
    {
        let mut r: Vec<u8> = Vec::new();
        let mut i: usize = 0;
        while i < PERIOD
            invariant
                i <= 256,
                self.wf(),
                r@ == self@.take(i as int),
            decreases 256 - i,
        {
            r.push(self.entries[i]);
            i = i + 1;
            assert(r@ =~= self@.take(i as int));
        }
        assert(r@ =~= self@);
        r
    }

    /// Shuffles `0..=255` with Fisher–Yates, drawing from `rng` the index
    /// that position `i` is exchanged with, for `i` from 255 down to 1.
    pub fn shuffled(rng: &mut StdRng) -> (t: Self)
        ensures
            t.wf(),
            is_byte_permutation(t@),
            exists|draws: Seq<usize>| valid_draws(draws) && t@ == fisher_yates(draws, 255),
    {
        let mut draws: Vec<usize> = Vec::new();
        let mut k: usize = 0;
        while k < 255
            invariant
                k <= 255,
                draws@.len() == k,
                forall|m: int| 0 <= m < k ==> #[trigger] draws@[m] <= 255 - m,
            decreases 255 - k,
        {
            let j = draw_at_most(rng, 255 - k);
            draws.push(j);
            k = k + 1;
        }
        let t = Self::from_draws(&draws);
        assert(valid_draws(draws@));
        t
    }

    /// One hash step: the table entry at `(h + c) mod 256`.
    fn hash_level(&self, h: usize, c: i32) -> (r: usize)
        requires
            self.wf(),
            h < 256,
        ensures
            r == hash_step(self@, h as int, c as int),
            r < 256,
    {
        proof {
            lemma_low_byte(c);
        }
        let idx: usize = h + (c & 255) as usize;
        proof {
            if idx >= 256 {
                assert(self.entries@[(idx - 256) + 256] == self.entries@[idx - 256]);
            }
        }
        self.entries[idx] as usize
    }

    /// Hash of the 2D lattice point `(x, y)`, in `[0, 256)`.
    pub fn hash2(&self, x: i32, y: i32) -> (r: usize)
        requires
            self.wf(),
        ensures
            r == hash2_spec(self@, x as int, y as int),
            r < 256,
    {
        let h = self.hash_level(0, x);
        self.hash_level(h, y)
    }

    /// Hash of the 4D lattice point `(x, y, z, w)`, in `[0, 256)`.
    pub fn hash4(&self, x: i32, y: i32, z: i32, w: i32) -> (r: usize)
        requires
            self.wf(),
        ensures
            r == hash4_spec(self@, x as int, y as int, z as int, w as int),
            r < 256,
    {
        let h = self.hash2(x, y);
        let h = self.hash_level(h, z);
        self.hash_level(h, w)
    }
}

} // verus!
