use core::cmp::Ordering;
use vstd::prelude::*;
use vstd::std_specs::convert::FromSpec;

verus! {

/// Tells whether bit `k` (0 = least significant) of the byte `x` is set.
pub open spec fn byte_bit(x: u8, k: int) -> bool {
    (x >> (k as u8)) & 1u8 == 1u8
}

/// Bit `i` of a byte sequence: byte `i / 8`, bit `i % 8` within it.
pub open spec fn bit_of(bytes: Seq<u8>, i: int) -> bool {
    byte_bit(bytes[i / 8], i % 8)
}

/// All 32 bytes clear.
pub open spec fn zero_bytes() -> Seq<u8> {
    Seq::new(32, |k: int| 0u8)
}

/// Setting or clearing bit `k` of a byte touches that bit and no other.
proof fn lemma_byte_update(x: u8, k: u8, m: u8)
    by (bit_vector)
    requires
        k < 8,
        m < 8,
    ensures
        ((x | (1u8 << k)) >> m) & 1u8 == 1u8 <==> (m == k || (x >> m) & 1u8 == 1u8),
        ((x & !(1u8 << k)) >> m) & 1u8 == 1u8 <==> (m != k && (x >> m) & 1u8 == 1u8),
{
}

/// Masking a byte with `0xff << r` keeps the bits from `r` up; a clear byte has no bit set.
proof fn lemma_byte_mask(x: u8, r: u8, m: u8)
    by (bit_vector)
    requires
        r < 8,
        m < 8,
    ensures
        ((x & (0xffu8 << r)) >> m) & 1u8 == 1u8 <==> (m >= r && (x >> m) & 1u8 == 1u8),
        (0u8 >> m) & 1u8 != 1u8,
{
}

/// A byte is fixed by its eight bits.
proof fn lemma_byte_from_bits(x: u8, y: u8)
    by (bit_vector)
    requires
        ((x >> 0u8) & 1u8 == 1u8) == ((y >> 0u8) & 1u8 == 1u8),
        ((x >> 1u8) & 1u8 == 1u8) == ((y >> 1u8) & 1u8 == 1u8),
        ((x >> 2u8) & 1u8 == 1u8) == ((y >> 2u8) & 1u8 == 1u8),
        ((x >> 3u8) & 1u8 == 1u8) == ((y >> 3u8) & 1u8 == 1u8),
        ((x >> 4u8) & 1u8 == 1u8) == ((y >> 4u8) & 1u8 == 1u8),
        ((x >> 5u8) & 1u8 == 1u8) == ((y >> 5u8) & 1u8 == 1u8),
        ((x >> 6u8) & 1u8 == 1u8) == ((y >> 6u8) & 1u8 == 1u8),
        ((x >> 7u8) & 1u8 == 1u8) == ((y >> 7u8) & 1u8 == 1u8),
    ensures
        x == y,
{
}

/// Two 32-byte sequences with the same 256 bits are the same.
proof fn lemma_bits_fix_bytes(a: Seq<u8>, b: Seq<u8>)
    requires
        a.len() == 32,
        b.len() == 32,
        forall|j: int| 0 <= j < 256 ==> bit_of(a, j) == bit_of(b, j),
    ensures
        a == b,
{
    assert forall|k: int| 0 <= k < 32 implies a[k] == b[k] by {
        assert(bit_of(a, 8 * k) == bit_of(b, 8 * k));
        assert(bit_of(a, 8 * k + 1) == bit_of(b, 8 * k + 1));
        assert(bit_of(a, 8 * k + 2) == bit_of(b, 8 * k + 2));
        assert(bit_of(a, 8 * k + 3) == bit_of(b, 8 * k + 3));
        assert(bit_of(a, 8 * k + 4) == bit_of(b, 8 * k + 4));
        assert(bit_of(a, 8 * k + 5) == bit_of(b, 8 * k + 5));
        assert(bit_of(a, 8 * k + 6) == bit_of(b, 8 * k + 6));
        assert(bit_of(a, 8 * k + 7) == bit_of(b, 8 * k + 7));
        lemma_byte_from_bits(a[k], b[k]);
    }
    assert(a =~= b);
}

/// No bit of the zero bytes is set.
proof fn lemma_zero_bytes_bits()
    ensures
        forall|j: int| 0 <= j < 256 ==> !bit_of(zero_bytes(), j),
{
    assert forall|j: int| 0 <= j < 256 implies !bit_of(zero_bytes(), j) by {
        lemma_byte_mask(0, 0, (j % 8) as u8);
    }
}

/// The number that a byte sequence spells, its first byte least significant.
pub open spec fn num_of(bytes: Seq<u8>) -> nat
    decreases bytes.len(),
{
    if bytes.len() == 0 {
        0
    } else {
        bytes[0] as nat + 256 * num_of(bytes.drop_first())
    }
}

/// How two numbers compare.
pub open spec fn compare_nat(a: nat, b: nat) -> Ordering {
    if a < b {
        Ordering::Less
    } else if a > b {
        Ordering::Greater
    } else {
        Ordering::Equal
    }
}

/// Where the highest byte at which two sequences differ is smaller in `a`,
/// `a` spells the smaller number.
proof fn lemma_num_order(a: Seq<u8>, b: Seq<u8>, i: int)
    requires
        a.len() == b.len(),
        0 <= i < a.len(),
        a[i] < b[i],
        forall|k: int| i < k < a.len() ==> a[k] == b[k],
    ensures
        num_of(a) < num_of(b),
    decreases a.len(),
{
    let (ra, rb) = (a.drop_first(), b.drop_first());
    if i == 0 {
        assert(ra =~= rb);
    } else {
        lemma_num_order(ra, rb, i - 1);
        let (na, nb) = (num_of(ra), num_of(rb));
        assert(256 * na + 256 <= 256 * nb) by (nonlinear_arith)
            requires
                na < nb,
        ;
    }
}

/// Sequences of one length that spell the same number are the same.
proof fn lemma_num_injective(a: Seq<u8>, b: Seq<u8>)
    requires
        a.len() == b.len(),
        num_of(a) == num_of(b),
    ensures
        a == b,
    decreases a.len(),
{
    if a.len() > 0 {
        let (ra, rb) = (a.drop_first(), b.drop_first());
        let (na, nb) = (num_of(ra), num_of(rb));
        if na < nb {
            assert(256 * na + 256 <= 256 * nb) by (nonlinear_arith)
                requires
                    na < nb,
            ;
        } else if nb < na {
            assert(256 * nb + 256 <= 256 * na) by (nonlinear_arith)
                requires
                    nb < na,
            ;
        }
        lemma_num_injective(ra, rb);
        assert(a =~= seq![a[0]] + ra);
        assert(b =~= seq![b[0]] + rb);
    }
}

/// 256 bits, stored as 32 bytes, least significant byte first.
#[derive(Eq, Debug, Hash, Clone, Copy)]
pub struct H256(pub [u8; 32]);

impl View for H256 {
    type V = Seq<u8>;

    open spec fn view(&self) -> Seq<u8> {
        self.0@
    }
}

impl H256 {
    /// Bit `i` of the value.
    pub open spec fn bit(&self, i: int) -> bool {
        bit_of(self@, i)
    }

    /// Returns whether bit `i` is set.
    pub fn get_bit(&self, i: u8) -> (r: bool)
        ensures
            r == self.bit(i as int),
    {
        let byte_pos = i / 8;
        let bit_pos = i % 8;
        let bit = self.0[byte_pos as usize] >> bit_pos & 1;
        proof {
            let x = self.0[byte_pos as int];
            assert(((x >> bit_pos) & 1u8 != 0u8) == ((x >> bit_pos) & 1u8 == 1u8)) by (bit_vector);
        }
        bit != 0
    }

    /// The value with every bit clear.
    pub fn zero() -> (r: H256)
        ensures
            r@ == zero_bytes(),
    {
        let r = H256([0u8; 32]);
        assert(r@ =~= zero_bytes());
        r
    }

    /// Returns whether every bit is clear.
    pub fn is_zero(&self) -> (r: bool)
        ensures
            r == (self@ == zero_bytes()),
    {
        *self == H256::zero()
    }

    /// Sets bit `i`, leaving the others as they were.
    pub fn set_bit(&mut self, i: u8)
        ensures
            forall|j: int| 0 <= j < 256 ==> final(self).bit(j) == (j == i || old(self).bit(j)),
    {
        let byte_pos = i / 8;
        let bit_pos = i % 8;
        let b = self.0[byte_pos as usize];
        self.0[byte_pos as usize] = b | (1u8 << bit_pos);
        proof {
            assert forall|j: int| 0 <= j < 256 implies self.bit(j) == (j == i || old(self).bit(j)) by {
                if j / 8 == byte_pos as int {
                    lemma_byte_update(b, bit_pos, (j % 8) as u8);
                }
            }
        }
    }

    /// Clears bit `i`, leaving the others as they were.
    pub fn clear_bit(&mut self, i: u8)
        ensures
            forall|j: int| 0 <= j < 256 ==> final(self).bit(j) == (j != i && old(self).bit(j)),
    {
        let byte_pos = i / 8;
        let bit_pos = i % 8;
        let b = self.0[byte_pos as usize];
        self.0[byte_pos as usize] = b & !(1u8 << bit_pos);
        proof {
            assert forall|j: int| 0 <= j < 256 implies self.bit(j) == (j != i && old(self).bit(j)) by {
                if j / 8 == byte_pos as int {
                    lemma_byte_update(b, bit_pos, (j % 8) as u8);
                }
            }
        }
    }

    /// `r` holds the bits of `self` at positions `start` and above, and no bit below.
    pub open spec fn kept_from(&self, start: int, r: H256) -> bool {
        forall|j: int| 0 <= j < 256 ==> r.bit(j) == (j >= start && self.bit(j))
    }

    /// `h` is the fork height of `self` and `key`: no bit above `h` differs,
    /// and bit `h` does unless `h` is 0.
    pub open spec fn is_fork_height(&self, key: &H256, h: int) -> bool {
        &&& 0 <= h < 256
        &&& forall|j: int| h < j < 256 ==> self.bit(j) == key.bit(j)
        &&& (h == 0 || self.bit(h) != key.bit(h))
    }

    /// The value that keeps the bits at positions `start` and above, with all lower bits clear.
    pub fn copy_bits(&self, start: u8) -> (r: H256)
        ensures
            self.kept_from(start as int, r),
    {
        let mut target = H256::zero();
        let start_byte = (start / 8) as usize;
        let mut k: usize = start_byte;
        while k < 32
            invariant
                start_byte <= k <= 32,
                start_byte == start / 8,
                forall|m: int| start_byte <= m < k ==> target@[m] == self@[m],
                forall|m: int| (0 <= m < start_byte || k <= m < 32) ==> target@[m] == 0,
            decreases 32 - k,
        {
            let ghost prev = target@;
            target.0[k] = self.0[k];
            assert(target@ == prev.update(k as int, self@[k as int]));
            k = k + 1;
        }
        let remain = start % 8;
        let b = target.0[start_byte];
        let ghost copied = target@;
        if remain > 0 {
            target.0[start_byte] = b & (0xffu8 << remain);
            assert(target@ == copied.update(start_byte as int, b & (0xffu8 << remain)));
        }
        proof {
            assert forall|j: int| 0 <= j < 256 implies target.bit(j) == (j >= start && self.bit(j)) by {
                lemma_byte_mask(self@[j / 8], remain, (j % 8) as u8);
                if j / 8 < start_byte {
                    assert(target@[j / 8] == 0);
                } else if j / 8 > start_byte {
                    assert(target@[j / 8] == self@[j / 8]);
                } else if remain > 0 {
                    assert(target@[j / 8] == self@[j / 8] & (0xffu8 << remain));
                } else {
                    assert(target@[j / 8] == self@[j / 8]);
                }
            }
        }
        target
    }

    /// In the tree reading: the path of the ancestor at `height`, which keeps
    /// only the bits above `height`.
    pub fn parent_path(&self, height: u8) -> (r: H256)
        ensures
            self.kept_from(height + 1, r),
    {
        if height == 255 {
            let r = H256::zero();
            proof {
                assert forall|j: int| 0 <= j < 256 implies !r.bit(j) by {
                    lemma_byte_mask(0, 0, (j % 8) as u8);
                }
            }
            r
        } else {
            self.copy_bits(height + 1)
        }
    }

    /// In the tree reading: the highest position at which the two paths differ,
    /// or 0 where they differ nowhere above bit 0.
    pub fn fork_height(&self, key: &H256) -> (r: u8)
        ensures
            self.is_fork_height(key, r as int),
    {
        let mut h: u8 = 255;
        loop
            invariant
                forall|j: int| h < j < 256 ==> self.bit(j) == key.bit(j),
            decreases h,
        {
            if self.get_bit(h) != key.get_bit(h) {
                return h;
            }
            if h == 0 {
                return 0;
            }
            h = h - 1;
        }
    }

    /// In the tree reading: whether the path turns right at `height`.
    pub fn is_right(&self, height: u8) -> (r: bool)
        ensures
            r == self.bit(height as int),
    {
        self.get_bit(height)
    }

    /// The 32 bytes in their stored order.
    pub fn as_slice(&self) -> (r: &[u8])
        ensures
            r@ == self@,
    {
        self.0.as_slice()
    }
}

/// Two values are equal exactly when all 32 bytes are.
impl PartialEq for H256 {
    fn eq(&self, other: &H256) -> (r: bool) {
        let mut i: usize = 0;
        while i < 32
            invariant
                i <= 32,
                forall|k: int| 0 <= k < i ==> self@[k] == other@[k],
            decreases 32 - i,
        {
            if self.0[i] != other.0[i] {
                return false;
            }
            i = i + 1;
        }
        proof {
            assert(self@ =~= other@);
        }
        true
    }
}

impl H256 {
    /// The number the value spells, byte 31 most significant.
    pub open spec fn num(&self) -> nat {
        num_of(self@)
    }

    /// The order of two values: that of the numbers they spell.
    pub open spec fn order(&self, other: &H256) -> Ordering {
        compare_nat(self.num(), other.num())
    }
}

/// A value is fixed by its 256 bits.
pub proof fn lemma_bits_determine(a: H256, b: H256)
    requires
        forall|j: int| 0 <= j < 256 ==> a.bit(j) == b.bit(j),
    ensures
        a == b,
{
    assert forall|j: int| 0 <= j < 256 implies bit_of(a@, j) == bit_of(b@, j) by {
        assert(a.bit(j) == b.bit(j));
    }
    lemma_bits_fix_bytes(a@, b@);
    assert(a.0 =~= b.0);
}

/// The zero value has no bit set; a value is zero exactly when it equals the
/// zero value, and exactly when none of its bits is set.
pub proof fn lemma_zero_identity(v: H256, z: H256)
    requires
        z@ == zero_bytes(),
    ensures
        forall|i: int| 0 <= i < 256 ==> !z.bit(i),
        (v@ == zero_bytes()) <==> v == z,
        (v@ == zero_bytes()) <==> (forall|i: int| 0 <= i < 256 ==> !v.bit(i)),
{
    lemma_zero_bytes_bits();
    if v@ == zero_bytes() {
        assert(v.0 =~= z.0);
    }
    if forall|i: int| 0 <= i < 256 ==> !v.bit(i) {
        assert forall|j: int| 0 <= j < 256 implies bit_of(v@, j) == bit_of(zero_bytes(), j) by {
            assert(!v.bit(j));
        }
        lemma_bits_fix_bytes(v@, zero_bytes());
    }
}

/// The order is total and agrees with equality: two values are equal exactly
/// when they compare equal, and `a` is below `b` exactly when `b` is above `a`.
pub proof fn lemma_order_total(a: H256, b: H256)
    ensures
        a.order(&b) == Ordering::Less || a.order(&b) == Ordering::Equal || a.order(&b)
            == Ordering::Greater,
        a == b <==> a.order(&b) == Ordering::Equal,
        a.order(&b) == Ordering::Less <==> b.order(&a) == Ordering::Greater,
{
    if a.order(&b) == Ordering::Equal {
        lemma_num_injective(a@, b@);
        assert(a.0 =~= b.0);
    }
}

/// The order is transitive.
pub proof fn lemma_order_transitive(a: H256, b: H256, c: H256)
    requires
        a.order(&b) == Ordering::Less,
        b.order(&c) == Ordering::Less,
    ensures
        a.order(&c) == Ordering::Less,
{
}

/// Two values have one fork height.
pub proof fn lemma_fork_height_unique(a: H256, b: H256, h1: int, h2: int)
    requires
        a.is_fork_height(&b, h1),
        a.is_fork_height(&b, h2),
    ensures
        h1 == h2,
{
}

/// A value and itself fork at height 0.
pub proof fn lemma_fork_height_equal(a: H256, h: int)
    requires
        a.is_fork_height(&a, h),
    ensures
        h == 0,
{
}

/// Two values that differ in bit `i` alone fork at height `i`.
pub proof fn lemma_fork_height_single(a: H256, b: H256, i: int, h: int)
    requires
        0 <= i < 256,
        a.bit(i) != b.bit(i),
        forall|j: int| 0 <= j < 256 && j != i ==> a.bit(j) == b.bit(j),
        a.is_fork_height(&b, h),
    ensures
        h == i,
{
}

/// Keeping the bits from one position on gives one value.
pub proof fn lemma_kept_from_unique(v: H256, start: int, r1: H256, r2: H256)
    requires
        v.kept_from(start, r1),
        v.kept_from(start, r2),
    ensures
        r1 == r2,
{
    lemma_bits_determine(r1, r2);
}

/// The parent path at height 255 is zero, whatever the value.
pub proof fn lemma_parent_path_top(v: H256, r: H256)
    requires
        v.kept_from(256, r),
    ensures
        r@ == zero_bytes(),
{
    lemma_zero_bytes_bits();
    assert forall|j: int| 0 <= j < 256 implies bit_of(r@, j) == bit_of(zero_bytes(), j) by {
        assert(!r.bit(j));
    }
    lemma_bits_fix_bytes(r@, zero_bytes());
}

/// Copying from bit 8 clears bit 7 and keeps a set bit 8; copying from bit 9
/// clears both.
pub proof fn lemma_copy_bits_byte_boundary(v: H256, r8: H256, r9: H256)
    requires
        v.bit(7),
        v.bit(8),
        v.kept_from(8, r8),
        v.kept_from(9, r9),
    ensures
        !r8.bit(7),
        r8.bit(8),
        !r9.bit(7),
        !r9.bit(8),
{
}

/// An array made a value and back is the same array; a value made an array
/// and back is the same value.
pub proof fn lemma_bytes_round_trip(b: [u8; 32], v: H256)
    ensures
        <[u8; 32] as FromSpec<H256>>::from_spec(<H256 as FromSpec<[u8; 32]>>::from_spec(b)) == b,
        <H256 as FromSpec<[u8; 32]>>::from_spec(<[u8; 32] as FromSpec<H256>>::from_spec(v)) == v,
{
}

/// Values compare from bit 255 down to bit 0.
impl PartialOrd for H256 {
    fn partial_cmp(&self, other: &H256) -> (r: Option<Ordering>) {
        let mut i: usize = 32;
        while i > 0
            invariant
                i <= 32,
                forall|k: int| i <= k < 32 ==> self@[k] == other@[k],
            decreases i,
        {
            i = i - 1;
            if self.0[i] < other.0[i] {
                proof {
                    lemma_num_order(self@, other@, i as int);
                }
                return Some(Ordering::Less);
            }
            if self.0[i] > other.0[i] {
                proof {
                    lemma_num_order(other@, self@, i as int);
                }
                return Some(Ordering::Greater);
            }
        }
        assert(self@ =~= other@);
        Some(Ordering::Equal)
    }
}

impl vstd::std_specs::cmp::PartialOrdSpecImpl for H256 {
    open spec fn obeys_partial_cmp_spec() -> bool {
        true
    }

    open spec fn partial_cmp_spec(&self, other: &H256) -> Option<Ordering> {
        Some(self.order(other))
    }
}

impl vstd::std_specs::cmp::PartialEqSpecImpl for H256 {
    open spec fn obeys_eq_spec() -> bool {
        true
    }

    open spec fn eq_spec(&self, other: &H256) -> bool {
        self@ == other@
    }
}

/// The default value is zero.
impl Default for H256 {
    fn default() -> (r: H256)
        ensures
            r@ == zero_bytes(),
    {
        H256::zero()
    }
}

/// A raw byte array becomes the value bit for bit.
impl From<[u8; 32]> for H256 {
    fn from(h: [u8; 32]) -> (r: H256) {
        H256(h)
    }
}

impl vstd::std_specs::convert::FromSpecImpl<[u8; 32]> for H256 {
    open spec fn obeys_from_spec() -> bool {
        true
    }

    open spec fn from_spec(h: [u8; 32]) -> H256 {
        H256(h)
    }
}

impl<'a> From<&'a [u8; 32]> for H256 {
    fn from(h: &'a [u8; 32]) -> (r: H256) {
        H256(*h)
    }
}

impl<'a> vstd::std_specs::convert::FromSpecImpl<&'a [u8; 32]> for H256 {
    open spec fn obeys_from_spec() -> bool {
        true
    }

    open spec fn from_spec(h: &'a [u8; 32]) -> H256 {
        H256(*h)
    }
}

/// The value hands back its 32 bytes unchanged.
impl From<H256> for [u8; 32] {
    fn from(h: H256) -> (r: [u8; 32]) {
        h.0
    }
}

impl vstd::std_specs::convert::FromSpecImpl<H256> for [u8; 32] {
    open spec fn obeys_from_spec() -> bool {
        true
    }

    open spec fn from_spec(h: H256) -> [u8; 32] {
        h.0
    }
}

impl AsRef<[u8]> for H256 {
    fn as_ref(&self) -> (r: &[u8])
        ensures
            r@ == self@,
    {
        self.0.as_slice()
    }
}

} // verus!
