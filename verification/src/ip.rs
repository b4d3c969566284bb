//! IP addresses and CIDR blocks as numbers.

use crate::text::{chars_of, number_of_text, parse_decimal, split, split_chars, lemma_split_len};
use vstd::prelude::*;

verus! {

/// An IP address: the 32 bits of IPv4 or the 128 bits of IPv6, as a number.
#[derive(Clone, Copy, Debug, PartialEq, Eq, Structural, Hash)]
pub enum IpAddr {
    V4(u32),
    V6(u128),
}

impl IpAddr {
    /// The number of bits of the address family: 32 or 128.
    pub open spec fn spec_bits(self) -> nat {
        match self {
            IpAddr::V4(_) => 32,
            IpAddr::V6(_) => 128,
        }
    }

    /// The address as a natural number.
    pub open spec fn value(self) -> nat {
        match self {
            IpAddr::V4(a) => a as nat,
            IpAddr::V6(a) => a as nat,
        }
    }

    /// Whether both addresses are of the same family.
    pub open spec fn same_family(self, other: IpAddr) -> bool {
        (self is V4) == (other is V4)
    }

    /// The number of bits of the address family: 32 or 128.
    #[verifier::when_used_as_spec(spec_bits_u8)]
    pub fn bits(&self) -> (r: u8)
        ensures
            r == self.spec_bits(),
    {
        match self {
            IpAddr::V4(_) => 32,
            IpAddr::V6(_) => 128,
        }
    }

    /// The number of bits of the address family, as a machine integer.
    pub open spec fn spec_bits_u8(&self) -> u8 {
        self.spec_bits() as u8
    }

    /// The address widened to 128 bits.
    pub fn widened(&self) -> (r: u128)
        ensures
            r == self.value(),
    {
        match self {
            IpAddr::V4(a) => *a as u128,
            IpAddr::V6(a) => *a,
        }
    }
}

/// The first `len` bits of an address, as a number.
pub open spec fn prefix_of(addr: IpAddr, len: u8) -> u128
    recommends
        len <= addr.spec_bits(),
{
    if len == 0 {
        0
    } else {
        match addr {
            IpAddr::V4(a) => (a as u128) >> ((32 - len) as u128),
            IpAddr::V6(a) => a >> ((128 - len) as u128),
        }
    }
}

/// A CIDR block: the addresses that share the first `prefix_len` bits of
/// `addr`.
#[derive(Clone, Copy, Debug, PartialEq, Eq, Structural, Hash)]
pub struct Cidr {
    pub addr: IpAddr,
    pub prefix_len: u8,
}

impl Cidr {
    /// Whether the prefix length fits the address family.
    pub open spec fn wf(self) -> bool {
        self.prefix_len <= self.addr.spec_bits()
    }

    /// The bits that all addresses of the block share, as a number.
    pub open spec fn prefix(self) -> u128 {
        prefix_of(self.addr, self.prefix_len)
    }

    /// Whether `other` lies within this block: same family, no shorter a
    /// prefix, and the same leading bits.
    pub open spec fn contains(self, other: Cidr) -> bool {
        &&& self.wf()
        &&& other.wf()
        &&& self.addr.same_family(other.addr)
        &&& self.prefix_len <= other.prefix_len
        &&& prefix_of(other.addr, self.prefix_len) == self.prefix()
    }

    /// The block of one address.
    pub open spec fn spec_host(addr: IpAddr) -> Cidr {
        Cidr { addr, prefix_len: addr.spec_bits() as u8 }
    }

    /// Whether the prefix length fits the address family.
    pub fn is_valid(&self) -> (r: bool)
        ensures
            r == self.wf(),
    {
        self.prefix_len <= self.addr.bits()
    }

    /// The block of one address.
    pub fn host(addr: IpAddr) -> (r: Cidr)
        ensures
            r == Cidr::spec_host(addr),
            r.wf(),
    {
        Cidr { addr, prefix_len: addr.bits() }
    }

    /// Whether `other` lies within this block.
    pub fn covers(&self, other: &Cidr) -> (r: bool)
        ensures
            r == self.contains(*other),
    {
        if !self.is_valid() || !other.is_valid() {
            return false;
        }
        let same_family = match (self.addr, other.addr) {
            (IpAddr::V4(_), IpAddr::V4(_)) => true,
            (IpAddr::V6(_), IpAddr::V6(_)) => true,
            _ => false,
        };
        same_family && self.prefix_len <= other.prefix_len && leading_bits(
            &other.addr,
            self.prefix_len,
        ) == leading_bits(&self.addr, self.prefix_len)
    }
}

/// The first `len` bits of an address, as a number.
pub fn leading_bits(addr: &IpAddr, len: u8) -> (r: u128)
    requires
        len <= addr.spec_bits(),
    ensures
        r == prefix_of(*addr, len),
{
    if len == 0 {
        0
    } else {
        match addr {
            IpAddr::V4(a) => (*a as u128) >> ((32 - len) as u128),
            IpAddr::V6(a) => *a >> ((128 - len) as u128),
        }
    }
}

/// Whether `len` leading bits are common to both addresses.
pub open spec fn share_prefix(a: IpAddr, b: IpAddr, len: u8) -> bool {
    prefix_of(a, len) == prefix_of(b, len)
}

/// The longest prefix length, at most `l`, that both addresses share.
pub open spec fn common_len(a: IpAddr, b: IpAddr, l: u8) -> u8
    decreases l,
{
    if l == 0 || share_prefix(a, b, l) {
        l
    } else {
        common_len(a, b, (l - 1) as u8)
    }
}

/// The smallest block that holds both addresses, for two of one family: the
/// block of `a` whose prefix is the longest that `a` and `b` share.
pub open spec fn spec_common_block(a: IpAddr, b: IpAddr) -> Cidr {
    Cidr { addr: a, prefix_len: common_len(a, b, a.spec_bits() as u8) }
}

/// `common_len` is a shared prefix length, and the longest one up to `l`.
pub proof fn lemma_common_len(a: IpAddr, b: IpAddr, l: u8)
    ensures
        common_len(a, b, l) <= l,
        share_prefix(a, b, common_len(a, b, l)),
        forall|k: u8| common_len(a, b, l) < k <= l ==> !share_prefix(a, b, k),
    decreases l,
{
    if !(l == 0 || share_prefix(a, b, l)) {
        lemma_common_len(a, b, (l - 1) as u8);
    }
}

/// The common block holds both addresses, and every block that holds both
/// has a prefix that is no longer.
pub proof fn law_common_block(a: IpAddr, b: IpAddr, c: Cidr)
    requires
        a.same_family(b),
    ensures
        spec_common_block(a, b).contains(Cidr::spec_host(a)),
        spec_common_block(a, b).contains(Cidr::spec_host(b)),
        c.contains(Cidr::spec_host(a)) && c.contains(Cidr::spec_host(b)) ==> c.prefix_len
            <= spec_common_block(a, b).prefix_len,
{
    lemma_common_len(a, b, a.spec_bits() as u8);
    if c.contains(Cidr::spec_host(a)) && c.contains(Cidr::spec_host(b)) {
        assert(share_prefix(a, b, c.prefix_len));
    }
}

/// The smallest block that holds both addresses, for two of one family.
pub fn common_block(a: &IpAddr, b: &IpAddr) -> (r: Cidr)
    requires
        a.same_family(*b),
    ensures
        r == spec_common_block(*a, *b),
{
    let bits = a.bits();
    let mut len: u8 = bits;
    while len > 0 && leading_bits(a, len) != leading_bits(b, len)
        invariant
            len <= bits == a.spec_bits() == b.spec_bits(),
            common_len(*a, *b, bits) == common_len(*a, *b, len),
        decreases len,
    {
        len -= 1;
    }
    Cidr { addr: *a, prefix_len: len }
}

/// The address that a dotted quad stands for: four decimal numbers up to
/// 255, without sign or leading zeros, with dots between them.
pub open spec fn ipv4_of_text(s: Seq<char>) -> Option<u32> {
    let p = split(s, '.');
    if p.len() == 4 && (forall|i: int| 0 <= i < 4 ==> number_of_text(#[trigger] p[i], 255) is Some) {
        let a = number_of_text(p[0], 255)->0;
        let b = number_of_text(p[1], 255)->0;
        let c = number_of_text(p[2], 255)->0;
        let d = number_of_text(p[3], 255)->0;
        Some((((a * 256 + b) * 256 + c) * 256 + d) as u32)
    } else {
        None
    }
}

/// Reads a dotted quad.
pub fn parse_ipv4(s: &Vec<char>) -> (r: Option<u32>)
    ensures
        r == ipv4_of_text(s@),
{
    let pieces = split_chars(s, '.');
    if pieces.len() != 4 {
        return None;
    }
    let ghost p = split(s@, '.');
    let mut value: u32 = 0;
    let mut i: usize = 0;
    while i < 4
        invariant
            i <= 4,
            pieces.len() == 4,
            p == pieces.deep_view(),
            p == split(s@, '.'),
            forall|k: int| 0 <= k < i ==> number_of_text(#[trigger] p[k], 255) is Some,
            i == 0 ==> value == 0,
            i == 1 ==> value == number_of_text(p[0], 255)->0,
            i == 2 ==> value == number_of_text(p[0], 255)->0 * 256 + number_of_text(p[1], 255)->0,
            i == 3 ==> value == (number_of_text(p[0], 255)->0 * 256 + number_of_text(
                p[1],
                255,
            )->0) * 256 + number_of_text(p[2], 255)->0,
            i == 4 ==> value == ((number_of_text(p[0], 255)->0 * 256 + number_of_text(
                p[1],
                255,
            )->0) * 256 + number_of_text(p[2], 255)->0) * 256 + number_of_text(p[3], 255)->0,
        decreases 4 - i,
    {
        assert(p[i as int] =~= pieces@[i as int]@);
        match parse_decimal(&pieces[i], 255) {
            None => {
                return None;
            },
            Some(n) => {
                value = value * 256 + n as u32;
            },
        }
        i += 1;
    }
    Some(value)
}

/// Whether `c` is a hexadecimal digit.
pub open spec fn is_hex_digit(c: char) -> bool {
    let n = c as u32;
    ||| 0x30 <= n <= 0x39
    ||| 0x41 <= n <= 0x46
    ||| 0x61 <= n <= 0x66
}

/// The number that a hexadecimal digit stands for.
pub open spec fn hex_value(c: char) -> nat
    recommends
        is_hex_digit(c),
{
    let n = c as u32;
    if n <= 0x39 {
        (n - 0x30) as nat
    } else if n <= 0x46 {
        (n - 0x41 + 10) as nat
    } else {
        (n - 0x61 + 10) as nat
    }
}

/// The number that a text of hexadecimal digits stands for.
pub open spec fn hex_digits_value(s: Seq<char>) -> nat
    decreases s.len(),
{
    if s.len() == 0 {
        0
    } else {
        hex_digits_value(s.drop_last()) * 16 + hex_value(s.last())
    }
}

/// Whether `s` is a group of an IPv6 address: one to four hexadecimal digits.
pub open spec fn is_group(s: Seq<char>) -> bool {
    1 <= s.len() <= 4 && forall|i: int| 0 <= i < s.len() ==> is_hex_digit(#[trigger] s[i])
}

/// The place of the first empty piece among `p`, or the length of `p` if
/// none is empty.
pub open spec fn first_empty(p: Seq<Seq<char>>) -> int
    decreases p.len(),
{
    if p.len() == 0 {
        0
    } else {
        let f = first_empty(p.drop_last());
        if f < p.len() - 1 {
            f
        } else if p.last().len() == 0 {
            p.len() - 1
        } else {
            p.len() as int
        }
    }
}

/// The number that groups stand for, the first one leading, each of 16 bits.
pub open spec fn groups_value(groups: Seq<nat>) -> nat
    decreases groups.len(),
{
    if groups.len() == 0 {
        0
    } else {
        groups_value(groups.drop_last()) * 65536 + groups.last()
    }
}

/// The pieces of an IPv6 text between its colons, where the two pieces that a
/// leading or a trailing `::` adds at the edge count as one.
pub open spec fn ipv6_pieces(s: Seq<char>) -> Seq<Seq<char>> {
    let p = split(s, ':');
    let p = if starts_with_gap(s) {
        p.drop_first()
    } else {
        p
    };
    if ends_with_gap(s) {
        p.drop_last()
    } else {
        p
    }
}

/// Whether `s` begins with `::`.
pub open spec fn starts_with_gap(s: Seq<char>) -> bool {
    s.len() >= 2 && s[0] == ':' && s[1] == ':'
}

/// Whether `s` ends with `::`.
pub open spec fn ends_with_gap(s: Seq<char>) -> bool {
    s.len() >= 2 && s[s.len() - 2] == ':' && s[s.len() - 1] == ':'
}

/// The eight groups that the pieces of an IPv6 text stand for, if they are
/// well formed: either eight groups, or fewer with one empty piece among them
/// that stands for the zero groups left out. An empty piece at an edge must
/// come from `::`, which `starts` and `ends` tell.
pub open spec fn groups_of_pieces(p: Seq<Seq<char>>, starts: bool, ends: bool) -> Option<Seq<nat>> {
    let g = first_empty(p);
    if p.len() == 8 && (forall|i: int| 0 <= i < 8 ==> is_group(#[trigger] p[i])) {
        Some(piece_values(p))
    } else if 1 <= p.len() <= 8 && g < p.len() && (g == 0 ==> starts) && (g == p.len() - 1 ==> ends)
        && (forall|i: int| 0 <= i < p.len() && i != g ==> is_group(#[trigger] p[i])) {
        Some(with_gap(piece_values(p), g))
    } else {
        None
    }
}

/// The number that each piece stands for; zero for an empty piece.
pub open spec fn piece_values(p: Seq<Seq<char>>) -> Seq<nat> {
    Seq::new(p.len(), |i: int| hex_digits_value(p[i]))
}

/// The eight groups of an IPv6 text, if it is well formed.
pub open spec fn ipv6_groups(s: Seq<char>) -> Option<Seq<nat>> {
    groups_of_pieces(ipv6_pieces(s), starts_with_gap(s), ends_with_gap(s))
}

/// Eight groups from fewer: those before `g` lead, those after `g` trail, and
/// zeros stand between them.
pub open spec fn with_gap(values: Seq<nat>, g: int) -> Seq<nat> {
    let left_out = 9 - values.len();
    Seq::new(
        8,
        |i: int|
            if i < g {
                values[i]
            } else if i < g + left_out {
                0
            } else {
                values[i - left_out + 1]
            },
    )
}

/// The address that an IPv6 text stands for: groups of one to four
/// hexadecimal digits with colons between them, where `::` may stand once for
/// one or more groups of zero. A dotted quad at the end is not read.
pub open spec fn ipv6_of_text(s: Seq<char>) -> Option<u128> {
    match ipv6_groups(s) {
        Some(groups) => Some(groups_value(groups) as u128),
        None => None,
    }
}

/// Each further character adds at most one piece, and a separator adds one.
proof fn lemma_split_grows(s: Seq<char>, sep: char, k: int)
    requires
        0 <= k <= s.len(),
    ensures
        split(s.take(k), sep).len() <= split(s, sep).len(),
        k < s.len() && s[k] == sep ==> split(s.take(k), sep).len() < split(s, sep).len(),
    decreases s.len() - k,
{
    if k < s.len() {
        lemma_split_grows(s, sep, k + 1);
        let next = s.take(k + 1);
        assert(next.drop_last() =~= s.take(k));
        assert(next.last() == s[k]);
        lemma_split_len(s.take(k), sep);
    } else {
        assert(s.take(k) =~= s);
    }
}

/// A text with `::` at either end has at least three pieces.
proof fn lemma_gap_pieces(s: Seq<char>)
    requires
        starts_with_gap(s) || ends_with_gap(s),
    ensures
        split(s, ':').len() >= 3,
{
    let k = if starts_with_gap(s) {
        0
    } else {
        s.len() - 2
    };
    lemma_split_len(s.take(k), ':');
    lemma_split_grows(s, ':', k + 1);
    let one = s.take(k + 1);
    assert(one.drop_last() =~= s.take(k));
    assert(one.last() == ':');
    let two = s.take(k + 2);
    assert(two.drop_last() =~= one);
    assert(two.last() == ':');
    lemma_split_grows(s, ':', k + 2);
}

/// Reads a group of an IPv6 address.
pub fn parse_group(s: &Vec<char>) -> (r: Option<u16>)
    ensures
        r is Some <==> is_group(s@),
        r matches Some(v) ==> v == hex_digits_value(s@),
{
    let n = s.len();
    if n == 0 || n > 4 {
        return None;
    }
    let mut value: u16 = 0;
    let mut i: usize = 0;
    while i < n
        invariant
            i <= n == s.len(),
            n <= 4,
            forall|k: int| 0 <= k < i ==> is_hex_digit(#[trigger] s@[k]),
            value == hex_digits_value(s@.take(i as int)),
            i == 0 ==> value == 0,
            i == 1 ==> value < 16,
            i == 2 ==> value < 256,
            i == 3 ==> value < 4096,
        decreases n - i,
    {
        let code: u32 = s[i] as u32;
        let digit: u16 = if 0x30 <= code && code <= 0x39 {
            (code - 0x30) as u16
        } else if 0x41 <= code && code <= 0x46 {
            (code - 0x41 + 10) as u16
        } else if 0x61 <= code && code <= 0x66 {
            (code - 0x61 + 10) as u16
        } else {
            return None;
        };
        proof {
            let next = s@.take(i as int + 1);
            assert(next.drop_last() =~= s@.take(i as int));
            assert(next.last() == s@[i as int]);
        }
        value = value * 16 + digit;
        i += 1;
    }
    assert(s@.take(n as int) =~= s@);
    Some(value)
}

/// The number below which `k` groups stay.
pub open spec fn groups_limit(k: nat) -> nat
    decreases k,
{
    if k == 0 {
        1
    } else {
        groups_limit((k - 1) as nat) * 65536
    }
}

/// The address of eight groups.
fn address_of_groups(groups: &Vec<u16>) -> (r: u128)
    requires
        groups.len() == 8,
    ensures
        r == groups_value(as_nats(groups@)),
{
    let ghost g = as_nats(groups@);
    let mut value: u128 = 0;
    let mut i: usize = 0;
    proof {
        reveal_with_fuel(groups_limit, 9);
        assert(groups_limit(8) == 0x1_0000_0000_0000_0000_0000_0000_0000_0000);
    }
    while i < 8
        invariant
            i <= 8,
            groups.len() == 8,
            g == as_nats(groups@),
            value == groups_value(g.take(i as int)),
            value < groups_limit(i as nat),
            groups_limit(8) == 0x1_0000_0000_0000_0000_0000_0000_0000_0000,
        decreases 8 - i,
    {
        let v = groups[i];
        proof {
            let next = g.take(i as int + 1);
            assert(next.drop_last() =~= g.take(i as int));
            assert(next.last() == v as nat);
            assert(groups_limit((i + 1) as nat) == groups_limit(i as nat) * 65536);
            assert(value * 65536 + v < groups_limit(i as nat) * 65536) by (nonlinear_arith)
                requires
                    value < groups_limit(i as nat),
                    v < 65536,
            ;
            lemma_groups_limit_monotone((i + 1) as nat, 8);
        }
        value = value * 65536 + v as u128;
        i += 1;
    }
    assert(g.take(8) =~= g);
    value
}

/// The limit grows with the number of groups.
proof fn lemma_groups_limit_monotone(a: nat, b: nat)
    requires
        a <= b,
    ensures
        groups_limit(a) <= groups_limit(b),
        groups_limit(a) >= 1,
    decreases b,
{
    if a < b {
        lemma_groups_limit_monotone(a, (b - 1) as nat);
        assert(groups_limit((b - 1) as nat) * 65536 >= groups_limit((b - 1) as nat))
            by (nonlinear_arith)
            requires
                groups_limit((b - 1) as nat) >= 1,
        ;
    } else if a > 0 {
        lemma_groups_limit_monotone((a - 1) as nat, (a - 1) as nat);
        assert(groups_limit((a - 1) as nat) * 65536 >= 1) by (nonlinear_arith)
            requires
                groups_limit((a - 1) as nat) >= 1,
        ;
    }
}

/// The first empty piece is empty, and no piece before it is.
proof fn lemma_first_empty(p: Seq<Seq<char>>)
    ensures
        0 <= first_empty(p) <= p.len(),
        first_empty(p) < p.len() ==> p[first_empty(p)].len() == 0,
        forall|i: int| 0 <= i < first_empty(p) ==> (#[trigger] p[i]).len() > 0,
    decreases p.len(),
{
    if p.len() > 0 {
        let front = p.drop_last();
        lemma_first_empty(front);
        assert forall|i: int| 0 <= i < first_empty(p) implies (#[trigger] p[i]).len() > 0 by {
            if i < front.len() {
                assert(p[i] == front[i]);
            }
        }
    }
}

/// The numbers of u16 values.
pub open spec fn as_nats(values: Seq<u16>) -> Seq<nat> {
    Seq::new(values.len(), |i: int| values[i] as nat)
}

/// Reads the pieces `lo..hi`: the number of each, zero for an empty one, and
/// the place of the first empty one. `None` where a piece is no group or
/// where two are empty.
fn read_pieces(pieces: &Vec<Vec<char>>, lo: usize, hi: usize) -> (r: Option<(Vec<u16>, usize)>)
    requires
        lo <= hi <= pieces.len(),
    ensures
        ({
            let q = pieces.deep_view().subrange(lo as int, hi as int);
            match r {
                Some((values, gap)) => {
                    &&& as_nats(values@) == piece_values(q)
                    &&& gap == first_empty(q)
                    &&& forall|i: int| 0 <= i < q.len() && i != gap ==> is_group(#[trigger] q[i])
                },
                None => forall|starts: bool, ends: bool|
                    #[trigger] groups_of_pieces(q, starts, ends) is None,
            }
        }),
{
    let ghost q = pieces.deep_view().subrange(lo as int, hi as int);
    let count = hi - lo;
    proof {
        lemma_first_empty(q);
    }
    let mut values: Vec<u16> = Vec::new();
    let mut gap: usize = 0;
    let mut k: usize = 0;
    assert(q.take(0).len() == 0);
    while k < count
        invariant
            k <= count == q.len(),
            lo + count == hi <= pieces.len(),
            q == pieces.deep_view().subrange(lo as int, hi as int),
            values.len() == k,
            gap == first_empty(q.take(k as int)),
            gap <= k,
            gap < k ==> q[gap as int].len() == 0,
            forall|i: int| 0 <= i < k && i != gap ==> is_group(#[trigger] q[i]),
            forall|i: int| 0 <= i < k ==> values@[i] == hex_digits_value(#[trigger] q[i]),
            0 <= first_empty(q) <= q.len(),
            first_empty(q) < q.len() ==> q[first_empty(q)].len() == 0,
        decreases count - k,
    {
        proof {
            let next = q.take(k as int + 1);
            assert(next.drop_last() =~= q.take(k as int));
            assert(next.last() == q[k as int]);
            assert(q[k as int] =~= pieces@[lo + k]@);
        }
        let piece = &pieces[lo + k];
        if piece.len() == 0 {
            if gap < k {
                proof {
                    assert(!is_group(q[k as int]));
                    assert(!is_group(q[gap as int]));
                }
                return None;
            }
            gap = k;
            values.push(0);
        } else {
            match parse_group(piece) {
                None => {
                    assert(!is_group(q[k as int]));
                    return None;
                },
                Some(v) => {
                    values.push(v);
                },
            }
            if gap == k {
                gap = k + 1;
            }
        }
        k += 1;
    }
    assert(q.take(count as int) =~= q);
    assert(as_nats(values@) =~= piece_values(q));
    Some((values, gap))
}

/// Eight groups from fewer, with zeros in place of the empty piece at `gap`.
fn spread(values: &Vec<u16>, gap: usize) -> (r: Vec<u16>)
    requires
        1 <= values.len() <= 8,
        gap < values.len(),
    ensures
        r.len() == 8,
        as_nats(r@) == with_gap(as_nats(values@), gap as int),
{
    let left_out = 9 - values.len();
    let mut groups: Vec<u16> = Vec::new();
    let ghost all = with_gap(as_nats(values@), gap as int);
    let mut i: usize = 0;
    while i < 8
        invariant
            i <= 8,
            1 <= values.len() <= 8,
            gap < values.len(),
            left_out == 9 - values.len(),
            all == with_gap(as_nats(values@), gap as int),
            groups.len() == i,
            forall|j: int| 0 <= j < i ==> groups@[j] as nat == all[j],
        decreases 8 - i,
    {
        let v: u16 = if i < gap {
            values[i]
        } else if i < gap + left_out {
            0
        } else {
            values[i - left_out + 1]
        };
        groups.push(v);
        i += 1;
    }
    assert(as_nats(groups@) =~= all);
    groups
}

/// Reads an IPv6 address.
pub fn parse_ipv6(s: &Vec<char>) -> (r: Option<u128>)
    ensures
        r == ipv6_of_text(s@),
{
    let n = s.len();
    let pieces = split_chars(s, ':');
    let starts = n >= 2 && s[0] == ':' && s[1] == ':';
    let ends = n >= 2 && s[n - 2] == ':' && s[n - 1] == ':';
    proof {
        lemma_split_len(s@, ':');
        if starts || ends {
            lemma_gap_pieces(s@);
        }
    }
    let lo: usize = if starts {
        1
    } else {
        0
    };
    let hi: usize = if ends {
        pieces.len() - 1
    } else {
        pieces.len()
    };
    let ghost q = ipv6_pieces(s@);
    assert(q =~= pieces.deep_view().subrange(lo as int, hi as int));
    let count = hi - lo;
    if count == 0 || count > 8 {
        return None;
    }
    match read_pieces(&pieces, lo, hi) {
        None => {
            assert(groups_of_pieces(q, starts, ends) is None);
            None
        },
        Some((values, gap)) => {
            proof {
                lemma_first_empty(q);
            }
            if gap == count {
                if count != 8 {
                    return None;
                }
                Some(address_of_groups(&values))
            } else {
                assert(!is_group(q[gap as int]));
                if (gap == 0 && !starts) || (gap == count - 1 && !ends) {
                    return None;
                }
                let groups = spread(&values, gap);
                Some(address_of_groups(&groups))
            }
        },
    }
}

/// The address that a text stands for: a dotted quad or an IPv6 text.
pub open spec fn ip_of_text(s: Seq<char>) -> Option<IpAddr> {
    match ipv4_of_text(s) {
        Some(a) => Some(IpAddr::V4(a)),
        None => match ipv6_of_text(s) {
            Some(a) => Some(IpAddr::V6(a)),
            None => None,
        },
    }
}

/// Reads an IP address of either family.
pub fn parse_ip_chars(s: &Vec<char>) -> (r: Option<IpAddr>)
    ensures
        r == ip_of_text(s@),
{
    match parse_ipv4(s) {
        Some(a) => Some(IpAddr::V4(a)),
        None => match parse_ipv6(s) {
            Some(a) => Some(IpAddr::V6(a)),
            None => None,
        },
    }
}

/// Reads an IP address of either family.
pub fn parse_ip(text: &str) -> (r: Option<IpAddr>)
    ensures
        r == ip_of_text(text@),
{
    let s = chars_of(text);
    parse_ip_chars(&s)
}

/// The block that a text stands for: an address, a slash and the decimal
/// text of a prefix length that the family of the address allows.
pub open spec fn cidr_of_text(s: Seq<char>) -> Option<Cidr> {
    let p = split(s, '/');
    if p.len() == 2 {
        match ip_of_text(p[0]) {
            Some(addr) => match number_of_text(p[1], addr.spec_bits()) {
                Some(len) => Some(Cidr { addr, prefix_len: len as u8 }),
                None => None,
            },
            None => None,
        }
    } else {
        None
    }
}

/// Reads a CIDR block.
pub fn parse_cidr(text: &str) -> (r: Option<Cidr>)
    ensures
        r == cidr_of_text(text@),
        r matches Some(c) ==> c.wf(),
{
    let s = chars_of(text);
    let pieces = split_chars(&s, '/');
    if pieces.len() != 2 {
        return None;
    }
    let ghost p = split(s@, '/');
    assert(p[0] =~= pieces@[0]@);
    assert(p[1] =~= pieces@[1]@);
    match parse_ip_chars(&pieces[0]) {
        None => None,
        Some(addr) => match parse_decimal(&pieces[1], addr.bits() as u64) {
            None => None,
            Some(len) => Some(Cidr { addr, prefix_len: len as u8 }),
        },
    }
}

} // verus!
