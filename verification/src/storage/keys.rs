//! The keys of the store's indices, and which queries each covers.
//!
//! - A name covers the names that end with it at a label boundary; the longer
//!   the key, the more specific.
//! - A handle covers itself; a key of the form `-TAG` also covers every handle
//!   whose part after the last hyphen is `TAG`, in any letter case.
//! - A range of AS numbers covers the numbers in it; the narrower, the more
//!   specific.
//! - A CIDR block covers the blocks within it; the longer the prefix, the more
//!   specific.

use crate::ip::Cidr;
use crate::storage::data::AutnumId;
use crate::storage::index::MatchKey;
use crate::text::{ascii_lower, ascii_lowercase, chars_of, string_of_range, text_eq, to_ascii_lower};
use vstd::prelude::*;
use vstd::string::StrSliceExecFns;

verus! {

/// Whether `key` is the whole of `q` or what follows one of its dots; the
/// empty key covers every name.
pub open spec fn is_label_suffix(key: Seq<char>, q: Seq<char>) -> bool {
    ||| key.len() == 0
    ||| key == q
    ||| {
        &&& key.len() < q.len()
        &&& q[q.len() - key.len() - 1] == '.'
        &&& q.subrange(q.len() - key.len(), q.len() as int) == key
    }
}

/// The LDH name under which a domain or a name server is stored.
#[derive(Debug, PartialEq, Eq)]
pub struct NameKey {
    pub name: String,
}

impl MatchKey for NameKey {
    type Query = str;

    type Asked = Seq<char>;

    open spec fn asked(q: &str) -> Seq<char> {
        q@
    }

    open spec fn same(&self, other: &Self) -> bool {
        self.name@ == other.name@
    }

    open spec fn covers(&self, q: Seq<char>) -> bool {
        is_label_suffix(self.name@, q)
    }

    open spec fn rank(&self, q: Seq<char>) -> nat {
        self.name@.len()
    }

    fn is_same(&self, other: &Self) -> (r: bool) {
        self.name == other.name
    }

    fn is_covering(&self, q: &str) -> (r: bool) {
        let k = self.name.as_str().unicode_len();
        let n = q.unicode_len();
        if k == 0 {
            true
        } else if k > n {
            false
        } else if k == n {
            text_eq(self.name.as_str(), q)
        } else {
            let tail = q.substring_char(n - k, n);
            q.get_char(n - k - 1) == '.' && text_eq(tail, self.name.as_str())
        }
    }

    fn specificity(&self, q: &str) -> (r: u64) {
        let k = self.name.as_str().unicode_len();
        k as u64
    }

    fn duplicate(&self) -> (r: Self) {
        NameKey { name: self.name.clone() }
    }
}

/// The part of a handle after its last hyphen, if it has a hyphen.
pub open spec fn tag_of(handle: Seq<char>) -> Option<Seq<char>>
    decreases handle.len(),
{
    if handle.len() == 0 {
        None
    } else if handle.last() == '-' {
        Some(Seq::empty())
    } else {
        match tag_of(handle.drop_last()) {
            Some(t) => Some(t.push(handle.last())),
            None => None,
        }
    }
}

/// Whether `key` is a hyphen followed by the tag of `handle`, letter case
/// aside.
pub open spec fn is_tag_of(key: Seq<char>, handle: Seq<char>) -> bool {
    &&& key.len() > 0
    &&& key[0] == '-'
    &&& tag_of(handle) matches Some(t) && ascii_lowercase(t) == ascii_lowercase(key.skip(1))
}

/// The handle under which an entity is stored, or `-TAG` for all handles of a
/// registry.
#[derive(Debug, PartialEq, Eq)]
pub struct HandleKey {
    pub handle: String,
}

/// The tag of a handle is its tail after the last hyphen: there is a hyphen
/// just before it and none in it.
proof fn lemma_tag_of(handle: Seq<char>, at: int)
    requires
        0 <= at < handle.len(),
        handle[at] == '-',
        forall|i: int| at < i < handle.len() ==> handle[i] != '-',
    ensures
        tag_of(handle) == Some(handle.skip(at + 1)),
    decreases handle.len(),
{
    if handle.last() == '-' {
        assert(at == handle.len() - 1);
        assert(handle.skip(at + 1) =~= Seq::empty());
    } else {
        let front = handle.drop_last();
        assert(front[at] == '-');
        lemma_tag_of(front, at);
        assert(front.skip(at + 1).push(handle.last()) =~= handle.skip(at + 1));
    }
}

/// A handle without a hyphen has no tag.
proof fn lemma_no_tag(handle: Seq<char>)
    requires
        forall|i: int| 0 <= i < handle.len() ==> handle[i] != '-',
    ensures
        tag_of(handle) is None,
    decreases handle.len(),
{
    if handle.len() > 0 {
        lemma_no_tag(handle.drop_last());
    }
}

impl MatchKey for HandleKey {
    type Query = str;

    type Asked = Seq<char>;

    open spec fn asked(q: &str) -> Seq<char> {
        q@
    }

    open spec fn same(&self, other: &Self) -> bool {
        self.handle@ == other.handle@
    }

    open spec fn covers(&self, q: Seq<char>) -> bool {
        self.handle@ == q || is_tag_of(self.handle@, q)
    }

    open spec fn rank(&self, q: Seq<char>) -> nat {
        if self.handle@ == q {
            2
        } else {
            1
        }
    }

    fn is_same(&self, other: &Self) -> (r: bool) {
        self.handle == other.handle
    }

    #[verifier::loop_isolation(false)]
    fn is_covering(&self, q: &str) -> (r: bool) {
        if text_eq(self.handle.as_str(), q) {
            return true;
        }
        let key = chars_of(self.handle.as_str());
        let h = chars_of(q);
        if key.len() == 0 || key[0] != '-' {
            return false;
        }
        let mut at: usize = h.len();
        while at > 0 && h[at - 1] != '-'
            invariant
                at <= h.len(),
                forall|i: int| at <= i < h.len() ==> h@[i] != '-',
            decreases at,
        {
            at -= 1;
        }
        if at == 0 {
            proof {
                lemma_no_tag(h@);
            }
            return false;
        }
        proof {
            lemma_tag_of(h@, at - 1);
        }
        let ghost tag = h@.skip(at as int);
        let ghost rest = key@.skip(1);
        if h.len() - at != key.len() - 1 {
            assert(ascii_lowercase(tag).len() != ascii_lowercase(rest).len());
            return false;
        }
        let mut i: usize = 0;
        while i < key.len() - 1
            invariant
                0 < at <= h.len(),
                key.len() > 0,
                h.len() - at == key.len() - 1,
                i <= key.len() - 1,
                tag == h@.skip(at as int),
                rest == key@.skip(1),
                forall|k: int| 0 <= k < i ==> ascii_lower(#[trigger] tag[k]) == ascii_lower(rest[k]),
            decreases key.len() - i,
        {
            if to_ascii_lower(h[at + i]) != to_ascii_lower(key[1 + i]) {
                assert(ascii_lowercase(tag)[i as int] != ascii_lowercase(rest)[i as int]);
                return false;
            }
            i += 1;
        }
        assert(ascii_lowercase(tag) =~= ascii_lowercase(rest));
        true
    }

    fn specificity(&self, q: &str) -> (r: u64) {
        if text_eq(self.handle.as_str(), q) {
            2
        } else {
            1
        }
    }

    fn duplicate(&self) -> (r: Self) {
        HandleKey { handle: self.handle.clone() }
    }
}

impl AutnumId {
    /// Whether the range holds `n`.
    pub open spec fn holds(self, n: u32) -> bool {
        self.start_autnum <= n <= self.end_autnum
    }

    /// How many numbers the range holds beyond the first.
    pub open spec fn width(self) -> nat
        recommends
            self.start_autnum <= self.end_autnum,
    {
        (self.end_autnum - self.start_autnum) as nat
    }
}

impl MatchKey for AutnumId {
    type Query = u32;

    type Asked = u32;

    open spec fn asked(q: &u32) -> u32 {
        *q
    }

    open spec fn same(&self, other: &Self) -> bool {
        *self == *other
    }

    open spec fn covers(&self, q: u32) -> bool {
        self.holds(q)
    }

    open spec fn rank(&self, q: u32) -> nat {
        (u32::MAX - self.width()) as nat
    }

    fn is_same(&self, other: &Self) -> (r: bool) {
        self.start_autnum == other.start_autnum && self.end_autnum == other.end_autnum
    }

    fn is_covering(&self, q: &u32) -> (r: bool) {
        self.start_autnum <= *q && *q <= self.end_autnum
    }

    fn specificity(&self, q: &u32) -> (r: u64) {
        (u32::MAX - (self.end_autnum - self.start_autnum)) as u64
    }

    fn duplicate(&self) -> (r: Self) {
        *self
    }
}

impl MatchKey for Cidr {
    type Query = Cidr;

    type Asked = Cidr;

    open spec fn asked(q: &Cidr) -> Cidr {
        *q
    }

    open spec fn same(&self, other: &Self) -> bool {
        *self == *other || (self.contains(*other) && other.contains(*self))
    }

    open spec fn covers(&self, q: Cidr) -> bool {
        self.contains(q)
    }

    open spec fn rank(&self, q: Cidr) -> nat {
        self.prefix_len as nat
    }

    fn is_same(&self, other: &Self) -> (r: bool) {
        *self == *other || (self.covers(other) && other.covers(self))
    }

    fn is_covering(&self, q: &Cidr) -> (r: bool) {
        Cidr::covers(self, q)
    }

    fn specificity(&self, q: &Cidr) -> (r: u64) {
        self.prefix_len as u64
    }

    fn duplicate(&self) -> (r: Self) {
        *self
    }
}

/// What follows the first dot of a name; nothing for a name without a dot.
pub open spec fn after_first_dot(q: Seq<char>) -> Seq<char>
    decreases q.len(),
{
    if q.len() == 0 {
        q
    } else if q[0] == '.' {
        q.drop_first()
    } else {
        after_first_dot(q.drop_first())
    }
}

/// What follows the first dot of a name is shorter than the name.
pub proof fn lemma_after_first_dot(q: Seq<char>)
    requires
        q.len() > 0,
    ensures
        after_first_dot(q).len() < q.len(),
        is_label_suffix(after_first_dot(q), q),
        forall|key: Seq<char>|
            is_label_suffix(key, q) && key != q ==> #[trigger] is_label_suffix(
                key,
                after_first_dot(q),
            ),
    decreases q.len(),
{
    let rest = q.drop_first();
    let a = after_first_dot(q);
    if q[0] == '.' {
        assert(a == rest);
        if rest.len() > 0 {
            assert(q.subrange(q.len() - rest.len(), q.len() as int) =~= rest);
        }
        assert forall|key: Seq<char>| is_label_suffix(key, q) && key != q implies #[trigger] is_label_suffix(
            key,
            a,
        ) by {
            if key.len() > 0 {
                assert(key.len() < q.len());
                if key.len() < rest.len() {
                    assert(rest[rest.len() - key.len() - 1] == q[q.len() - key.len() - 1]);
                    assert(rest.subrange(rest.len() - key.len(), rest.len() as int) =~= q.subrange(
                        q.len() - key.len(),
                        q.len() as int,
                    ));
                } else {
                    assert(q.subrange(q.len() - key.len(), q.len() as int) =~= rest);
                }
            }
        }
    } else if rest.len() == 0 {
        assert(after_first_dot(rest) == rest);
        assert(a.len() == 0);
        assert forall|key: Seq<char>| is_label_suffix(key, q) && key != q implies #[trigger] is_label_suffix(
            key,
            a,
        ) by {
            if key.len() > 0 {
                assert(key.len() < q.len());
            }
        }
    } else {
        lemma_after_first_dot(rest);
        assert(a == after_first_dot(rest));
        if a.len() > 0 {
            assert(is_label_suffix(a, rest));
            if a == rest {
            } else {
                assert(q[q.len() - a.len() - 1] == rest[rest.len() - a.len() - 1]);
                assert(q.subrange(q.len() - a.len(), q.len() as int) =~= rest.subrange(
                    rest.len() - a.len(),
                    rest.len() as int,
                ));
            }
        }
        assert forall|key: Seq<char>| is_label_suffix(key, q) && key != q implies #[trigger] is_label_suffix(
            key,
            a,
        ) by {
            if key.len() > 0 {
                assert(key.len() < q.len());
                // the key ends `q` behind a dot, and `q` does not begin with one
                assert(q[q.len() - key.len() - 1] == '.');
                assert(key.len() < rest.len());
                assert(rest[rest.len() - key.len() - 1] == q[q.len() - key.len() - 1]);
                assert(rest.subrange(rest.len() - key.len(), rest.len() as int) =~= q.subrange(
                    q.len() - key.len(),
                    q.len() as int,
                ));
                assert(is_label_suffix(key, rest));
                assert(key != rest);
                assert(is_label_suffix(key, after_first_dot(rest)));
            }
        }
    }
}

/// The names under which a name is looked for, in their order: the name
/// itself, then what follows each of its dots, then the empty name.
pub open spec fn label_suffixes(q: Seq<char>) -> Seq<Seq<char>>
    decreases q.len(),
    via label_suffixes_decreases
{
    if q.len() == 0 {
        seq![q]
    } else {
        seq![q] + label_suffixes(after_first_dot(q))
    }
}

#[via_fn]
proof fn label_suffixes_decreases(q: Seq<char>) {
    if q.len() > 0 {
        lemma_after_first_dot(q);
    }
}

/// The names under which a name is looked for are the names that cover it,
/// each shorter than the one before.
pub proof fn lemma_label_suffixes(q: Seq<char>)
    ensures
        label_suffixes(q).len() >= 1,
        label_suffixes(q)[0] == q,
        forall|k: int|
            0 <= k < label_suffixes(q).len() ==> is_label_suffix(#[trigger] label_suffixes(q)[k], q),
        forall|key: Seq<char>|
            is_label_suffix(key, q) ==> #[trigger] label_suffixes(q).contains(key),
        forall|j: int, k: int|
            0 <= j < k < label_suffixes(q).len() ==> (#[trigger] label_suffixes(q)[j]).len() > (
            #[trigger] label_suffixes(q)[k]).len(),
    decreases q.len(),
{
    let all = label_suffixes(q);
    if q.len() == 0 {
        assert forall|key: Seq<char>| is_label_suffix(key, q) implies #[trigger] all.contains(
            key,
        ) by {
            assert(key =~= q);
            assert(all[0] == key);
        }
    } else {
        let a = after_first_dot(q);
        let rest = label_suffixes(a);
        lemma_after_first_dot(q);
        lemma_label_suffixes(a);
        assert forall|k: int| 0 <= k < all.len() implies is_label_suffix(#[trigger] all[k], q) by {
            if k > 0 {
                assert(all[k] == rest[k - 1]);
                lemma_suffix_of_suffix(rest[k - 1], a, q);
            }
        }
        assert forall|key: Seq<char>| is_label_suffix(key, q) implies #[trigger] all.contains(
            key,
        ) by {
            if key == q {
                assert(all[0] == key);
            } else {
                assert(is_label_suffix(key, a));
                assert(rest.contains(key));
                let k = choose|k: int| 0 <= k < rest.len() && rest[k] == key;
                assert(all[k + 1] == key);
            }
        }
        assert forall|j: int, k: int| 0 <= j < k < all.len() implies (#[trigger] all[j]).len() > (
        #[trigger] all[k]).len() by {
            assert(all[k] == rest[k - 1]);
            assert(is_label_suffix(rest[k - 1], a));
            lemma_suffix_is_no_longer(rest[k - 1], a);
            if j > 0 {
                assert(all[j] == rest[j - 1]);
            }
        }
    }
}

/// A name that covers another is no longer than it.
proof fn lemma_suffix_is_no_longer(key: Seq<char>, q: Seq<char>)
    requires
        is_label_suffix(key, q),
    ensures
        key.len() <= q.len(),
{
}

/// A name that covers a name that covers a third covers the third.
proof fn lemma_suffix_of_suffix(key: Seq<char>, mid: Seq<char>, q: Seq<char>)
    requires
        is_label_suffix(key, mid),
        is_label_suffix(mid, q),
    ensures
        is_label_suffix(key, q),
{
    if key.len() > 0 && key != mid && mid != q {
        assert(mid.len() > 0);
        let m = mid.len();
        let k = key.len();
        let n = q.len();
        let tail = q.subrange(n - m, n as int);
        assert(tail == mid);
        assert(q[n - k - 1] == tail[m - k - 1]);
        assert(q.subrange(n - k, n as int) =~= tail.subrange(m - k, m as int));
    }
}

/// What follows the first dot of a name, given where that dot stands.
proof fn lemma_after_first_dot_at(q: Seq<char>, d: int)
    requires
        0 <= d <= q.len(),
        forall|i: int| 0 <= i < d ==> q[i] != '.',
        d < q.len() ==> q[d] == '.',
    ensures
        after_first_dot(q) == q.skip(
            if d < q.len() {
                d + 1
            } else {
                d
            },
        ),
    decreases q.len(),
{
    if q.len() == 0 {
        assert(q.skip(0) =~= q);
    } else if d == 0 {
        assert(q.drop_first() =~= q.skip(1));
    } else {
        let rest = q.drop_first();
        assert forall|i: int| 0 <= i < d - 1 implies rest[i] != '.' by {
            assert(rest[i] == q[i + 1]);
        }
        lemma_after_first_dot_at(rest, d - 1);
        if d < q.len() {
            assert(rest.skip(d) =~= q.skip(d + 1));
        } else {
            assert(rest.skip(d - 1) =~= q.skip(d));
        }
    }
}

/// The names under which a name is looked for, in their order.
pub fn fall_through(ldh: &str) -> (r: Vec<String>)
    ensures
        r.deep_view() == label_suffixes(ldh@),
{
    let chars = chars_of(ldh);
    let n = chars.len();
    let mut out: Vec<String> = Vec::new();
    let mut start: usize = 0;
    assert(chars@.skip(0) =~= chars@);
    assert(out.deep_view() + label_suffixes(chars@.skip(0)) =~= label_suffixes(chars@));
    while start < n
        invariant
            start <= n == chars.len(),
            out.deep_view() + label_suffixes(chars@.skip(start as int)) == label_suffixes(chars@),
        decreases n - start,
    {
        let ghost rest = chars@.skip(start as int);
        let ghost before = out.deep_view();
        let name = string_of_range(&chars, start, n);
        assert(name@ =~= rest);
        out.push(name);
        assert(out.deep_view() =~= before.push(rest));
        let mut i: usize = start;
        while i < n && chars[i] != '.'
            invariant
                start <= i <= n == chars.len(),
                forall|k: int| start <= k < i ==> chars@[k] != '.',
            decreases n - i,
        {
            i += 1;
        }
        proof {
            assert forall|k: int| 0 <= k < i - start implies rest[k] != '.' by {
                assert(rest[k] == chars@[start + k]);
            }
            lemma_after_first_dot_at(rest, i - start);
            if i < n {
                assert(rest.skip(i - start + 1) =~= chars@.skip(i + 1));
            } else {
                assert(rest.skip(i - start) =~= chars@.skip(n as int));
            }
            assert(label_suffixes(rest) == seq![rest] + label_suffixes(after_first_dot(rest)));
            assert(before + (seq![rest] + label_suffixes(after_first_dot(rest))) =~= before.push(
                rest,
            ) + label_suffixes(after_first_dot(rest)));
        }
        start = if i < n {
            i + 1
        } else {
            n
        };
    }
    let ghost before = out.deep_view();
    let ghost none = chars@.skip(n as int);
    assert(none.len() == 0);
    assert(label_suffixes(none) =~= seq![none]);
    let last = String::new();
    assert(last@ =~= none);
    out.push(last);
    assert(out.deep_view() =~= before.push(none));
    assert(before + seq![none] =~= before.push(none));
    out
}

} // verus!
