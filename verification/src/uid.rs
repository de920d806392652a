//! Unique node identifiers.
use vstd::prelude::*;

verus! {

/// A unique identifier: the sixteen bytes of a UUID, most significant first.
#[derive(Clone, Copy, Eq, Hash, Ord)]
pub struct Uid(pub [u8; 16]);

/// The lower-case hexadecimal digit with value `n`.
pub open spec fn hex_digit(n: int) -> char
    recommends
        0 <= n < 16,
{
    if n < 10 {
        ('0' as int + n) as char
    } else {
        ('a' as int + n - 10) as char
    }
}

/// Two hexadecimal digits for each byte, the high half first.
pub open spec fn hex(bytes: Seq<u8>) -> Seq<char> {
    Seq::new(
        2 * bytes.len(),
        |i: int| hex_digit(if i % 2 == 0 { bytes[i / 2] as int / 16 } else { bytes[i / 2] as int % 16 }),
    )
}

/// The text of a UUID: its bytes in hexadecimal, in groups of four, two, two,
/// two and six bytes with hyphens between them.
pub open spec fn hyphenated(bytes: Seq<u8>) -> Seq<char> {
    hex(bytes.subrange(0, 4)) + seq!['-'] + hex(bytes.subrange(4, 6)) + seq!['-'] + hex(
        bytes.subrange(6, 8),
    ) + seq!['-'] + hex(bytes.subrange(8, 10)) + seq!['-'] + hex(bytes.subrange(10, 16))
}

/// Whether the bytes are those of a random (version 4) UUID of the variant
/// that RFC 4122 describes.
pub open spec fn is_random_uuid(bytes: Seq<u8>) -> bool {
    &&& bytes.len() == 16
    &&& bytes[6] as int / 16 == 4
    &&& bytes[8] as int / 64 == 2
}

/// Calls `uuid::Uuid::new_v4` and hands out the bytes of what it returns.
///
/// Trusted: the version digit of the result is 4 and its variant is that of
/// RFC 4122. The other bits come from a random number generator, and nothing
/// is claimed of them.
#[verifier::external_body]
pub(crate) fn new_v4() -> (bytes: [u8; 16])
    ensures
        is_random_uuid(bytes@),
{
    *uuid::Uuid::new_v4().as_bytes()
}

/// Whether a call of `new_v4` returned these bytes. Only such a call shows it:
/// bytes that merely look like a random UUID need not have been drawn.
pub closed spec fn drawn(bytes: [u8; 16]) -> bool {
    call_ensures(new_v4, (), bytes)
}

/// Formats the UUID with these bytes through its `LowerHex` implementation.
///
/// Trusted: the text is the hyphenated form, in lower case.
#[verifier::external_body]
fn lower_hex(bytes: [u8; 16]) -> (text: String)
    ensures
        text@ == hyphenated(bytes@),
{
    format!("{:x}", uuid::Uuid::from_bytes(bytes))
}

/// Whether `a` comes before `b` at the first byte in which they differ.
pub open spec fn bytes_before(a: Seq<u8>, b: Seq<u8>) -> bool {
    exists|k: int|
        #![trigger a[k], b[k]]
        0 <= k < 16 && a[k] < b[k] && a.take(k) == b.take(k)
}

impl Uid {
    /// Returns a new, random `Uid`.
    pub fn new() -> (uid: Uid)
        ensures
            is_random_uuid(uid.0@),
            drawn(uid.0),
    {
        Uid(new_v4())
    }

    /// The text under which a `Uid` is shown.
    pub fn to_string(&self) -> (text: String)
        ensures
            text@ == hyphenated(self.0@),
    {
        lower_hex(self.0)
    }

    /// The position of the first byte in which two identifiers differ, or 16.
    fn first_difference(&self, other: &Uid) -> (k: usize)
        ensures
            k <= 16,
            self.0@.take(k as int) == other.0@.take(k as int),
            k < 16 ==> self.0@[k as int] != other.0@[k as int],
    {
        let mut k: usize = 0;
        while k < 16 && self.0[k] == other.0[k]
            invariant
                k <= 16,
                self.0@.take(k as int) == other.0@.take(k as int),
            decreases 16 - k,
        {
            proof {
                assert(self.0@.take(k + 1) =~= self.0@.take(k as int).push(self.0@[k as int]));
                assert(other.0@.take(k + 1) =~= other.0@.take(k as int).push(other.0@[k as int]));
            }
            k = k + 1;
        }
        k
    }
}

impl PartialEq for Uid {
    fn eq(&self, other: &Uid) -> (r: bool) {
        let k = self.first_difference(other);
        proof {
            assert(self.0@.take(16) =~= self.0@);
            assert(other.0@.take(16) =~= other.0@);
            if k == 16 {
                law_bytes_are_all(*self, *other);
            }
        }
        k == 16
    }
}

impl vstd::std_specs::cmp::PartialEqSpecImpl for Uid {
    open spec fn obeys_eq_spec() -> bool {
        true
    }

    open spec fn eq_spec(&self, other: &Uid) -> bool {
        *self == *other
    }
}

impl PartialOrd for Uid {
    fn partial_cmp(&self, other: &Uid) -> (r: Option<core::cmp::Ordering>) {
        let k = self.first_difference(other);
        proof {
            assert(self.0@.take(16) =~= self.0@);
            assert(other.0@.take(16) =~= other.0@);
            if k == 16 {
                law_bytes_are_all(*self, *other);
            }
            law_order_is_strict(self.0@, other.0@);
        }
        if k == 16 {
            Some(core::cmp::Ordering::Equal)
        } else if self.0[k] < other.0[k] {
            Some(core::cmp::Ordering::Less)
        } else {
            Some(core::cmp::Ordering::Greater)
        }
    }
}

impl vstd::std_specs::cmp::PartialOrdSpecImpl for Uid {
    open spec fn obeys_partial_cmp_spec() -> bool {
        true
    }

    open spec fn partial_cmp_spec(&self, other: &Uid) -> Option<core::cmp::Ordering> {
        if *self == *other {
            Some(core::cmp::Ordering::Equal)
        } else if bytes_before(self.0@, other.0@) {
            Some(core::cmp::Ordering::Less)
        } else {
            Some(core::cmp::Ordering::Greater)
        }
    }
}

/// No identifier comes both before and after another.
pub proof fn law_order_is_strict(a: Seq<u8>, b: Seq<u8>)
    requires
        a.len() == 16,
        b.len() == 16,
    ensures
        !(bytes_before(a, b) && bytes_before(b, a)),
        !bytes_before(a, a),
{
    if bytes_before(a, b) && bytes_before(b, a) {
        let j = choose|k: int| #![trigger a[k], b[k]] 0 <= k < 16 && a[k] < b[k] && a.take(k) == b.take(k);
        let k = choose|k: int| #![trigger b[k], a[k]] 0 <= k < 16 && b[k] < a[k] && b.take(k) == a.take(k);
        if j < k {
            assert(a.take(k)[j] == b.take(k)[j]);
        } else if k < j {
            assert(a.take(j)[k] == b.take(j)[k]);
        }
    }
}

/// Of two different identifiers one comes before the other.
pub proof fn law_order_is_total(a: Seq<u8>, b: Seq<u8>)
    requires
        a.len() == 16,
        b.len() == 16,
    ensures
        a == b || bytes_before(a, b) || bytes_before(b, a),
{
    if a != b {
        assert(a.take(0) =~= b.take(0));
        let k = first_difference_from(a, b, 0);
        assert(a.take(k) == b.take(k));
        assert(b[k] < a[k] || a[k] < b[k]);
    }
}

/// What comes before an identifier comes before all that follow it.
pub proof fn law_order_is_transitive(a: Seq<u8>, b: Seq<u8>, c: Seq<u8>)
    requires
        a.len() == 16,
        b.len() == 16,
        c.len() == 16,
        bytes_before(a, b),
        bytes_before(b, c),
    ensures
        bytes_before(a, c),
{
    let j = choose|k: int|
        #![trigger a[k], b[k]]
        0 <= k < 16 && a[k] < b[k] && a.take(k) == b.take(k);
    let l = choose|k: int|
        #![trigger b[k], c[k]]
        0 <= k < 16 && b[k] < c[k] && b.take(k) == c.take(k);
    let k = if j < l { j } else { l };
    assert(a.take(k) =~= c.take(k)) by {
        assert(a.take(k) =~= a.take(j).take(k));
        assert(b.take(k) =~= b.take(j).take(k));
        assert(b.take(k) =~= b.take(l).take(k));
        assert(c.take(k) =~= c.take(l).take(k));
    }
    if j < l {
        assert(b.take(l)[j] == c.take(l)[j]);
    } else if l < j {
        assert(a.take(j)[l] == b.take(j)[l]);
    }
    assert(a[k] < c[k]);
}

/// Finds the first byte, from `k` on, in which `a` and `b` differ.
proof fn first_difference_from(a: Seq<u8>, b: Seq<u8>, k: int) -> (first: int)
    requires
        a.len() == 16,
        b.len() == 16,
        a != b,
        0 <= k <= 16,
        a.take(k) == b.take(k),
    ensures
        0 <= first < 16,
        a[first] != b[first],
        a.take(first) == b.take(first),
    decreases 16 - k,
{
    if k == 16 {
        assert(a =~= a.take(16));
        assert(b =~= b.take(16));
        k
    } else if a[k] != b[k] {
        k
    } else {
        assert(a.take(k + 1) =~= a.take(k).push(a[k]));
        assert(b.take(k + 1) =~= b.take(k).push(b[k]));
        first_difference_from(a, b, k + 1)
    }
}

/// Different identifiers are shown as different texts.
pub proof fn law_text_tells_identifiers_apart(a: Seq<u8>, b: Seq<u8>)
    requires
        a.len() == 16,
        b.len() == 16,
        hyphenated(a) == hyphenated(b),
    ensures
        a == b,
{
    let (s, t) = (hyphenated(a), hyphenated(b));
    assert(hex(a.subrange(0, 4)) =~= s.subrange(0, 8));
    assert(hex(b.subrange(0, 4)) =~= t.subrange(0, 8));
    lemma_hex_tells_bytes_apart(a.subrange(0, 4), b.subrange(0, 4));
    assert(hex(a.subrange(4, 6)) =~= s.subrange(9, 13));
    assert(hex(b.subrange(4, 6)) =~= t.subrange(9, 13));
    lemma_hex_tells_bytes_apart(a.subrange(4, 6), b.subrange(4, 6));
    assert(hex(a.subrange(6, 8)) =~= s.subrange(14, 18));
    assert(hex(b.subrange(6, 8)) =~= t.subrange(14, 18));
    lemma_hex_tells_bytes_apart(a.subrange(6, 8), b.subrange(6, 8));
    assert(hex(a.subrange(8, 10)) =~= s.subrange(19, 23));
    assert(hex(b.subrange(8, 10)) =~= t.subrange(19, 23));
    lemma_hex_tells_bytes_apart(a.subrange(8, 10), b.subrange(8, 10));
    assert(hex(a.subrange(10, 16)) =~= s.subrange(24, 36));
    assert(hex(b.subrange(10, 16)) =~= t.subrange(24, 36));
    lemma_hex_tells_bytes_apart(a.subrange(10, 16), b.subrange(10, 16));
    assert forall|i: int| 0 <= i < 16 implies #[trigger] a[i] == b[i] by {
        if i < 4 {
            assert(a[i] == a.subrange(0, 4)[i] && b[i] == b.subrange(0, 4)[i]);
        } else if i < 6 {
            assert(a[i] == a.subrange(4, 6)[i - 4] && b[i] == b.subrange(4, 6)[i - 4]);
        } else if i < 8 {
            assert(a[i] == a.subrange(6, 8)[i - 6] && b[i] == b.subrange(6, 8)[i - 6]);
        } else if i < 10 {
            assert(a[i] == a.subrange(8, 10)[i - 8] && b[i] == b.subrange(8, 10)[i - 8]);
        } else {
            assert(a[i] == a.subrange(10, 16)[i - 10] && b[i] == b.subrange(10, 16)[i - 10]);
        }
    }
    assert(a =~= b);
}

proof fn lemma_hex_digits(bytes: Seq<u8>, i: int)
    requires
        0 <= i < bytes.len(),
    ensures
        hex(bytes)[2 * i] == hex_digit(bytes[i] as int / 16),
        hex(bytes)[2 * i + 1] == hex_digit(bytes[i] as int % 16),
{
    assert((2 * i) % 2 == 0 && (2 * i) / 2 == i);
    assert((2 * i + 1) % 2 == 1 && (2 * i + 1) / 2 == i);
}

proof fn lemma_hex_tells_bytes_apart(a: Seq<u8>, b: Seq<u8>)
    requires
        a.len() == b.len(),
        hex(a) == hex(b),
    ensures
        a == b,
{
    assert forall|i: int| 0 <= i < a.len() implies #[trigger] a[i] == b[i] by {
        lemma_hex_digits(a, i);
        lemma_hex_digits(b, i);
    }
    assert(a =~= b);
}

/// The text of an identifier has 36 characters.
pub proof fn law_text_length(bytes: Seq<u8>)
    requires
        bytes.len() == 16,
    ensures
        hyphenated(bytes).len() == 36,
{
}

/// Identifiers with the same bytes are the same.
pub proof fn law_bytes_are_all(a: Uid, b: Uid)
    requires
        a.0@ == b.0@,
    ensures
        a == b,
{
    assert(a.0 =~= b.0);
}

/// A new identifier is what the random number generator drew, bit for bit:
/// none of its bytes is replaced after the draw.
pub(crate) proof fn law_new_identifier_is_drawn(uid: Uid)
    requires
        call_ensures(Uid::new, (), uid),
    ensures
        call_ensures(new_v4, (), uid.0),
{
}

/// A new identifier is marked as a random UUID, and its bytes were drawn.
pub proof fn law_new_identifier_is_a_random_uuid(uid: Uid)
    requires
        call_ensures(Uid::new, (), uid),
    ensures
        drawn(uid.0),
        64 <= uid.0@[6] < 80,
        128 <= uid.0@[8] < 192,
{
}

/// Two identifiers are equal if and only if they agree in each byte.
pub proof fn law_equality_goes_by_each_byte(a: Uid, b: Uid, equal: bool)
    requires
        call_ensures(Uid::eq, (&a, &b), equal),
    ensures
        equal <==> forall|i: int| 0 <= i < 16 ==> #[trigger] a.0@[i] == b.0@[i],
{
    if forall|i: int| 0 <= i < 16 ==> #[trigger] a.0@[i] == b.0@[i] {
        assert(a.0@ =~= b.0@);
        law_bytes_are_all(a, b);
    }
}

/// Two identifiers compare as the first bytes in which they differ, and as
/// equal only where there are none.
pub proof fn law_first_difference_decides(
    a: Uid,
    b: Uid,
    k: int,
    r: Option<core::cmp::Ordering>,
)
    requires
        call_ensures(Uid::partial_cmp, (&a, &b), r),
        0 <= k <= 16,
        forall|i: int| 0 <= i < k ==> #[trigger] a.0@[i] == b.0@[i],
        k < 16 ==> a.0@[k] != b.0@[k],
    ensures
        r == Some(core::cmp::Ordering::Equal) <==> k == 16,
        r == Some(core::cmp::Ordering::Less) <==> k < 16 && a.0@[k] < b.0@[k],
        r == Some(core::cmp::Ordering::Greater) <==> k < 16 && a.0@[k] > b.0@[k],
{
    assert(a.0@.take(k) =~= b.0@.take(k));
    if k == 16 {
        assert(a.0@ =~= b.0@);
        law_bytes_are_all(a, b);
    } else {
        assert(a != b);
        law_order_is_strict(a.0@, b.0@);
        if a.0@[k] < b.0@[k] {
            assert(bytes_before(a.0@, b.0@));
        } else {
            assert(b.0@[k] < a.0@[k] && b.0@.take(k) == a.0@.take(k));
            assert(bytes_before(b.0@, a.0@));
        }
    }
}

/// Each byte of an identifier is shown as two digits, the high one first. The
/// digits follow each other in the order of the bytes, with a hyphen after the
/// fourth, sixth, eighth and tenth byte.
pub proof fn law_text_shows_each_byte(uid: Uid, text: String, i: int)
    requires
        call_ensures(Uid::to_string, (&uid,), text),
        0 <= i < 16,
    ensures
        text@.len() == 36,
        text@[8] == '-' && text@[13] == '-' && text@[18] == '-' && text@[23] == '-',
        ({
            let at = 2 * i + (if i < 4 {
                0int
            } else if i < 6 {
                1
            } else if i < 8 {
                2
            } else if i < 10 {
                3
            } else {
                4
            });
            let (high, low) = (uid.0@[i] / 16, uid.0@[i] % 16);
            &&& text@[at] as int == (if high < 10 {
                48 + high
            } else {
                87 + high
            })
            &&& text@[at + 1] as int == (if low < 10 {
                48 + low
            } else {
                87 + low
            })
        }),
{
    let bytes = uid.0@;
    if i < 4 {
        lemma_hex_digits(bytes.subrange(0, 4), i);
    } else if i < 6 {
        lemma_hex_digits(bytes.subrange(4, 6), i - 4);
    } else if i < 8 {
        lemma_hex_digits(bytes.subrange(6, 8), i - 6);
    } else if i < 10 {
        lemma_hex_digits(bytes.subrange(8, 10), i - 8);
    } else {
        lemma_hex_digits(bytes.subrange(10, 16), i - 10);
    }
}

}
