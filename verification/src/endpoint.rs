use vstd::prelude::*;
use vstd::slice::slice_subrange;

use crate::errors::Error;

verus! {

/// Wildcard context identifier of the vsock address family: the address
/// field "-1" (or an empty field) of an endpoint descriptor denotes it.
pub const CID_ANY: u32 = 0xFFFF_FFFF;

/// A resolved transport target: a vsock context identifier and a port.
#[derive(Clone, Copy, Debug, PartialEq, Eq, Structural)]
pub struct Endpoint {
    /// The remote context, or `CID_ANY` for the wildcard context.
    pub context_id: u32,
    /// The remote port.
    pub port: u32,
}

/// True when the scheme separator "://" stands at position `i` of `s`.
pub open spec fn sep_at(s: Seq<u8>, i: int) -> bool {
    &&& 0 <= i
    &&& i + 3 <= s.len()
    &&& s[i] == 58u8
    &&& s[i + 1] == 47u8
    &&& s[i + 2] == 47u8
}

/// How many positions below `k` carry the scheme separator.
pub open spec fn sep_count_to(s: Seq<u8>, k: int) -> int
    decreases k,
{
    if k <= 0 {
        0
    } else {
        sep_count_to(s, k - 1) + if sep_at(s, k - 1) {
            1int
        } else {
            0int
        }
    }
}

/// How many positions of `s` carry the scheme separator.
pub open spec fn sep_count(s: Seq<u8>) -> int {
    sep_count_to(s, s.len() as int)
}

/// The position of the first scheme separator of `s`.
pub open spec fn first_sep(s: Seq<u8>) -> int {
    choose|i: int| sep_at(s, i) && forall|j: int| 0 <= j < i ==> !sep_at(s, j)
}

/// True when a colon stands at position `i` of `s`.
pub open spec fn colon_at(s: Seq<u8>, i: int) -> bool {
    0 <= i < s.len() && s[i] == 58u8
}

/// How many positions below `k` carry a colon.
pub open spec fn colon_count_to(s: Seq<u8>, k: int) -> int
    decreases k,
{
    if k <= 0 {
        0
    } else {
        colon_count_to(s, k - 1) + if colon_at(s, k - 1) {
            1int
        } else {
            0int
        }
    }
}

/// How many colons `s` carries.
pub open spec fn colon_count(s: Seq<u8>) -> int {
    colon_count_to(s, s.len() as int)
}

/// The position of the first colon of `s`.
pub open spec fn first_colon(s: Seq<u8>) -> int {
    choose|i: int| colon_at(s, i) && forall|j: int| 0 <= j < i ==> !colon_at(s, j)
}

/// True for the byte of an ASCII decimal digit.
pub open spec fn is_digit(b: u8) -> bool {
    48 <= b <= 57
}

/// True when every byte of `s` is an ASCII decimal digit.
pub open spec fn all_digits(s: Seq<u8>) -> bool {
    forall|i: int| 0 <= i < s.len() ==> is_digit(#[trigger] s[i])
}

/// The value of `s` read as a decimal numeral.
pub open spec fn digits_value(s: Seq<u8>) -> int
    decreases s.len(),
{
    if s.len() == 0 {
        0
    } else {
        digits_value(s.drop_last()) * 10 + (s.last() - 48)
    }
}

/// What parsing an unsigned 32-bit field accepts: an optional leading plus
/// sign, then one or more decimal digits, the value fitting in 32 bits.
pub open spec fn parse_u32_spec(s: Seq<u8>) -> Option<u32> {
    let body = if s.len() > 0 && s[0] == 43u8 {
        s.skip(1)
    } else {
        s
    };
    if body.len() > 0 && all_digits(body) && digits_value(body) <= u32::MAX {
        Some(digits_value(body) as u32)
    } else {
        None
    }
}

/// The byte `b` with an ASCII capital letter folded to lower case.
pub open spec fn ascii_lower(b: u8) -> u8 {
    if 65 <= b <= 90 {
        (b + 32) as u8
    } else {
        b
    }
}

/// The bytes of `s` with ASCII capital letters folded to lower case.
pub open spec fn lower(s: Seq<u8>) -> Seq<u8> {
    s.map_values(|b: u8| ascii_lower(b))
}

/// The bytes of the one supported scheme, "vsock".
pub open spec fn vsock_scheme() -> Seq<u8> {
    seq![118u8, 115u8, 111u8, 99u8, 107u8]
}

/// The bytes of the wildcard context field, "-1".
pub open spec fn wildcard_field() -> Seq<u8> {
    seq![45u8, 49u8]
}

/// What resolving an endpoint descriptor returns.
///
/// The descriptor must carry exactly one "://" separator, or the parse is
/// rejected; a scheme other than "vsock" (compared after case folding) is
/// unsupported; the address part must carry exactly one colon, its left
/// field being "-1", empty, or an unsigned 32-bit context identifier, and
/// its right field an unsigned 32-bit port.
pub open spec fn parse_endpoint_spec(s: Seq<u8>) -> Result<Endpoint, Error> {
    if sep_count(s) != 1 {
        Err(Error::InvalidArgument)
    } else {
        let scheme = s.take(first_sep(s));
        let addr = s.skip(first_sep(s) + 3);
        if lower(scheme) != vsock_scheme() {
            Err(Error::NotSupported)
        } else if colon_count(addr) != 1 {
            Err(Error::InvalidArgument)
        } else {
            let cid_field = addr.take(first_colon(addr));
            let port_field = addr.skip(first_colon(addr) + 1);
            let cid = if cid_field == wildcard_field() || cid_field.len() == 0 {
                Some(CID_ANY)
            } else {
                parse_u32_spec(cid_field)
            };
            match (cid, parse_u32_spec(port_field)) {
                (Some(c), Some(p)) => Ok(Endpoint { context_id: c, port: p }),
                _ => Err(Error::InvalidArgument),
            }
        }
    }
}

proof fn lemma_sep_count_stable(s: Seq<u8>, a: int, b: int)
    requires
        0 <= a <= b,
        forall|j: int| a <= j < b ==> !sep_at(s, j),
    ensures
        sep_count_to(s, b) == sep_count_to(s, a),
    decreases b - a,
{
    if a < b {
        lemma_sep_count_stable(s, a, b - 1);
    }
}

proof fn lemma_sep_count_mono(s: Seq<u8>, a: int, b: int)
    requires
        0 <= a <= b,
    ensures
        sep_count_to(s, a) <= sep_count_to(s, b),
    decreases b - a,
{
    if a < b {
        lemma_sep_count_mono(s, a, b - 1);
    }
}

proof fn lemma_first_sep_is(s: Seq<u8>, f: int)
    requires
        sep_at(s, f),
        forall|j: int| 0 <= j < f ==> !sep_at(s, j),
    ensures
        first_sep(s) == f,
{
    assert(sep_at(s, f) && forall|j: int| 0 <= j < f ==> !sep_at(s, j));
    let i = first_sep(s);
    assert(sep_at(s, i) && forall|j: int| 0 <= j < i ==> !sep_at(s, j));
    if i < f {
        assert(!sep_at(s, i));
    }
    if f < i {
        assert(!sep_at(s, f));
    }
}

proof fn lemma_colon_count_stable(s: Seq<u8>, a: int, b: int)
    requires
        0 <= a <= b,
        forall|j: int| a <= j < b ==> !colon_at(s, j),
    ensures
        colon_count_to(s, b) == colon_count_to(s, a),
    decreases b - a,
{
    if a < b {
        lemma_colon_count_stable(s, a, b - 1);
    }
}

proof fn lemma_colon_count_mono(s: Seq<u8>, a: int, b: int)
    requires
        0 <= a <= b,
    ensures
        colon_count_to(s, a) <= colon_count_to(s, b),
    decreases b - a,
{
    if a < b {
        lemma_colon_count_mono(s, a, b - 1);
    }
}

proof fn lemma_first_colon_is(s: Seq<u8>, f: int)
    requires
        colon_at(s, f),
        forall|j: int| 0 <= j < f ==> !colon_at(s, j),
    ensures
        first_colon(s) == f,
{
    assert(colon_at(s, f) && forall|j: int| 0 <= j < f ==> !colon_at(s, j));
    let i = first_colon(s);
    assert(colon_at(s, i) && forall|j: int| 0 <= j < i ==> !colon_at(s, j));
    if i < f {
        assert(!colon_at(s, i));
    }
    if f < i {
        assert(!colon_at(s, f));
    }
}

/// Scans `s` from `from` for the scheme separator.
fn find_sep_from(s: &[u8], from: usize) -> (r: Option<usize>)
    requires
        from <= s@.len(),
    ensures
        r matches Some(i)
            ==> from <= i && sep_at(s@, i as int)
            && forall|j: int| from <= j < i ==> !sep_at(s@, j),
        r is None ==> forall|j: int| from <= j ==> !sep_at(s@, j),
{
    let n: usize = s.len();
    let mut i: usize = from;
    while i < n && n - i >= 3
        invariant
            from <= i <= n,
            n == s@.len(),
            forall|j: int| from <= j < i ==> !sep_at(s@, j),
        decreases n - i,
    {
        if s[i] == 58 && s[i + 1] == 47 && s[i + 2] == 47 {
            return Some(i);
        }
        i += 1;
    }
    None
}

/// Scans `s` for the scheme separator, telling whether it stands there
/// exactly once.
fn find_unique_sep(s: &[u8]) -> (r: Option<usize>)
    ensures
        r matches Some(i)
            ==> sep_count(s@) == 1 && i == first_sep(s@) && sep_at(s@, i as int),
        r is None ==> sep_count(s@) != 1,
{
    let n: usize = s.len();
    match find_sep_from(s, 0) {
        None => {
            proof {
                lemma_sep_count_stable(s@, 0, n as int);
            }
            None
        },
        Some(f) => {
            proof {
                lemma_first_sep_is(s@, f as int);
                lemma_sep_count_stable(s@, 0, f as int);
            }
            match find_sep_from(s, f + 1) {
                None => {
                    proof {
                        lemma_sep_count_stable(s@, f + 1, n as int);
                    }
                    Some(f)
                },
                Some(g) => {
                    proof {
                        lemma_sep_count_mono(s@, 0, f as int);
                        lemma_sep_count_mono(s@, f + 1, g as int);
                        lemma_sep_count_mono(s@, g + 1, n as int);
                    }
                    None
                },
            }
        },
    }
}

/// Scans `s` from `from` for a colon.
fn find_colon_from(s: &[u8], from: usize) -> (r: Option<usize>)
    requires
        from <= s@.len(),
    ensures
        r matches Some(i)
            ==> from <= i && colon_at(s@, i as int)
            && forall|j: int| from <= j < i ==> !colon_at(s@, j),
        r is None ==> forall|j: int| from <= j ==> !colon_at(s@, j),
{
    let n: usize = s.len();
    let mut i: usize = from;
    while i < n
        invariant
            from <= i <= n,
            n == s@.len(),
            forall|j: int| from <= j < i ==> !colon_at(s@, j),
        decreases n - i,
    {
        if s[i] == 58 {
            return Some(i);
        }
        i += 1;
    }
    None
}

/// Scans `s` for a colon, telling whether it stands there exactly once.
fn find_unique_colon(s: &[u8]) -> (r: Option<usize>)
    ensures
        r matches Some(i)
            ==> colon_count(s@) == 1 && i == first_colon(s@) && colon_at(s@, i as int),
        r is None ==> colon_count(s@) != 1,
{
    let n: usize = s.len();
    match find_colon_from(s, 0) {
        None => {
            proof {
                lemma_colon_count_stable(s@, 0, n as int);
            }
            None
        },
        Some(f) => {
            proof {
                lemma_first_colon_is(s@, f as int);
                lemma_colon_count_stable(s@, 0, f as int);
            }
            match find_colon_from(s, f + 1) {
                None => {
                    proof {
                        lemma_colon_count_stable(s@, f + 1, n as int);
                    }
                    Some(f)
                },
                Some(g) => {
                    proof {
                        lemma_colon_count_mono(s@, 0, f as int);
                        lemma_colon_count_mono(s@, f + 1, g as int);
                        lemma_colon_count_mono(s@, g + 1, n as int);
                    }
                    None
                },
            }
        },
    }
}

proof fn lemma_digits_value_nonneg(s: Seq<u8>)
    requires
        all_digits(s),
    ensures
        digits_value(s) >= 0,
    decreases s.len(),
{
    if s.len() > 0 {
        assert(all_digits(s.drop_last()));
        lemma_digits_value_nonneg(s.drop_last());
    }
}

proof fn lemma_digits_value_grows(s: Seq<u8>, k: int)
    requires
        all_digits(s),
        0 <= k <= s.len(),
    ensures
        digits_value(s.take(k)) <= digits_value(s),
    decreases s.len() - k,
{
    if k == s.len() {
        assert(s.take(k) =~= s);
    } else {
        let t = s.take(k + 1);
        assert(t.drop_last() =~= s.take(k));
        assert(all_digits(s.take(k)));
        lemma_digits_value_nonneg(s.take(k));
        assert(digits_value(t) == digits_value(s.take(k)) * 10 + (t.last() - 48));
        lemma_digits_value_grows(s, k + 1);
    }
}

/// Parses the bytes of `s` between `a` and `b` as an unsigned 32-bit
/// decimal field.
#[verifier::loop_isolation(false)]
fn parse_u32_range(s: &[u8], a: usize, b: usize) -> (r: Option<u32>)
    requires
        a <= b <= s@.len(),
    ensures
        r == parse_u32_spec(s@.subrange(a as int, b as int)),
{
    let ghost field = s@.subrange(a as int, b as int);
    let mut start: usize = a;
    if a < b && s[a] == 43 {
        start = a + 1;
    }
    let ghost body = if field.len() > 0 && field[0] == 43u8 {
        field.skip(1)
    } else {
        field
    };
    proof {
        assert(body =~= s@.subrange(start as int, b as int));
    }
    if start >= b {
        return None;
    }
    let mut i: usize = start;
    let mut acc: u64 = 0;
    while i < b
        invariant
            start <= i <= b <= s@.len(),
            body == s@.subrange(start as int, b as int),
            all_digits(s@.subrange(start as int, i as int)),
            acc == digits_value(s@.subrange(start as int, i as int)),
            acc <= u32::MAX,
        decreases b - i,
    {
        let d = s[i];
        let ghost sub = s@.subrange(start as int, i as int);
        let ghost sub1 = s@.subrange(start as int, i + 1);
        proof {
            assert(sub1.drop_last() =~= sub);
            assert(sub1.last() == s@[i as int]);
        }
        if !(48 <= d && d <= 57) {
            proof {
                assert(body[i - start] == s@[i as int]);
                assert(!all_digits(body));
            }
            return None;
        }
        let step: u64 = acc * 10 + ((d - 48) as u64);
        proof {
            assert(digits_value(sub1) == digits_value(sub) * 10 + (s@[i as int] - 48));
        }
        if step > 0xFFFF_FFFF {
            proof {
                if all_digits(body) {
                    assert(sub1 =~= body.take(i + 1 - start));
                    lemma_digits_value_grows(body, i + 1 - start);
                }
            }
            return None;
        }
        acc = step;
        i += 1;
    }
    proof {
        assert(s@.subrange(start as int, b as int) == body);
        lemma_digits_value_nonneg(body);
    }
    Some(acc as u32)
}

/// The byte `b` with an ASCII capital letter folded to lower case.
fn lower_byte(b: u8) -> (r: u8)
    ensures
        r == ascii_lower(b),
{
    if 65 <= b && b <= 90 {
        b + 32
    } else {
        b
    }
}

/// Tells whether the first `end` bytes of `s`, folded to lower case, spell
/// the one supported scheme.
fn is_vsock_scheme(s: &[u8], end: usize) -> (r: bool)
    requires
        end <= s@.len(),
    ensures
        r == (lower(s@.take(end as int)) == vsock_scheme()),
{
    let ghost scheme = s@.take(end as int);
    proof {
        assert(lower(scheme).len() == scheme.len());
    }
    if end != 5 {
        proof {
            assert(lower(scheme) != vsock_scheme()) by {
                assert(vsock_scheme().len() == 5);
            }
        }
        return false;
    }
    let b0 = lower_byte(s[0]);
    let b1 = lower_byte(s[1]);
    let b2 = lower_byte(s[2]);
    let b3 = lower_byte(s[3]);
    let b4 = lower_byte(s[4]);
    let r = b0 == 118 && b1 == 115 && b2 == 111 && b3 == 99 && b4 == 107;
    proof {
        assert(lower(scheme)[0] == ascii_lower(scheme[0]));
        assert(lower(scheme)[1] == ascii_lower(scheme[1]));
        assert(lower(scheme)[2] == ascii_lower(scheme[2]));
        assert(lower(scheme)[3] == ascii_lower(scheme[3]));
        assert(lower(scheme)[4] == ascii_lower(scheme[4]));
        if r {
            assert(lower(scheme) =~= vsock_scheme());
        } else {
            assert(lower(scheme) != vsock_scheme()) by {
                if lower(scheme) == vsock_scheme() {
                    assert(lower(scheme)[0] == 118u8);
                    assert(lower(scheme)[1] == 115u8);
                    assert(lower(scheme)[2] == 111u8);
                    assert(lower(scheme)[3] == 99u8);
                    assert(lower(scheme)[4] == 107u8);
                }
            }
        }
    }
    r
}

/// Tells whether the bytes of `s` between `a` and `b` spell the wildcard
/// context field or are empty.
fn is_wildcard_field(s: &[u8], a: usize, b: usize) -> (r: bool)
    requires
        a <= b <= s@.len(),
    ensures
        r == {
            let field = s@.subrange(a as int, b as int);
            field == wildcard_field() || field.len() == 0
        },
{
    let ghost field = s@.subrange(a as int, b as int);
    if a == b {
        return true;
    }
    if b - a == 2 && s[a] == 45 && s[a + 1] == 49 {
        proof {
            assert(field =~= wildcard_field());
        }
        return true;
    }
    proof {
        assert(field != wildcard_field() && field.len() != 0) by {
            assert(wildcard_field().len() == 2);
            if field == wildcard_field() {
                assert(field[0] == 45u8 && field[1] == 49u8);
            }
        }
    }
    false
}

/// Resolves a textual endpoint descriptor `scheme://context:port` into a
/// transport target, exactly as `parse_endpoint_spec` states: a malformed
/// descriptor is an invalid argument, a scheme other than "vsock" is
/// unsupported, and "-1" or an empty context field denotes the wildcard
/// context.
#[verifier::rlimit(50)]
pub fn parse_endpoint(s: &[u8]) -> (r: Result<Endpoint, Error>)
    ensures
        r == parse_endpoint_spec(s@),
{
    let f = match find_unique_sep(s) {
        None => {
            return Err(Error::InvalidArgument);
        },
        Some(f) => f,
    };
    if !is_vsock_scheme(s, f) {
        return Err(Error::NotSupported);
    }
    let n: usize = s.len();
    let addr = slice_subrange(s, f + 3, n);
    let c = match find_unique_colon(addr) {
        None => {
            return Err(Error::InvalidArgument);
        },
        Some(c) => c,
    };
    proof {
        assert(addr@ =~= s@.skip(f + 3));
        assert(addr@.subrange(0, c as int) =~= addr@.take(c as int));
        assert(addr@.subrange(c + 1, addr@.len() as int) =~= addr@.skip(c + 1));
    }
    let cid = if is_wildcard_field(addr, 0, c) {
        Some(CID_ANY)
    } else {
        parse_u32_range(addr, 0, c)
    };
    let port = parse_u32_range(addr, c + 1, addr.len());
    match (cid, port) {
        (Some(c), Some(p)) => Ok(Endpoint { context_id: c, port: p }),
        _ => Err(Error::InvalidArgument),
    }
}

} // verus!
