//! Contract versioning and handshake negotiation.
//!
//! The contract version is decoupled from the crate's semver and from any
//! app's own version: only this number decides whether two apps can talk over
//! the seam. An additive change (a new optional field, a new enum variant with
//! a backward default) bumps the minor; anything that changes how an existing
//! field is read bumps the major. Different majors are never wire-compatible,
//! so negotiation refuses them rather than guessing.

mod order;

use vstd::prelude::*;

use crate::decimal::{
    chars_of, decimal, is_digit, is_shortest_decimal, lemma_decimal, lemma_decimal_is_shortest,
    parse_u16, push_decimal, spec_parse_u16, unsigned_digits,
};

verus! {

/// A `major.minor` contract version. Patch is intentionally absent: a patch
/// never changes the wire, so it has no meaning here.
#[derive(Clone, Copy, Debug, PartialEq, Eq, Structural, Ord)]
pub struct ContractVersion {
    pub major: u16,
    pub minor: u16,
}

/// The order of versions: by major first, then by minor (the order of the
/// fields, which is also the order the derived `Ord` uses).
pub open spec fn version_le(a: ContractVersion, b: ContractVersion) -> bool {
    a.major < b.major || (a.major == b.major && a.minor <= b.minor)
}

/// The larger of two versions under [`version_le`].
pub open spec fn version_max(a: ContractVersion, b: ContractVersion) -> ContractVersion {
    if version_le(a, b) { b } else { a }
}

/// The smaller of two versions under [`version_le`].
pub open spec fn version_min(a: ContractVersion, b: ContractVersion) -> ContractVersion {
    if version_le(a, b) { a } else { b }
}

impl ContractVersion {
    pub fn new(major: u16, minor: u16) -> (v: Self)
        ensures
            v.major == major,
            v.minor == minor,
    {
        ContractVersion { major, minor }
    }
}

/// The wire form of a version: `major.minor`, each in shortest decimal, such
/// as `"1.0"`.
pub open spec fn render(v: ContractVersion) -> Seq<char> {
    decimal(v.major as nat) + seq!['.'] + decimal(v.minor as nat)
}

/// What reading a version from text gives: the text is split at its first
/// `.`, and both halves must read as unsigned 16-bit numbers (see
/// [`spec_parse_u16`]). Each refusal carries a message that quotes the text.
pub open spec fn spec_parse_version(s: Seq<char>) -> Result<ContractVersion, Seq<char>> {
    match s.index_of_first('.') {
        None => Err("invalid contract version: "@ + s),
        Some(i) => match spec_parse_u16(s.take(i)) {
            None => Err("invalid major in contract version: "@ + s),
            Some(major) => match spec_parse_u16(s.skip(i + 1)) {
                None => Err("invalid minor in contract version: "@ + s),
                Some(minor) => Ok(ContractVersion { major, minor }),
            },
        },
    }
}

impl ContractVersion {
    /// Read a version from its text form, e.g. `"1.2"`.
    pub fn parse(s: &str) -> (r: Result<ContractVersion, String>)
        ensures
            match r {
                Ok(v) => spec_parse_version(s@) == Ok::<ContractVersion, Seq<char>>(v),
                Err(e) => spec_parse_version(s@) == Err::<ContractVersion, Seq<char>>(e@),
            },
    {
        let cs = chars_of(s);
        let n: usize = cs.len();
        let mut i: usize = 0;
        while i < n && cs[i] != '.'
            invariant
                n == cs@.len(),
                cs@ == s@,
                0 <= i <= n,
                forall|j: int| 0 <= j < i ==> cs@[j] != '.',
            decreases n - i,
        {
            i = i + 1;
        }
        proof {
            s@.index_of_first_ensures('.');
        }
        if i == n {
            assert(!s@.contains('.'));
            let mut e = "invalid contract version: ".to_owned();
            e.append(s);
            return Err(e);
        }
        assert(s@.contains('.')) by {
            assert(s@[i as int] == '.');
        }
        assert(s@.index_of_first('.') == Some(i as int)) by {
            let k: int = s@.index_of_first('.')->0;
            assert(!(k < i));
            assert(!(i < k));
        }
        assert(cs@.subrange(0, i as int) =~= s@.take(i as int));
        assert(cs@.subrange(i + 1, n as int) =~= s@.skip(i + 1));
        match parse_u16(&cs, 0, i) {
            None => {
                let mut e = "invalid major in contract version: ".to_owned();
                e.append(s);
                Err(e)
            },
            Some(major) => match parse_u16(&cs, i + 1, n) {
                None => {
                    let mut e = "invalid minor in contract version: ".to_owned();
                    e.append(s);
                    Err(e)
                },
                Some(minor) => Ok(ContractVersion { major, minor }),
            },
        }
    }

    /// The wire form of this version, e.g. `"1.2"`.
    pub fn to_string(&self) -> (r: String)
        ensures
            r@ == render(*self),
    {
        let mut out = String::new();
        push_decimal(&mut out, self.major);
        out.append(".");
        push_decimal(&mut out, self.minor);
        proof {
            reveal_strlit(".");
        }
        assert(out@ =~= render(*self));
        out
    }
}

impl std::str::FromStr for ContractVersion {
    type Err = String;

    fn from_str(s: &str) -> (r: Result<Self, Self::Err>)
        ensures
            match r {
                Ok(v) => spec_parse_version(s@) == Ok::<ContractVersion, Seq<char>>(v),
                Err(e) => spec_parse_version(s@) == Err::<ContractVersion, Seq<char>>(e@),
            },
    {
        ContractVersion::parse(s)
    }
}

/// The inclusive band of contract versions an app can speak, advertised in its
/// manifest. A running app usually supports several minors, so the other side
/// has room to be older or newer.
#[derive(Clone, Copy, Debug, PartialEq, Eq, Structural)]
pub struct ContractRange {
    pub min: ContractVersion,
    pub max: ContractVersion,
}

/// `v` lies inside the band `r` (both ends included).
pub open spec fn in_range(r: ContractRange, v: ContractVersion) -> bool {
    version_le(r.min, v) && version_le(v, r.max)
}

impl ContractRange {
    pub fn new(min: ContractVersion, max: ContractVersion) -> (r: Self)
        ensures
            r.min == min,
            r.max == max,
    {
        ContractRange { min, max }
    }

    /// A range that supports exactly one version.
    pub fn exact(v: ContractVersion) -> (r: Self)
        ensures
            r.min == v,
            r.max == v,
    {
        ContractRange { min: v, max: v }
    }
}

/// What [`negotiate`] returns: the upper end of the overlap of the two bands,
/// or `None` when the overlap is empty.
pub open spec fn spec_negotiate(a: ContractRange, b: ContractRange) -> Option<ContractVersion> {
    let lo = version_max(a.min, b.min);
    let hi = version_min(a.max, b.max);
    if version_le(lo, hi) {
        Some(hi)
    } else {
        None
    }
}

/// Pick the highest version both sides can speak, or `None` when their bands
/// do not overlap (typically a major gap). Because versions order by
/// `(major, minor)`, a cross-major situation collapses to an empty overlap on
/// its own, so the caller gets a clean refusal instead of a silent mismatch.
pub fn negotiate(a: ContractRange, b: ContractRange) -> (r: Option<ContractVersion>)
    ensures
        r == spec_negotiate(a, b),
{
    let lo = if a.min <= b.min { b.min } else { a.min };
    let hi = if a.max <= b.max { a.max } else { b.max };
    if lo <= hi {
        Some(hi)
    } else {
        None
    }
}

/// Reading the wire form of a version gives that version back, so a version
/// survives being written to the wire and read again.
pub proof fn parse_of_render_roundtrips(v: ContractVersion)
    ensures
        spec_parse_version(render(v)) == Ok::<ContractVersion, Seq<char>>(v),
{
    let a = decimal(v.major as nat);
    let b = decimal(v.minor as nat);
    lemma_decimal(v.major as nat);
    lemma_decimal(v.minor as nat);
    let s = render(v);
    let i: int = a.len() as int;
    assert(s[i] == '.');
    s.index_of_first_ensures('.');
    assert(s.contains('.'));
    let k: int = s.index_of_first('.')->0;
    if k < i {
        assert(is_digit(a[k]));
    }
    assert(k == i);
    assert(s.take(i) =~= a);
    assert(s.skip(i + 1) =~= b);
    assert(is_digit(a[0]));
    assert(is_digit(b[0]));
    assert(unsigned_digits(a) == a);
    assert(unsigned_digits(b) == b);
}

/// The wire text of a version holds exactly one `.`; before it stands the
/// shortest decimal text of the major and after it the shortest decimal text
/// of the minor: digits only, no sign, and no leading zero unless the number
/// is 0. (So the text of 1.12 is "1.12", and no other text is.)
pub proof fn render_is_shortest_major_dot_minor(v: ContractVersion)
    ensures
        render(v).contains('.'),
        forall|i: int|
            0 <= i < render(v).len() && #[trigger] render(v)[i] == '.' ==> {
                &&& is_shortest_decimal(render(v).take(i), v.major as nat)
                &&& is_shortest_decimal(render(v).skip(i + 1), v.minor as nat)
            },
{
    let a = decimal(v.major as nat);
    let b = decimal(v.minor as nat);
    lemma_decimal_is_shortest(v.major as nat);
    lemma_decimal_is_shortest(v.minor as nat);
    let s = render(v);
    let n: int = a.len() as int;
    assert(s[n] == '.');
    assert forall|i: int|
        0 <= i < s.len() && #[trigger] s[i] == '.' implies {
            &&& is_shortest_decimal(s.take(i), v.major as nat)
            &&& is_shortest_decimal(s.skip(i + 1), v.minor as nat)
        } by {
        if i < n {
            assert(s[i] == a[i]);
            assert(is_digit(a[i]));
        } else if i > n {
            assert(s[i] == b[i - n - 1]);
            assert(is_digit(b[i - n - 1]));
        }
        assert(s.take(i) =~= a);
        assert(s.skip(i + 1) =~= b);
    }
}

/// The version order is a total order: reflexive, antisymmetric, transitive
/// and total.
pub proof fn version_order_is_total(a: ContractVersion, b: ContractVersion, c: ContractVersion)
    ensures
        version_le(a, a),
        version_le(a, b) && version_le(b, a) ==> a == b,
        version_le(a, b) && version_le(b, c) ==> version_le(a, c),
        version_le(a, b) || version_le(b, a),
{
}

/// A negotiated version is one that both sides speak.
pub proof fn negotiated_version_is_common(a: ContractRange, b: ContractRange)
    ensures
        spec_negotiate(a, b) matches Some(v) ==> in_range(a, v) && in_range(b, v),
{
}

/// Negotiation picks the highest common version: whenever some version lies in
/// both bands, negotiation succeeds and its result is at least that version.
pub proof fn negotiated_version_is_highest(a: ContractRange, b: ContractRange, w: ContractVersion)
    requires
        in_range(a, w),
        in_range(b, w),
    ensures
        spec_negotiate(a, b) matches Some(v) && version_le(w, v),
{
}

/// Negotiation refuses exactly when the two bands share no version.
pub proof fn negotiation_refuses_only_disjoint(a: ContractRange, b: ContractRange)
    ensures
        spec_negotiate(a, b) is None <==> !(exists|w: ContractVersion|
            #[trigger] in_range(a, w) && in_range(b, w)),
{
    if spec_negotiate(a, b) is Some {
        let v = spec_negotiate(a, b)->0;
        assert(in_range(a, v) && in_range(b, v));
    }
}

/// The outcome does not depend on which side is asked first.
pub proof fn negotiation_is_symmetric(a: ContractRange, b: ContractRange)
    ensures
        spec_negotiate(a, b) == spec_negotiate(b, a),
{
}

/// Two bands that each stay within one major, with different majors, never
/// negotiate to a version: different majors are never wire-compatible.
pub proof fn distinct_majors_never_negotiate(a: ContractRange, b: ContractRange)
    requires
        a.min.major == a.max.major,
        b.min.major == b.max.major,
        a.min.major != b.min.major,
    ensures
        spec_negotiate(a, b) is None,
{
}

/// A band of exactly one version negotiates with another band to that version
/// if the other band contains it, and refuses otherwise.
pub proof fn exact_range_negotiates_to_its_version(v: ContractVersion, r: ContractRange)
    ensures
        spec_negotiate(ContractRange { min: v, max: v }, r) == (if in_range(r, v) {
            Some(v)
        } else {
            None::<ContractVersion>
        }),
{
}

} // verus!
