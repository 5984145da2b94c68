//! Validation of the opening handshake: which request headers ask for an
//! upgrade to the websocket protocol, and the key that answers them.

use headers::{Header, HeaderValue, SecWebsocketAccept, SecWebsocketKey};
use vstd::prelude::*;
use vstd::slice::slice_to_vec;

verus! {

/// The byte that separates the options of a `Connection` header.
pub const COMMA: u8 = 44;

/// The length of a well-formed `Sec-WebSocket-Key`: sixteen bytes in base64.
pub const KEY_LENGTH: usize = 24;

/// Optional whitespace inside a header value: space and horizontal tab.
pub open spec fn is_ows(b: u8) -> bool {
    b == 32 || b == 9
}

/// The lower-case form of an ASCII letter; any other byte is itself.
pub open spec fn lower(b: u8) -> u8 {
    if 65 <= b <= 90 {
        (b + 32) as u8
    } else {
        b
    }
}

/// Two byte strings are equal but for the case of their ASCII letters.
pub open spec fn eq_ignore_case(a: Seq<u8>, b: Seq<u8>) -> bool {
    &&& a.len() == b.len()
    &&& forall|i: int| 0 <= i < a.len() ==> lower(#[trigger] a[i]) == lower(b[i])
}

/// `upgrade`
pub open spec fn upgrade_token() -> Seq<u8> {
    seq![117u8, 112u8, 103u8, 114u8, 97u8, 100u8, 101u8]
}

/// `websocket`
pub open spec fn websocket_token() -> Seq<u8> {
    seq![119u8, 101u8, 98u8, 115u8, 111u8, 99u8, 107u8, 101u8, 116u8]
}

/// `13`
pub open spec fn version_token() -> Seq<u8> {
    seq![49u8, 51u8]
}

/// `s` without the optional whitespace at its two ends.
pub open spec fn trim(s: Seq<u8>) -> Seq<u8>
    decreases s.len(),
{
    if s.len() == 0 {
        s
    } else if is_ows(s[0]) {
        trim(s.subrange(1, s.len() as int))
    } else if is_ows(s[s.len() - 1]) {
        trim(s.subrange(0, s.len() - 1))
    } else {
        s
    }
}

/// `s[lo..hi]` is one element of the comma-separated list `s`: it holds no
/// comma, and a comma or an end of `s` stands on either side of it.
pub open spec fn is_option_span(s: Seq<u8>, lo: int, hi: int) -> bool {
    &&& 0 <= lo <= hi <= s.len()
    &&& (lo == 0 || s[lo - 1] == COMMA)
    &&& (hi == s.len() || s[hi] == COMMA)
    &&& forall|k: int| lo <= k < hi ==> #[trigger] s[k] != COMMA
}

/// The element `s[lo..hi]`, trimmed, reads `upgrade` in some mix of cases.
pub open spec fn span_is_upgrade(s: Seq<u8>, lo: int, hi: int) -> bool {
    eq_ignore_case(trim(s.subrange(lo, hi)), upgrade_token())
}

/// A `Connection` header value asks for an upgrade: one of its
/// comma-separated options, trimmed, reads `upgrade` in some mix of cases.
pub open spec fn connection_has_upgrade(s: Seq<u8>) -> bool {
    exists|lo: int, hi: int| #[trigger] is_option_span(s, lo, hi) && span_is_upgrade(s, lo, hi)
}

/// A symbol of the base64 alphabet: a letter, a digit, `+` or `/`.
pub open spec fn is_base64_symbol(b: u8) -> bool {
    ||| 65 <= b <= 90
    ||| 97 <= b <= 122
    ||| 48 <= b <= 57
    ||| b == 43
    ||| b == 47
}

/// A base64 symbol whose last four bits are zero: `A`, `Q`, `g` or `w`.
/// The last symbol of sixteen encoded bytes carries two bits, so it is one
/// of these.
pub open spec fn is_final_symbol(b: u8) -> bool {
    b == 65 || b == 81 || b == 103 || b == 119
}

/// `s` is the base64 encoding of exactly sixteen bytes: twenty-two symbols,
/// the last of which carries two bits, and two `=` of padding.
pub open spec fn is_key_token(s: Seq<u8>) -> bool {
    &&& s.len() == KEY_LENGTH
    &&& forall|i: int| 0 <= i < 21 ==> is_base64_symbol(#[trigger] s[i])
    &&& is_final_symbol(s[21])
    &&& s[22] == 61
    &&& s[23] == 61
}

/// The value of `Sec-WebSocket-Accept` that answers a given key: the base64
/// encoding of the SHA-1 digest of the key followed by the protocol's GUID
/// `258EAFA5-E914-47DA-95CA-C5AB0DC85B11`.
pub uninterp spec fn accept_key_of(key: Seq<u8>) -> Seq<char>;

/// Signs a key with `SecWebsocketAccept::from(SecWebsocketKey)` of the
/// `headers` crate, which hashes the key and the protocol's GUID with SHA-1
/// and encodes the digest in base64: the result depends on the key alone.
///
/// The key goes in through `HeaderValue::from_bytes` and
/// `SecWebsocketKey::decode`, and the signature comes out through
/// `SecWebsocketAccept::encode` and `HeaderValue::to_str`. None of them
/// fails here: a well-formed key is made of visible ASCII, `decode` takes
/// any single value, `encode` yields one value, and base64 is visible
/// ASCII.
#[verifier::external_body]
fn sign(key: &[u8]) -> (accept: String)
    requires
        is_key_token(key@),
    ensures
        accept@ == accept_key_of(key@),
{
    let value = HeaderValue::from_bytes(key).unwrap();
    let key = SecWebsocketKey::decode(&mut std::iter::once(&value)).unwrap();
    let mut out: Vec<HeaderValue> = Vec::with_capacity(1);
    SecWebsocketAccept::from(key).encode(&mut out);
    out[0].to_str().unwrap().to_owned()
}

/// Returns `Some(())` exactly when the condition holds.
pub fn some(cond: bool) -> (r: Option<()>)
    ensures
        r is Some <==> cond,
{
    if cond {
        Some(())
    } else {
        None
    }
}

fn is_ows_byte(b: u8) -> (r: bool)
    ensures
        r == is_ows(b),
{
    b == 32 || b == 9
}

fn to_lower(b: u8) -> (r: u8)
    ensures
        r == lower(b),
{
    if 65 <= b && b <= 90 {
        b + 32
    } else {
        b
    }
}

fn is_base64_byte(b: u8) -> (r: bool)
    ensures
        r == is_base64_symbol(b),
{
    (65 <= b && b <= 90) || (97 <= b && b <= 122) || (48 <= b && b <= 57) || b == 43 || b == 47
}

/// Compares `value[lo..hi]` with `token`, ignoring the case of ASCII letters.
fn range_eq_ignore_case(value: &[u8], lo: usize, hi: usize, token: &[u8]) -> (r: bool)
    requires
        lo <= hi <= value@.len(),
    ensures
        r == eq_ignore_case(value@.subrange(lo as int, hi as int), token@),
{
    if hi - lo != token.len() {
        return false;
    }
    let ghost part = value@.subrange(lo as int, hi as int);
    let mut k: usize = 0;
    while k < token.len()
        invariant
            lo <= hi <= value@.len(),
            hi - lo == token@.len(),
            0 <= k <= token@.len(),
            part == value@.subrange(lo as int, hi as int),
            forall|i: int| 0 <= i < k ==> lower(#[trigger] part[i]) == lower(token@[i]),
        decreases token@.len() - k,
    {
        assert(part[k as int] == value@[lo + k]);
        if to_lower(value[lo + k]) != to_lower(token[k]) {
            return false;
        }
        k += 1;
    }
    true
}

/// Compares `value[lo..hi]`, without the whitespace at its ends, with
/// `token`, ignoring the case of ASCII letters.
fn trimmed_eq_ignore_case(value: &[u8], lo: usize, hi: usize, token: &[u8]) -> (r: bool)
    requires
        lo <= hi <= value@.len(),
    ensures
        r == eq_ignore_case(trim(value@.subrange(lo as int, hi as int)), token@),
{
    let mut p: usize = lo;
    let mut q: usize = hi;
    while p < q && is_ows_byte(value[p])
        invariant
            lo <= p <= q <= hi <= value@.len(),
            trim(value@.subrange(lo as int, hi as int)) == trim(value@.subrange(p as int, q as int)),
        decreases q - p,
    {
        proof {
            let part = value@.subrange(p as int, q as int);
            assert(part[0] == value@[p as int]);
            assert(part.subrange(1, part.len() as int) =~= value@.subrange(p + 1, q as int));
        }
        p += 1;
    }
    while p < q && is_ows_byte(value[q - 1])
        invariant
            lo <= p <= q <= hi <= value@.len(),
            p < q ==> !is_ows(value@[p as int]),
            trim(value@.subrange(lo as int, hi as int)) == trim(value@.subrange(p as int, q as int)),
        decreases q - p,
    {
        proof {
            let part = value@.subrange(p as int, q as int);
            assert(part[0] == value@[p as int]);
            assert(part[part.len() - 1] == value@[q - 1]);
            assert(part.subrange(0, part.len() - 1) =~= value@.subrange(p as int, q - 1));
        }
        q -= 1;
    }
    proof {
        let part = value@.subrange(p as int, q as int);
        if p < q {
            assert(part[0] == value@[p as int]);
            assert(part[part.len() - 1] == value@[q - 1]);
        }
        assert(trim(part) == part);
    }
    range_eq_ignore_case(value, p, q, token)
}

/// Whether a `Connection` header value asks for an upgrade.
pub fn has_upgrade_option(value: &[u8]) -> (found: bool)
    ensures
        found == connection_has_upgrade(value@),
{
    let token: [u8; 7] = [117, 112, 103, 114, 97, 100, 101];
    assert(token@ =~= upgrade_token());
    let n = value.len();
    let mut lo: usize = 0;
    let mut i: usize = 0;
    while i < n
        invariant
            n == value@.len(),
            token@ == upgrade_token(),
            0 <= lo <= i <= n,
            lo == 0 || value@[lo - 1] == COMMA,
            forall|k: int| lo <= k < i ==> #[trigger] value@[k] != COMMA,
            forall|a: int, b: int| #[trigger]
                is_option_span(value@, a, b) && b < i ==> !span_is_upgrade(value@, a, b),
        decreases n - i,
    {
        if value[i] == COMMA {
            if trimmed_eq_ignore_case(value, lo, i, token.as_slice()) {
                assert(is_option_span(value@, lo as int, i as int));
                return true;
            }
            proof {
                assert forall|a: int, b: int| #[trigger]
                    is_option_span(value@, a, b) && b < i + 1 implies !span_is_upgrade(
                    value@,
                    a,
                    b,
                ) by {
                    if b == i {
                        lemma_span_start(value@, lo as int, a, b);
                    }
                }
            }
            lo = i + 1;
        }
        i += 1;
    }
    let found = trimmed_eq_ignore_case(value, lo, n, token.as_slice());
    proof {
        if found {
            assert(is_option_span(value@, lo as int, n as int));
        } else {
            assert forall|a: int, b: int| #[trigger]
                is_option_span(value@, a, b) implies !span_is_upgrade(value@, a, b) by {
                if b == n {
                    lemma_span_start(value@, lo as int, a, b);
                }
            }
        }
    }
    found
}

/// The element of a list that ends at a given place starts at one place
/// only.
proof fn lemma_span_start(s: Seq<u8>, lo: int, a: int, b: int)
    requires
        is_option_span(s, a, b),
        0 <= lo <= b,
        lo == 0 || s[lo - 1] == COMMA,
        forall|k: int| lo <= k < b ==> #[trigger] s[k] != COMMA,
    ensures
        a == lo,
{
    if a < lo {
        assert(s[lo - 1] == COMMA);
    } else if a > lo {
        assert(s[a - 1] == COMMA);
    }
}

/// Whether an `Upgrade` header value names the websocket protocol.
pub fn is_websocket_upgrade(value: &[u8]) -> (r: bool)
    ensures
        r == eq_ignore_case(value@, websocket_token()),
{
    let token: [u8; 9] = [119, 101, 98, 115, 111, 99, 107, 101, 116];
    assert(token@ =~= websocket_token());
    assert(value@.subrange(0, value@.len() as int) =~= value@);
    range_eq_ignore_case(value, 0, value.len(), token.as_slice())
}

/// Whether a `Sec-WebSocket-Version` header value is exactly `13`.
pub fn is_supported_version(value: &[u8]) -> (r: bool)
    ensures
        r == (value@ == version_token()),
{
    let r = value.len() == 2 && value[0] == 49 && value[1] == 51;
    assert(r == (value@ =~= version_token()));
    r
}

/// Whether a `Sec-WebSocket-Key` header value is a well-formed key.
pub fn is_wellformed_key(value: &[u8]) -> (r: bool)
    ensures
        r == is_key_token(value@),
{
    if value.len() != KEY_LENGTH {
        return false;
    }
    let mut i: usize = 0;
    while i < 21
        invariant
            value@.len() == KEY_LENGTH,
            0 <= i <= 21,
            forall|k: int| 0 <= k < i ==> is_base64_symbol(#[trigger] value@[k]),
        decreases 21 - i,
    {
        if !is_base64_byte(value[i]) {
            return false;
        }
        i += 1;
    }
    let last = value[21];
    (last == 65 || last == 81 || last == 103 || last == 119) && value[22] == 61 && value[23] == 61
}

/// The client's nonce of an opening handshake: a well-formed
/// `Sec-WebSocket-Key`.
#[derive(Debug, PartialEq, Eq)]
pub struct NegotiationKey {
    bytes: Vec<u8>,
}

impl View for NegotiationKey {
    type V = Seq<u8>;

    closed spec fn view(&self) -> Seq<u8> {
        self.bytes@
    }
}

impl NegotiationKey {
    #[verifier::type_invariant]
    spec fn inv(&self) -> bool {
        is_key_token(self.bytes@)
    }

    /// Takes a header value as a key if it is a well-formed one.
    pub fn parse(value: &[u8]) -> (key: Option<NegotiationKey>)
        ensures
            is_key_token(value@) ==> key is Some && key->0@ == value@,
            !is_key_token(value@) ==> key is None,
    {
        if is_wellformed_key(value) {
            Some(NegotiationKey { bytes: slice_to_vec(value) })
        } else {
            None
        }
    }

    /// The key as it stood in the request.
    pub fn as_bytes(&self) -> (b: &[u8])
        ensures
            b@ == self@,
            is_key_token(b@),
    {
        proof {
            use_type_invariant(self);
        }
        self.bytes.as_slice()
    }

    /// The value of `Sec-WebSocket-Accept` that answers this key.
    pub fn accept(&self) -> (accept: String)
        ensures
            accept@ == accept_key_of(self@),
    {
        proof {
            use_type_invariant(self);
        }
        sign(self.bytes.as_slice())
    }
}

/// The request headers that the opening handshake reads: for each, the
/// first value that the request carries under that name, if any.
#[derive(Debug, Clone, PartialEq, Eq)]
pub struct HandshakeHeaders {
    /// `Connection`
    pub connection: Option<Vec<u8>>,
    /// `Upgrade`
    pub upgrade: Option<Vec<u8>>,
    /// `Sec-WebSocket-Version`
    pub version: Option<Vec<u8>>,
    /// `Sec-WebSocket-Key`
    pub key: Option<Vec<u8>>,
}

impl HandshakeHeaders {
    /// The `Connection` header is there and asks for an upgrade.
    pub open spec fn connection_ok(&self) -> bool {
        self.connection matches Some(c) && connection_has_upgrade(c@)
    }

    /// The `Upgrade` header is there and names the websocket protocol.
    pub open spec fn upgrade_ok(&self) -> bool {
        self.upgrade matches Some(u) && eq_ignore_case(u@, websocket_token())
    }

    /// The `Sec-WebSocket-Version` header is there and reads `13`.
    pub open spec fn version_ok(&self) -> bool {
        self.version matches Some(v) && v@ == version_token()
    }

    /// The `Sec-WebSocket-Key` header is there and is well-formed.
    pub open spec fn key_ok(&self) -> bool {
        self.key matches Some(k) && is_key_token(k@)
    }

    /// The request asks for a websocket upgrade: all four headers are there
    /// and as they must be.
    pub open spec fn is_upgrade_request(&self) -> bool {
        self.connection_ok() && self.upgrade_ok() && self.version_ok() && self.key_ok()
    }
}

/// Validates the opening handshake and extracts its key.
///
/// A key comes back exactly when the request asks for a websocket upgrade;
/// it is then the value of the `Sec-WebSocket-Key` header.
pub fn extract_upgradable_key(headers: &HandshakeHeaders) -> (key: Option<NegotiationKey>)
    ensures
        headers.is_upgrade_request() ==> key is Some && key->0@ == headers.key->0@,
        !headers.is_upgrade_request() ==> key is None,
{
    let connection = match &headers.connection {
        Some(value) => some(has_upgrade_option(value.as_slice())),
        None => None,
    };
    if connection.is_none() {
        return None;
    }
    let upgrade = match &headers.upgrade {
        Some(value) => some(is_websocket_upgrade(value.as_slice())),
        None => None,
    };
    if upgrade.is_none() {
        return None;
    }
    let version = match &headers.version {
        Some(value) => some(is_supported_version(value.as_slice())),
        None => None,
    };
    if version.is_none() {
        return None;
    }
    match &headers.key {
        Some(value) => NegotiationKey::parse(value.as_slice()),
        None => None,
    }
}

/// An option of a `Connection` header is found wherever it stands in the
/// list and however its letters are cased: if `option`, trimmed, reads
/// `upgrade` in some mix of cases and holds no comma, then every list that
/// has it as an element asks for an upgrade.
pub proof fn lemma_listed_option_is_found(before: Seq<u8>, option: Seq<u8>, after: Seq<u8>)
    requires
        eq_ignore_case(trim(option), upgrade_token()),
        forall|k: int| 0 <= k < option.len() ==> #[trigger] option[k] != COMMA,
        before.len() == 0 || before[before.len() - 1] == COMMA,
        after.len() == 0 || after[0] == COMMA,
    ensures
        connection_has_upgrade(before + option + after),
{
    let s = before + option + after;
    let lo = before.len() as int;
    let hi = lo + option.len();
    assert(s.subrange(lo, hi) =~= option);
    assert(is_option_span(s, lo, hi));
}

/// Changing the case of a letter changes neither a comma nor whitespace.
proof fn lemma_case_keeps_marks(x: u8, y: u8)
    requires
        lower(x) == lower(y),
    ensures
        x == COMMA <==> y == COMMA,
        is_ows(x) <==> is_ows(y),
{
}

/// Trimming two byte strings that are equal but for case leaves two such
/// strings.
proof fn lemma_trim_respects_case(a: Seq<u8>, b: Seq<u8>)
    requires
        eq_ignore_case(a, b),
    ensures
        eq_ignore_case(trim(a), trim(b)),
    decreases a.len(),
{
    if a.len() > 0 {
        let n = a.len() as int;
        lemma_case_keeps_marks(a[0], b[0]);
        lemma_case_keeps_marks(a[n - 1], b[n - 1]);
        if is_ows(a[0]) {
            let a1 = a.subrange(1, n);
            let b1 = b.subrange(1, n);
            assert forall|i: int| 0 <= i < a1.len() implies lower(#[trigger] a1[i]) == lower(
                b1[i],
            ) by {
                assert(a1[i] == a[i + 1] && b1[i] == b[i + 1]);
            }
            lemma_trim_respects_case(a1, b1);
        } else if is_ows(a[n - 1]) {
            let a1 = a.subrange(0, n - 1);
            let b1 = b.subrange(0, n - 1);
            assert forall|i: int| 0 <= i < a1.len() implies lower(#[trigger] a1[i]) == lower(
                b1[i],
            ) by {
                assert(a1[i] == a[i] && b1[i] == b[i]);
            }
            lemma_trim_respects_case(a1, b1);
        }
    }
}

proof fn lemma_upgrade_carries_over(a: Seq<u8>, b: Seq<u8>)
    requires
        eq_ignore_case(a, b),
        connection_has_upgrade(a),
    ensures
        connection_has_upgrade(b),
{
    let (lo, hi) = choose|lo: int, hi: int| #[trigger]
        is_option_span(a, lo, hi) && span_is_upgrade(a, lo, hi);
    assert forall|k: int| 0 <= k < a.len() implies (#[trigger] a[k] == COMMA <==> b[k] == COMMA) by {
        lemma_case_keeps_marks(a[k], b[k]);
    }
    assert(is_option_span(b, lo, hi)) by {
        if lo > 0 {
            assert(a[lo - 1] == COMMA);
        }
        if hi < a.len() {
            assert(a[hi] == COMMA);
        }
        assert forall|k: int| lo <= k < hi implies #[trigger] b[k] != COMMA by {
            assert(a[k] != COMMA);
        }
    }
    let pa = a.subrange(lo, hi);
    let pb = b.subrange(lo, hi);
    assert forall|i: int| 0 <= i < pa.len() implies lower(#[trigger] pa[i]) == lower(pb[i]) by {
        assert(pa[i] == a[lo + i] && pb[i] == b[lo + i]);
    }
    lemma_trim_respects_case(pa, pb);
    let ta = trim(pa);
    let tb = trim(pb);
    assert forall|i: int| 0 <= i < tb.len() implies lower(#[trigger] tb[i]) == lower(
        upgrade_token()[i],
    ) by {
        assert(lower(ta[i]) == lower(tb[i]));
        assert(lower(ta[i]) == lower(upgrade_token()[i]));
    }
    assert(span_is_upgrade(b, lo, hi));
}

/// The case of its letters does not matter to a `Connection` header: two
/// values that are equal but for case both ask for an upgrade, or neither
/// does.
pub proof fn lemma_connection_ignores_case(a: Seq<u8>, b: Seq<u8>)
    requires
        eq_ignore_case(a, b),
    ensures
        connection_has_upgrade(a) == connection_has_upgrade(b),
{
    assert(eq_ignore_case(b, a)) by {
        assert forall|i: int| 0 <= i < b.len() implies lower(#[trigger] b[i]) == lower(a[i]) by {
            assert(lower(a[i]) == lower(b[i]));
        }
    }
    if connection_has_upgrade(a) {
        lemma_upgrade_carries_over(a, b);
    }
    if connection_has_upgrade(b) {
        lemma_upgrade_carries_over(b, a);
    }
}

/// A request that lacks any one of the four requirements yields no key.
pub proof fn lemma_every_requirement_is_needed(headers: HandshakeHeaders)
    ensures
        !headers.connection_ok() ==> !headers.is_upgrade_request(),
        !headers.upgrade_ok() ==> !headers.is_upgrade_request(),
        !headers.version_ok() ==> !headers.is_upgrade_request(),
        !headers.key_ok() ==> !headers.is_upgrade_request(),
        headers.connection is None ==> !headers.is_upgrade_request(),
        headers.upgrade is None ==> !headers.is_upgrade_request(),
        headers.version is None ==> !headers.is_upgrade_request(),
        headers.key is None ==> !headers.is_upgrade_request(),
{
}

} // verus!
