//! Request translation: CGI-style environment variables to an HTTP request
//! head.
//!
//! A FastCGI client hands over one request as a set of CGI name/value
//! variables. The method and target URI sit in dedicated variables (with
//! fixed defaults when absent), the content type and content length in their
//! own dedicated variables, and every other request header in a variable
//! whose name is the header's name behind a fixed `HTTP_` prefix, uppercased
//! and with `-` turned into `_`. Translation undoes exactly that mapping and
//! nothing more: a variable without the prefix never becomes a header.
//!
//! A deliberate choice sits in that mapping: the stripped remainder is not
//! used verbatim as the header name. Translation restores the header's
//! shape — lowercased, with `_` back to `-` — so `HTTP_X_TOKEN` yields the
//! header `x-token`, not `X_TOKEN`: the header the web client actually
//! sent, not what the CGI encoding made of it.

use vstd::prelude::*;
use vstd::seq_lib::*;
use vstd::slice::{slice_subrange, slice_to_vec};

verus! {

// ---------------------------------------------------------------------------
// Variable names and defaults
// ---------------------------------------------------------------------------

/// The bytes of `HTTP_`, the prefix marking forwarded request headers.
pub open spec fn var_http_prefix() -> Seq<u8> {
    seq![0x48u8, 0x54, 0x54, 0x50, 0x5f]
}

/// The bytes of `REQUEST_METHOD`.
pub open spec fn var_request_method() -> Seq<u8> {
    seq![0x52u8, 0x45, 0x51, 0x55, 0x45, 0x53, 0x54, 0x5f, 0x4d, 0x45, 0x54, 0x48, 0x4f, 0x44]
}

/// The bytes of `REQUEST_URI`.
pub open spec fn var_request_uri() -> Seq<u8> {
    seq![0x52u8, 0x45, 0x51, 0x55, 0x45, 0x53, 0x54, 0x5f, 0x55, 0x52, 0x49]
}

/// The bytes of `CONTENT_TYPE`.
pub open spec fn var_content_type() -> Seq<u8> {
    seq![0x43u8, 0x4f, 0x4e, 0x54, 0x45, 0x4e, 0x54, 0x5f, 0x54, 0x59, 0x50, 0x45]
}

/// The bytes of `CONTENT_LENGTH`.
pub open spec fn var_content_length() -> Seq<u8> {
    seq![0x43u8, 0x4f, 0x4e, 0x54, 0x45, 0x4e, 0x54, 0x5f, 0x4c, 0x45, 0x4e, 0x47, 0x54, 0x48]
}

/// The bytes of `GET`, the method assumed when the dedicated variable is
/// missing.
pub open spec fn default_method() -> Seq<u8> {
    seq![0x47u8, 0x45, 0x54]
}

/// The bytes of `/`, the target assumed when the dedicated variable is
/// missing.
pub open spec fn default_uri() -> Seq<u8> {
    seq![0x2fu8]
}

/// The bytes of `content-type`, the header fed from its dedicated variable.
pub open spec fn name_content_type() -> Seq<u8> {
    seq![0x63u8, 0x6f, 0x6e, 0x74, 0x65, 0x6e, 0x74, 0x2d, 0x74, 0x79, 0x70, 0x65]
}

/// The bytes of `content-length`, the header fed from its dedicated variable.
pub open spec fn name_content_length() -> Seq<u8> {
    seq![0x63u8, 0x6f, 0x6e, 0x74, 0x65, 0x6e, 0x74, 0x2d, 0x6c, 0x65, 0x6e, 0x67, 0x74, 0x68]
}

/// The `HTTP_` prefix as a byte vector.
pub fn http_prefix() -> (v: Vec<u8>)
    ensures
        v@ == var_http_prefix(),
{
    let v: Vec<u8> = vec![0x48, 0x54, 0x54, 0x50, 0x5f];
    proof {
        assert(v@ =~= var_http_prefix());
    }
    v
}

/// The `REQUEST_METHOD` variable name as a byte vector.
pub fn request_method_var() -> (v: Vec<u8>)
    ensures
        v@ == var_request_method(),
{
    let v: Vec<u8> = vec![
        0x52, 0x45, 0x51, 0x55, 0x45, 0x53, 0x54, 0x5f, 0x4d, 0x45, 0x54, 0x48, 0x4f, 0x44,
    ];
    proof {
        assert(v@ =~= var_request_method());
    }
    v
}

/// The `REQUEST_URI` variable name as a byte vector.
pub fn request_uri_var() -> (v: Vec<u8>)
    ensures
        v@ == var_request_uri(),
{
    let v: Vec<u8> = vec![0x52, 0x45, 0x51, 0x55, 0x45, 0x53, 0x54, 0x5f, 0x55, 0x52, 0x49];
    proof {
        assert(v@ =~= var_request_uri());
    }
    v
}

/// The `CONTENT_TYPE` variable name as a byte vector.
pub fn content_type_var() -> (v: Vec<u8>)
    ensures
        v@ == var_content_type(),
{
    let v: Vec<u8> = vec![0x43, 0x4f, 0x4e, 0x54, 0x45, 0x4e, 0x54, 0x5f, 0x54, 0x59, 0x50, 0x45];
    proof {
        assert(v@ =~= var_content_type());
    }
    v
}

/// The `CONTENT_LENGTH` variable name as a byte vector.
pub fn content_length_var() -> (v: Vec<u8>)
    ensures
        v@ == var_content_length(),
{
    let v: Vec<u8> = vec![
        0x43, 0x4f, 0x4e, 0x54, 0x45, 0x4e, 0x54, 0x5f, 0x4c, 0x45, 0x4e, 0x47, 0x54, 0x48,
    ];
    proof {
        assert(v@ =~= var_content_length());
    }
    v
}

// ---------------------------------------------------------------------------
// Byte-level helpers
// ---------------------------------------------------------------------------

/// Byte-for-byte equality of two slices.
pub fn bytes_eq(a: &[u8], b: &[u8]) -> (r: bool)
    ensures
        r == (a@ == b@),
{
    if a.len() != b.len() {
        proof {
            assert(a@.len() != b@.len());
        }
        return false;
    }
    let mut i: usize = 0;
    while i < a.len()
        invariant
            0 <= i <= a.len(),
            a.len() == b.len(),
            forall|j: int| 0 <= j < i ==> a@[j] == b@[j],
        decreases a.len() - i,
    {
        if a[i] != b[i] {
            return false;
        }
        i += 1;
    }
    proof {
        assert(a@ =~= b@);
    }
    true
}

// ---------------------------------------------------------------------------
// The variable set and name lookup
// ---------------------------------------------------------------------------

/// The environment variables of one request, in the order the protocol
/// delivered them: name/value pairs of raw bytes.
pub struct CgiVars {
    pub pairs: Vec<(Vec<u8>, Vec<u8>)>,
}

/// First-match lookup of a name in a variable list.
pub open spec fn lookup(vars: Seq<(Seq<u8>, Seq<u8>)>, name: Seq<u8>) -> Option<Seq<u8>>
    decreases vars.len(),
{
    if vars.len() == 0 {
        None
    } else if vars[0].0 == name {
        Some(vars[0].1)
    } else {
        lookup(vars.drop_first(), name)
    }
}

impl View for CgiVars {
    type V = Seq<(Seq<u8>, Seq<u8>)>;

    open spec fn view(&self) -> Seq<(Seq<u8>, Seq<u8>)> {
        self.pairs@.map_values(|p: (Vec<u8>, Vec<u8>)| (p.0@, p.1@))
    }
}

impl CgiVars {
    /// An empty variable set.
    pub fn new() -> (r: CgiVars)
        ensures
            r@ =~= Seq::<(Seq<u8>, Seq<u8>)>::empty(),
    {
        CgiVars { pairs: Vec::new() }
    }

    /// Append one name/value pair.
    pub fn push(&mut self, name: Vec<u8>, value: Vec<u8>)
        ensures
            final(self)@ =~= old(self)@.push((name@, value@)),
    {
        self.pairs.push((name, value));
    }

    /// Look a variable up by name; the first pair with that name wins.
    pub fn get_var(&self, name: &[u8]) -> (r: Option<&Vec<u8>>)
        ensures
            match r {
                Some(v) => lookup(self@, name@) == Some(v@),
                None => lookup(self@, name@) is None,
            },
    {
        let ghost whole = self@;
        proof {
            assert(whole.skip(0) =~= whole);
        }
        let mut i: usize = 0;
        while i < self.pairs.len()
            invariant
                0 <= i <= self.pairs.len(),
                whole == self@,
                whole.len() == self.pairs.len(),
                forall|j: int| 0 <= j < whole.len() ==> whole[j] == (self.pairs@[j].0@, self.pairs@[j].1@),
                lookup(whole, name@) == lookup(whole.skip(i as int), name@),
            decreases self.pairs.len() - i,
        {
            if bytes_eq(self.pairs[i].0.as_slice(), name) {
                proof {
                    assert(whole.skip(i as int)[0] == whole[i as int]);
                    assert(whole[i as int].0 == name@);
                }
                return Some(&self.pairs[i].1);
            }
            proof {
                assert(whole.skip(i as int)[0] == whole[i as int]);
                assert(whole.skip(i as int).drop_first() =~= whole.skip(i + 1));
            }
            i += 1;
        }
        proof {
            assert(whole.skip(i as int).len() == 0);
        }
        None
    }
}

// ---------------------------------------------------------------------------
// Header-name canonicalization and grammar
// ---------------------------------------------------------------------------

/// Undo the CGI encoding of one header-name byte: uppercase letters fold to
/// lowercase and `_` turns back into `-`.
pub open spec fn canon_byte(b: u8) -> u8 {
    if 0x41 <= b && b <= 0x5a {
        (b + 0x20) as u8
    } else if b == 0x5f {
        0x2d
    } else {
        b
    }
}

/// Canonical header name recovered from a variable-name remainder.
pub open spec fn canon_name(n: Seq<u8>) -> Seq<u8> {
    n.map_values(|b: u8| canon_byte(b))
}

/// A token byte as the HTTP grammar has it: the characters a header name or
/// a method may consist of.
pub open spec fn is_tchar(b: u8) -> bool {
    (0x30 <= b && b <= 0x39) || (0x41 <= b && b <= 0x5a) || (0x61 <= b && b <= 0x7a) || b == 0x21
        || b == 0x23 || b == 0x24 || b == 0x25 || b == 0x26 || b == 0x27 || b == 0x2a || b == 0x2b
        || b == 0x2d || b == 0x2e || b == 0x5e || b == 0x5f || b == 0x60 || b == 0x7c || b == 0x7e
}

/// A nonempty run of token bytes.
pub open spec fn valid_token(s: Seq<u8>) -> bool {
    s.len() > 0 && forall|i: int| 0 <= i < s.len() ==> is_tchar(s[i])
}

/// A byte a request target may carry: visible ASCII.
pub open spec fn is_uri_byte(b: u8) -> bool {
    0x21 <= b && b <= 0x7e
}

/// A nonempty request target of visible ASCII bytes.
pub open spec fn valid_uri(s: Seq<u8>) -> bool {
    s.len() > 0 && forall|i: int| 0 <= i < s.len() ==> is_uri_byte(s[i])
}

/// A byte a header value may carry: horizontal tab, space, or any byte above
/// space except delete.
pub open spec fn is_value_byte(b: u8) -> bool {
    b == 0x09 || (0x20 <= b && b != 0x7f)
}

/// A header value free of control bytes.
pub open spec fn valid_value(s: Seq<u8>) -> bool {
    forall|i: int| 0 <= i < s.len() ==> is_value_byte(s[i])
}

/// A structurally sound header pair.
pub open spec fn valid_header(h: (Seq<u8>, Seq<u8>)) -> bool {
    valid_token(h.0) && valid_value(h.1)
}

/// Whether a variable name starts with the header prefix.
pub open spec fn has_http_prefix(n: Seq<u8>) -> bool {
    n.len() >= 5 && n.take(5) == var_http_prefix()
}

/// The header a single variable contributes, if any: only a prefixed
/// variable yields one, namely its name behind the prefix, canonicalized,
/// with the value kept as it is.
pub open spec fn header_of_var(p: (Seq<u8>, Seq<u8>)) -> Option<(Seq<u8>, Seq<u8>)> {
    if has_http_prefix(p.0) {
        Some((canon_name(p.0.skip(5)), p.1))
    } else {
        None
    }
}

/// Exec mirror of [`is_tchar`].
pub fn byte_is_tchar(b: u8) -> (r: bool)
    ensures
        r == is_tchar(b),
{
    (0x30 <= b && b <= 0x39) || (0x41 <= b && b <= 0x5a) || (0x61 <= b && b <= 0x7a) || b == 0x21
        || b == 0x23 || b == 0x24 || b == 0x25 || b == 0x26 || b == 0x27 || b == 0x2a || b == 0x2b
        || b == 0x2d || b == 0x2e || b == 0x5e || b == 0x5f || b == 0x60 || b == 0x7c || b == 0x7e
}

/// Exec mirror of [`canon_byte`].
pub fn canon_byte_exec(b: u8) -> (r: u8)
    ensures
        r == canon_byte(b),
{
    if 0x41 <= b && b <= 0x5a {
        b + 0x20
    } else if b == 0x5f {
        0x2d
    } else {
        b
    }
}

/// Whether every byte of `s` is a token byte and `s` is nonempty.
pub fn check_token(s: &[u8]) -> (r: bool)
    ensures
        r == valid_token(s@),
{
    if s.len() == 0 {
        return false;
    }
    let mut i: usize = 0;
    while i < s.len()
        invariant
            0 <= i <= s.len(),
            forall|j: int| 0 <= j < i ==> is_tchar(s@[j]),
        decreases s.len() - i,
    {
        if !byte_is_tchar(s[i]) {
            return false;
        }
        i += 1;
    }
    true
}

/// Whether `s` is a nonempty run of visible ASCII bytes.
pub fn check_uri(s: &[u8]) -> (r: bool)
    ensures
        r == valid_uri(s@),
{
    if s.len() == 0 {
        return false;
    }
    let mut i: usize = 0;
    while i < s.len()
        invariant
            0 <= i <= s.len(),
            forall|j: int| 0 <= j < i ==> is_uri_byte(s@[j]),
        decreases s.len() - i,
    {
        let b = s[i];
        if !(0x21 <= b && b <= 0x7e) {
            return false;
        }
        i += 1;
    }
    true
}

/// Whether every byte of `s` may stand in a header value.
pub fn check_value(s: &[u8]) -> (r: bool)
    ensures
        r == valid_value(s@),
{
    let mut i: usize = 0;
    while i < s.len()
        invariant
            0 <= i <= s.len(),
            forall|j: int| 0 <= j < i ==> is_value_byte(s@[j]),
        decreases s.len() - i,
    {
        let b = s[i];
        if !(b == 0x09 || (0x20 <= b && b != 0x7f)) {
            return false;
        }
        i += 1;
    }
    true
}

/// Whether a variable name carries the `HTTP_` prefix.
pub fn check_http_prefix(name: &[u8]) -> (r: bool)
    ensures
        r == has_http_prefix(name@),
{
    if name.len() < 5 {
        return false;
    }
    let head = slice_subrange(name, 0, 5);
    let prefix = http_prefix();
    let r = bytes_eq(head, prefix.as_slice());
    proof {
        assert(head@ =~= name@.take(5));
    }
    r
}

/// Strip the first `start` bytes of `name` and canonicalize the remainder.
pub fn canon_suffix(name: &[u8], start: usize) -> (r: Vec<u8>)
    requires
        start <= name@.len(),
    ensures
        r@ == canon_name(name@.skip(start as int)),
{
    let mut out: Vec<u8> = Vec::new();
    let mut i: usize = start;
    while i < name.len()
        invariant
            start <= i <= name.len(),
            out@.len() == i - start,
            forall|j: int| 0 <= j < out@.len() ==> out@[j] == canon_byte(name@[start + j]),
        decreases name.len() - i,
    {
        out.push(canon_byte_exec(name[i]));
        i += 1;
    }
    proof {
        assert(out@ =~= canon_name(name@.skip(start as int)));
    }
    out
}

// ---------------------------------------------------------------------------
// The request head and its translation
// ---------------------------------------------------------------------------

/// View of a list of owned byte pairs.
pub open spec fn pairs_view(v: Seq<(Vec<u8>, Vec<u8>)>) -> Seq<(Seq<u8>, Seq<u8>)> {
    v.map_values(|p: (Vec<u8>, Vec<u8>)| (p.0@, p.1@))
}

/// The mathematical request head: method, target, and header pairs.
#[verifier::ext_equal]
pub ghost struct HeadView {
    pub method: Seq<u8>,
    pub uri: Seq<u8>,
    pub headers: Seq<(Seq<u8>, Seq<u8>)>,
}

/// The method named by the dedicated variable, or the fixed default.
pub open spec fn spec_method(vars: Seq<(Seq<u8>, Seq<u8>)>) -> Seq<u8> {
    match lookup(vars, var_request_method()) {
        Some(v) => v,
        None => default_method(),
    }
}

/// The target named by the dedicated variable, or the fixed default.
pub open spec fn spec_uri(vars: Seq<(Seq<u8>, Seq<u8>)>) -> Seq<u8> {
    match lookup(vars, var_request_uri()) {
        Some(v) => v,
        None => default_uri(),
    }
}

/// The content headers fed from their dedicated variables, type first.
pub open spec fn content_headers(vars: Seq<(Seq<u8>, Seq<u8>)>) -> Seq<(Seq<u8>, Seq<u8>)> {
    (match lookup(vars, var_content_type()) {
        Some(v) => seq![(name_content_type(), v)],
        None => Seq::<(Seq<u8>, Seq<u8>)>::empty(),
    }) + (match lookup(vars, var_content_length()) {
        Some(v) => seq![(name_content_length(), v)],
        None => Seq::<(Seq<u8>, Seq<u8>)>::empty(),
    })
}

/// The headers recovered from the prefixed variables, in delivery order.
pub open spec fn prefixed_headers(vars: Seq<(Seq<u8>, Seq<u8>)>) -> Seq<(Seq<u8>, Seq<u8>)> {
    vars.filter_map(|p: (Seq<u8>, Seq<u8>)| header_of_var(p))
}

/// What translation yields on a variable set: the whole head.
pub open spec fn spec_translate(vars: Seq<(Seq<u8>, Seq<u8>)>) -> HeadView {
    HeadView {
        method: spec_method(vars),
        uri: spec_uri(vars),
        headers: content_headers(vars) + prefixed_headers(vars),
    }
}

/// Structural soundness of a head: token method, visible-ASCII target, and
/// every header well formed.
pub open spec fn valid_head(h: HeadView) -> bool {
    valid_token(h.method) && valid_uri(h.uri) && (forall|i: int|
        0 <= i < h.headers.len() ==> valid_header(#[trigger] h.headers[i]))
}

/// The executable request head handed onward to the application side.
pub struct RequestHead {
    pub method: Vec<u8>,
    pub uri: Vec<u8>,
    pub headers: Vec<(Vec<u8>, Vec<u8>)>,
}

impl View for RequestHead {
    type V = HeadView;

    open spec fn view(&self) -> HeadView {
        HeadView { method: self.method@, uri: self.uri@, headers: pairs_view(self.headers@) }
    }
}

/// Why a request head could not be built.
#[derive(Clone, Copy, Debug, PartialEq, Eq, Structural)]
pub enum TranslateError {
    /// Some byte of the method, the target, or a header was illegal for its
    /// construct. A per-request failure: the connection stays usable.
    MalformedRequest,
}

/// A variable that maps to a header contributes it to the translated head.
pub proof fn lemma_prefixed_contains(vars: Seq<(Seq<u8>, Seq<u8>)>, i: int)
    requires
        0 <= i < vars.len(),
        header_of_var(vars[i]) is Some,
    ensures
        prefixed_headers(vars).contains(header_of_var(vars[i]).unwrap()),
    decreases vars.len(),
{
    let f = |p: (Seq<u8>, Seq<u8>)| header_of_var(p);
    let x = header_of_var(vars[i]).unwrap();
    if i == vars.len() - 1 {
        assert(vars.last() == vars[i]);
        assert(vars.filter_map(f) == vars.drop_last().filter_map(f) + seq![x]);
        let n = vars.filter_map(f).len();
        assert(vars.filter_map(f)[n - 1] == x);
    } else {
        let rest = vars.drop_last();
        assert(rest[i] == vars[i]);
        lemma_prefixed_contains(rest, i);
        let k = choose|k: int| 0 <= k < rest.filter_map(f).len() && rest.filter_map(f)[k] == x;
        assert(vars.filter_map(f)[k] == x);
    }
}

/// Build the request head from a variable set.
///
/// Succeeds exactly when the translated head is structurally sound, and then
/// returns exactly that head; otherwise reports the request as malformed.
pub fn translate(vars: &CgiVars) -> (r: Result<RequestHead, TranslateError>)
    ensures
        r is Ok <==> valid_head(spec_translate(vars@)),
        r matches Ok(h) ==> h@ == spec_translate(vars@),
        r is Err ==> r == Err::<RequestHead, TranslateError>(TranslateError::MalformedRequest),
{
    let ghost sv = spec_translate(vars@);
    // Method: dedicated variable or the fixed default.
    let mname = request_method_var();
    let method: Vec<u8> = match vars.get_var(mname.as_slice()) {
        Some(v) => slice_to_vec(v.as_slice()),
        None => {
            let d: Vec<u8> = vec![0x47, 0x45, 0x54];
            proof {
                assert(d@ =~= default_method());
            }
            d
        },
    };
    proof {
        assert(method@ == sv.method);
    }
    if !check_token(method.as_slice()) {
        return Err(TranslateError::MalformedRequest);
    }
    // Target: dedicated variable or the fixed default.
    let uname = request_uri_var();
    let uri: Vec<u8> = match vars.get_var(uname.as_slice()) {
        Some(v) => slice_to_vec(v.as_slice()),
        None => {
            let d: Vec<u8> = vec![0x2f];
            proof {
                assert(d@ =~= default_uri());
            }
            d
        },
    };
    proof {
        assert(uri@ == sv.uri);
    }
    if !check_uri(uri.as_slice()) {
        return Err(TranslateError::MalformedRequest);
    }

    let mut headers: Vec<(Vec<u8>, Vec<u8>)> = Vec::new();
    // Content headers from their dedicated variables.
    let ctname = content_type_var();
    match vars.get_var(ctname.as_slice()) {
        Some(v) => {
            let hn: Vec<u8> = vec![
                0x63, 0x6f, 0x6e, 0x74, 0x65, 0x6e, 0x74, 0x2d, 0x74, 0x79, 0x70, 0x65,
            ];
            proof {
                assert(hn@ =~= name_content_type());
                assert(content_headers(vars@)[0] == (name_content_type(), v@));
                assert(sv.headers[0] == (name_content_type(), v@));
            }
            if !check_token(hn.as_slice()) {
                return Err(TranslateError::MalformedRequest);
            }
            if !check_value(v.as_slice()) {
                return Err(TranslateError::MalformedRequest);
            }
            headers.push((hn, slice_to_vec(v.as_slice())));
        },
        None => {},
    }
    let clname = content_length_var();
    match vars.get_var(clname.as_slice()) {
        Some(v) => {
            let hn: Vec<u8> = vec![
                0x63, 0x6f, 0x6e, 0x74, 0x65, 0x6e, 0x74, 0x2d, 0x6c, 0x65, 0x6e, 0x67, 0x74, 0x68,
            ];
            proof {
                assert(hn@ =~= name_content_length());
                let at = content_headers(vars@).len() - 1;
                assert(content_headers(vars@)[at] == (name_content_length(), v@));
                assert(sv.headers[at] == (name_content_length(), v@));
            }
            if !check_token(hn.as_slice()) {
                return Err(TranslateError::MalformedRequest);
            }
            if !check_value(v.as_slice()) {
                return Err(TranslateError::MalformedRequest);
            }
            headers.push((hn, slice_to_vec(v.as_slice())));
        },
        None => {},
    }
    proof {
        assert(pairs_view(headers@) =~= content_headers(vars@));
    }

    // Every prefixed variable becomes one header, in delivery order.
    let ghost f = |p: (Seq<u8>, Seq<u8>)| header_of_var(p);
    proof {
        assert(vars@.take(0).filter_map(f) =~= Seq::<(Seq<u8>, Seq<u8>)>::empty());
        assert(pairs_view(headers@) =~= content_headers(vars@) + vars@.take(0).filter_map(f));
    }
    let mut i: usize = 0;
    while i < vars.pairs.len()
        invariant
            0 <= i <= vars.pairs.len(),
            vars@.len() == vars.pairs.len(),
            forall|j: int|
                0 <= j < vars@.len() ==> vars@[j] == (
                    vars.pairs@[j].0@,
                    vars.pairs@[j].1@,
                ),
            sv == spec_translate(vars@),
            f == (|p: (Seq<u8>, Seq<u8>)| header_of_var(p)),
            pairs_view(headers@) == content_headers(vars@) + vars@.take(i as int).filter_map(f),
            forall|j: int|
                0 <= j < pairs_view(headers@).len() ==> valid_header(
                    #[trigger] pairs_view(headers@)[j],
                ),
        decreases vars.pairs.len() - i,
    {
        let name = &vars.pairs[i].0;
        if check_http_prefix(name.as_slice()) {
            let hname = canon_suffix(name.as_slice(), 5);
            let ghost hdr = (hname@, vars@[i as int].1);
            proof {
                assert(header_of_var(vars@[i as int]) == Some(hdr));
                lemma_prefixed_contains(vars@, i as int);
                let k = choose|k: int|
                    0 <= k < prefixed_headers(vars@).len() && prefixed_headers(vars@)[k] == hdr;
                assert(sv.headers[content_headers(vars@).len() + k] == hdr);
            }
            if !check_token(hname.as_slice()) {
                return Err(TranslateError::MalformedRequest);
            }
            let val = &vars.pairs[i].1;
            if !check_value(val.as_slice()) {
                return Err(TranslateError::MalformedRequest);
            }
            let vval = slice_to_vec(val.as_slice());
            let ghost hv = hname@;
            let ghost vv = vval@;
            let ghost prev = headers@;
            headers.push((hname, vval));
            proof {
                assert(headers@.last().0@ == hv);
                assert(headers@.last().1@ == vv);
                assert(header_of_var(vars@[i as int]) == Some((hv, vv)));
                vars@.lemma_filter_map_take_succ(f, i as int);
                assert(vars@.take(i as int + 1).filter_map(f) =~= vars@.take(
                    i as int,
                ).filter_map(f) + seq![(hv, vv)]);
                assert(pairs_view(headers@).len() == prev.len() + 1);
                assert(pairs_view(headers@)[prev.len() as int] == (hv, vv));
                assert forall|j: int| 0 <= j < prev.len() implies #[trigger] pairs_view(
                    headers@,
                )[j] == pairs_view(prev)[j] by {
                    assert(headers@[j] == prev[j]);
                }
                assert(pairs_view(headers@) =~= content_headers(vars@) + vars@.take(
                    i as int + 1,
                ).filter_map(f));
                assert(valid_header((hv, vv)));
                assert forall|j: int|
                    0 <= j < pairs_view(headers@).len() implies valid_header(
                    #[trigger] pairs_view(headers@)[j],
                ) by {
                    if j < prev.len() {
                        assert(pairs_view(prev)[j] == pairs_view(headers@)[j]);
                    } else {
                        assert(pairs_view(headers@)[j] == (hv, vv));
                    }
                }
            }
        } else {
            proof {
                assert(header_of_var(vars@[i as int]) is None);
                vars@.lemma_filter_map_take_succ(f, i as int);
                assert(pairs_view(headers@) =~= content_headers(vars@) + vars@.take(
                    i as int + 1,
                ).filter_map(f));
            }
        }
        i += 1;
    }
    proof {
        assert(vars@.take(vars@.len() as int) =~= vars@);
        assert(pairs_view(headers@) == sv.headers);
    }
    let head = RequestHead { method, uri, headers };
    proof {
        assert(head@ =~= sv);
    }
    Ok(head)
}

/// Whether some prefixed variable of `vars` is the source of header `h`.
pub open spec fn sourced_from_prefixed(vars: Seq<(Seq<u8>, Seq<u8>)>, h: (Seq<u8>, Seq<u8>)) -> bool {
    exists|p: (Seq<u8>, Seq<u8>)| #[trigger] vars.contains(p) && header_of_var(p) == Some(h)
}

/// Law: translation sources the method and the target from their dedicated
/// variables (with the fixed defaults when absent), the content headers from
/// their own dedicated variables, and every remaining header exactly from
/// the prefixed variables with the prefix stripped and the name
/// canonicalized; a variable without the prefix never becomes one of those
/// headers.
pub proof fn lemma_header_sourcing(vars: Seq<(Seq<u8>, Seq<u8>)>)
    ensures
        spec_translate(vars).method == spec_method(vars),
        spec_translate(vars).uri == spec_uri(vars),
        spec_translate(vars).headers == content_headers(vars) + prefixed_headers(vars),
        forall|j: int|
            0 <= j < prefixed_headers(vars).len() ==> sourced_from_prefixed(
                vars,
                #[trigger] prefixed_headers(vars)[j],
            ),
        forall|i: int|
            0 <= i < vars.len() && (#[trigger] header_of_var(vars[i])) is Some
                ==> prefixed_headers(vars).contains(header_of_var(vars[i]).unwrap()),
{
    let f = |p: (Seq<u8>, Seq<u8>)| header_of_var(p);
    assert forall|j: int| 0 <= j < prefixed_headers(vars).len() implies sourced_from_prefixed(
        vars,
        #[trigger] prefixed_headers(vars)[j],
    ) by {
        let elt = prefixed_headers(vars)[j];
        assert(prefixed_headers(vars).contains(elt));
        vars.lemma_filter_map_contains(f, elt);
    }
    assert forall|i: int|
        0 <= i < vars.len() && (#[trigger] header_of_var(vars[i])) is Some implies prefixed_headers(
        vars,
    ).contains(header_of_var(vars[i]).unwrap()) by {
        lemma_prefixed_contains(vars, i);
    }
}

} // verus!
