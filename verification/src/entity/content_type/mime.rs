use vstd::prelude::*;
use vstd::string::StringSliceAdditionalSpecFns;
use vstd::utf8::encode_utf8;

use crate::entity::content_type::error::Error;

verus! {

pub const SLASH: u8 = 0x2f;

pub const SEMICOLON: u8 = 0x3b;

pub const EQUALS: u8 = 0x3d;

pub const SPACE: u8 = 0x20;

pub const QUOTE: u8 = 0x22;

/// A type (or subtype) token byte: an ASCII letter or digit, or one of `!#$&-^_.+`.
pub open spec fn type_token(b: u8) -> bool {
    ||| 0x61 <= b <= 0x7a  // a-z
    ||| 0x41 <= b <= 0x5a  // A-Z
    ||| 0x30 <= b <= 0x39  // 0-9
    ||| b == 0x21  // !
    ||| b == 0x23  // #
    ||| b == 0x24  // $
    ||| b == 0x26  // &
    ||| b == 0x2d  // -
    ||| b == 0x5e  // ^
    ||| b == 0x5f  // _
    ||| b == 0x2e  // .
    ||| b == 0x2b  // +
}

/// A parameter token byte: an ASCII letter or digit, or one of ``!#$%&'*+-.^_`|~``.
pub open spec fn parameter_token(b: u8) -> bool {
    ||| 0x61 <= b <= 0x7a  // a-z
    ||| 0x41 <= b <= 0x5a  // A-Z
    ||| 0x30 <= b <= 0x39  // 0-9
    ||| b == 0x21  // !
    ||| b == 0x23  // #
    ||| b == 0x24  // $
    ||| b == 0x25  // %
    ||| b == 0x26  // &
    ||| b == 0x27  // '
    ||| b == 0x2a  // *
    ||| b == 0x2b  // +
    ||| b == 0x2d  // -
    ||| b == 0x2e  // .
    ||| b == 0x5e  // ^
    ||| b == 0x5f  // _
    ||| b == 0x60  // `
    ||| b == 0x7c  // |
    ||| b == 0x7e  // ~
}

/// The bytes at which a scan of the source stops.
pub enum Stop {
    Slash,
    Semicolon,
    NotSpace,
    NotTypeToken,
    NotParameterToken,
}

pub open spec fn stops_at(stop: Stop, b: u8) -> bool {
    match stop {
        Stop::Slash => b == SLASH,
        Stop::Semicolon => b == SEMICOLON,
        Stop::NotSpace => b != SPACE,
        Stop::NotTypeToken => !type_token(b),
        Stop::NotParameterToken => !parameter_token(b),
    }
}

/// The first index at or after `i` whose byte stops the scan, or the length of `s`.
pub open spec fn first_from(s: Seq<u8>, i: int, stop: Stop) -> int
    decreases s.len() - i,
{
    if i >= s.len() {
        s.len() as int
    } else if stops_at(stop, s[i]) {
        i
    } else {
        first_from(s, i + 1, stop)
    }
}

/// The number of quotes in `s[v..e]`.
pub open spec fn quote_count(s: Seq<u8>, v: int, e: int) -> int
    decreases e - v,
{
    if e <= v {
        0
    } else {
        quote_count(s, v, e - 1) + if s[e - 1] == QUOTE {
            1int
        } else {
            0int
        }
    }
}

/// A parameter value `s[v..e]` is accepted when it is not empty, every byte is a
/// parameter token or a quote, and the quotes (counting an opening quote before
/// `v`, if there is one) are at most two.
pub open spec fn value_ok(s: Seq<u8>, v: int, e: int, opened: bool) -> bool {
    &&& v < e
    &&& forall|j: int| v <= j < e ==> parameter_token(#[trigger] s[j]) || s[j] == QUOTE
    &&& (if opened {
        1int
    } else {
        0int
    }) + quote_count(s, v, e) <= 2
}

/// What validation gives for the parameters that start at `i` (at a `;`, or at the
/// end). A parameter with an empty key (the source ends after `;` and spaces) has
/// no assignment; one with an empty value (the source ends after `=`) has an
/// invalid value.
pub open spec fn params_outcome(s: Seq<u8>, i: int) -> Result<(), Error>
    decreases s.len() - i,
{
    if i < 0 || i >= s.len() {
        Ok(())
    } else if s[i] != SEMICOLON {
        Err(Error::MissingParameterSeparator)
    } else {
        let k = first_from(s, i + 1, Stop::NotSpace);
        let q = first_from(s, k, Stop::NotParameterToken);
        if q < s.len() && s[q] != EQUALS {
            Err(Error::InvalidParameterKey)
        } else if q == k || q >= s.len() {
            Err(Error::MissingParameterAssignment)
        } else {
            let opened = q + 1 < s.len() && s[q + 1] == QUOTE;
            let v = if opened {
                q + 2
            } else {
                q + 1
            };
            let e = first_from(s, v, Stop::Semicolon);
            if !value_ok(s, v, e, opened) {
                Err(Error::InvalidParameterValue)
            } else {
                proof {
                    lemma_first_from(s, i + 1, Stop::NotSpace);
                    lemma_first_from(s, k, Stop::NotParameterToken);
                    lemma_first_from(s, v, Stop::Semicolon);
                }
                params_outcome(s, e)
            }
        }
    }
}

/// What validation of a MIME source `s` (its bytes) gives: `Ok(())` where the
/// source is accepted, and `Err(e)` where it is refused with `e`.
pub open spec fn mime_outcome(s: Seq<u8>) -> Result<(), Error> {
    let sep = first_from(s, 0, Stop::Slash);
    if sep == s.len() {
        Err(Error::MissingTypeSeparator)
    } else if sep == 0 {
        Err(Error::MissingType)
    } else if exists|j: int| 0 <= j < sep && !type_token(#[trigger] s[j]) {
        Err(Error::InvalidTypeChar)
    } else {
        let end = first_from(s, sep + 1, Stop::Semicolon);
        let bad = first_from(s, sep + 1, Stop::NotTypeToken);
        if end == sep + 1 {
            Err(Error::MissingSubtype)
        } else if bad < end {
            if s[bad] == EQUALS {
                Err(Error::MissingParameterSeparator)
            } else {
                Err(Error::InvalidSubtypeChar)
            }
        } else {
            params_outcome(s, end)
        }
    }
}

/// `first_from` lands in `[i, len]`, passes only bytes that do not stop it,
/// and stops on a byte that stops it unless it reaches the end.
pub proof fn lemma_first_from(s: Seq<u8>, i: int, stop: Stop)
    requires
        0 <= i <= s.len(),
    ensures
        i <= first_from(s, i, stop) <= s.len(),
        forall|j: int| i <= j < first_from(s, i, stop) ==> !stops_at(stop, #[trigger] s[j]),
        first_from(s, i, stop) < s.len() ==> stops_at(stop, s[first_from(s, i, stop)]),
    decreases s.len() - i,
{
    if i < s.len() && !stops_at(stop, s[i]) {
        lemma_first_from(s, i + 1, stop);
    }
}

/// An index `k` at or after `i` with no stopping byte in `[i, k)` and a stopping
/// byte (or the end) at `k` is what `first_from` gives.
pub proof fn lemma_first_from_is(s: Seq<u8>, i: int, k: int, stop: Stop)
    requires
        0 <= i <= k <= s.len(),
        forall|j: int| i <= j < k ==> !stops_at(stop, #[trigger] s[j]),
        k == s.len() || stops_at(stop, s[k]),
    ensures
        first_from(s, i, stop) == k,
    decreases k - i,
{
    if i < k {
        assert(!stops_at(stop, s[i]));
        lemma_first_from_is(s, i + 1, k, stop);
    }
}

proof fn lemma_quote_count_mono(s: Seq<u8>, v: int, a: int, b: int)
    requires
        v <= a <= b,
    ensures
        quote_count(s, v, a) <= quote_count(s, v, b),
    decreases b - a,
{
    if a < b {
        lemma_quote_count_mono(s, v, a, b - 1);
    }
}

/// A source that validation accepts has a non-empty type made of type tokens, a
/// `/`, and a non-empty subtype made of type tokens that runs up to the first `;`
/// or the end.
pub proof fn law_accepted_mime_has_type_and_subtype(s: Seq<u8>)
    requires
        mime_outcome(s) == Ok::<(), Error>(()),
    ensures
        exists|sep: int, end: int|
            {
                &&& 0 < sep
                &&& sep + 1 < end <= s.len()
                &&& s[sep] == SLASH
                &&& forall|j: int| 0 <= j < sep ==> type_token(#[trigger] s[j])
                &&& forall|j: int| sep < j < end ==> type_token(#[trigger] s[j])
                &&& end == s.len() || s[end] == SEMICOLON
            },
{
    lemma_first_from(s, 0, Stop::Slash);
    let sep = first_from(s, 0, Stop::Slash);
    lemma_first_from(s, sep + 1, Stop::Semicolon);
    lemma_first_from(s, sep + 1, Stop::NotTypeToken);
    let end = first_from(s, sep + 1, Stop::Semicolon);
    let bad = first_from(s, sep + 1, Stop::NotTypeToken);
    if bad > end {
        assert(!stops_at(Stop::NotTypeToken, s[end]));
    }
    assert(forall|j: int| sep < j < end ==> type_token(#[trigger] s[j]));
}

/// A character that RFC 6838 allows in a restricted name (a type or a subtype):
/// `ALPHA / DIGIT / "!" / "#" / "$" / "&" / "-" / "^" / "_" / "." / "+"`.
pub open spec fn restricted_name_char(b: u8) -> bool {
    ||| (0x61 <= b && b <= 0x7a)  // ALPHA, lower case
    ||| (0x41 <= b && b <= 0x5a)  // ALPHA, upper case
    ||| (0x30 <= b && b <= 0x39)  // DIGIT
    ||| b == 0x21 || b == 0x23 || b == 0x24 || b == 0x26 || b == 0x2d  // ! # $ & -
    ||| b == 0x5e || b == 0x5f || b == 0x2e || b == 0x2b  // ^ _ . +
}

/// A type and a subtype, both non-empty and made of RFC 6838 restricted-name
/// characters, joined by `/`, with no parameters, form a source that validation
/// accepts (for instance `application/ld+json` or `image/svg+xml`).
pub proof fn law_restricted_names_are_accepted(t: Seq<u8>, st: Seq<u8>)
    requires
        t.len() > 0,
        st.len() > 0,
        forall|i: int| 0 <= i < t.len() ==> restricted_name_char(#[trigger] t[i]),
        forall|i: int| 0 <= i < st.len() ==> restricted_name_char(#[trigger] st[i]),
    ensures
        mime_outcome(t + seq![SLASH] + st) == Ok::<(), Error>(()),
{
    let x = t + seq![SLASH] + st;
    let n = t.len() as int;
    assert forall|j: int| 0 <= j < n implies !stops_at(Stop::Slash, #[trigger] x[j]) by {
        assert(x[j] == t[j]);
        assert(restricted_name_char(t[j]));
    }
    assert(x[n] == SLASH);
    lemma_first_from_is(x, 0, n, Stop::Slash);
    assert forall|j: int| 0 <= j < n implies type_token(#[trigger] x[j]) by {
        assert(x[j] == t[j]);
        assert(restricted_name_char(t[j]));
    }
    assert forall|j: int| n + 1 <= j < x.len() implies !stops_at(Stop::Semicolon, #[trigger] x[j])
        && !stops_at(Stop::NotTypeToken, x[j]) by {
        assert(x[j] == st[j - n - 1]);
        assert(restricted_name_char(st[j - n - 1]));
    }
    lemma_first_from_is(x, n + 1, x.len() as int, Stop::Semicolon);
    lemma_first_from_is(x, n + 1, x.len() as int, Stop::NotTypeToken);
}

/// A type that holds a character outside the RFC 6838 restricted-name
/// characters (and no `/`) is refused with `InvalidTypeChar`, whatever follows.
pub proof fn law_other_type_chars_are_refused(t: Seq<u8>, rest: Seq<u8>, j: int)
    requires
        forall|i: int| 0 <= i < t.len() ==> #[trigger] t[i] != SLASH,
        0 <= j < t.len(),
        !restricted_name_char(t[j]),
    ensures
        mime_outcome(t + seq![SLASH] + rest) == Err::<(), Error>(Error::InvalidTypeChar),
{
    let x = t + seq![SLASH] + rest;
    let n = t.len() as int;
    assert forall|i: int| 0 <= i < n implies !stops_at(Stop::Slash, #[trigger] x[i]) by {
        assert(x[i] == t[i]);
    }
    assert(x[n] == SLASH);
    lemma_first_from_is(x, 0, n, Stop::Slash);
    assert(x[j] == t[j]);
    assert(!type_token(x[j]));
}

/// A character of an RFC 7230 token (`tchar`): `"!" / "#" / "$" / "%" / "&" /
/// "'" / "*" / "+" / "-" / "." / "^" / "_" / "`" / "|" / "~" / DIGIT / ALPHA`.
pub open spec fn tchar(b: u8) -> bool {
    ||| (0x61 <= b && b <= 0x7a)  // ALPHA, lower case
    ||| (0x41 <= b && b <= 0x5a)  // ALPHA, upper case
    ||| (0x30 <= b && b <= 0x39)  // DIGIT
    ||| b == 0x21 || b == 0x23 || b == 0x24 || b == 0x25 || b == 0x26  // ! # $ % &
    ||| b == 0x27 || b == 0x2a || b == 0x2b || b == 0x2d || b == 0x2e  // ' * + - .
    ||| b == 0x5e || b == 0x5f || b == 0x60 || b == 0x7c || b == 0x7e  // ^ _ ` | ~
}

proof fn lemma_no_quotes(x: Seq<u8>, v: int, e: int)
    requires
        0 <= v <= e <= x.len(),
        forall|i: int| v <= i < e ==> #[trigger] x[i] != QUOTE,
    ensures
        quote_count(x, v, e) == 0,
    decreases e - v,
{
    if v < e {
        lemma_no_quotes(x, v, e - 1);
    }
}

/// A type and a subtype of RFC 6838 restricted-name characters with one parameter
/// `key=value`, both of RFC 7230 token characters, form a source that validation
/// accepts (for instance `application/json;charset=utf-8`).
pub proof fn law_token_parameter_is_accepted(t: Seq<u8>, st: Seq<u8>, k: Seq<u8>, v: Seq<u8>)
    requires
        t.len() > 0,
        st.len() > 0,
        k.len() > 0,
        v.len() > 0,
        forall|i: int| 0 <= i < t.len() ==> restricted_name_char(#[trigger] t[i]),
        forall|i: int| 0 <= i < st.len() ==> restricted_name_char(#[trigger] st[i]),
        forall|i: int| 0 <= i < k.len() ==> tchar(#[trigger] k[i]),
        forall|i: int| 0 <= i < v.len() ==> tchar(#[trigger] v[i]),
    ensures
        mime_outcome(t + seq![SLASH] + st + seq![SEMICOLON] + k + seq![EQUALS] + v) == Ok::<
            (),
            Error,
        >(()),
{
    let x = t + seq![SLASH] + st + seq![SEMICOLON] + k + seq![EQUALS] + v;
    let n = t.len() as int;
    let end = n + 1 + st.len();
    let q = end + 1 + k.len();
    let len = x.len() as int;
    assert(len == q + 1 + v.len());
    assert forall|i: int| 0 <= i < n implies !stops_at(Stop::Slash, #[trigger] x[i]) && type_token(
        x[i],
    ) by {
        assert(x[i] == t[i]);
        assert(restricted_name_char(t[i]));
    }
    assert(x[n] == SLASH);
    lemma_first_from_is(x, 0, n, Stop::Slash);
    assert forall|i: int| n + 1 <= i < end implies !stops_at(Stop::Semicolon, #[trigger] x[i])
        && !stops_at(Stop::NotTypeToken, x[i]) by {
        assert(x[i] == st[i - n - 1]);
        assert(restricted_name_char(st[i - n - 1]));
    }
    assert(x[end] == SEMICOLON);
    lemma_first_from_is(x, n + 1, end, Stop::Semicolon);
    lemma_first_from_is(x, n + 1, end, Stop::NotTypeToken);
    // The parameter.
    assert(x[end + 1] == k[0]);
    assert(tchar(k[0]));
    lemma_first_from_is(x, end + 1, end + 1, Stop::NotSpace);
    assert forall|i: int| end + 1 <= i < q implies !stops_at(Stop::NotParameterToken, #[trigger] x[i]) by {
        assert(x[i] == k[i - end - 1]);
        assert(tchar(k[i - end - 1]));
    }
    assert(x[q] == EQUALS);
    lemma_first_from_is(x, end + 1, q, Stop::NotParameterToken);
    assert(x[q + 1] == v[0]);
    assert(tchar(v[0]));
    assert forall|i: int| q + 1 <= i < len implies !stops_at(Stop::Semicolon, #[trigger] x[i])
        && parameter_token(x[i]) && x[i] != QUOTE by {
        assert(x[i] == v[i - q - 1]);
        assert(tchar(v[i - q - 1]));
    }
    lemma_first_from_is(x, q + 1, len, Stop::Semicolon);
    lemma_no_quotes(x, q + 1, len);
    assert(value_ok(x, q + 1, len, false));
    assert(params_outcome(x, len) == Ok::<(), Error>(()));
    assert(params_outcome(x, end) == params_outcome(x, len));
}

/// A MIME type string whose validity was checked when it was made.
#[derive(Debug, Clone)]
pub struct Mime(String);

impl Mime {
    /// The source of a `Mime` is always accepted by validation.
    pub closed spec fn wf(&self) -> bool {
        mime_outcome(encode_utf8(self.0@)) == Ok::<(), Error>(())
    }

    /// The source as a sequence of characters.
    pub closed spec fn view_source(&self) -> Seq<char> {
        self.0@
    }

    /// Make a `Mime` from a source that validation accepts.
    pub fn new(source: &str) -> (m: Mime)
        requires
            mime_outcome(source.spec_bytes()) == Ok::<(), Error>(()),
        ensures
            m.wf(),
            m.view_source() == source@,
    {
        let s = source.to_owned();
        proof {
            assert(encode_utf8(s@) == source.spec_bytes());
        }
        Mime(s)
    }

    /// A reference to the underlying source.
    pub fn source(&self) -> (r: &str)
        ensures
            r@ == self.view_source(),
    {
        self.0.as_str()
    }

    /// The underlying source, taken out of the `Mime`.
    pub fn into_source(self) -> (r: String)
        ensures
            r@ == self.view_source(),
    {
        self.0
    }

    /// Validate a source according to the RFC 2045 and RFC 7231 MIME grammar.
    pub fn validate_source(source: &str) -> (r: Result<(), Error>)
        ensures
            r == mime_outcome(source.spec_bytes()),
    {
        let bytes = source.as_bytes();
        let ghost s = bytes@;
        let len = bytes.len();
        proof {
            lemma_first_from(s, 0, Stop::Slash);
        }
        // The type-subtype separator comes first, before validating the type.
        let mut type_sep_index: usize = 0;
        let mut contains_invalid_char = false;
        while type_sep_index < len && bytes[type_sep_index] != SLASH
            invariant
                len == s.len(),
                s == bytes@,
                type_sep_index <= first_from(s, 0, Stop::Slash),
                first_from(s, 0, Stop::Slash) <= len,
                forall|j: int| 0 <= j < first_from(s, 0, Stop::Slash) ==> #[trigger] s[j] != SLASH,
                first_from(s, 0, Stop::Slash) < len ==> s[first_from(s, 0, Stop::Slash)] == SLASH,
                contains_invalid_char <==> exists|j: int|
                    0 <= j < type_sep_index && !type_token(#[trigger] s[j]),
            decreases len - type_sep_index,
        {
            if !Self::is_type_token(bytes[type_sep_index]) {
                contains_invalid_char = true;
            }
            proof {
                if contains_invalid_char {
                    if !type_token(s[type_sep_index as int]) {
                        assert(0 <= type_sep_index < type_sep_index + 1);
                    }
                }
            }
            type_sep_index += 1;
        }
        let ghost sep = first_from(s, 0, Stop::Slash);
        assert(type_sep_index == sep);
        if type_sep_index == len {
            return Err(Error::MissingTypeSeparator);
        }
        if type_sep_index == 0 {
            return Err(Error::MissingType);
        }
        if contains_invalid_char {
            return Err(Error::InvalidTypeChar);
        }
        // The subtype runs up to the first `;`.

        let ghost end = first_from(s, sep + 1, Stop::Semicolon);
        let ghost bad = first_from(s, sep + 1, Stop::NotTypeToken);
        proof {
            lemma_first_from(s, sep + 1, Stop::Semicolon);
            lemma_first_from(s, sep + 1, Stop::NotTypeToken);
            if bad > end {
                assert(!stops_at(Stop::NotTypeToken, s[end]));
            }
        }
        let mut subtype_start: usize = type_sep_index + 1;
        let mut err: Result<(), Error> = Ok(());
        while subtype_start < len && bytes[subtype_start] != SEMICOLON
            invariant
                len == s.len(),
                s == bytes@,
                sep < len,
                sep == type_sep_index,
                end == first_from(s, sep + 1, Stop::Semicolon),
                bad == first_from(s, sep + 1, Stop::NotTypeToken),
                sep + 1 <= end <= len,
                bad <= end,
                forall|j: int| sep + 1 <= j < end ==> #[trigger] s[j] != SEMICOLON,
                end < len ==> s[end] == SEMICOLON,
                forall|j: int| sep + 1 <= j < bad ==> type_token(#[trigger] s[j]),
                bad < len ==> !type_token(s[bad]),
                sep + 1 <= subtype_start <= end,
                err is Ok <==> subtype_start <= bad,
                err is Err ==> err == (if s[bad] == EQUALS {
                    Err::<(), Error>(Error::MissingParameterSeparator)
                } else {
                    Err::<(), Error>(Error::InvalidSubtypeChar)
                }),
            decreases len - subtype_start,
        {
            let byte = bytes[subtype_start];
            if !Self::is_subtype_token(byte) && err.is_ok() {
                if byte == EQUALS {
                    // More than likely a typo or a missing semicolon.
                    err = Err(Error::MissingParameterSeparator);
                } else {
                    err = Err(Error::InvalidSubtypeChar);
                }
            }
            subtype_start += 1;
        }
        assert(subtype_start == end);
        if subtype_start == type_sep_index + 1 {
            return Err(Error::MissingSubtype);
        }
        if err.is_err() {
            return err;
        }
        assert(mime_outcome(s) == params_outcome(s, end));
        // The parameters.
        let mut param_index = subtype_start;
        while param_index < len
            invariant
                len == s.len(),
                s == bytes@,
                param_index <= len,
                s == source.spec_bytes(),
                mime_outcome(s) == params_outcome(s, param_index as int),
            decreases len - param_index,
        {
            let ghost i = param_index as int;
            // The parameter separator.
            if bytes[param_index] != SEMICOLON {
                return Err(Error::MissingParameterSeparator);
            }
            let ghost k = first_from(s, i + 1, Stop::NotSpace);
            proof {
                lemma_first_from(s, i + 1, Stop::NotSpace);
            }
            param_index += 1;
            while param_index < len && bytes[param_index] == SPACE
                invariant
                    len == s.len(),
                    s == bytes@,
                    i + 1 <= param_index <= k <= len,
                    forall|j: int| i + 1 <= j < k ==> #[trigger] s[j] == SPACE,
                    k < len ==> s[k] != SPACE,
                decreases k - param_index,
            {
                param_index += 1;
            }
            assert(param_index == k);
            // The parameter key.
            let key_start = param_index;
            let ghost q = first_from(s, k, Stop::NotParameterToken);
            proof {
                lemma_first_from(s, k, Stop::NotParameterToken);
            }
            while param_index < len && bytes[param_index] != EQUALS
                invariant
                    len == s.len(),
                    s == bytes@,
                    key_start == k,
                    k <= param_index <= q <= len,
                    forall|j: int| k <= j < q ==> parameter_token(#[trigger] s[j]),
                    q < len ==> !parameter_token(s[q]),
                    mime_outcome(s) == params_outcome(s, i),
                    s == source.spec_bytes(),
                    0 <= i < len,
                    s[i] == SEMICOLON,
                    k == first_from(s, i + 1, Stop::NotSpace),
                    q == first_from(s, k, Stop::NotParameterToken),
                    k <= len,
                decreases len - param_index,
            {
                if !Self::is_parameter_token(bytes[param_index]) {
                    return Err(Error::InvalidParameterKey);
                }
                param_index += 1;
            }
            assert(param_index == q);
            if param_index == key_start || param_index >= len {
                return Err(Error::MissingParameterAssignment);
            }
            param_index += 1;  // Skip '='

            let mut quoted_value_pair: u8 = 0;
            if param_index < len && bytes[param_index] == QUOTE {
                quoted_value_pair = 1;
                param_index += 1;
            }
            // The parameter value.

            let ghost opened = q + 1 < len && s[q + 1] == QUOTE;
            let ghost v = param_index as int;
            let ghost e = first_from(s, v, Stop::Semicolon);
            proof {
                lemma_first_from(s, v, Stop::Semicolon);
            }
            let val_start = param_index;
            while param_index < len && bytes[param_index] != SEMICOLON
                invariant
                    len == s.len(),
                    s == bytes@,
                    val_start == v,
                    v <= param_index <= e <= len,
                    forall|j: int| v <= j < e ==> #[trigger] s[j] != SEMICOLON,
                    e < len ==> s[e] == SEMICOLON,
                    forall|j: int|
                        v <= j < param_index ==> parameter_token(#[trigger] s[j]) || s[j] == QUOTE,
                    quoted_value_pair as int == (if opened {
                        1int
                    } else {
                        0int
                    }) + quote_count(s, v, param_index as int),
                    quoted_value_pair <= 2,
                    mime_outcome(s) == params_outcome(s, i),
                    s == source.spec_bytes(),
                    0 <= i < len,
                    s[i] == SEMICOLON,
                    k == first_from(s, i + 1, Stop::NotSpace),
                    q == first_from(s, k, Stop::NotParameterToken),
                    k <= len,
                    k < q,
                    q < len,
                    s[q] == EQUALS,
                    opened == (q + 1 < len && s[q + 1] == QUOTE),
                    v == (if opened {
                        q + 2
                    } else {
                        q + 1
                    }),
                    e == first_from(s, v, Stop::Semicolon),
                decreases len - param_index,
            {
                let byte = bytes[param_index];
                if byte == QUOTE {
                    quoted_value_pair += 1;
                }
                proof {
                    lemma_quote_count_mono(s, v, param_index as int + 1, e);
                }
                if !Self::is_parameter_token(byte) && byte != QUOTE || (byte == QUOTE
                    && quoted_value_pair > 2) {
                    return Err(Error::InvalidParameterValue);
                }
                param_index += 1;
            }
            assert(param_index == e);
            if param_index == val_start {
                return Err(Error::InvalidParameterValue);
            }
            assert(value_ok(s, v, e, opened));
        }
        Ok(())
    }

    pub fn is_type_token(byte: u8) -> (r: bool)
        ensures
            r == type_token(byte),
    {
        (0x61 <= byte && byte <= 0x7a) || (0x41 <= byte && byte <= 0x5a) || (0x30 <= byte && byte
            <= 0x39) || byte == 0x21 || byte == 0x23 || byte == 0x24 || byte == 0x26 || byte == 0x2d
            || byte == 0x5e || byte == 0x5f || byte == 0x2e || byte == 0x2b
    }

    pub fn is_subtype_token(byte: u8) -> (r: bool)
        ensures
            r == type_token(byte),
    {
        Self::is_type_token(byte)
    }

    pub fn is_parameter_token(byte: u8) -> (r: bool)
        ensures
            r == parameter_token(byte),
    {
        (0x61 <= byte && byte <= 0x7a) || (0x41 <= byte && byte <= 0x5a) || (0x30 <= byte && byte
            <= 0x39) || byte == 0x21 || byte == 0x23 || byte == 0x24 || byte == 0x25 || byte == 0x26
            || byte == 0x27 || byte == 0x2a || byte == 0x2b || byte == 0x2d || byte == 0x2e || byte
            == 0x5e || byte == 0x5f || byte == 0x60 || byte == 0x7c || byte == 0x7e
    }
}

} // verus!
