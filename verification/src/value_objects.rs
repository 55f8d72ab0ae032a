//! Value objects: validated e-mail addresses, URLs, data sizes, time
//! windows and semantic versions.

use vstd::prelude::*;
use vstd::string::*;
use crate::errors::{DomainError, ValidationError};
use crate::ids::now_micros;
use crate::text::{
    chars_of, contains_char, find_char, has_char, lemma_split_concat, lemma_split_no_char, lemma_split_single,
    lowercase, split_char, to_lowercase, has_prefix, starts_with, before_char, after_char, decimal,
    parses_as_u32, u32_value, lemma_before_after, parse_u32, u64_to_string, push_char, first_index_of,
    lemma_decimal_digits, lemma_decimal_parses, is_digit, split_on, string_of, trim_chars, trimmed,
};

verus! {

// ---------------------------------------------------------------------------
// Email
// ---------------------------------------------------------------------------

/// Whether `e` has the shape of an e-mail address: one `@` with text on
/// both sides, and a `.` somewhere.
pub open spec fn email_shape(e: Seq<char>) -> bool {
    let parts = split_char(e, '@');
    &&& parts.len() == 2
    &&& parts[0].len() > 0
    &&& parts[1].len() > 0
    &&& has_char(e, '.')
}

/// The normalized form of an address: trimmed, then lower-cased.
pub open spec fn email_text(s: Seq<char>) -> Seq<char> {
    lowercase(trimmed(s))
}

/// An e-mail address, held trimmed and lower-cased.
#[derive(Debug, PartialEq, Eq, Hash)]
pub struct Email(String);

impl View for Email {
    type V = Seq<char>;

    closed spec fn view(&self) -> Seq<char> {
        self.0@
    }
}

impl Clone for Email {
    fn clone(&self) -> (r: Self)
        ensures
            r@ == self@,
    {
        proof {
            use_type_invariant(self);
        }
        Email(self.0.clone())
    }
}

impl Email {
    #[verifier::type_invariant]
    spec fn well_formed(self) -> bool {
        email_shape(self.0@)
    }

    /// Validates and normalizes an address. An empty address (after
    /// trimming) is an empty `email` field; one without the shape of an
    /// address is an invalid `email`.
    pub fn new(email: &str) -> (r: Result<Self, DomainError>)
        ensures
            email_text(email@).len() == 0 ==> (r matches Err(
                DomainError::Validation(ValidationError::EmptyField { field }),
            ) && field@ == "email"@),
            email_text(email@).len() > 0 && !email_shape(email_text(email@)) ==> (r matches Err(
                DomainError::Validation(ValidationError::InvalidEmail { field, email: text }),
            ) && field@ == "email"@ && text@ == email_text(email@)),
            email_text(email@).len() > 0 && email_shape(email_text(email@)) ==> (r matches Ok(m) && m@ == email_text(
                email@,
            )),
    {
        let raw = chars_of(email);
        let t = trim_chars(raw.as_slice());
        let ts = string_of(t.as_slice());
        let lower = to_lowercase(ts.as_str());
        let e = chars_of(lower.as_str());
        if e.len() == 0 {
            return Err(DomainError::Validation(ValidationError::EmptyField { field: String::from_str("email") }));
        }
        let invalid = !contains_char(e.as_slice(), '@') || !contains_char(e.as_slice(), '.');
        let parts = split_on(e.as_slice(), '@');
        proof {
            lemma_split_single(e@, '@');
        }
        if invalid || parts.len() != 2 || parts[0].len() == 0 || parts[1].len() == 0 {
            return Err(
                DomainError::Validation(ValidationError::InvalidEmail { field: String::from_str("email"), email: lower }),
            );
        }
        proof {
            assert(parts.deep_view()[0] == parts@[0].deep_view());
            assert(parts.deep_view()[1] == parts@[1].deep_view());
            assert(parts@[0].deep_view().len() == parts@[0]@.len());
            assert(parts@[1].deep_view().len() == parts@[1]@.len());
        }
        Ok(Email(lower))
    }

    /// The address, which has the shape of one (see `email_shape`).
    pub fn as_str(&self) -> (s: &str)
        ensures
            s@ == self@,
            email_shape(s@),
    {
        proof {
            use_type_invariant(self);
        }
        self.0.as_str()
    }

    /// The position of the `@` and the proof that it splits the address
    /// into its two parts.
    fn at_index(&self) -> (k: usize)
        ensures
            0 < k < self@.len() - 1,
            self@[k as int] == '@',
            !has_char(self@.take(k as int), '@'),
            !has_char(self@.skip(k + 1), '@'),
            self@ == self@.take(k as int) + seq!['@'] + self@.skip(k + 1),
            split_char(self@, '@')[0] == self@.take(k as int),
            split_char(self@, '@')[1] == self@.skip(k + 1),
    {
        proof {
            use_type_invariant(self);
        }
        let cs = chars_of(self.0.as_str());
        proof {
            lemma_split_single(cs@, '@');
        }
        let k = find_char(cs.as_slice(), '@').unwrap();
        proof {
            let e = cs@;
            assert(e =~= e.take(k as int) + seq!['@'] + e.skip(k + 1));
            lemma_split_concat(e.take(k as int), '@', e.skip(k + 1));
            assert(!has_char(e.take(k as int), '@'));
            lemma_split_no_char(e.take(k as int), '@');
            lemma_split_single(e.skip(k + 1), '@');
            lemma_split_no_char(e.skip(k + 1), '@');
        }
        k
    }

    /// The domain part: the text after the `@`. It is not empty and holds
    /// no `@`; the address is the local part, `@` and the domain.
    pub fn domain(&self) -> (s: &str)
        ensures
            s@ == split_char(self@, '@')[1],
            s@.len() > 0,
            !has_char(s@, '@'),
            self@ == split_char(self@, '@')[0] + seq!['@'] + s@,
    {
        let k = self.at_index();
        let n = self.0.as_str().unicode_len();
        self.0.as_str().substring_char(k + 1, n)
    }

    /// The local part: the text before the `@`. It is not empty and holds
    /// no `@`; the address is the local part, `@` and the domain.
    pub fn local_part(&self) -> (s: &str)
        ensures
            s@ == split_char(self@, '@')[0],
            s@.len() > 0,
            !has_char(s@, '@'),
            self@ == s@ + seq!['@'] + split_char(self@, '@')[1],
    {
        let k = self.at_index();
        self.0.as_str().substring_char(0, k)
    }
}

// ---------------------------------------------------------------------------
// Url
// ---------------------------------------------------------------------------

/// The schemes a URL may have.
pub open spec fn url_scheme_ok(u: Seq<char>) -> bool {
    ||| starts_with(u, "http://"@)
    ||| starts_with(u, "https://"@)
    ||| starts_with(u, "ws://"@)
    ||| starts_with(u, "wss://"@)
}

/// The host part of the text after `://`: up to the first `/` or `:`.
pub open spec fn host_part(r: Seq<char>) -> Seq<char>
    decreases r.len(),
{
    if r.len() == 0 {
        r
    } else if r[0] == '/' || r[0] == ':' {
        Seq::<char>::empty()
    } else {
        seq![r[0]] + host_part(r.drop_first())
    }
}

/// A URL with an `http`, `https`, `ws` or `wss` scheme, held trimmed.
#[derive(Debug, PartialEq, Eq, Hash)]
pub struct Url(String);

impl View for Url {
    type V = Seq<char>;

    closed spec fn view(&self) -> Seq<char> {
        self.0@
    }
}

impl Clone for Url {
    fn clone(&self) -> (r: Self)
        ensures
            r@ == self@,
    {
        proof {
            use_type_invariant(self);
        }
        Url(self.0.clone())
    }
}

/// The scheme of a URL: the text before its first `://`.
pub open spec fn url_scheme(u: Seq<char>) -> Seq<char> {
    if starts_with(u, "http://"@) {
        "http"@
    } else if starts_with(u, "https://"@) {
        "https"@
    } else if starts_with(u, "ws://"@) {
        "ws"@
    } else {
        "wss"@
    }
}

impl Url {
    #[verifier::type_invariant]
    spec fn well_formed(self) -> bool {
        url_scheme_ok(self.0@)
    }

    /// Validates a URL. An empty URL (after trimming) is an empty `url`
    /// field; one without a known scheme is an invalid `url`.
    pub fn new(url: &str) -> (r: Result<Self, DomainError>)
        ensures
            trimmed(url@).len() == 0 ==> (r matches Err(DomainError::Validation(ValidationError::EmptyField { field }))
                && field@ == "url"@),
            trimmed(url@).len() > 0 && !url_scheme_ok(trimmed(url@)) ==> (r matches Err(
                DomainError::Validation(ValidationError::InvalidUrl { field, url: text }),
            ) && field@ == "url"@ && text@ == trimmed(url@)),
            trimmed(url@).len() > 0 && url_scheme_ok(trimmed(url@)) ==> (r matches Ok(u) && u@ == trimmed(url@)),
    {
        let raw = chars_of(url);
        let t = trim_chars(raw.as_slice());
        let ts = string_of(t.as_slice());
        if t.len() == 0 {
            return Err(DomainError::Validation(ValidationError::EmptyField { field: String::from_str("url") }));
        }
        let http = chars_of("http://");
        let https = chars_of("https://");
        let ws = chars_of("ws://");
        let wss = chars_of("wss://");
        if !has_prefix(t.as_slice(), http.as_slice()) && !has_prefix(t.as_slice(), https.as_slice())
            && !has_prefix(t.as_slice(), ws.as_slice()) && !has_prefix(t.as_slice(), wss.as_slice()) {
            return Err(
                DomainError::Validation(ValidationError::InvalidUrl { field: String::from_str("url"), url: ts }),
            );
        }
        Ok(Url(ts))
    }

    /// The URL.
    pub fn as_str(&self) -> (s: &str)
        ensures
            s@ == self@,
    {
        self.0.as_str()
    }

    /// The length of the scheme.
    fn scheme_len(&self) -> (n: usize)
        ensures
            n == url_scheme(self@).len(),
            starts_with(self@, url_scheme(self@) + "://"@),
            n <= 5,
            n + 3 <= self@.len(),
            self@.subrange(0, n as int) == url_scheme(self@),
    {
        proof {
            use_type_invariant(self);
            reveal_strlit("http://");
            reveal_strlit("https://");
            reveal_strlit("ws://");
            reveal_strlit("wss://");
            reveal_strlit("http");
            reveal_strlit("https");
            reveal_strlit("ws");
            reveal_strlit("wss");
            reveal_strlit("://");
            assert("http"@ + "://"@ =~= "http://"@);
            assert("https"@ + "://"@ =~= "https://"@);
            assert("ws"@ + "://"@ =~= "ws://"@);
            assert("wss"@ + "://"@ =~= "wss://"@);
            let p = url_scheme(self@) + "://"@;
            let k = url_scheme(self@).len() as int;
            assert(self@.take(p.len() as int) == p);
            assert(p.subrange(0, k) =~= url_scheme(self@));
            assert(self@.subrange(0, k) =~= self@.take(p.len() as int).subrange(0, k));
        }
        let cs = chars_of(self.0.as_str());
        let http = chars_of("http://");
        let https = chars_of("https://");
        let ws = chars_of("ws://");
        if has_prefix(cs.as_slice(), http.as_slice()) {
            4
        } else if has_prefix(cs.as_slice(), https.as_slice()) {
            5
        } else if has_prefix(cs.as_slice(), ws.as_slice()) {
            2
        } else {
            3
        }
    }

    /// The scheme: `http`, `https`, `ws` or `wss`, the text before the
    /// first `://`.
    pub fn protocol(&self) -> (s: &str)
        ensures
            s@ == url_scheme(self@),
            starts_with(self@, s@ + "://"@),
    {
        let n = self.scheme_len();
        self.0.as_str().substring_char(0, n)
    }

    /// The host: the text after `://` up to the first `/` or `:`.
    pub fn host(&self) -> (h: Option<&str>)
        ensures
            h matches Some(x) && x@ == host_part(self@.skip((url_scheme(self@).len() + 3) as int)),
    {
        let start = self.scheme_len() + 3;
        let cs = chars_of(self.0.as_str());
        let ghost r = cs@.skip(start as int);
        let mut j: usize = start;
        assert(cs@.subrange(start as int, start as int) =~= Seq::<char>::empty());
        assert(cs@.skip(start as int) =~= Seq::<char>::empty() + cs@.skip(start as int));
        while j < cs.len() && cs[j] != '/' && cs[j] != ':'
            invariant
                start <= j <= cs@.len(),
                r == cs@.skip(start as int),
                host_part(r) == cs@.subrange(start as int, j as int) + host_part(cs@.skip(j as int)),
            decreases cs@.len() - j,
        {
            assert(cs@.skip(j as int).drop_first() =~= cs@.skip(j + 1));
            assert(cs@.subrange(start as int, j + 1) =~= cs@.subrange(start as int, j as int) + seq![cs@[j as int]]);
            j = j + 1;
        }
        assert(host_part(cs@.skip(j as int)) =~= Seq::<char>::empty());
        Some(self.0.as_str().substring_char(start, j))
    }
}

// ---------------------------------------------------------------------------
// DataSize
// ---------------------------------------------------------------------------

/// A data size in bytes.
#[derive(Debug, Clone, Copy, PartialEq, Eq, Structural, PartialOrd, Ord)]
pub struct DataSize {
    bytes: u64,
}

impl View for DataSize {
    type V = u64;

    closed spec fn view(&self) -> u64 {
        self.bytes
    }
}

impl DataSize {
    /// A size of `bytes` bytes.
    pub fn from_bytes(bytes: u64) -> (d: Self)
        ensures
            d@ == bytes,
    {
        DataSize { bytes }
    }

    /// The size in bytes.
    pub fn as_bytes(&self) -> (b: u64)
        ensures
            b == self@,
    {
        self.bytes
    }
}

// ---------------------------------------------------------------------------
// TimeWindow
// ---------------------------------------------------------------------------

/// A time window between two instants (microseconds since the epoch). One
/// made by `new` starts strictly before it ends.
#[derive(Debug, PartialEq, Eq, Hash)]
pub struct TimeWindow {
    start: i64,
    end: i64,
}

impl View for TimeWindow {
    type V = (i64, i64);

    closed spec fn view(&self) -> (i64, i64) {
        (self.start, self.end)
    }
}

impl Clone for TimeWindow {
    fn clone(&self) -> (r: Self)
        ensures
            r@ == self@,
    {
        TimeWindow { start: self.start, end: self.end }
    }
}

impl TimeWindow {
    /// A window from `start` to `end`; refused unless `start < end`.
    pub fn new(start: i64, end: i64) -> (r: Result<Self, DomainError>)
        ensures
            start < end ==> (r matches Ok(w) && w@ == (start, end)),
            start >= end ==> (r matches Err(DomainError::Validation(ValidationError::InvalidFormat { field, reason })) && field@
                == "time_window"@ && reason@ == "Start time must be before end time"@),
    {
        if start >= end {
            return Err(
                DomainError::Validation(
                    ValidationError::InvalidFormat {
                        field: String::from_str("time_window"),
                        reason: String::from_str("Start time must be before end time"),
                    },
                ),
            );
        }
        Ok(TimeWindow { start, end })
    }

    /// A window from now lasting `duration` microseconds. The duration is
    /// not checked: one that is not positive gives a window that ends
    /// before it starts, or where it starts. An end beyond the instants an
    /// `i64` can count (about 292,000 years from the epoch) is held at the
    /// last such instant.
    pub fn from_now_with_duration(duration: i64) -> (w: Self)
        ensures
            i64::MIN <= w@.0 + duration <= i64::MAX ==> w@.1 == w@.0 + duration,
            w@.0 + duration > i64::MAX ==> w@.1 == i64::MAX,
            w@.0 + duration < i64::MIN ==> w@.1 == i64::MIN,
    {
        let start = now_micros();
        let end = match start.checked_add(duration) {
            Some(e) => e,
            None => if duration > 0 { i64::MAX } else { i64::MIN },
        };
        TimeWindow { start, end }
    }

    /// The start instant.
    pub fn start(&self) -> (t: i64)
        ensures
            t == self@.0,
    {
        self.start
    }

    /// The end instant.
    pub fn end(&self) -> (t: i64)
        ensures
            t == self@.1,
    {
        self.end
    }

    /// The length of the window in microseconds.
    pub fn duration(&self) -> (d: i128)
        ensures
            d == self@.1 - self@.0,
    {
        (self.end as i128) - (self.start as i128)
    }

    /// Whether `timestamp` lies in the window, both ends included.
    pub fn contains(&self, timestamp: i64) -> (b: bool)
        ensures
            b == window_contains(self@, timestamp),
    {
        timestamp >= self.start && timestamp <= self.end
    }

    /// Whether the two windows share more than an end point.
    pub fn overlaps(&self, other: &TimeWindow) -> (b: bool)
        ensures
            b == windows_overlap(self@, other@),
    {
        self.start < other.end && other.start < self.end
    }
}

/// Whether the instant `t` lies in the window `w`, both ends included.
pub open spec fn window_contains(w: (i64, i64), t: i64) -> bool {
    w.0 <= t && t <= w.1
}

/// Whether two windows share more than an end point.
pub open spec fn windows_overlap(a: (i64, i64), b: (i64, i64)) -> bool {
    a.0 < b.1 && b.0 < a.1
}

/// Overlap is symmetric; a window contains both of its ends and overlaps
/// itself; and windows that overlap have an instant in common.
pub proof fn lemma_time_window_laws(a: (i64, i64), b: (i64, i64))
    requires
        a.0 < a.1,
        b.0 < b.1,
    ensures
        windows_overlap(a, b) == windows_overlap(b, a),
        window_contains(a, a.0) && window_contains(a, a.1),
        windows_overlap(a, a),
        windows_overlap(a, b) ==> (if a.0 >= b.0 { window_contains(a, a.0) && window_contains(b, a.0) } else {
            window_contains(a, b.0) && window_contains(b, b.0)
        }),
{
}

// ---------------------------------------------------------------------------
// Version
// ---------------------------------------------------------------------------

/// A semantic version: major, minor and patch numbers and an optional
/// pre-release label.
#[derive(Debug, Clone, PartialEq, Eq, PartialOrd, Ord, Hash)]
pub struct Version {
    major: u32,
    minor: u32,
    patch: u32,
    pre_release: Option<String>,
}

/// The abstract value of a version.
pub open spec fn pre_view(p: Option<String>) -> Option<Seq<char>> {
    match p {
        Some(s) => Some(s@),
        None => None,
    }
}

impl View for Version {
    type V = (u32, u32, u32, Option<Seq<char>>);

    closed spec fn view(&self) -> (u32, u32, u32, Option<Seq<char>>) {
        (self.major, self.minor, self.patch, pre_view(self.pre_release))
    }
}

/// The text of a version: `X.Y.Z`, followed by `-` and the pre-release
/// label when there is one.
pub open spec fn version_text(v: (u32, u32, u32, Option<Seq<char>>)) -> Seq<char> {
    let core = decimal(v.0 as nat) + seq!['.'] + decimal(v.1 as nat) + seq!['.'] + decimal(v.2 as nat);
    match v.3 {
        Some(p) => core + seq!['-'] + p,
        None => core,
    }
}

/// The dot-separated pieces of the part of `s` before its first `-`.
pub open spec fn version_pieces(s: Seq<char>) -> Seq<Seq<char>> {
    split_char(before_char(s, '-'), '.')
}

/// The version that `s` denotes, if it is well formed: three pieces before
/// the first `-` that each read as a `u32`, and as pre-release label the
/// text after the first `-`, if any.
pub open spec fn parsed_version(s: Seq<char>) -> Option<(u32, u32, u32, Option<Seq<char>>)> {
    let p = version_pieces(s);
    if p.len() == 3 && parses_as_u32(p[0]) && parses_as_u32(p[1]) && parses_as_u32(p[2]) {
        Some((u32_value(p[0]) as u32, u32_value(p[1]) as u32, u32_value(p[2]) as u32, after_char(s, '-')))
    } else {
        None
    }
}

/// Whether `e` is an invalid-format validation error on `field` with
/// `reason`.
pub open spec fn is_format_error(e: DomainError, field: Seq<char>, reason: Seq<char>) -> bool {
    e matches DomainError::Validation(ValidationError::InvalidFormat { field: f, reason: r }) && f@ == field && r@
        == reason
}

impl Version {
    /// A release version without pre-release label.
    pub fn new(major: u32, minor: u32, patch: u32) -> (v: Self)
        ensures
            v@ == (major, minor, patch, None::<Seq<char>>),
    {
        Version { major, minor, patch, pre_release: None }
    }

    /// A pre-release version; an empty label is an empty `pre_release`
    /// field.
    pub fn with_pre_release(major: u32, minor: u32, patch: u32, pre_release: &str) -> (r: Result<Self, DomainError>)
        ensures
            pre_release@.len() == 0 ==> (r matches Err(DomainError::Validation(ValidationError::EmptyField { field }))
                && field@ == "pre_release"@),
            pre_release@.len() > 0 ==> (r matches Ok(v) && v@ == (major, minor, patch, Some(pre_release@))),
    {
        if pre_release.is_empty() {
            return Err(
                DomainError::Validation(ValidationError::EmptyField { field: String::from_str("pre_release") }),
            );
        }
        Ok(Version { major, minor, patch, pre_release: Some(String::from_str(pre_release)) })
    }

    /// Reads a version such as `1.2.3` or `1.2.3-beta`. The part before the
    /// first `-` must have three dot-separated numbers; the first number
    /// that does not read as a `u32` names the error.
    pub fn parse(s: &str) -> (r: Result<Self, DomainError>)
        ensures
            r is Ok <==> parsed_version(s@) is Some,
            r matches Ok(v) ==> parsed_version(s@) == Some(v@),
            version_pieces(s@).len() != 3 ==> (r matches Err(e) && is_format_error(
                e,
                "version"@,
                "Version must be in format X.Y.Z"@,
            )),
            version_pieces(s@).len() == 3 && !parses_as_u32(version_pieces(s@)[0]) ==> (r matches Err(e)
                && is_format_error(e, "version.major"@, "Major version must be a number"@)),
            version_pieces(s@).len() == 3 && parses_as_u32(version_pieces(s@)[0]) && !parses_as_u32(
                version_pieces(s@)[1],
            ) ==> (r matches Err(e) && is_format_error(e, "version.minor"@, "Minor version must be a number"@)),
            version_pieces(s@).len() == 3 && parses_as_u32(version_pieces(s@)[0]) && parses_as_u32(
                version_pieces(s@)[1],
            ) && !parses_as_u32(version_pieces(s@)[2]) ==> (r matches Err(e) && is_format_error(
                e,
                "version.patch"@,
                "Patch version must be a number"@,
            )),
    {
        let cs = chars_of(s);
        let dash = find_char(cs.as_slice(), '-');
        proof {
            lemma_before_after(cs@, '-');
        }
        let head_len = match dash {
            Some(k) => k,
            None => cs.len(),
        };
        let mut head: Vec<char> = Vec::new();
        let mut i: usize = 0;
        while i < head_len
            invariant
                head_len <= cs@.len(),
                i <= head_len,
                head@ == cs@.take(i as int),
            decreases head_len - i,
        {
            head.push(cs[i]);
            assert(cs@.take(i + 1) =~= cs@.take(i as int).push(cs@[i as int]));
            i = i + 1;
        }
        assert(head@ == before_char(cs@, '-')) by {
            if dash is None {
                assert(cs@.take(cs@.len() as int) =~= cs@);
            }
        }
        let pieces = split_on(head.as_slice(), '.');
        if pieces.len() != 3 {
            return Err(format_error("version", "Version must be in format X.Y.Z"));
        }
        proof {
            assert(pieces@[0]@ == version_pieces(s@)[0]) by {
                assert(pieces@[0].deep_view() =~= pieces@[0]@);
            }
            assert(pieces@[1]@ == version_pieces(s@)[1]) by {
                assert(pieces@[1].deep_view() =~= pieces@[1]@);
            }
            assert(pieces@[2]@ == version_pieces(s@)[2]) by {
                assert(pieces@[2].deep_view() =~= pieces@[2]@);
            }
        }
        let major = match parse_u32(pieces[0].as_slice()) {
            Some(v) => v,
            None => {
                return Err(format_error("version.major", "Major version must be a number"));
            },
        };
        let minor = match parse_u32(pieces[1].as_slice()) {
            Some(v) => v,
            None => {
                return Err(format_error("version.minor", "Minor version must be a number"));
            },
        };
        let patch = match parse_u32(pieces[2].as_slice()) {
            Some(v) => v,
            None => {
                return Err(format_error("version.patch", "Patch version must be a number"));
            },
        };
        let pre_release = match dash {
            Some(k) => {
                let n = s.unicode_len();
                Some(String::from_str(s.substring_char(k + 1, n)))
            },
            None => None,
        };
        Ok(Version { major, minor, patch, pre_release })
    }

    /// Whether the version has a pre-release label.
    pub fn is_pre_release(&self) -> (b: bool)
        ensures
            b == (self@.3 is Some),
    {
        self.pre_release.is_some()
    }

    /// Whether two versions are compatible: they have the same major number.
    pub fn is_compatible_with(&self, other: &Version) -> (b: bool)
        ensures
            b == (self@.0 == other@.0),
    {
        self.major == other.major
    }

    /// The text of the version, as its `Display` writes it.
    pub fn to_string(&self) -> (s: String)
        ensures
            s@ == version_text(self@),
    {
        let mut s = u64_to_string(self.major as u64);
        push_char(&mut s, '.');
        let minor = u64_to_string(self.minor as u64);
        s.append(minor.as_str());
        push_char(&mut s, '.');
        let patch = u64_to_string(self.patch as u64);
        s.append(patch.as_str());
        match &self.pre_release {
            Some(p) => {
                push_char(&mut s, '-');
                s.append(p.as_str());
            },
            None => {},
        }
        s
    }
}

/// An invalid-format validation error.
fn format_error(field: &str, reason: &str) -> (e: DomainError)
    ensures
        is_format_error(e, field@, reason@),
{
    DomainError::Validation(
        ValidationError::InvalidFormat { field: String::from_str(field), reason: String::from_str(reason) },
    )
}

/// Reading the text of any version gives the version back.
pub proof fn lemma_version_text_roundtrip(v: (u32, u32, u32, Option<Seq<char>>))
    ensures
        parsed_version(version_text(v)) == Some(v),
{
    let d0 = decimal(v.0 as nat);
    let d1 = decimal(v.1 as nat);
    let d2 = decimal(v.2 as nat);
    lemma_decimal_digits(v.0 as nat);
    lemma_decimal_digits(v.1 as nat);
    lemma_decimal_digits(v.2 as nat);
    lemma_decimal_parses(v.0);
    lemma_decimal_parses(v.1);
    lemma_decimal_parses(v.2);
    let core = d0 + seq!['.'] + d1 + seq!['.'] + d2;
    let t = version_text(v);
    assert forall|i: int| 0 <= i < core.len() implies core[i] != '-' && (core[i] == '.' || is_digit(core[i])) by {
        if i < d0.len() {
            assert(core[i] == d0[i]);
        } else if i == d0.len() {
        } else if i < d0.len() + 1 + d1.len() {
            assert(core[i] == d1[i - d0.len() - 1]);
        } else if i == d0.len() + 1 + d1.len() {
        } else {
            assert(core[i] == d2[i - d0.len() - 2 - d1.len()]);
        }
    }
    assert(!has_char(core, '-'));
    lemma_before_after(t, '-');
    match v.3 {
        Some(p) => {
            assert(t =~= core + seq!['-'] + p);
            assert(first_index_of(t, '-', core.len() as int));
            assert(t.take(core.len() as int) =~= core);
            assert(t.skip(core.len() as int + 1) =~= p);
        },
        None => {
            assert(t == core);
        },
    }
    assert(before_char(t, '-') == core);
    assert(!has_char(d0, '.')) by {
        if has_char(d0, '.') {
            let i = choose|i: int| 0 <= i < d0.len() && d0[i] == '.';
            assert(is_digit(d0[i]));
        }
    }
    assert(!has_char(d1, '.')) by {
        if has_char(d1, '.') {
            let i = choose|i: int| 0 <= i < d1.len() && d1[i] == '.';
            assert(is_digit(d1[i]));
        }
    }
    assert(!has_char(d2, '.')) by {
        if has_char(d2, '.') {
            let i = choose|i: int| 0 <= i < d2.len() && d2[i] == '.';
            assert(is_digit(d2[i]));
        }
    }
    lemma_split_concat(d0 + seq!['.'] + d1, '.', d2);
    lemma_split_concat(d0, '.', d1);
    lemma_split_no_char(d0, '.');
    lemma_split_no_char(d1, '.');
    lemma_split_no_char(d2, '.');
    assert(version_pieces(t) =~= seq![d0, d1, d2]);
}

} // verus!
