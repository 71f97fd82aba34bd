//! Choice of the output format from what a CGI gateway hands over: the
//! query string of the request and its `Accept` header.

use vstd::prelude::*;
use vstd::slice::slice_subrange;
use vstd::string::{group_string_axioms, is_ascii};

verus! {

/// How a sample is written out.
#[derive(Clone, Copy, Debug, PartialEq, Eq, Structural)]
pub enum OutputFormat {
    /// Plain text for a reader.
    Text,
    /// One JSON object.
    Json,
    /// The line format of monitoring plugins.
    Nagios,
}

/// The bytes of an ASCII text.
pub open spec fn spec_ascii(text: Seq<char>) -> Seq<u8> {
    Seq::new(text.len(), |i: int| text[i] as u8)
}

/// The byte `b` with an ASCII capital letter replaced by its small letter.
pub open spec fn spec_lower(b: u8) -> u8 {
    if 'A' as u8 <= b <= 'Z' as u8 {
        (b + 32) as u8
    } else {
        b
    }
}

/// Whether `a` and `b` are equal up to the case of ASCII letters.
pub open spec fn spec_eq_ignore_ascii_case(a: Seq<u8>, b: Seq<u8>) -> bool {
    &&& a.len() == b.len()
    &&& forall|i: int| 0 <= i < a.len() ==> spec_lower(#[trigger] a[i]) == spec_lower(b[i])
}

/// Index of the first `b` in `s`, or the length of `s` where it has none.
pub open spec fn spec_find(s: Seq<u8>, b: u8) -> int
    decreases s.len(),
{
    if s.len() == 0 || s[0] == b {
        0
    } else {
        1 + spec_find(s.drop_first(), b)
    }
}

/// The value of a `key=value` chunk whose key spells `format` in any case;
/// absent for every other chunk. Key and value are parted at the first `=`.
pub open spec fn spec_format_value(chunk: Seq<u8>) -> Option<Seq<u8>> {
    let eq = spec_find(chunk, '=' as u8);
    if eq < chunk.len() && spec_eq_ignore_ascii_case(
        chunk.subrange(0, eq),
        spec_ascii("format"@),
    ) {
        Some(chunk.subrange(eq + 1, chunk.len() as int))
    } else {
        None
    }
}

/// The value that a query string gives for `format`: that of the last of
/// its chunks, which `&` separates, that gives one.
pub open spec fn spec_selected(query: Seq<u8>) -> Option<Seq<u8>>
    decreases query.len(),
{
    let end = spec_find(query, '&' as u8);
    let here = spec_format_value(query.subrange(0, end));
    if 0 <= end < query.len() {
        match spec_selected(query.subrange(end + 1, query.len() as int)) {
            Some(value) => Some(value),
            None => here,
        }
    } else {
        here
    }
}

/// The format that a query string asks for, if any.
pub open spec fn spec_query_format(query: Seq<u8>) -> Option<OutputFormat> {
    match spec_selected(query) {
        Some(value) => OutputFormat::spec_from_name(value),
        None => None,
    }
}

/// The format that an `Accept` header asks for, if any: that of its first
/// entry, the entries being separated by commas.
pub open spec fn spec_accept_format(accept: Seq<u8>) -> Option<OutputFormat> {
    OutputFormat::spec_from_mime(accept.subrange(0, spec_find(accept, ',' as u8)))
}

/// The format to use where `current` was asked for on the command line:
/// the header overrides the query string, which overrides `current`.
pub open spec fn spec_negotiate(
    current: OutputFormat,
    query: Option<Seq<u8>>,
    accept: Option<Seq<u8>>,
) -> OutputFormat {
    let after_query = match query {
        Some(q) => match spec_query_format(q) {
            Some(format) => format,
            None => current,
        },
        None => current,
    };
    match accept {
        Some(a) => match spec_accept_format(a) {
            Some(format) => format,
            None => after_query,
        },
        None => after_query,
    }
}

impl OutputFormat {
    /// Name of the format on the command line.
    pub open spec fn spec_name(self) -> Seq<char> {
        match self {
            OutputFormat::Text => "text"@,
            OutputFormat::Json => "json"@,
            OutputFormat::Nagios => "nagios"@,
        }
    }

    /// Media type of the format.
    pub open spec fn spec_content_type(self) -> Seq<char> {
        match self {
            OutputFormat::Json => "application/json"@,
            _ => "text/plain"@,
        }
    }

    /// The format with the given name, in any case.
    pub open spec fn spec_from_name(name: Seq<u8>) -> Option<OutputFormat> {
        if spec_eq_ignore_ascii_case(name, spec_ascii("text"@)) {
            Some(OutputFormat::Text)
        } else if spec_eq_ignore_ascii_case(name, spec_ascii("nagios"@)) {
            Some(OutputFormat::Nagios)
        } else if spec_eq_ignore_ascii_case(name, spec_ascii("json"@)) {
            Some(OutputFormat::Json)
        } else {
            None
        }
    }

    /// The format for the given media type, in any case.
    pub open spec fn spec_from_mime(mime: Seq<u8>) -> Option<OutputFormat> {
        if spec_eq_ignore_ascii_case(mime, spec_ascii("text/plain"@)) {
            Some(OutputFormat::Text)
        } else if spec_eq_ignore_ascii_case(mime, spec_ascii("application/json"@)) {
            Some(OutputFormat::Json)
        } else {
            None
        }
    }

    /// Name of the format on the command line.
    pub fn name(&self) -> (name: &'static str)
        ensures
            name@ == self.spec_name(),
    {
        match self {
            OutputFormat::Text => "text",
            OutputFormat::Json => "json",
            OutputFormat::Nagios => "nagios",
        }
    }

    /// Media type of the format.
    pub fn content_type(&self) -> (mime: &'static str)
        ensures
            mime@ == self.spec_content_type(),
    {
        match self {
            OutputFormat::Json => "application/json",
            _ => "text/plain",
        }
    }

    /// The format with the given name, in any case.
    pub fn from_name(name: &[u8]) -> (format: Option<OutputFormat>)
        ensures
            format == Self::spec_from_name(name@),
    {
        proof {
            reveal_strlit("text");
            reveal_strlit("nagios");
            reveal_strlit("json");
        }
        if eq_ignore_ascii_case(name, ascii("text")) {
            Some(OutputFormat::Text)
        } else if eq_ignore_ascii_case(name, ascii("nagios")) {
            Some(OutputFormat::Nagios)
        } else if eq_ignore_ascii_case(name, ascii("json")) {
            Some(OutputFormat::Json)
        } else {
            None
        }
    }

    /// The format for the given media type, in any case.
    pub fn from_mime(mime: &[u8]) -> (format: Option<OutputFormat>)
        ensures
            format == Self::spec_from_mime(mime@),
    {
        proof {
            reveal_strlit("text/plain");
            reveal_strlit("application/json");
        }
        if eq_ignore_ascii_case(mime, ascii("text/plain")) {
            Some(OutputFormat::Text)
        } else if eq_ignore_ascii_case(mime, ascii("application/json")) {
            Some(OutputFormat::Json)
        } else {
            None
        }
    }
}

/// The bytes of an ASCII text.
fn ascii(text: &'static str) -> (bytes: &'static [u8])
    requires
        is_ascii(text),
    ensures
        bytes@ == spec_ascii(text@),
{
    broadcast use group_string_axioms;

    text.as_bytes()
}

/// The byte `b` with an ASCII capital letter replaced by its small letter.
fn lower(b: u8) -> (l: u8)
    ensures
        l == spec_lower(b),
{
    if 'A' as u8 <= b && b <= 'Z' as u8 {
        b + 32
    } else {
        b
    }
}

/// Whether `a` and `b` are equal up to the case of ASCII letters.
pub fn eq_ignore_ascii_case(a: &[u8], b: &[u8]) -> (equal: bool)
    ensures
        equal == spec_eq_ignore_ascii_case(a@, b@),
{
    if a.len() != b.len() {
        return false;
    }
    let mut i: usize = 0;
    while i < a.len()
        invariant
            i <= a@.len(),
            a@.len() == b@.len(),
            forall|j: int| 0 <= j < i ==> spec_lower(#[trigger] a@[j]) == spec_lower(b@[j]),
        decreases a@.len() - i,
    {
        if lower(a[i]) != lower(b[i]) {
            return false;
        }
        i += 1;
    }
    true
}

/// `r` is the index of the first `b` in `s` when no byte before it is `b`
/// and the byte at it, if there is one, is `b`.
pub proof fn lemma_find(s: Seq<u8>, b: u8, r: int)
    requires
        0 <= r <= s.len(),
        forall|j: int| 0 <= j < r ==> s[j] != b,
        r < s.len() ==> s[r] == b,
    ensures
        spec_find(s, b) == r,
    decreases s.len(),
{
    if r > 0 {
        assert(s[0] != b);
        let t = s.drop_first();
        assert forall|j: int| 0 <= j < r - 1 implies t[j] != b by {
            assert(t[j] == s[j + 1]);
        }
        lemma_find(t, b, r - 1);
    }
}

/// Index of the first `b` in `s`, or the length of `s` where it has none.
pub fn find(s: &[u8], b: u8) -> (r: usize)
    ensures
        r == spec_find(s@, b),
        r <= s@.len(),
        r < s@.len() ==> s@[r as int] == b,
        forall|j: int| 0 <= j < r ==> s@[j] != b,
{
    let mut i: usize = 0;
    while i < s.len() && s[i] != b
        invariant
            i <= s@.len(),
            forall|j: int| 0 <= j < i ==> s@[j] != b,
        decreases s@.len() - i,
    {
        i += 1;
    }
    proof {
        lemma_find(s@, b, i as int);
    }
    i
}

/// The value of a `key=value` chunk whose key spells `format` in any case.
fn format_value(chunk: &[u8]) -> (value: Option<&[u8]>)
    ensures
        value is Some <==> spec_format_value(chunk@) is Some,
        value matches Some(v) ==> spec_format_value(chunk@) == Some(v@),
{
    proof {
        reveal_strlit("format");
    }
    let eq = find(chunk, '=' as u8);
    if eq < chunk.len() && eq_ignore_ascii_case(slice_subrange(chunk, 0, eq), ascii("format")) {
        Some(slice_subrange(chunk, eq + 1, chunk.len()))
    } else {
        None
    }
}

/// The format that a query string asks for with its key `format`. The key
/// may be spelled in any case; where several chunks give it, the last one
/// counts. A value that names no format asks for none.
pub fn query_format(query: &[u8]) -> (format: Option<OutputFormat>)
    ensures
        format == spec_query_format(query@),
{
    let len = query.len();
    let mut start: usize = 0;
    let mut done = false;
    let mut chosen: Option<OutputFormat> = None;
    let ghost mut selected: Option<Seq<u8>> = None;
    assert(query@.subrange(0, len as int) =~= query@);
    while !done
        invariant
            len == query@.len(),
            start <= len,
            chosen == (match selected {
                Some(value) => OutputFormat::spec_from_name(value),
                None => None,
            }),
            done ==> spec_selected(query@) == selected,
            !done ==> spec_selected(query@) == (match spec_selected(
                query@.subrange(start as int, len as int),
            ) {
                Some(value) => Some(value),
                None => selected,
            }),
        decreases len - start + (if done { 0int } else { 1int }),
    {
        let rest = slice_subrange(query, start, len);
        let end = find(rest, '&' as u8);
        match format_value(slice_subrange(rest, 0, end)) {
            Some(value) => {
                chosen = OutputFormat::from_name(value);
                proof {
                    selected = Some(value@);
                }
            },
            None => {},
        }
        if end >= rest.len() {
            done = true;
        } else {
            assert(rest@.subrange(end + 1, rest@.len() as int) =~= query@.subrange(
                start + end + 1,
                len as int,
            ));
            start = start + end + 1;
        }
    }
    chosen
}

/// The format that an `Accept` header asks for with its first entry.
pub fn accept_format(accept: &[u8]) -> (format: Option<OutputFormat>)
    ensures
        format == spec_accept_format(accept@),
{
    let end = find(accept, ',' as u8);
    OutputFormat::from_mime(slice_subrange(accept, 0, end))
}

/// Chooses the output format behind a gateway: `current`, unless the query
/// string asks for another, unless the `Accept` header asks for another.
pub fn negotiate(current: OutputFormat, query: Option<&[u8]>, accept: Option<&[u8]>) -> (format:
    OutputFormat)
    ensures
        format == spec_negotiate(
            current,
            match query {
                Some(q) => Some(q@),
                None => None,
            },
            match accept {
                Some(a) => Some(a@),
                None => None,
            },
        ),
{
    let after_query = match query {
        Some(q) => match query_format(q) {
            Some(format) => format,
            None => current,
        },
        None => current,
    };
    match accept {
        Some(a) => match accept_format(a) {
            Some(format) => format,
            None => after_query,
        },
        None => after_query,
    }
}

/// What running behind a gateway changes: the format to use, and whether a
/// response header is to be written before anything else.
pub open spec fn spec_update_from_cgi(
    current: OutputFormat,
    gateway: bool,
    query: Option<Seq<u8>>,
    accept: Option<Seq<u8>>,
) -> (OutputFormat, bool) {
    if gateway {
        (spec_negotiate(current, query, accept), true)
    } else {
        (current, false)
    }
}

/// Takes the gateway's environment into account. Without a gateway nothing
/// changes and no header is written, whatever the query string and the
/// `Accept` header hold. Behind one, the format is negotiated and a header
/// is written.
pub fn update_from_cgi(
    current: OutputFormat,
    gateway: bool,
    query: Option<&[u8]>,
    accept: Option<&[u8]>,
) -> (res: (OutputFormat, bool))
    ensures
        res == spec_update_from_cgi(
            current,
            gateway,
            match query {
                Some(q) => Some(q@),
                None => None,
            },
            match accept {
                Some(a) => Some(a@),
                None => None,
            },
        ),
        !gateway ==> res == (current, false),
        gateway ==> res.1,
{
    if gateway {
        (negotiate(current, query, accept), true)
    } else {
        (current, false)
    }
}

} // verus!
