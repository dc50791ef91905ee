//! Request headers: from the text of the headers field, a JSON object of
//! strings, to headers whose names and values an HTTP message can carry.

use std::collections::BTreeMap;
use std::str::FromStr;
use vstd::prelude::*;

verus! {

/// The error of `serde_json::from_str`. Nothing is claimed of what it
/// holds.
#[verifier::external_type_specification]
#[verifier::external_body]
pub struct ExJsonError(serde_json::Error);

/// The error of `HeaderName::from_str`. Nothing is claimed of what it
/// holds.
#[verifier::external_type_specification]
#[verifier::external_body]
pub struct ExInvalidHeaderName(reqwest::header::InvalidHeaderName);

/// The error of `HeaderValue::from_str`. Nothing is claimed of what it
/// holds.
#[verifier::external_type_specification]
#[verifier::external_body]
pub struct ExInvalidHeaderValue(reqwest::header::InvalidHeaderValue);

/// What `serde_json::from_str` makes of `text` as a map from strings to
/// strings: the entries in the order of their keys, or nothing where the
/// text is not a JSON object whose values are all strings.
pub uninterp spec fn json_string_entries(text: Seq<char>) -> Option<Seq<(Seq<char>, Seq<char>)>>;

/// What `HeaderName::from_str` makes of `key`: the header name in its
/// normal form, or nothing where the key cannot be a header name.
pub uninterp spec fn header_name_of(key: Seq<char>) -> Option<Seq<char>>;

/// Whether a header value can hold `c`: any character but the control
/// characters, and of those the tab.
pub open spec fn value_char_ok(c: char) -> bool {
    (c as u32 >= 32 && c as u32 != 127) || c as u32 == 9
}

/// Whether `value` can be a header value.
pub open spec fn is_header_value(value: Seq<char>) -> bool {
    forall|i: int| 0 <= i < value.len() ==> value_char_ok(#[trigger] value[i])
}

/// The entries as pairs of texts.
pub open spec fn entries_view(entries: Seq<(String, String)>) -> Seq<(Seq<char>, Seq<char>)> {
    Seq::new(entries.len(), |i: int| (entries[i].0@, entries[i].1@))
}

/// Calls `serde_json::from_str` for a `BTreeMap<String, String>` and hands
/// out the entries of the map in its order. The contract gives the outcome
/// its name and claims nothing else.
#[verifier::external_body]
fn parse_entries(text: &str) -> (parsed: Result<Vec<(String, String)>, serde_json::Error>)
    ensures
        json_string_entries(text@) == match parsed {
            Ok(entries) => Some(entries_view(entries@)),
            Err(_) => None,
        },
{
    serde_json::from_str::<BTreeMap<String, String>>(text).map(|map| map.into_iter().collect())
}

/// Calls `HeaderName::from_str` and hands out the name as text. The
/// contract gives the outcome its name and claims nothing else.
#[verifier::external_body]
fn parse_header_name(key: &str) -> (parsed: Result<String, reqwest::header::InvalidHeaderName>)
    ensures
        header_name_of(key@) == match parsed {
            Ok(name) => Some(name@),
            Err(_) => None,
        },
{
    reqwest::header::HeaderName::from_str(key).map(|name| name.as_str().to_owned())
}

/// Calls `HeaderValue::from_str`, which accepts a text if and only if
/// each of its bytes is at least 32 and not 127, or is 9. Every byte of a
/// character beyond ASCII is above 127, so the same holds character by
/// character.
#[verifier::external_body]
fn parse_header_value(value: &str) -> (parsed: Result<(), reqwest::header::InvalidHeaderValue>)
    ensures
        parsed is Ok <==> is_header_value(value@),
{
    reqwest::header::HeaderValue::from_str(value).map(|_| ())
}

/// One header.
#[derive(Debug)]
pub struct Header {
    /// The name, in its normal form.
    pub name: String,
    pub value: String,
}

impl View for Header {
    type V = (Seq<char>, Seq<char>);

    open spec fn view(&self) -> (Seq<char>, Seq<char>) {
        (self.name@, self.value@)
    }
}

/// Why a text gives no headers.
#[derive(Debug)]
pub enum HeaderError {
    /// The text is not a JSON object whose values are all strings.
    Malformed,
    /// The entry under `key` has a key that cannot be a header name.
    InvalidName { key: String },
    /// The entry under `key` has a value that cannot be a header value.
    InvalidValue { key: String },
}

/// What a header error holds.
pub enum HeaderFault {
    Malformed,
    InvalidName { key: Seq<char> },
    InvalidValue { key: Seq<char> },
}

impl View for HeaderError {
    type V = HeaderFault;

    open spec fn view(&self) -> HeaderFault {
        match *self {
            HeaderError::Malformed => HeaderFault::Malformed,
            HeaderError::InvalidName { key } => HeaderFault::InvalidName { key: key@ },
            HeaderError::InvalidValue { key } => HeaderFault::InvalidValue { key: key@ },
        }
    }
}

/// The header of one entry, given what became of its key as a header name
/// and whether its value can be a header value. The name is looked at
/// first.
pub open spec fn judged(
    key: Seq<char>,
    name: Option<Seq<char>>,
    value: Seq<char>,
    value_ok: bool,
) -> Result<(Seq<char>, Seq<char>), HeaderFault> {
    match name {
        None => Err(HeaderFault::InvalidName { key }),
        Some(name) => if value_ok {
            Ok((name, value))
        } else {
            Err(HeaderFault::InvalidValue { key })
        },
    }
}

/// The header of one entry.
pub open spec fn entry_header(entry: (Seq<char>, Seq<char>)) -> Result<
    (Seq<char>, Seq<char>),
    HeaderFault,
> {
    judged(entry.0, header_name_of(entry.0), entry.1, is_header_value(entry.1))
}

/// The headers of all entries in order, or the fault of the first entry
/// that has one.
pub open spec fn collected(entries: Seq<(Seq<char>, Seq<char>)>) -> Result<
    Seq<(Seq<char>, Seq<char>)>,
    HeaderFault,
>
    decreases entries.len(),
{
    if entries.len() == 0 {
        Ok(Seq::empty())
    } else {
        match collected(entries.drop_last()) {
            Err(fault) => Err(fault),
            Ok(headers) => match entry_header(entries.last()) {
                Err(fault) => Err(fault),
                Ok(header) => Ok(headers.push(header)),
            },
        }
    }
}

/// The headers as pairs of texts.
pub open spec fn headers_view(headers: Seq<Header>) -> Seq<(Seq<char>, Seq<char>)> {
    Seq::new(headers.len(), |i: int| headers[i]@)
}

/// What a result of building headers holds.
pub open spec fn built_view(built: Result<Vec<Header>, HeaderError>) -> Result<
    Seq<(Seq<char>, Seq<char>)>,
    HeaderFault,
> {
    match built {
        Ok(headers) => Ok(headers_view(headers@)),
        Err(error) => Err(error@),
    }
}

/// A text that may be absent.
pub open spec fn text_view(text: Option<String>) -> Option<Seq<char>> {
    match text {
        Some(t) => Some(t@),
        None => None,
    }
}

/// What the result for one entry holds.
pub open spec fn judged_view(header: Result<Header, HeaderError>) -> Result<
    (Seq<char>, Seq<char>),
    HeaderFault,
> {
    match header {
        Ok(h) => Ok(h@),
        Err(e) => Err(e@),
    }
}

/// Makes the header of one entry from what became of its key as a header
/// name and of its value as a header value.
pub fn judge_entry(key: String, name: Option<String>, value: String, value_ok: bool) -> (header:
    Result<Header, HeaderError>)
    ensures
        judged_view(header) == judged(key@, text_view(name), value@, value_ok),
{
    match name {
        None => Err(HeaderError::InvalidName { key }),
        Some(name) => {
            if value_ok {
                Ok(Header { name, value })
            } else {
                Err(HeaderError::InvalidValue { key })
            }
        },
    }
}

/// Turns the entries of the headers field into headers, in order, and
/// stops at the first entry whose key or value cannot be sent.
pub fn collect_headers(entries: Vec<(String, String)>) -> (built: Result<Vec<Header>, HeaderError>)
    ensures
        built_view(built) == collected(entries_view(entries@)),
{
    let mut headers: Vec<Header> = Vec::new();
    let mut i: usize = 0;
    assert(headers_view(headers@) == Seq::<(Seq<char>, Seq<char>)>::empty());
    while i < entries.len()
        invariant
            i <= entries.len(),
            collected(entries_view(entries@).take(i as int)) == Ok::<
                Seq<(Seq<char>, Seq<char>)>,
                HeaderFault,
            >(headers_view(headers@)),
        decreases entries.len() - i,
    {
        let ghost all = entries_view(entries@);
        assert(all.take(i + 1).drop_last() == all.take(i as int));
        let key = entries[i].0.clone();
        let value = entries[i].1.clone();
        let name = match parse_header_name(key.as_str()) {
            Ok(name) => Some(name),
            Err(_) => None,
        };
        let value_ok = parse_header_value(value.as_str()).is_ok();
        match judge_entry(key, name, value, value_ok) {
            Ok(header) => {
                let ghost before = headers_view(headers@);
                headers.push(header);
                assert(headers_view(headers@) == before.push(header@));
            },
            Err(error) => {
                proof {
                    lemma_fault_stays(all, i + 1);
                }
                return Err(error);
            },
        }
        i = i + 1;
    }
    assert(entries_view(entries@).take(i as int) == entries_view(entries@));
    Ok(headers)
}

/// A fault among the first entries is the fault of the whole.
proof fn lemma_fault_stays(entries: Seq<(Seq<char>, Seq<char>)>, k: int)
    requires
        0 <= k <= entries.len(),
        collected(entries.take(k)) is Err,
    ensures
        collected(entries) == collected(entries.take(k)),
    decreases entries.len() - k,
{
    if k == entries.len() {
        assert(entries.take(k) == entries);
    } else {
        assert(entries.take(k + 1).drop_last() == entries.take(k));
        lemma_fault_stays(entries, k + 1);
    }
}

/// The headers that a text stands for, where it stands for any.
pub open spec fn headers_of(text: Seq<char>) -> Result<Seq<(Seq<char>, Seq<char>)>, HeaderFault> {
    match json_string_entries(text) {
        None => Err(HeaderFault::Malformed),
        Some(entries) => collected(entries),
    }
}

/// Reads the text of the headers field: a JSON object that gives each
/// header under its name.
pub fn build_headers(headers: &str) -> (built: Result<Vec<Header>, HeaderError>)
    ensures
        built_view(built) == headers_of(headers@),
{
    match parse_entries(headers) {
        Ok(entries) => collect_headers(entries),
        Err(_) => Err(HeaderError::Malformed),
    }
}

} // verus!
