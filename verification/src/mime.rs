use vstd::prelude::*;

use vstd::string::StrSliceExecFns;

verus! {

/// What this crate reads of a parsed media type: its type and subtype, as
/// the parser normalized them. The parser itself, with its grammar and its
/// parameter handling, stays in the media-type crate; this is the plain
/// model of its result.
#[derive(Debug, Clone, PartialEq, Eq)]
pub struct MimeEssence {
    pub top: String,
    pub sub: String,
}

/// The (type, subtype) pair that parsing a string as a media type yields, or
/// `None` when the string is not a valid media type. A deterministic
/// function of the input alone.
pub uninterp spec fn mime_parse(s: Seq<char>) -> Option<(Seq<char>, Seq<char>)>;

/// Relies on mime::Mime's FromStr parser and its type_/subtype accessors:
/// the outcome is a deterministic function of the input string.
#[verifier::external_body]
fn parse_mime(s: &str) -> (r: Result<MimeEssence, ()>)
    ensures
        (r is Ok) == (mime_parse(s@) is Some),
        r matches Ok(m) ==> mime_parse(s@) == Some((m.top@, m.sub@)),
{
    match s.parse::<mime::Mime>() {
        Ok(m) => Ok(
            MimeEssence {
                top: m.type_().as_str().to_string(),
                sub: m.subtype().as_str().to_string(),
            },
        ),
        Err(_) => Err(()),
    }
}

/// A request header that does not parse; carries the header's name.
#[derive(Debug, Clone, PartialEq, Eq)]
pub struct InvalidHeaderValue {
    pub header: String,
}

/// The parsed `Content-Type` header of a request, when one was present.
#[derive(Debug)]
pub struct ContentType(pub Option<MimeEssence>);

/// The media types a request's `Accept` header lists, in header order;
/// empty when the request carried no `Accept` header.
#[derive(Debug)]
pub struct Accept(pub Vec<MimeEssence>);

/// The header-processing step of the request pipeline.
#[derive(Debug, Clone, Copy)]
pub struct MimeProcess;

/// Optional whitespace as HTTP field values may carry it around list
/// elements: space and horizontal tab.
pub open spec fn is_ows(c: char) -> bool {
    c == ' ' || c == '\t'
}

pub open spec fn trim_front(s: Seq<char>) -> Seq<char>
    decreases s.len(),
{
    if s.len() > 0 && is_ows(s[0]) {
        trim_front(s.drop_first())
    } else {
        s
    }
}

pub open spec fn trim_back(s: Seq<char>) -> Seq<char>
    decreases s.len(),
{
    if s.len() > 0 && is_ows(s[s.len() - 1]) {
        trim_back(s.drop_last())
    } else {
        s
    }
}

/// A list element with its optional surrounding whitespace removed.
pub open spec fn spec_trim(s: Seq<char>) -> Seq<char> {
    trim_back(trim_front(s))
}

/// How a header value splits at commas: one (possibly empty) element more
/// than there are commas, in order. A value without commas is one element.
pub open spec fn spec_split_commas(s: Seq<char>) -> Seq<Seq<char>>
    decreases s.len(),
{
    if s.len() == 0 {
        seq![Seq::<char>::empty()]
    } else if s[s.len() - 1] == ',' {
        spec_split_commas(s.drop_last()).push(Seq::<char>::empty())
    } else {
        let rest = spec_split_commas(s.drop_last());
        rest.update(rest.len() - 1, rest.last().push(s[s.len() - 1]))
    }
}

/// Splits a header value at its commas. Elements keep their surrounding
/// whitespace; trimming is the consumer's step.
fn split_commas<'a>(s: &'a str) -> (r: Vec<&'a str>)
    ensures
        r@.map_values(|p: &str| p@) == spec_split_commas(s@),
{
    let n = s.unicode_len();
    let mut out: Vec<&'a str> = Vec::new();
    let mut start: usize = 0;
    let mut i: usize = 0;
    proof {
        assert(s@.subrange(0, 0) =~= Seq::<char>::empty());
        assert(spec_split_commas(s@.subrange(0, 0)) =~~= out@.map_values(|p: &str| p@).push(
            s@.subrange(0, 0),
        ));
    }
    while i < n
        invariant
            n == s@.len(),
            0 <= start <= i <= n,
            spec_split_commas(s@.subrange(0, i as int)) =~~= out@.map_values(
                |p: &str| p@,
            ).push(s@.subrange(start as int, i as int)),
        decreases n - i,
    {
        proof {
            assert(s@.subrange(0, i + 1).drop_last() =~= s@.subrange(0, i as int));
        }
        if s.get_char(i) == ',' {
            out.push(s.substring_char(start, i));
            start = i + 1;
            proof {
                assert(out@.map_values(|p: &str| p@) =~~= spec_split_commas(
                    s@.subrange(0, i as int),
                ));
                assert(s@.subrange(start as int, i + 1) =~= Seq::<char>::empty());
                assert(spec_split_commas(s@.subrange(0, i + 1)) =~~= out@.map_values(
                    |p: &str| p@,
                ).push(s@.subrange(start as int, i + 1)));
            }
        } else {
            proof {
                let prev = out@.map_values(|p: &str| p@).push(
                    s@.subrange(start as int, i as int),
                );
                assert(prev.last().push(s@[i as int]) =~= s@.subrange(start as int, i + 1));
                assert(spec_split_commas(s@.subrange(0, i + 1)) =~~= out@.map_values(
                    |p: &str| p@,
                ).push(s@.subrange(start as int, i + 1)));
            }
        }
        i = i + 1;
    }
    out.push(s.substring_char(start, n));
    proof {
        assert(s@.subrange(0, n as int) =~= s@);
        assert(out@.map_values(|p: &str| p@) =~~= spec_split_commas(s@));
    }
    out
}

/// Removes the optional whitespace around a header list element.
fn trim_ows<'a>(s: &'a str) -> (r: &'a str)
    ensures
        r@ == spec_trim(s@),
{
    let n = s.unicode_len();
    let mut start: usize = 0;
    let mut end: usize = n;
    proof {
        assert(s@.subrange(0, n as int) =~= s@);
    }
    while start < n && (s.get_char(start) == ' ' || s.get_char(start) == '\t')
        invariant
            n == s@.len(),
            0 <= start <= n,
            trim_front(s@) == trim_front(s@.subrange(start as int, n as int)),
        decreases n - start,
    {
        proof {
            assert(s@.subrange(start as int, n as int).drop_first() =~= s@.subrange(
                start + 1,
                n as int,
            ));
        }
        start = start + 1;
    }
    proof {
        assert(trim_front(s@) =~= s@.subrange(start as int, n as int));
    }
    while end > start && (s.get_char(end - 1) == ' ' || s.get_char(end - 1) == '\t')
        invariant
            n == s@.len(),
            0 <= start <= end <= n,
            trim_front(s@) == s@.subrange(start as int, n as int),
            trim_back(trim_front(s@)) == trim_back(s@.subrange(start as int, end as int)),
        decreases end,
    {
        proof {
            assert(s@.subrange(start as int, end as int).drop_last() =~= s@.subrange(
                start as int,
                end - 1,
            ));
        }
        end = end - 1;
    }
    proof {
        assert(spec_trim(s@) =~= s@.subrange(start as int, end as int));
    }
    s.substring_char(start, end)
}

/// Whether every comma-separated element of a header value, once trimmed,
/// parses as a media type.
pub open spec fn all_elements_parse(s: Seq<char>) -> bool {
    forall|i: int|
        0 <= i < spec_split_commas(s).len() ==> mime_parse(
            #[trigger] spec_trim(spec_split_commas(s)[i]),
        ) is Some
}

/// Parses a request's `Accept` header value: the value splits at commas,
/// each element is trimmed of optional whitespace and must parse as a media
/// type. Fails — naming the offending header — as soon as one element does
/// not parse.
pub fn parse_accept_header(value: &str) -> (r: Result<Accept, InvalidHeaderValue>)
    ensures
        (r is Ok) == all_elements_parse(value@),
        r matches Ok(accept) ==> {
            let elements = spec_split_commas(value@);
            &&& accept.0@.len() == elements.len()
            &&& forall|i: int|
                0 <= i < elements.len() ==> mime_parse(spec_trim(elements[i])) == Some(
                    (#[trigger] accept.0@[i].top@, accept.0@[i].sub@),
                )
        },
        r matches Err(e) ==> e.header@ == "Accept"@,
{
    let pieces = split_commas(value);
    let mut parsed: Vec<MimeEssence> = Vec::new();
    let mut j: usize = 0;
    let ghost elements = spec_split_commas(value@);
    while j < pieces.len()
        invariant
            elements == spec_split_commas(value@),
            pieces@.map_values(|p: &str| p@) == elements,
            0 <= j <= pieces.len(),
            parsed@.len() == j,
            forall|i: int|
                0 <= i < j ==> mime_parse(spec_trim(elements[i])) == Some(
                    (#[trigger] parsed@[i].top@, parsed@[i].sub@),
                ),
        decreases pieces.len() - j,
    {
        proof {
            assert(elements[j as int] == pieces@.map_values(|p: &str| p@)[j as int]);
        }
        let trimmed = trim_ows(pieces[j]);
        match parse_mime(trimmed) {
            Ok(essence) => {
                parsed.push(essence);
            },
            Err(()) => {
                proof {
                    assert(pieces@.map_values(|p: &str| p@).len() == pieces@.len());
                    assert(elements[j as int] == pieces@.map_values(|p: &str| p@)[j as int]);
                    assert(pieces@.map_values(|p: &str| p@)[j as int] == pieces@[j as int]@);
                    assert(0 <= j < spec_split_commas(value@).len());
                    assert(mime_parse(spec_trim(spec_split_commas(value@)[j as int])) is None);
                    assert(!all_elements_parse(value@));
                }
                return Err(InvalidHeaderValue { header: String::from_str("Accept") });
            },
        }
        j = j + 1;
    }
    proof {
        assert forall|i: int| 0 <= i < spec_split_commas(value@).len() implies mime_parse(
            #[trigger] spec_trim(spec_split_commas(value@)[i]),
        ) is Some by {
            assert(mime_parse(spec_trim(elements[i])) == Some((parsed@[i].top@, parsed@[i].sub@)));
        }
    }
    Ok(Accept(parsed))
}

/// Parses a request's `Content-Type` header value as a single media type,
/// trimmed of optional whitespace.
pub fn parse_content_type_header(value: &str) -> (r: Result<MimeEssence, InvalidHeaderValue>)
    ensures
        (r is Ok) == (mime_parse(spec_trim(value@)) is Some),
        r matches Ok(m) ==> mime_parse(spec_trim(value@)) == Some((m.top@, m.sub@)),
        r matches Err(e) ==> e.header@ == "Content-Type"@,
{
    let trimmed = trim_ows(value);
    match parse_mime(trimmed) {
        Ok(essence) => Ok(essence),
        Err(()) => Err(InvalidHeaderValue { header: String::from_str("Content-Type") }),
    }
}

impl MimeProcess {
    /// The header-processing step: an absent `Content-Type` is accepted as
    /// none, a present one must parse; an absent `Accept` header is the
    /// empty list, a present one must parse element by element.
    pub fn start(content_type: Option<&str>, accept: Option<&str>) -> (r: Result<
        (ContentType, Accept),
        InvalidHeaderValue,
    >)
        ensures
            r is Ok <==> (match content_type {
                Some(v) => mime_parse(spec_trim(v@)) is Some,
                None => true,
            } && match accept {
                Some(v) => all_elements_parse(v@),
                None => true,
            }),
            r matches Ok(pair) ==> (match content_type {
                Some(v) => pair.0.0 matches Some(m) && mime_parse(spec_trim(v@)) == Some(
                    (m.top@, m.sub@),
                ),
                None => pair.0.0 is None,
            }),
            r matches Ok(pair) ==> (match accept {
                Some(v) => {
                    let elements = spec_split_commas(v@);
                    &&& pair.1.0@.len() == elements.len()
                    &&& forall|i: int|
                        0 <= i < elements.len() ==> mime_parse(spec_trim(elements[i])) == Some(
                            (#[trigger] pair.1.0@[i].top@, pair.1.0@[i].sub@),
                        )
                },
                None => pair.1.0@.len() == 0,
            }),
            r matches Err(e) ==> ((match content_type {
                Some(v) => mime_parse(spec_trim(v@)) is None,
                None => false,
            }) ==> e.header@ == "Content-Type"@),
            r matches Err(e) ==> ((match content_type {
                Some(v) => mime_parse(spec_trim(v@)) is Some,
                None => true,
            }) ==> e.header@ == "Accept"@),
    {
        let parsed_content_type = match content_type {
            Some(value) => match parse_content_type_header(value) {
                Ok(essence) => ContentType(Some(essence)),
                Err(e) => {
                    return Err(e);
                },
            },
            None => ContentType(None),
        };
        let parsed_accept = match accept {
            Some(value) => match parse_accept_header(value) {
                Ok(accept) => accept,
                Err(e) => {
                    return Err(e);
                },
            },
            None => Accept(Vec::new()),
        };
        Ok((parsed_content_type, parsed_accept))
    }
}

} // verus!
