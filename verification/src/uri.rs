//! Parsing resource addresses of the form `scheme://project/phase/name`.
use vstd::prelude::*;

verus! {

/// Why an address was rejected.
#[derive(Debug, PartialEq, Eq, Structural)]
pub enum UriError {
    /// No `scheme:` prefix at all.
    Malformed,
    /// No `//host` part, or an empty host.
    InvalidProject,
    /// No path segment after the host.
    MissingPhase,
    /// No second path segment.
    MissingName,
}

impl UriError {
    /// The message carried by the request-level error.
    pub fn message(&self) -> (r: &'static str)
        ensures
            r@ == spec_uri_error_message(*self),
    {
        match self {
            UriError::Malformed => "Invalid URI",
            UriError::InvalidProject => "Invalid project in URI",
            UriError::MissingPhase => "Missing phase in URI",
            UriError::MissingName => "Missing doc_name in URI",
        }
    }
}

pub open spec fn spec_uri_error_message(e: UriError) -> Seq<char> {
    match e {
        UriError::Malformed => "Invalid URI"@,
        UriError::InvalidProject => "Invalid project in URI"@,
        UriError::MissingPhase => "Missing phase in URI"@,
        UriError::MissingName => "Missing doc_name in URI"@,
    }
}

/// The first position of `c` in `s` at or after `from`.
pub open spec fn spec_find_char(s: Seq<char>, c: char, from: int) -> Option<int>
    decreases s.len() - from,
{
    if from < 0 || from >= s.len() {
        None
    } else if s[from] == c {
        Some(from)
    } else {
        spec_find_char(s, c, from + 1)
    }
}

fn find_char(s: &str, c: char, from: usize) -> (r: Option<usize>)
    requires
        from <= s@.len(),
    ensures
        match r {
            Some(i) => spec_find_char(s@, c, from as int) == Some(i as int) && from <= i < s@.len(),
            None => spec_find_char(s@, c, from as int) is None,
        },
{
    let len = s.unicode_len();
    let mut i: usize = from;
    while i < len
        invariant
            from <= i <= len,
            len == s@.len(),
            spec_find_char(s@, c, from as int) == spec_find_char(s@, c, i as int),
        decreases len - i,
    {
        if s.get_char(i) == c {
            return Some(i);
        }
        i += 1;
    }
    None
}

/// What an address parses to: the project (the host part), the phase (the
/// first path segment) and the document name (the second; later segments are
/// ignored). The host must be non-empty; path segments may be empty and are
/// then looked up as empty names.
pub open spec fn spec_parse_uri(s: Seq<char>) -> Result<(Seq<char>, Seq<char>, Seq<char>), UriError> {
    match spec_find_char(s, ':', 0) {
        None => Err(UriError::Malformed),
        Some(i) => {
            if i == 0 {
                Err(UriError::Malformed)
            } else if !(i + 2 < s.len() && s[i + 1] == '/' && s[i + 2] == '/') {
                Err(UriError::InvalidProject)
            } else {
                let hstart = i + 3;
                match spec_find_char(s, '/', hstart) {
                    None => {
                        if s.len() == hstart {
                            Err(UriError::InvalidProject)
                        } else {
                            Err(UriError::MissingPhase)
                        }
                    },
                    Some(h) => {
                        if h == hstart {
                            Err(UriError::InvalidProject)
                        } else {
                            let pstart = h + 1;
                            match spec_find_char(s, '/', pstart) {
                                None => Err(UriError::MissingName),
                                Some(p) => {
                                    let nstart = p + 1;
                                    let name = match spec_find_char(s, '/', nstart) {
                                        None => s.subrange(nstart, s.len() as int),
                                        Some(q) => s.subrange(nstart, q),
                                    };
                                    Ok((s.subrange(hstart, h), s.subrange(pstart, p), name))
                                },
                            }
                        }
                    },
                }
            }
        },
    }
}

/// Parses a resource address, exactly as `spec_parse_uri` states.
pub fn parse_uri(s: &str) -> (r: Result<(String, String, String), UriError>)
    ensures
        match r {
            Ok(t) => spec_parse_uri(s@) == Ok::<_, UriError>((t.0@, t.1@, t.2@)),
            Err(e) => spec_parse_uri(s@) == Err::<(Seq<char>, Seq<char>, Seq<char>), _>(e),
        },
{
    let len = s.unicode_len();
    let i = match find_char(s, ':', 0) {
        None => {
            return Err(UriError::Malformed);
        },
        Some(i) => i,
    };
    if i == 0 {
        return Err(UriError::Malformed);
    }
    if !(len - i >= 3 && s.get_char(i + 1) == '/' && s.get_char(i + 2) == '/') {
        proof {
            assert((i + 2 < s@.len()) == (len - i >= 3));
        }
        return Err(UriError::InvalidProject);
    }
    let hstart = i + 3;
    let h = match find_char(s, '/', hstart) {
        None => {
            if len == hstart {
                return Err(UriError::InvalidProject);
            } else {
                return Err(UriError::MissingPhase);
            }
        },
        Some(h) => h,
    };
    if h == hstart {
        return Err(UriError::InvalidProject);
    }
    let project = s.substring_char(hstart, h).to_owned();
    let pstart = h + 1;
    let p = match find_char(s, '/', pstart) {
        None => {
            return Err(UriError::MissingName);
        },
        Some(p) => p,
    };
    let phase = s.substring_char(pstart, p).to_owned();
    let nstart = p + 1;
    let name = match find_char(s, '/', nstart) {
        None => s.substring_char(nstart, len).to_owned(),
        Some(q) => s.substring_char(nstart, q).to_owned(),
    };
    Ok((project, phase, name))
}

} // verus!
