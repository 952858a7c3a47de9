//! The formats in which the web services answer.

use vstd::prelude::*;
use vstd::std_specs::convert::TryFromSpecImpl;
use crate::errors::{ClientError, ClientFault};
use crate::text::{lowercase_of, same_text, to_lowercase, trim, trimmed_of};

verus! {

/// A name between single quotes.
pub open spec fn quoted(name: Seq<char>) -> Seq<char> {
    seq!['\''] + name + seq!['\'']
}

/// The key under which a format name is looked up: the name in lower case,
/// without the white space around it.
pub open spec fn format_key(name: Seq<char>) -> Seq<char> {
    trimmed_of(lowercase_of(name))
}

/// Appends `name` between single quotes to `out`.
pub(crate) fn push_quoted(out: &mut String, name: &str)
    ensures
        final(out)@ == old(out)@ + quoted(name@),
{
    out.push('\'');
    out.append(name);
    out.push('\'');
    proof {
        assert(out@ =~= old(out)@ + quoted(name@));
    }
}

/// A response format of the procurement service.
#[derive(Debug, Clone, Copy, PartialEq, Eq, Structural)]
pub enum ResponseFormat {
    Json,
    Xml,
}

impl ResponseFormat {
    /// The name of the format.
    pub open spec fn name(self) -> Seq<char> {
        match self {
            ResponseFormat::Json => "json"@,
            ResponseFormat::Xml => "xml"@,
        }
    }

    /// Every format, in the order of declaration.
    pub open spec fn all() -> Seq<ResponseFormat> {
        seq![ResponseFormat::Json, ResponseFormat::Xml]
    }

    /// The format that a key names.
    pub open spec fn of_key(key: Seq<char>) -> Option<ResponseFormat> {
        if key == ResponseFormat::Json.name() {
            Some(ResponseFormat::Json)
        } else if key == ResponseFormat::Xml.name() {
            Some(ResponseFormat::Xml)
        } else {
            None
        }
    }

    /// The names of all formats, each between single quotes, with a comma
    /// and a space between two of them.
    pub open spec fn values_text() -> Seq<char> {
        quoted(ResponseFormat::Json.name()) + seq![',', ' '] + quoted(ResponseFormat::Xml.name())
    }

    /// What converting a name gives: the format of its key, or an error
    /// that carries the names of all formats and the name as given.
    pub open spec fn parse_outcome(name: Seq<char>) -> Result<ResponseFormat, ClientFault> {
        match ResponseFormat::of_key(format_key(name)) {
            Some(format) => Ok(format),
            None => Err(
                ClientFault::UnsupportedFormat {
                    expected: ResponseFormat::values_text(),
                    actual: name,
                },
            ),
        }
    }

    /// What converting an optional name gives: a missing name is refused
    /// like an unknown one, and reported as `None`.
    pub open spec fn parse_option_outcome(name: Option<Seq<char>>) -> Result<
        ResponseFormat,
        ClientFault,
    > {
        match name {
            Some(s) => ResponseFormat::parse_outcome(s),
            None => Err(
                ClientFault::UnsupportedFormat {
                    expected: ResponseFormat::values_text(),
                    actual: "None"@,
                },
            ),
        }
    }

    /// The view of a conversion result.
    pub open spec fn result_view(r: Result<ResponseFormat, ClientError>) -> Result<
        ResponseFormat,
        ClientFault,
    > {
        match r {
            Ok(format) => Ok(format),
            Err(e) => Err(e@),
        }
    }

    /// The two names differ, so a key names at most one format, and each
    /// format is the one that its own name names.
    pub proof fn lemma_names_distinct(self)
        ensures
            ResponseFormat::Json.name() != ResponseFormat::Xml.name(),
            ResponseFormat::of_key(self.name()) == Some(self),
    {
        reveal_strlit("json");
        reveal_strlit("xml");
        assert("json"@.len() == 4 && "xml"@.len() == 3);
    }

    /// The name of the format.
    pub fn as_str(&self) -> (s: &'static str)
        ensures
            s@ == self.name(),
    {
        match self {
            ResponseFormat::Json => "json",
            ResponseFormat::Xml => "xml",
        }
    }

    /// Every format, in the order of declaration.
    pub fn iter() -> (all: Vec<ResponseFormat>)
        ensures
            all@ == ResponseFormat::all(),
    {
        let mut all: Vec<ResponseFormat> = Vec::new();
        all.push(ResponseFormat::Json);
        all.push(ResponseFormat::Xml);
        proof {
            assert(all@ =~= ResponseFormat::all());
        }
        all
    }

    /// The names of all formats, each between single quotes, separated by
    /// a comma and a space.
    pub fn values() -> (s: String)
        ensures
            s@ == ResponseFormat::values_text(),
            s@ == "'json', 'xml'"@,
    {
        let all = ResponseFormat::iter();
        let mut s = String::new();
        let mut i: usize = 0;
        while i < all.len()
            invariant
                all@ == ResponseFormat::all(),
                i <= 2,
                s@ == if i == 0 {
                    Seq::<char>::empty()
                } else if i == 1 {
                    quoted(ResponseFormat::Json.name())
                } else {
                    ResponseFormat::values_text()
                },
            decreases all.len() - i,
        {
            if i > 0 {
                s.push(',');
                s.push(' ');
            }
            push_quoted(&mut s, all[i].as_str());
            proof {
                if i == 0 {
                    assert(s@ =~= quoted(ResponseFormat::Json.name()));
                } else {
                    assert(s@ =~= ResponseFormat::values_text());
                }
            }
            i = i + 1;
        }
        proof {
            reveal_strlit("json");
            reveal_strlit("xml");
            reveal_strlit("'json', 'xml'");
            assert(ResponseFormat::values_text() =~= "'json', 'xml'"@);
        }
        s
    }

    /// The format that `key` names, letter for letter.
    pub fn from_key(key: &str) -> (out: Option<ResponseFormat>)
        ensures
            out == ResponseFormat::of_key(key@),
    {
        if same_text(key, "json") {
            Some(ResponseFormat::Json)
        } else if same_text(key, "xml") {
            Some(ResponseFormat::Xml)
        } else {
            None
        }
    }
}

impl Default for ResponseFormat {
    fn default() -> (format: ResponseFormat)
        ensures
            format == ResponseFormat::Json,
    {
        ResponseFormat::Json
    }
}

impl<'a> TryFrom<&'a str> for ResponseFormat {
    type Error = ClientError;

    /// Finds the format that a name stands for, whatever its case and the
    /// white space around it.
    fn try_from(s: &'a str) -> (out: Result<ResponseFormat, ClientError>)
        ensures
            ResponseFormat::result_view(out) == ResponseFormat::parse_outcome(s@),
    {
        let lowered = to_lowercase(s);
        match ResponseFormat::from_key(trim(lowered.as_str())) {
            Some(format) => Ok(format),
            None => Err(
                ClientError::UnsupportedFormat {
                    expected: ResponseFormat::values(),
                    actual: s.to_owned(),
                },
            ),
        }
    }
}

/// The conversion is specified by the `ensures` of `try_from`, over views:
/// an error holds strings, which a spec function cannot make.
impl<'a> TryFromSpecImpl<&'a str> for ResponseFormat {
    open spec fn obeys_try_from_spec() -> bool {
        false
    }

    open spec fn try_from_spec(s: &'a str) -> Result<ResponseFormat, ClientError> {
        arbitrary()
    }
}

impl<'a> TryFrom<Option<&'a str>> for ResponseFormat {
    type Error = ClientError;

    /// Finds the format that an optional name stands for; a missing name
    /// stands for none.
    fn try_from(opt: Option<&'a str>) -> (out: Result<ResponseFormat, ClientError>)
        ensures
            ResponseFormat::result_view(out) == ResponseFormat::parse_option_outcome(
                match opt {
                    Some(s) => Some(s@),
                    None => None,
                },
            ),
    {
        match opt {
            Some(s) => ResponseFormat::try_from(s),
            None => Err(
                ClientError::UnsupportedFormat {
                    expected: ResponseFormat::values(),
                    actual: "None".to_owned(),
                },
            ),
        }
    }
}

/// The conversion is specified by the `ensures` of `try_from`, over views.
impl<'a> TryFromSpecImpl<Option<&'a str>> for ResponseFormat {
    open spec fn obeys_try_from_spec() -> bool {
        false
    }

    open spec fn try_from_spec(opt: Option<&'a str>) -> Result<ResponseFormat, ClientError> {
        arbitrary()
    }
}

} // verus!
