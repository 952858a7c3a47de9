//! The formats in which the financial regulator's service answers.

use vstd::prelude::*;
use vstd::std_specs::convert::TryFromSpecImpl;
use crate::errors::{ClientError, ClientFault};
use crate::response_format::{format_key, push_quoted, quoted};
use crate::text::{same_text, to_lowercase, trim};

verus! {

/// A response format of the financial regulator's service.
#[derive(Debug, Clone, Copy, PartialEq, Eq, Structural)]
pub enum CmfResponseFormat {
    Json,
    Xml,
}

impl CmfResponseFormat {
    /// The name of the format.
    pub open spec fn name(self) -> Seq<char> {
        match self {
            CmfResponseFormat::Json => "json"@,
            CmfResponseFormat::Xml => "xml"@,
        }
    }

    /// Every format, in the order of declaration.
    pub open spec fn all() -> Seq<CmfResponseFormat> {
        seq![CmfResponseFormat::Json, CmfResponseFormat::Xml]
    }

    /// The format that a key names.
    pub open spec fn of_key(key: Seq<char>) -> Option<CmfResponseFormat> {
        if key == CmfResponseFormat::Json.name() {
            Some(CmfResponseFormat::Json)
        } else if key == CmfResponseFormat::Xml.name() {
            Some(CmfResponseFormat::Xml)
        } else {
            None
        }
    }

    /// The names of all formats, each between single quotes, with a comma
    /// and a space between two of them.
    pub open spec fn values_text() -> Seq<char> {
        quoted(CmfResponseFormat::Json.name()) + seq![',', ' '] + quoted(CmfResponseFormat::Xml.name())
    }

    /// What converting a name gives: the format of its key, or an error
    /// that carries the names of all formats and the name as given.
    pub open spec fn parse_outcome(name: Seq<char>) -> Result<CmfResponseFormat, ClientFault> {
        match CmfResponseFormat::of_key(format_key(name)) {
            Some(format) => Ok(format),
            None => Err(
                ClientFault::UnsupportedFormat {
                    expected: CmfResponseFormat::values_text(),
                    actual: name,
                },
            ),
        }
    }

    /// What converting an optional name gives: a missing name stands for
    /// the default format.
    pub open spec fn parse_option_outcome(name: Option<Seq<char>>) -> Result<
        CmfResponseFormat,
        ClientFault,
    > {
        match name {
            Some(s) => CmfResponseFormat::parse_outcome(s),
            None => Ok(CmfResponseFormat::Json),
        }
    }

    /// The view of a conversion result.
    pub open spec fn result_view(r: Result<CmfResponseFormat, ClientError>) -> Result<
        CmfResponseFormat,
        ClientFault,
    > {
        match r {
            Ok(format) => Ok(format),
            Err(e) => Err(e@),
        }
    }

    /// The two names differ, so a key names at most one format, and each
    /// format is the one that its own name names.
    pub proof fn lemma_names_distinct(self)
        ensures
            CmfResponseFormat::Json.name() != CmfResponseFormat::Xml.name(),
            CmfResponseFormat::of_key(self.name()) == Some(self),
    {
        reveal_strlit("json");
        reveal_strlit("xml");
        assert("json"@.len() == 4 && "xml"@.len() == 3);
    }

    /// The name of the format.
    pub fn as_str(&self) -> (s: &'static str)
        ensures
            s@ == self.name(),
    {
        match self {
            CmfResponseFormat::Json => "json",
            CmfResponseFormat::Xml => "xml",
        }
    }

    /// Every format, in the order of declaration.
    pub fn iter() -> (all: Vec<CmfResponseFormat>)
        ensures
            all@ == CmfResponseFormat::all(),
    {
        let mut all: Vec<CmfResponseFormat> = Vec::new();
        all.push(CmfResponseFormat::Json);
        all.push(CmfResponseFormat::Xml);
        proof {
            assert(all@ =~= CmfResponseFormat::all());
        }
        all
    }

    /// The names of all formats, each between single quotes, separated by
    /// a comma and a space.
    pub fn values() -> (s: String)
        ensures
            s@ == CmfResponseFormat::values_text(),
            s@ == "'json', 'xml'"@,
    {
        let all = CmfResponseFormat::iter();
        let mut s = String::new();
        let mut i: usize = 0;
        while i < all.len()
            invariant
                all@ == CmfResponseFormat::all(),
                i <= 2,
                s@ == if i == 0 {
                    Seq::<char>::empty()
                } else if i == 1 {
                    quoted(CmfResponseFormat::Json.name())
                } else {
                    CmfResponseFormat::values_text()
                },
            decreases all.len() - i,
        {
            if i > 0 {
                s.push(',');
                s.push(' ');
            }
            push_quoted(&mut s, all[i].as_str());
            proof {
                if i == 0 {
                    assert(s@ =~= quoted(CmfResponseFormat::Json.name()));
                } else {
                    assert(s@ =~= CmfResponseFormat::values_text());
                }
            }
            i = i + 1;
        }
        proof {
            reveal_strlit("json");
            reveal_strlit("xml");
            reveal_strlit("'json', 'xml'");
            assert(CmfResponseFormat::values_text() =~= "'json', 'xml'"@);
        }
        s
    }

    /// The format that `key` names, letter for letter.
    pub fn from_key(key: &str) -> (out: Option<CmfResponseFormat>)
        ensures
            out == CmfResponseFormat::of_key(key@),
    {
        if same_text(key, "json") {
            Some(CmfResponseFormat::Json)
        } else if same_text(key, "xml") {
            Some(CmfResponseFormat::Xml)
        } else {
            None
        }
    }
}

impl Default for CmfResponseFormat {
    fn default() -> (format: CmfResponseFormat)
        ensures
            format == CmfResponseFormat::Json,
    {
        CmfResponseFormat::Json
    }
}

impl<'a> TryFrom<&'a str> for CmfResponseFormat {
    type Error = ClientError;

    /// Finds the format that a name stands for, whatever its case and the
    /// white space around it.
    fn try_from(s: &'a str) -> (out: Result<CmfResponseFormat, ClientError>)
        ensures
            CmfResponseFormat::result_view(out) == CmfResponseFormat::parse_outcome(s@),
    {
        let lowered = to_lowercase(s);
        match CmfResponseFormat::from_key(trim(lowered.as_str())) {
            Some(format) => Ok(format),
            None => Err(
                ClientError::UnsupportedFormat {
                    expected: CmfResponseFormat::values(),
                    actual: s.to_owned(),
                },
            ),
        }
    }
}

/// The conversion is specified by the `ensures` of `try_from`, over views:
/// an error holds strings, which a spec function cannot make.
impl<'a> TryFromSpecImpl<&'a str> for CmfResponseFormat {
    open spec fn obeys_try_from_spec() -> bool {
        false
    }

    open spec fn try_from_spec(s: &'a str) -> Result<CmfResponseFormat, ClientError> {
        arbitrary()
    }
}

impl<'a> TryFrom<Option<&'a str>> for CmfResponseFormat {
    type Error = ClientError;

    /// Finds the format that an optional name stands for; a missing name
    /// stands for the default format.
    fn try_from(opt: Option<&'a str>) -> (out: Result<CmfResponseFormat, ClientError>)
        ensures
            CmfResponseFormat::result_view(out) == CmfResponseFormat::parse_option_outcome(
                match opt {
                    Some(s) => Some(s@),
                    None => None,
                },
            ),
    {
        match opt {
            Some(s) => CmfResponseFormat::try_from(s),
            None => Ok(CmfResponseFormat::default()),
        }
    }
}

/// The conversion is specified by the `ensures` of `try_from`, over views.
impl<'a> TryFromSpecImpl<Option<&'a str>> for CmfResponseFormat {
    open spec fn obeys_try_from_spec() -> bool {
        false
    }

    open spec fn try_from_spec(opt: Option<&'a str>) -> Result<CmfResponseFormat, ClientError> {
        arbitrary()
    }
}

} // verus!
