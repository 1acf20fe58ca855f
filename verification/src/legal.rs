//! Legal document versions and the discriminators stored with each
//! acceptance.
//!
//! The version strings here are the single source of truth on the backend
//! side. A minor revision is published under a new version number that is
//! added to the valid list, so nobody is prompted again; a material revision
//! removes the superseded versions, which forces every user to accept again.
use vstd::prelude::*;
use crate::text::str_eq;

verus! {

pub const CURRENT_TERMS_VERSION: &'static str = "1.0";
pub const CURRENT_PRIVACY_VERSION: &'static str = "1.0";

/// RFC 3339 instant at which a pending material revision starts being
/// enforced. `None` means no revision is pending.
pub const LEGAL_EFFECTIVE_AT: Option<&'static str> = None;

/// Which legal text an acceptance row refers to.
///
/// The privacy policy is acknowledged, not consented to: the row is evidence
/// that the information was provided.
#[derive(Debug, Clone, Copy, PartialEq, Eq, Structural, Hash)]
pub enum LegalDocument {
    Terms,
    Privacy,
}

/// How an acceptance was obtained.
#[derive(Debug, Clone, Copy, PartialEq, Eq, Structural)]
pub enum AcceptanceMethod {
    /// Checkbox at registration.
    Explicit,
    /// Continued use after the notice period.
    Tacit,
    /// Instance operator, recorded at setup.
    Operator,
}

impl AcceptanceMethod {
    pub open spec fn text(self) -> Seq<char> {
        match self {
            Self::Explicit => "explicit"@,
            Self::Tacit => "tacit"@,
            Self::Operator => "operator"@,
        }
    }

    pub fn as_str(self) -> (s: &'static str)
        ensures
            s@ == self.text(),
    {
        match self {
            Self::Explicit => "explicit",
            Self::Tacit => "tacit",
            Self::Operator => "operator",
        }
    }
}

/// The versions of the terms still considered valid.
pub open spec fn valid_terms_versions() -> Seq<Seq<char>> {
    seq!["1.0"@]
}

/// The versions of the privacy policy still considered valid.
pub open spec fn valid_privacy_versions() -> Seq<Seq<char>> {
    seq!["1.0"@]
}

impl LegalDocument {
    /// Both documents, in a fixed order.
    pub fn all() -> (docs: [LegalDocument; 2])
        ensures
            docs@ == seq![LegalDocument::Terms, LegalDocument::Privacy],
    {
        [LegalDocument::Terms, LegalDocument::Privacy]
    }

    pub open spec fn text(self) -> Seq<char> {
        match self {
            Self::Terms => "terms"@,
            Self::Privacy => "privacy"@,
        }
    }

    pub open spec fn from_text(s: Seq<char>) -> Option<LegalDocument> {
        if s == "terms"@ {
            Some(Self::Terms)
        } else if s == "privacy"@ {
            Some(Self::Privacy)
        } else {
            None
        }
    }

    pub open spec fn current(self) -> Seq<char> {
        match self {
            Self::Terms => CURRENT_TERMS_VERSION@,
            Self::Privacy => CURRENT_PRIVACY_VERSION@,
        }
    }

    pub open spec fn valid(self) -> Seq<Seq<char>> {
        match self {
            Self::Terms => valid_terms_versions(),
            Self::Privacy => valid_privacy_versions(),
        }
    }

    pub fn as_str(self) -> (s: &'static str)
        ensures
            s@ == self.text(),
    {
        match self {
            Self::Terms => "terms",
            Self::Privacy => "privacy",
        }
    }

    /// Returns `None` for an unknown value rather than erroring: an
    /// unrecognised string is treated as an absent acceptance, which means
    /// re-acceptance is required.
    pub fn parse(value: &str) -> (r: Option<Self>)
        ensures
            r == Self::from_text(value@),
    {
        if str_eq(value, "terms") {
            Some(Self::Terms)
        } else if str_eq(value, "privacy") {
            Some(Self::Privacy)
        } else {
            None
        }
    }

    pub fn current_version(self) -> (s: &'static str)
        ensures
            s@ == self.current(),
    {
        match self {
            Self::Terms => CURRENT_TERMS_VERSION,
            Self::Privacy => CURRENT_PRIVACY_VERSION,
        }
    }

    pub fn valid_versions(self) -> (v: Vec<&'static str>)
        ensures
            v@.len() == self.valid().len(),
            forall|i: int| 0 <= i < v@.len() ==> #[trigger] v@[i]@ == self.valid()[i],
    {
        let mut v: Vec<&'static str> = Vec::new();
        v.push("1.0");
        v
    }

    pub fn is_valid(self, version: &str) -> (b: bool)
        ensures
            b == self.valid().contains(version@),
    {
        let versions = self.valid_versions();
        let mut i: usize = 0;
        while i < versions.len()
            invariant
                i <= versions@.len(),
                versions@.len() == self.valid().len(),
                forall|k: int| 0 <= k < versions@.len() ==> #[trigger] versions@[k]@ == self.valid()[k],
                forall|k: int| 0 <= k < i ==> self.valid()[k] != version@,
            decreases versions@.len() - i,
        {
            if str_eq(versions[i], version) {
                assert(self.valid()[i as int] == version@);
                return true;
            }
            i = i + 1;
        }
        false
    }
}

/// Parsing the text of a document gives that document back.
pub proof fn legal_document_round_trip(d: LegalDocument)
    ensures
        LegalDocument::from_text(d.text()) == Some(d),
{
    reveal_strlit("terms");
    reveal_strlit("privacy");
    assert("terms"@.len() == 5);
    assert("privacy"@.len() == 7);
}

/// The version currently published for a document is always one of its
/// valid versions: whoever accepts what is shown is up to date.
pub proof fn current_version_is_valid(d: LegalDocument)
    ensures
        d.valid().contains(d.current()),
{
    assert(d.valid()[0] == d.current());
}

} // verus!
