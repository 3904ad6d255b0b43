//! The overviews catalog: what becomes of the overviews of the source.

use crate::errors::{CoggeratorError, ErrorKind};
use crate::options::CreationOption;
use crate::text::same_text;
use vstd::prelude::*;

verus! {

/// How the engine treats overviews when it writes the output.
#[derive(Debug, Clone, Copy, PartialEq, Eq, Structural)]
pub enum OverviewsOption {
    Auto,
    IgnoreExisting,
    ForceUseExisting,
    NoOverviews,
}

impl OverviewsOption {
    /// The key under which the engine takes an overviews option.
    pub open spec fn key() -> Seq<char> {
        "OVERVIEWS"@
    }

    /// The canonical token of a variant: what a caller writes to select it
    /// and what the engine is given as the option's value.
    pub open spec fn token(self) -> Seq<char> {
        match self {
            OverviewsOption::Auto => "AUTO"@,
            OverviewsOption::IgnoreExisting => "IGNORE_EXISTING"@,
            OverviewsOption::ForceUseExisting => "FORCE_USE_EXISTING"@,
            OverviewsOption::NoOverviews => "NONE"@,
        }
    }

    /// Whether a text is the token of some variant.
    pub open spec fn is_token(text: Seq<char>) -> bool {
        exists|v: Self| #[trigger] v.token() == text
    }

    /// The variant that a token selects, if it selects one.
    pub open spec fn parse(text: Seq<char>) -> Option<Self> {
        if Self::is_token(text) {
            Some(choose|v: Self| #[trigger] v.token() == text)
        } else {
            None
        }
    }

    /// The tokens of the catalog, spelled out: these and no others.
    pub proof fn lemma_tokens(text: Seq<char>)
        ensures
            Self::is_token(text) <==> (text == "AUTO"@
                || text == "IGNORE_EXISTING"@
                || text == "FORCE_USE_EXISTING"@
                || text == "NONE"@),
    {
        if Self::is_token(text) {
            let v = choose|v: Self| #[trigger] v.token() == text;
            assert(v.token() == text);
        } else {
            assert(OverviewsOption::Auto.token() != text);
            assert(OverviewsOption::IgnoreExisting.token() != text);
            assert(OverviewsOption::ForceUseExisting.token() != text);
            assert(OverviewsOption::NoOverviews.token() != text);
        }
    }

    /// No token is empty.
    pub proof fn lemma_token_not_empty(v: Self)
        ensures
            v.token().len() > 0,
    {
        reveal_strlit("AUTO");
        reveal_strlit("IGNORE_EXISTING");
        reveal_strlit("FORCE_USE_EXISTING");
        reveal_strlit("NONE");
        assert("AUTO"@.len() == 4);
        assert("IGNORE_EXISTING"@.len() == 15);
        assert("FORCE_USE_EXISTING"@.len() == 18);
        assert("NONE"@.len() == 4);
    }

    /// No two variants share a token.
    pub proof fn lemma_token_injective(a: Self, b: Self)
        requires
            a.token() == b.token(),
        ensures
            a == b,
    {
        reveal_strlit("AUTO");
        reveal_strlit("IGNORE_EXISTING");
        reveal_strlit("FORCE_USE_EXISTING");
        reveal_strlit("NONE");
        assert("AUTO"@.len() == 4);
        assert("IGNORE_EXISTING"@.len() == 15);
        assert("FORCE_USE_EXISTING"@.len() == 18);
        assert("NONE"@.len() == 4);
        assert("AUTO"@[0] != "NONE"@[0]);
    }

    /// Parsing the token of a variant gives that variant back.
    pub proof fn lemma_parse_token(v: Self)
        ensures
            Self::parse(v.token()) == Some(v),
    {
        assert(Self::is_token(v.token()));
        let w = choose|w: Self| #[trigger] w.token() == v.token();
        Self::lemma_token_injective(w, v);
    }

    /// The token of what a text parses to is that text: for every token of
    /// the catalog, parsing and then emitting is the identity.
    pub proof fn lemma_token_parse(text: Seq<char>)
        requires
            Self::is_token(text),
        ensures
            Self::parse(text) is Some,
            Self::parse(text).unwrap().token() == text,
    {
    }

    /// Selects the variant whose token is exactly `s`. Any other text is
    /// rejected with the error of this catalog, which carries the text.
    pub fn new(s: &str) -> (r: Result<OverviewsOption, CoggeratorError>)
        ensures
            r is Ok <==> Self::is_token(s@),
            r matches Ok(v) ==> v.token() == s@ && Self::parse(s@) == Some(v),
            r matches Err(e) ==> e@ == (ErrorKind::Overviews, s@),
    {
        let r = if same_text(s, "AUTO") {
            Ok(OverviewsOption::Auto)
        } else if same_text(s, "IGNORE_EXISTING") {
            Ok(OverviewsOption::IgnoreExisting)
        } else if same_text(s, "FORCE_USE_EXISTING") {
            Ok(OverviewsOption::ForceUseExisting)
        } else if same_text(s, "NONE") {
            Ok(OverviewsOption::NoOverviews)
        } else {
            Err(CoggeratorError::InvalidOverviewsOption(s.to_owned()))
        };
        proof {
            match r {
                Ok(v) => {
                    assert(v.token() == s@);
                    Self::lemma_parse_token(v);
                },
                Err(_) => {
                    assert forall|v: Self| #[trigger] v.token() != s@ by {}
                },
            }
        }
        r
    }

    /// The engine option that selects this variant: the key of the catalog
    /// with the token of the variant, which is never empty.
    pub fn to_creation_option(&self) -> (option: CreationOption)
        ensures
            option@ == (Self::key(), self.token()),
            option.value@.len() > 0,
    {
        proof {
            Self::lemma_token_not_empty(*self);
        }
        let value = match self {
            OverviewsOption::Auto => "AUTO",
            OverviewsOption::IgnoreExisting => "IGNORE_EXISTING",
            OverviewsOption::ForceUseExisting => "FORCE_USE_EXISTING",
            OverviewsOption::NoOverviews => "NONE",
        };
        CreationOption { key: "OVERVIEWS", value }
    }
}

} // verus!
