//! The big-TIFF catalog: whether the output uses the 64-bit TIFF layout.

use crate::errors::{CoggeratorError, ErrorKind};
use crate::options::CreationOption;
use crate::text::same_text;
use vstd::prelude::*;

verus! {

/// When the engine writes the output in the 64-bit TIFF layout.
#[derive(Debug, Clone, Copy, PartialEq, Eq, Structural)]
pub enum BigTiffOption {
    Yes,
    No,
    IfNeeded,
    IfSafer,
}

impl BigTiffOption {
    /// The key under which the engine takes a big-TIFF option.
    pub open spec fn key() -> Seq<char> {
        "BIGTIFF"@
    }

    /// The canonical token of a variant: what a caller writes to select it
    /// and what the engine is given as the option's value.
    pub open spec fn token(self) -> Seq<char> {
        match self {
            BigTiffOption::Yes => "YES"@,
            BigTiffOption::No => "NO"@,
            BigTiffOption::IfNeeded => "IF_NEEDED"@,
            BigTiffOption::IfSafer => "IF_SAFER"@,
        }
    }

    /// Whether a text is the token of some variant.
    pub open spec fn is_token(text: Seq<char>) -> bool {
        exists|v: Self| #[trigger] v.token() == text
    }

    /// The variant that a token selects, if it selects one.
    pub open spec fn parse(text: Seq<char>) -> Option<Self> {
        if Self::is_token(text) {
            Some(choose|v: Self| #[trigger] v.token() == text)
        } else {
            None
        }
    }

    /// The tokens of the catalog, spelled out: these and no others.
    pub proof fn lemma_tokens(text: Seq<char>)
        ensures
            Self::is_token(text) <==> (text == "YES"@
                || text == "NO"@
                || text == "IF_NEEDED"@
                || text == "IF_SAFER"@),
    {
        if Self::is_token(text) {
            let v = choose|v: Self| #[trigger] v.token() == text;
            assert(v.token() == text);
        } else {
            assert(BigTiffOption::Yes.token() != text);
            assert(BigTiffOption::No.token() != text);
            assert(BigTiffOption::IfNeeded.token() != text);
            assert(BigTiffOption::IfSafer.token() != text);
        }
    }

    /// No token is empty.
    pub proof fn lemma_token_not_empty(v: Self)
        ensures
            v.token().len() > 0,
    {
        reveal_strlit("YES");
        reveal_strlit("NO");
        reveal_strlit("IF_NEEDED");
        reveal_strlit("IF_SAFER");
        assert("YES"@.len() == 3);
        assert("NO"@.len() == 2);
        assert("IF_NEEDED"@.len() == 9);
        assert("IF_SAFER"@.len() == 8);
    }

    /// No two variants share a token.
    pub proof fn lemma_token_injective(a: Self, b: Self)
        requires
            a.token() == b.token(),
        ensures
            a == b,
    {
        reveal_strlit("YES");
        reveal_strlit("NO");
        reveal_strlit("IF_NEEDED");
        reveal_strlit("IF_SAFER");
        assert("YES"@.len() == 3);
        assert("NO"@.len() == 2);
        assert("IF_NEEDED"@.len() == 9);
        assert("IF_SAFER"@.len() == 8);
    }

    /// Parsing the token of a variant gives that variant back.
    pub proof fn lemma_parse_token(v: Self)
        ensures
            Self::parse(v.token()) == Some(v),
    {
        assert(Self::is_token(v.token()));
        let w = choose|w: Self| #[trigger] w.token() == v.token();
        Self::lemma_token_injective(w, v);
    }

    /// The token of what a text parses to is that text: for every token of
    /// the catalog, parsing and then emitting is the identity.
    pub proof fn lemma_token_parse(text: Seq<char>)
        requires
            Self::is_token(text),
        ensures
            Self::parse(text) is Some,
            Self::parse(text).unwrap().token() == text,
    {
    }

    /// Selects the variant whose token is exactly `s`. Any other text is
    /// rejected with the error of this catalog, which carries the text.
    pub fn new(s: &str) -> (r: Result<Self, CoggeratorError>)
        ensures
            r is Ok <==> Self::is_token(s@),
            r matches Ok(v) ==> v.token() == s@ && Self::parse(s@) == Some(v),
            r matches Err(e) ==> e@ == (ErrorKind::BigTiff, s@),
    {
        let r = if same_text(s, "YES") {
            Ok(BigTiffOption::Yes)
        } else if same_text(s, "NO") {
            Ok(BigTiffOption::No)
        } else if same_text(s, "IF_NEEDED") {
            Ok(BigTiffOption::IfNeeded)
        } else if same_text(s, "IF_SAFER") {
            Ok(BigTiffOption::IfSafer)
        } else {
            Err(CoggeratorError::InvalidBigTiffOption(s.to_owned()))
        };
        proof {
            match r {
                Ok(v) => {
                    assert(v.token() == s@);
                    Self::lemma_parse_token(v);
                },
                Err(_) => {
                    assert forall|v: Self| #[trigger] v.token() != s@ by {}
                },
            }
        }
        r
    }

    /// The engine option that selects this variant: the key of the catalog
    /// with the token of the variant, which is never empty.
    pub fn to_creation_option(&self) -> (option: CreationOption)
        ensures
            option@ == (Self::key(), self.token()),
            option.value@.len() > 0,
    {
        proof {
            Self::lemma_token_not_empty(*self);
        }
        let value = match self {
            BigTiffOption::Yes => "YES",
            BigTiffOption::No => "NO",
            BigTiffOption::IfNeeded => "IF_NEEDED",
            BigTiffOption::IfSafer => "IF_SAFER",
        };
        CreationOption { key: "BIGTIFF", value }
    }
}

} // verus!
