//! The resampling catalog: how overview pixels are computed.

use crate::errors::{CoggeratorError, ErrorKind};
use crate::options::CreationOption;
use crate::text::same_text;
use vstd::prelude::*;

verus! {

/// The resampling algorithm for overviews.
#[derive(Debug, Clone, Copy, PartialEq, Eq, Structural)]
pub enum ResamplingOption {
    Nearest,
    Average,
    Bilinear,
    Cubic,
    CubicSpline,
    Lanczos,
    Mode,
    RMS,
}

impl ResamplingOption {
    /// The key under which the engine takes a resampling option.
    pub open spec fn key() -> Seq<char> {
        "RESAMPLING"@
    }

    /// The canonical token of a variant: what a caller writes to select it
    /// and what the engine is given as the option's value.
    pub open spec fn token(self) -> Seq<char> {
        match self {
            ResamplingOption::Nearest => "NEAREST"@,
            ResamplingOption::Average => "AVERAGE"@,
            ResamplingOption::Bilinear => "BILINEAR"@,
            ResamplingOption::Cubic => "CUBIC"@,
            ResamplingOption::CubicSpline => "CUBICSPLINE"@,
            ResamplingOption::Lanczos => "LANCZOS"@,
            ResamplingOption::Mode => "MODE"@,
            ResamplingOption::RMS => "RMS"@,
        }
    }

    /// Whether a text is the token of some variant.
    pub open spec fn is_token(text: Seq<char>) -> bool {
        exists|v: Self| #[trigger] v.token() == text
    }

    /// The variant that a token selects, if it selects one.
    pub open spec fn parse(text: Seq<char>) -> Option<Self> {
        if Self::is_token(text) {
            Some(choose|v: Self| #[trigger] v.token() == text)
        } else {
            None
        }
    }

    /// The tokens of the catalog, spelled out: these and no others.
    pub proof fn lemma_tokens(text: Seq<char>)
        ensures
            Self::is_token(text) <==> (text == "NEAREST"@
                || text == "AVERAGE"@
                || text == "BILINEAR"@
                || text == "CUBIC"@
                || text == "CUBICSPLINE"@
                || text == "LANCZOS"@
                || text == "MODE"@
                || text == "RMS"@),
    {
        if Self::is_token(text) {
            let v = choose|v: Self| #[trigger] v.token() == text;
            assert(v.token() == text);
        } else {
            assert(ResamplingOption::Nearest.token() != text);
            assert(ResamplingOption::Average.token() != text);
            assert(ResamplingOption::Bilinear.token() != text);
            assert(ResamplingOption::Cubic.token() != text);
            assert(ResamplingOption::CubicSpline.token() != text);
            assert(ResamplingOption::Lanczos.token() != text);
            assert(ResamplingOption::Mode.token() != text);
            assert(ResamplingOption::RMS.token() != text);
        }
    }

    /// No token is empty.
    pub proof fn lemma_token_not_empty(v: Self)
        ensures
            v.token().len() > 0,
    {
        reveal_strlit("NEAREST");
        reveal_strlit("AVERAGE");
        reveal_strlit("BILINEAR");
        reveal_strlit("CUBIC");
        reveal_strlit("CUBICSPLINE");
        reveal_strlit("LANCZOS");
        reveal_strlit("MODE");
        reveal_strlit("RMS");
        assert("NEAREST"@.len() == 7);
        assert("AVERAGE"@.len() == 7);
        assert("BILINEAR"@.len() == 8);
        assert("CUBIC"@.len() == 5);
        assert("CUBICSPLINE"@.len() == 11);
        assert("LANCZOS"@.len() == 7);
        assert("MODE"@.len() == 4);
        assert("RMS"@.len() == 3);
    }

    /// No two variants share a token.
    pub proof fn lemma_token_injective(a: Self, b: Self)
        requires
            a.token() == b.token(),
        ensures
            a == b,
    {
        reveal_strlit("NEAREST");
        reveal_strlit("AVERAGE");
        reveal_strlit("BILINEAR");
        reveal_strlit("CUBIC");
        reveal_strlit("CUBICSPLINE");
        reveal_strlit("LANCZOS");
        reveal_strlit("MODE");
        reveal_strlit("RMS");
        assert("NEAREST"@.len() == 7);
        assert("AVERAGE"@.len() == 7);
        assert("BILINEAR"@.len() == 8);
        assert("CUBIC"@.len() == 5);
        assert("CUBICSPLINE"@.len() == 11);
        assert("LANCZOS"@.len() == 7);
        assert("MODE"@.len() == 4);
        assert("RMS"@.len() == 3);
        assert("NEAREST"@[0] != "AVERAGE"@[0]);
        assert("NEAREST"@[0] != "LANCZOS"@[0]);
        assert("AVERAGE"@[0] != "LANCZOS"@[0]);
    }

    /// Parsing the token of a variant gives that variant back.
    pub proof fn lemma_parse_token(v: Self)
        ensures
            Self::parse(v.token()) == Some(v),
    {
        assert(Self::is_token(v.token()));
        let w = choose|w: Self| #[trigger] w.token() == v.token();
        Self::lemma_token_injective(w, v);
    }

    /// The token of what a text parses to is that text: for every token of
    /// the catalog, parsing and then emitting is the identity.
    pub proof fn lemma_token_parse(text: Seq<char>)
        requires
            Self::is_token(text),
        ensures
            Self::parse(text) is Some,
            Self::parse(text).unwrap().token() == text,
    {
    }

    /// Selects the variant whose token is exactly `s`. Any other text is
    /// rejected with the error of this catalog, which carries the text.
    pub fn new(s: &str) -> (r: Result<Self, CoggeratorError>)
        ensures
            r is Ok <==> Self::is_token(s@),
            r matches Ok(v) ==> v.token() == s@ && Self::parse(s@) == Some(v),
            r matches Err(e) ==> e@ == (ErrorKind::Resampling, s@),
    {
        let r = if same_text(s, "NEAREST") {
            Ok(ResamplingOption::Nearest)
        } else if same_text(s, "AVERAGE") {
            Ok(ResamplingOption::Average)
        } else if same_text(s, "BILINEAR") {
            Ok(ResamplingOption::Bilinear)
        } else if same_text(s, "CUBIC") {
            Ok(ResamplingOption::Cubic)
        } else if same_text(s, "CUBICSPLINE") {
            Ok(ResamplingOption::CubicSpline)
        } else if same_text(s, "LANCZOS") {
            Ok(ResamplingOption::Lanczos)
        } else if same_text(s, "MODE") {
            Ok(ResamplingOption::Mode)
        } else if same_text(s, "RMS") {
            Ok(ResamplingOption::RMS)
        } else {
            Err(CoggeratorError::InvalidResamplingOption(s.to_owned()))
        };
        proof {
            match r {
                Ok(v) => {
                    assert(v.token() == s@);
                    Self::lemma_parse_token(v);
                },
                Err(_) => {
                    assert forall|v: Self| #[trigger] v.token() != s@ by {}
                },
            }
        }
        r
    }

    /// The engine option that selects this variant: the key of the catalog
    /// with the token of the variant, which is never empty.
    pub fn to_creation_option(&self) -> (option: CreationOption)
        ensures
            option@ == (Self::key(), self.token()),
            option.value@.len() > 0,
    {
        proof {
            Self::lemma_token_not_empty(*self);
        }
        let value = match self {
            ResamplingOption::Nearest => "NEAREST",
            ResamplingOption::Average => "AVERAGE",
            ResamplingOption::Bilinear => "BILINEAR",
            ResamplingOption::Cubic => "CUBIC",
            ResamplingOption::CubicSpline => "CUBICSPLINE",
            ResamplingOption::Lanczos => "LANCZOS",
            ResamplingOption::Mode => "MODE",
            ResamplingOption::RMS => "RMS",
        };
        CreationOption { key: "RESAMPLING", value }
    }
}

} // verus!
