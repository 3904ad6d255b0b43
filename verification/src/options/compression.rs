//! The compression catalog: how the tiles of the output are compressed.

use crate::errors::{CoggeratorError, ErrorKind};
use crate::options::CreationOption;
use crate::text::same_text;
use vstd::prelude::*;

verus! {

/// The compression of the output's tiles.
#[derive(Debug, Clone, Copy, PartialEq, Eq, Structural)]
pub enum CompressionOption {
    ZSTD,
    LZW,
    Deflate,
    Packbits,
    LZMA,
    LERC,
    LERCDeflate,
    LERCZSTD,
    Uncompressed,
}

impl CompressionOption {
    /// The key under which the engine takes a compression option.
    pub open spec fn key() -> Seq<char> {
        "COMPRESS"@
    }

    /// The canonical token of a variant: what a caller writes to select it
    /// and what the engine is given as the option's value.
    pub open spec fn token(self) -> Seq<char> {
        match self {
            CompressionOption::ZSTD => "ZSTD"@,
            CompressionOption::LZW => "LZW"@,
            CompressionOption::Deflate => "DEFLATE"@,
            CompressionOption::Packbits => "PACKBITS"@,
            CompressionOption::LZMA => "LZMA"@,
            CompressionOption::LERC => "LERC"@,
            CompressionOption::LERCDeflate => "LERC_DEFLATE"@,
            CompressionOption::LERCZSTD => "LERC_ZSTD"@,
            CompressionOption::Uncompressed => "NONE"@,
        }
    }

    /// Whether a text is the token of some variant.
    pub open spec fn is_token(text: Seq<char>) -> bool {
        exists|v: Self| #[trigger] v.token() == text
    }

    /// The variant that a token selects, if it selects one.
    pub open spec fn parse(text: Seq<char>) -> Option<Self> {
        if Self::is_token(text) {
            Some(choose|v: Self| #[trigger] v.token() == text)
        } else {
            None
        }
    }

    /// The tokens of the catalog, spelled out: these and no others.
    pub proof fn lemma_tokens(text: Seq<char>)
        ensures
            Self::is_token(text) <==> (text == "ZSTD"@
                || text == "LZW"@
                || text == "DEFLATE"@
                || text == "PACKBITS"@
                || text == "LZMA"@
                || text == "LERC"@
                || text == "LERC_DEFLATE"@
                || text == "LERC_ZSTD"@
                || text == "NONE"@),
    {
        if Self::is_token(text) {
            let v = choose|v: Self| #[trigger] v.token() == text;
            assert(v.token() == text);
        } else {
            assert(CompressionOption::ZSTD.token() != text);
            assert(CompressionOption::LZW.token() != text);
            assert(CompressionOption::Deflate.token() != text);
            assert(CompressionOption::Packbits.token() != text);
            assert(CompressionOption::LZMA.token() != text);
            assert(CompressionOption::LERC.token() != text);
            assert(CompressionOption::LERCDeflate.token() != text);
            assert(CompressionOption::LERCZSTD.token() != text);
            assert(CompressionOption::Uncompressed.token() != text);
        }
    }

    /// No token is empty.
    pub proof fn lemma_token_not_empty(v: Self)
        ensures
            v.token().len() > 0,
    {
        reveal_strlit("ZSTD");
        reveal_strlit("LZW");
        reveal_strlit("DEFLATE");
        reveal_strlit("PACKBITS");
        reveal_strlit("LZMA");
        reveal_strlit("LERC");
        reveal_strlit("LERC_DEFLATE");
        reveal_strlit("LERC_ZSTD");
        reveal_strlit("NONE");
        assert("ZSTD"@.len() == 4);
        assert("LZW"@.len() == 3);
        assert("DEFLATE"@.len() == 7);
        assert("PACKBITS"@.len() == 8);
        assert("LZMA"@.len() == 4);
        assert("LERC"@.len() == 4);
        assert("LERC_DEFLATE"@.len() == 12);
        assert("LERC_ZSTD"@.len() == 9);
        assert("NONE"@.len() == 4);
    }

    /// No two variants share a token.
    pub proof fn lemma_token_injective(a: Self, b: Self)
        requires
            a.token() == b.token(),
        ensures
            a == b,
    {
        reveal_strlit("ZSTD");
        reveal_strlit("LZW");
        reveal_strlit("DEFLATE");
        reveal_strlit("PACKBITS");
        reveal_strlit("LZMA");
        reveal_strlit("LERC");
        reveal_strlit("LERC_DEFLATE");
        reveal_strlit("LERC_ZSTD");
        reveal_strlit("NONE");
        assert("ZSTD"@.len() == 4);
        assert("LZW"@.len() == 3);
        assert("DEFLATE"@.len() == 7);
        assert("PACKBITS"@.len() == 8);
        assert("LZMA"@.len() == 4);
        assert("LERC"@.len() == 4);
        assert("LERC_DEFLATE"@.len() == 12);
        assert("LERC_ZSTD"@.len() == 9);
        assert("NONE"@.len() == 4);
        assert("ZSTD"@[0] != "LZMA"@[0]);
        assert("ZSTD"@[0] != "LERC"@[0]);
        assert("ZSTD"@[0] != "NONE"@[0]);
        assert("LZMA"@[1] != "LERC"@[1]);
        assert("LZMA"@[0] != "NONE"@[0]);
        assert("LERC"@[0] != "NONE"@[0]);
    }

    /// Parsing the token of a variant gives that variant back.
    pub proof fn lemma_parse_token(v: Self)
        ensures
            Self::parse(v.token()) == Some(v),
    {
        assert(Self::is_token(v.token()));
        let w = choose|w: Self| #[trigger] w.token() == v.token();
        Self::lemma_token_injective(w, v);
    }

    /// The token of what a text parses to is that text: for every token of
    /// the catalog, parsing and then emitting is the identity.
    pub proof fn lemma_token_parse(text: Seq<char>)
        requires
            Self::is_token(text),
        ensures
            Self::parse(text) is Some,
            Self::parse(text).unwrap().token() == text,
    {
    }

    /// Selects the variant whose token is exactly `s`. Any other text is
    /// rejected with the error of this catalog, which carries the text.
    pub fn new(s: &str) -> (r: Result<Self, CoggeratorError>)
        ensures
            r is Ok <==> Self::is_token(s@),
            r matches Ok(v) ==> v.token() == s@ && Self::parse(s@) == Some(v),
            r matches Err(e) ==> e@ == (ErrorKind::Compression, s@),
    {
        let r = if same_text(s, "ZSTD") {
            Ok(CompressionOption::ZSTD)
        } else if same_text(s, "LZW") {
            Ok(CompressionOption::LZW)
        } else if same_text(s, "DEFLATE") {
            Ok(CompressionOption::Deflate)
        } else if same_text(s, "PACKBITS") {
            Ok(CompressionOption::Packbits)
        } else if same_text(s, "LZMA") {
            Ok(CompressionOption::LZMA)
        } else if same_text(s, "LERC") {
            Ok(CompressionOption::LERC)
        } else if same_text(s, "LERC_DEFLATE") {
            Ok(CompressionOption::LERCDeflate)
        } else if same_text(s, "LERC_ZSTD") {
            Ok(CompressionOption::LERCZSTD)
        } else if same_text(s, "NONE") {
            Ok(CompressionOption::Uncompressed)
        } else {
            Err(CoggeratorError::InvalidCompressionOption(s.to_owned()))
        };
        proof {
            match r {
                Ok(v) => {
                    assert(v.token() == s@);
                    Self::lemma_parse_token(v);
                },
                Err(_) => {
                    assert forall|v: Self| #[trigger] v.token() != s@ by {}
                },
            }
        }
        r
    }

    /// The engine option that selects this variant: the key of the catalog
    /// with the token of the variant, which is never empty.
    pub fn to_creation_option(&self) -> (option: CreationOption)
        ensures
            option@ == (Self::key(), self.token()),
            option.value@.len() > 0,
    {
        proof {
            Self::lemma_token_not_empty(*self);
        }
        let value = match self {
            CompressionOption::ZSTD => "ZSTD",
            CompressionOption::LZW => "LZW",
            CompressionOption::Deflate => "DEFLATE",
            CompressionOption::Packbits => "PACKBITS",
            CompressionOption::LZMA => "LZMA",
            CompressionOption::LERC => "LERC",
            CompressionOption::LERCDeflate => "LERC_DEFLATE",
            CompressionOption::LERCZSTD => "LERC_ZSTD",
            CompressionOption::Uncompressed => "NONE",
        };
        CreationOption { key: "COMPRESS", value }
    }
}

} // verus!
