use vstd::prelude::*;

use crate::errors::TextSignError;

verus! {

/// Tag selecting the signing primitive.
///
/// `Blake3` names a keyed-hash MAC over a 32-byte shared secret: anyone who
/// holds the key can both produce and check a signature. `Ed25519` names a
/// true asymmetric signature: only the holder of the 32-byte private seed can
/// sign, while any holder of the derived 32-byte public key can verify. The
/// two share one interface but not one trust model.
#[derive(Clone, Copy, Debug, PartialEq, Eq, Structural)]
pub enum TextSignFormat {
    Blake3,
    Ed25519,
}

/// The exact number of key bytes an algorithm accepts for signing.
pub open spec fn spec_key_len(format: TextSignFormat) -> nat {
    match format {
        TextSignFormat::Blake3 => 32,
        TextSignFormat::Ed25519 => 32,
    }
}

/// The exact number of raw signature bytes an algorithm produces.
pub open spec fn spec_signature_len(format: TextSignFormat) -> nat {
    match format {
        TextSignFormat::Blake3 => 32,
        TextSignFormat::Ed25519 => 64,
    }
}

/// The canonical lowercase spelling of an algorithm tag.
pub open spec fn spec_format_name(format: TextSignFormat) -> Seq<char> {
    match format {
        TextSignFormat::Blake3 => "blake3"@,
        TextSignFormat::Ed25519 => "ed25519"@,
    }
}

impl TextSignFormat {
    /// The exact key length this algorithm requires, in bytes.
    pub fn key_length(&self) -> (n: usize)
        ensures
            n as nat == spec_key_len(*self),
    {
        match self {
            TextSignFormat::Blake3 => 32,
            TextSignFormat::Ed25519 => 32,
        }
    }

    /// The fixed raw signature length this algorithm produces, in bytes.
    pub fn signature_length(&self) -> (n: usize)
        ensures
            n as nat == spec_signature_len(*self),
    {
        match self {
            TextSignFormat::Blake3 => 32,
            TextSignFormat::Ed25519 => 64,
        }
    }

    /// The canonical lowercase spelling of this tag.
    pub fn name(&self) -> (s: &'static str)
        ensures
            s@ == spec_format_name(*self),
    {
        match self {
            TextSignFormat::Blake3 => "blake3",
            TextSignFormat::Ed25519 => "ed25519",
        }
    }
}

/// `s` spells the same word as `lower`, ignoring ASCII case: each of its
/// characters is the corresponding character of the lowercase spelling or of
/// the uppercase spelling.
pub open spec fn spec_eq_ignore_ascii_case(s: Seq<char>, lower: Seq<char>, upper: Seq<char>) -> bool {
    &&& s.len() == lower.len()
    &&& forall|i: int| 0 <= i < s.len() ==> (s[i] == lower[i] || s[i] == upper[i])
}

/// Compares `s` against a word given in its lowercase and uppercase
/// spellings, accepting any mixture of the two cases.
fn eq_ignore_ascii_case(s: &str, lower: &str, upper: &str) -> (r: bool)
    requires
        lower@.len() == upper@.len(),
    ensures
        r == spec_eq_ignore_ascii_case(s@, lower@, upper@),
{
    let n = s.unicode_len();
    if n != lower.unicode_len() {
        return false;
    }
    let mut i: usize = 0;
    while i < n
        invariant
            n as nat == s@.len(),
            s@.len() == lower@.len(),
            lower@.len() == upper@.len(),
            i <= n,
            forall|j: int| 0 <= j < i ==> (s@[j] == lower@[j] || s@[j] == upper@[j]),
        decreases n - i,
    {
        let c = s.get_char(i);
        if c != lower.get_char(i) && c != upper.get_char(i) {
            return false;
        }
        i += 1;
    }
    true
}

/// Maps a case-insensitive textual tag to its algorithm; an unrecognized tag
/// is rejected before any cryptographic work begins.
pub fn parse_format(format: &str) -> (r: Result<TextSignFormat, TextSignError>)
    ensures
        r == (if spec_eq_ignore_ascii_case(format@, "blake3"@, "BLAKE3"@) {
            Ok::<TextSignFormat, TextSignError>(TextSignFormat::Blake3)
        } else if spec_eq_ignore_ascii_case(format@, "ed25519"@, "ED25519"@) {
            Ok::<TextSignFormat, TextSignError>(TextSignFormat::Ed25519)
        } else {
            Err::<TextSignFormat, TextSignError>(TextSignError::UnsupportedAlgorithm)
        }),
{
    proof {
        reveal_strlit("blake3");
        reveal_strlit("BLAKE3");
        reveal_strlit("ed25519");
        reveal_strlit("ED25519");
    }
    if eq_ignore_ascii_case(format, "blake3", "BLAKE3") {
        Ok(TextSignFormat::Blake3)
    } else if eq_ignore_ascii_case(format, "ed25519", "ED25519") {
        Ok(TextSignFormat::Ed25519)
    } else {
        Err(TextSignError::UnsupportedAlgorithm)
    }
}

/// Options for producing a detached signature over a payload source.
#[derive(Debug)]
pub struct TextSignOpts {
    pub input: String,
    pub key: String,
    pub format: TextSignFormat,
}

/// Options for checking a candidate signature against a payload source.
#[derive(Debug)]
pub struct TextVerifyOpts {
    pub input: String,
    pub key: String,
    pub signature: String,
    pub format: TextSignFormat,
}

/// Options for generating fresh key material into a directory.
#[derive(Debug)]
pub struct TextKeyGenerateOpts {
    pub format: TextSignFormat,
    pub output: String,
}

/// The text-signing subcommands.
#[derive(Debug)]
pub enum TextSubCommand {
    Sign(TextSignOpts),
    Verify(TextVerifyOpts),
    Generate(TextKeyGenerateOpts),
}

} // verus!
