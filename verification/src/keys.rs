use vstd::prelude::*;

use crate::errors::CliError;

verus! {

/// The number of characters revealed at each end of a redacted secret.
pub const VISIBLE_RUN: usize = 5;

/// The fixed length of the masking run in a redacted secret, independent of
/// the secret's actual length.
pub const MASK_RUN: usize = 17;

/// The shortest secret the redaction engine accepts: below this the visible
/// prefix and suffix would overlap.
pub const MIN_SECRET_LEN: usize = 10;

/// An API key as issued by the account service: an opaque bearer credential.
///
/// The raw value is sensitive. This type deliberately offers no rendering
/// method: anything user-facing goes through [`Key::as_redacted`], and only
/// code that explicitly names the `apikey` field can reach the raw value.
#[derive(Debug, Clone)]
pub struct Key {
    pub apikey: String,
}

/// The display-safe form of a secret: five visible characters at each end
/// around a fixed-length masking run.
#[derive(Debug, Clone)]
pub struct RedactedKey {
    pub redacted: String,
}

/// The fixed masking run: seventeen asterisks.
pub open spec fn spec_mask() -> Seq<char> {
    Seq::new(MASK_RUN as nat, |i: int| '*')
}

/// Whether a secret is long enough to redact without the visible regions
/// overlapping.
pub open spec fn spec_redactable(s: Seq<char>) -> bool {
    s.len() >= MIN_SECRET_LEN
}

/// The redacted form of a secret: its first five characters, the fixed
/// masking run, and its last five characters.
pub open spec fn spec_redact(s: Seq<char>) -> Seq<char> {
    s.subrange(0, VISIBLE_RUN as int) + spec_mask() + s.subrange(
        s.len() - VISIBLE_RUN,
        s.len() as int,
    )
}

/// Redacts a secret for display.
///
/// Succeeds exactly on secrets of at least ten characters; anything shorter
/// is rejected as `InvalidSecretLength` rather than sliced out of bounds.
pub fn redact(secret: &str) -> (r: Result<String, CliError>)
    ensures
        r is Ok <==> spec_redactable(secret@),
        r is Ok ==> r->Ok_0@ == spec_redact(secret@),
        r is Err ==> r->Err_0 == CliError::InvalidSecretLength,
{
    let len = secret.unicode_len();
    if len < MIN_SECRET_LEN {
        return Err(CliError::InvalidSecretLength);
    }
    let first = secret.substring_char(0, VISIBLE_RUN);
    let last = secret.substring_char(len - VISIBLE_RUN, len);
    let mut out = first.to_owned();
    out.append("*****************");
    out.append(last);
    proof {
        reveal_strlit("*****************");
        assert("*****************"@ =~= spec_mask());
        assert(out@ =~= spec_redact(secret@));
    }
    Ok(out)
}

impl Key {
    /// The display-safe form of this key.
    pub fn as_redacted(&self) -> (r: Result<RedactedKey, CliError>)
        ensures
            r is Ok <==> spec_redactable(self.apikey@),
            r is Ok ==> r->Ok_0.redacted@ == spec_redact(self.apikey@),
            r is Err ==> r->Err_0 == CliError::InvalidSecretLength,
    {
        match redact(self.apikey.as_str()) {
            Ok(redacted) => Ok(RedactedKey { redacted }),
            Err(e) => Err(e),
        }
    }
}

impl RedactedKey {
    /// The redacted text, for rendering.
    pub fn as_str(&self) -> (r: &str)
        ensures
            r@ == self.redacted@,
    {
        self.redacted.as_str()
    }
}

/// A redacted secret reveals exactly the first five and the last five
/// characters of the original: its length is always twenty-seven, its first
/// five characters copy the secret's prefix, its last five copy the secret's
/// suffix, and every interior position holds the mask character.
pub proof fn lemma_redact_reveals_only_edges(s: Seq<char>)
    requires
        spec_redactable(s),
    ensures
        spec_redact(s).len() == 27,
        forall|i: int| 0 <= i < 5 ==> spec_redact(s)[i] == s[i],
        forall|i: int| 5 <= i < 22 ==> spec_redact(s)[i] == '*',
        forall|i: int| 22 <= i < 27 ==> spec_redact(s)[i] == s[s.len() - 27 + i],
{
}

/// The redacted form carries no information about the interior of the
/// secret: two secrets that agree on their first five and last five
/// characters redact to the same string, whatever stands between.
pub proof fn lemma_redact_hides_interior(s: Seq<char>, t: Seq<char>)
    requires
        spec_redactable(s),
        spec_redactable(t),
        s.subrange(0, 5) == t.subrange(0, 5),
        s.subrange(s.len() - 5, s.len() as int) == t.subrange(t.len() - 5, t.len() as int),
    ensures
        spec_redact(s) == spec_redact(t),
{
}

/// Redaction is a pure function: any two redactions of the same secret are
/// the same string, so redacting twice yields identical output.
pub proof fn lemma_redact_deterministic(s: Seq<char>, r1: Seq<char>, r2: Seq<char>)
    requires
        r1 == spec_redact(s),
        r2 == spec_redact(s),
    ensures
        r1 == r2,
{
}

} // verus!
