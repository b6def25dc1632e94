use vstd::prelude::*;

verus! {

#[verifier::external_type_specification]
#[verifier::external_body]
pub struct ExOctocrab(octocrab::Octocrab);

#[verifier::external_type_specification]
#[verifier::external_body]
pub struct ExOctocrabError(octocrab::Error);

#[verifier::external_type_specification]
#[verifier::external_body]
pub struct ExHandle(tokio::runtime::Handle);

/// A character that an HTTP header value may hold: a tab, or anything from the
/// space up but DEL (every byte of a multi-byte character is at least 0x80).
pub open spec fn header_char(c: char) -> bool {
    c == '\t' || (c as u32 >= 32 && c as u32 != 127)
}

/// A token that can be sent as `Bearer <token>` in a header.
pub open spec fn well_formed_token(t: Seq<char>) -> bool {
    forall|i: int| 0 <= i < t.len() ==> header_char(#[trigger] t[i])
}

/// Why no client was built.
#[derive(Debug)]
pub enum ClientError {
    /// The token holds a character that no header value may hold.
    MalformedToken,
    /// octocrab could not build its HTTP client (for instance, no root
    /// certificates were found).
    Build(octocrab::Error),
}

/// Relies on `Octocrab::builder().personal_token(token).build()` of octocrab:
/// it stores `Bearer <token>` as a header value, which panics unless every
/// character is a header character, and spawns the client's request buffer on
/// the tokio runtime, which `runtime` enters here. It sends no request.
#[verifier::external_body]
fn build_octocrab(runtime: &tokio::runtime::Handle, token: String) -> (r: Result<
    octocrab::Octocrab,
    octocrab::Error,
>)
    requires
        well_formed_token(token@),
{
    let _entered = runtime.enter();
    octocrab::Octocrab::builder().personal_token(token).build()
}

/// Whether each character of `token` may stand in a header value.
pub fn check_token(token: &str) -> (r: bool)
    ensures
        r == well_formed_token(token@),
{
    let n = token.unicode_len();
    let mut i: usize = 0;
    while i < n
        invariant
            n == token@.len(),
            i <= n,
            forall|j: int| 0 <= j < i ==> header_char(#[trigger] token@[j]),
        decreases n - i,
    {
        let c = token.get_char(i);
        let code = c as u32;
        if !(c == '\t' || (code >= 32 && code != 127)) {
            assert(!header_char(token@[i as int]));
            return false;
        }
        i = i + 1;
    }
    true
}

/// Holds an authenticated octocrab client.
#[derive(Debug)]
pub struct GitHubClientBuilder {
    pub octocrab: octocrab::Octocrab,
}

impl GitHubClientBuilder {
    /// Builds a client that sends `token` as a bearer credential. A malformed
    /// token is refused before octocrab sees it; otherwise octocrab builds the
    /// client on `runtime`, without any network traffic.
    pub fn new(runtime: &tokio::runtime::Handle, token: String) -> (r: Result<Self, ClientError>)
        ensures
            r matches Err(ClientError::MalformedToken) <==> !well_formed_token(token@),
    {
        if !check_token(token.as_str()) {
            return Err(ClientError::MalformedToken);
        }
        match build_octocrab(runtime, token) {
            Ok(octocrab) => Ok(GitHubClientBuilder { octocrab }),
            Err(e) => Err(ClientError::Build(e)),
        }
    }

    /// The client, handed over.
    pub fn client(self) -> (r: octocrab::Octocrab)
        ensures
            r == self.octocrab,
    {
        self.octocrab
    }
}

} // verus!
