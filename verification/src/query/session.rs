//! The handle of an active query session.

use vstd::prelude::*;
use tokio_util::sync::CancellationToken;

use crate::types::error::QwenError;
use crate::types::permission::PermissionMode;

verus! {

broadcast use vstd::string::group_string_axioms;

/// Cancellation tokens are carried through the library; whether one has been
/// cancelled is not modelled.
#[verifier::external_type_specification]
#[verifier::external_body]
pub struct ExCancellationToken(CancellationToken);

/// Calls `CancellationToken::new`, which makes a token that is not cancelled.
#[verifier::external_body]
fn new_token() -> CancellationToken {
    CancellationToken::new()
}

/// Calls `CancellationToken::cancel`, which cancels the token and every clone of
/// it. That state is not modelled, so nothing is stated of it.
#[verifier::external_body]
fn cancel_token(token: &CancellationToken)
    opens_invariants none
    no_unwind
{
    token.cancel()
}

/// Calls `CancellationToken::clone`. Its source makes the clone hold the same
/// shared node as `token` (it clones the inner `Arc` and counts one more
/// handle), so the clone is the same token: cancelling either cancels both,
/// and the two compare equal under `CancellationToken`'s own `==`. The
/// contract claims exactly that the clone is the same token value.
#[verifier::external_body]
fn clone_token(token: &CancellationToken) -> (r: CancellationToken)
    ensures
        r == *token,
{
    token.clone()
}

/// A lower-case hexadecimal digit.
pub open spec fn is_lower_hex(c: char) -> bool {
    ('0' <= c && c <= '9') || ('a' <= c && c <= 'f')
}

/// The hyphenated lower-case text of a version-4 UUID, like
/// `67e55044-10b1-426f-9247-bb680e5fe0c8`: 36 characters, hyphens at
/// positions 8, 13, 18 and 23, hexadecimal digits elsewhere, the version digit
/// `4` at position 14 and a variant digit `8`, `9`, `a` or `b` at position 19.
pub open spec fn is_uuid_v4_text(s: Seq<char>) -> bool {
    &&& s.len() == 36
    &&& forall|i: int| 0 <= i < 36 ==> if i == 8 || i == 13 || i == 18 || i == 23 {
        #[trigger] s[i] == '-'
    } else {
        is_lower_hex(s[i])
    }
    &&& s[14] == '4'
    &&& (s[19] == '8' || s[19] == '9' || s[19] == 'a' || s[19] == 'b')
}

/// Generate a session ID: a random version-4 UUID in its hyphenated form.
/// Calls `Uuid::new_v4`, which draws from the operating system's random number
/// generator (and panics if that fails), and formats it with `to_string`,
/// which writes the hyphenated lower-case form. The value itself is random,
/// so only its form is stated.
#[verifier::external_body]
pub fn generate_session_id() -> (id: String)
    ensures
        is_uuid_v4_text(id@),
{
    uuid::Uuid::new_v4().to_string()
}

/// Handle for an active query session.
pub struct QueryHandle {
    session_id: String,
    cancel_token: CancellationToken,
    is_closed: bool,
}

impl QueryHandle {
    /// The session identifier.
    pub closed spec fn session_text(&self) -> Seq<char> {
        self.session_id@
    }

    /// Whether the session has been closed.
    pub closed spec fn closed(&self) -> bool {
        self.is_closed
    }

    /// The session's cancellation token.
    pub closed spec fn token(&self) -> CancellationToken {
        self.cancel_token
    }

    /// Create a new, open query handle for the given session, or for a freshly
    /// generated session identifier when none is given.
    pub fn new(session_id: Option<String>) -> (h: Self)
        ensures
            !h.closed(),
            session_id matches Some(s) ==> h.session_text() == s@,
            session_id is None ==> is_uuid_v4_text(h.session_text()),
    {
        let session_id = match session_id {
            Some(s) => s,
            None => generate_session_id(),
        };
        QueryHandle { session_id, cancel_token: new_token(), is_closed: false }
    }

    /// Get the session ID.
    pub fn session_id(&self) -> (s: &str)
        ensures
            s@ == self.session_text(),
    {
        self.session_id.as_str()
    }

    /// Check if the session is closed.
    pub fn is_closed(&self) -> (b: bool)
        ensures
            b == self.closed(),
    {
        self.is_closed
    }

    /// Get the cancellation token: the session's own token, which `interrupt`
    /// and `close` cancel.
    pub fn cancellation_token(&self) -> (t: CancellationToken)
        ensures
            t == self.token(),
    {
        clone_token(&self.cancel_token)
    }

    /// Interrupt the current operation: cancels the session's token.
    pub fn interrupt(&self) -> (r: Result<(), QwenError>)
        ensures
            r is Ok,
    {
        cancel_token(&self.cancel_token);
        Ok(())
    }

    /// Set the permission mode; the running agent is not told yet, so this
    /// only succeeds.
    pub fn set_permission_mode(&self, mode: PermissionMode) -> (r: Result<(), QwenError>)
        ensures
            r is Ok,
    {
        Ok(())
    }

    /// Set the model; the running agent is not told yet, so this only succeeds.
    pub fn set_model(&self, model: &str) -> (r: Result<(), QwenError>)
        ensures
            r is Ok,
    {
        Ok(())
    }

    /// Close the session: cancels its token the first time, and marks it closed.
    pub fn close(&mut self) -> (r: Result<(), QwenError>)
        ensures
            r is Ok,
            closes(*old(self), *final(self)),
    {
        if !self.is_closed {
            cancel_token(&self.cancel_token);
            self.is_closed = true;
        }
        Ok(())
    }
}

/// `after` is `before` closed: the same session with the same token, now closed.
pub open spec fn closes(before: QueryHandle, after: QueryHandle) -> bool {
    &&& after.closed()
    &&& after.session_text() == before.session_text()
    &&& after.token() == before.token()
}

/// Closing a session twice leaves it as closing it once does: closed, in the
/// same session, with the same token.
pub proof fn lemma_close_is_idempotent(a: QueryHandle, b: QueryHandle, c: QueryHandle)
    requires
        closes(a, b),
        closes(b, c),
    ensures
        c.closed() == b.closed(),
        c.session_text() == b.session_text(),
        c.token() == b.token(),
        closes(a, c),
{
}

impl Drop for QueryHandle {
    /// A handle dropped without being closed cancels its token.
    fn drop(&mut self)
        opens_invariants none
        no_unwind
    {
        if !self.is_closed {
            cancel_token(&self.cancel_token);
        }
    }
}

} // verus!
