//! The webhook that asks for a sync.
use vstd::prelude::*;
use vstd::string::*;

use crate::text::same_text;

verus! {

/// What a call of the webhook is answered.
#[derive(Clone, Copy, Debug, PartialEq, Eq, Structural)]
pub enum SyncReply {
    /// A sync is asked for.
    Accepted,
    /// The call did not carry the secret; nothing is done.
    Unauthorized,
}

impl SyncReply {
    /// The status of the answer.
    pub fn status(self) -> (r: u16)
        ensures
            r == (match self {
                SyncReply::Accepted => 202u16,
                SyncReply::Unauthorized => 401u16,
            }),
    {
        match self {
            SyncReply::Accepted => 202,
            SyncReply::Unauthorized => 401,
        }
    }
}

/// Whether a call carries the secret.
pub fn sync(provided: Option<&str>, token: &str) -> (r: SyncReply)
    ensures
        r is Accepted <==> provided is Some && provided->0@ == token@,
{
    match provided {
        Some(p) => {
            if same_text(p, token) {
                SyncReply::Accepted
            } else {
                SyncReply::Unauthorized
            }
        },
        None => SyncReply::Unauthorized,
    }
}

/// A call is accepted exactly where it carries a text that agrees with the
/// secret in every character; it is answered 202 where it is, and 401 where
/// it is not.
pub proof fn law_only_the_secret_is_accepted(
    text: &str,
    token: &str,
    r: SyncReply,
    bare: SyncReply,
    code: u16,
    refused: u16,
)
    requires
        call_ensures(sync, (Some(text), token), r),
        call_ensures(sync, (None, token), bare),
        call_ensures(SyncReply::status, (r,), code),
        call_ensures(SyncReply::status, (bare,), refused),
    ensures
        code == 202 <==> text@.len() == token@.len() && (forall|i: int|
            0 <= i < token@.len() ==> #[trigger] text@[i] == token@[i]),
        code == 202 || code == 401,
        code == 202 <==> r is Accepted,
        refused == 401,
{
    if text@.len() == token@.len() && (forall|i: int|
        0 <= i < token@.len() ==> #[trigger] text@[i] == token@[i]) {
        assert(text@ =~= token@);
    }
}

} // verus!
