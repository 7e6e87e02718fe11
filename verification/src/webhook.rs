//! Who may post to the webhook endpoint.

use crate::text::same_text;
use vstd::prelude::*;

verus! {

/// The header in which the sender of a webhook request gives the shared
/// secret.
pub const SECRET_TOKEN_HEADER: &'static str = "X-Telegram-Bot-Api-Secret-Token";

/// Whether a request is let through: every request is where no secret is
/// configured; otherwise the request must give that very secret.
pub open spec fn is_let_through(configured: Option<Seq<char>>, provided: Option<Seq<char>>) -> bool {
    match configured {
        None => true,
        Some(secret) => provided == Some(secret),
    }
}

/// The text of an optional slice.
pub open spec fn slice_view(text: Option<&str>) -> Option<Seq<char>> {
    match text {
        Some(t) => Some(t@),
        None => None,
    }
}

/// Decides whether a webhook request is let through to the dispatcher.
pub fn secret_token_accepted(configured: Option<&str>, provided: Option<&str>) -> (accepted: bool)
    ensures
        accepted == is_let_through(slice_view(configured), slice_view(provided)),
{
    match configured {
        None => true,
        Some(secret) => match provided {
            Some(given) => same_text(given, secret),
            None => false,
        },
    }
}

} // verus!
