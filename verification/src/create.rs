//! Creation of a new short link, with bounded retry on code collision.
//!
//! A creation request first passes the acceptance filter; an accepted
//! URL gets a freshly generated code and is offered to the persistent
//! store. The store answering `Conflict` means the code already exists:
//! the flow regenerates and retries, up to a fixed number of codes,
//! after which it gives up with `GenerationExhausted`. The store write
//! is an external call, so the flow is a step machine: each step names
//! the code to offer, and the caller hands the store's answer back.

use crate::codegen::{code_wf, generate_code};
use crate::validate::url_accepted;
use crate::validate::url_is_acceptable;
use vstd::prelude::*;

verus! {

/// How many distinct codes are tried before the creation gives up.
pub const MAX_GENERATION_ATTEMPTS: u32 = 3;

/// What the store gave back for a write. `Conflict` means the code is
/// already taken (retried by regeneration); `Unavailable` means the
/// store could not be reached (surfaced, not retried).
pub enum StorePutReply {
    Accepted,
    Conflict,
    Unavailable,
}

/// What a store write reply means for the store's contents: `Accepted`
/// records the offered mapping under a code that was free, `Conflict`
/// reports the code taken and changes nothing, and an unavailable store
/// changes nothing either.
pub open spec fn put_reply_consistent(
    before: Map<Seq<char>, Seq<char>>,
    code: Seq<char>,
    url: Seq<char>,
    r: StorePutReply,
    after: Map<Seq<char>, Seq<char>>,
) -> bool {
    match r {
        StorePutReply::Accepted => !before.contains_key(code) && after == before.insert(code, url),
        StorePutReply::Conflict => before.contains_key(code) && after == before,
        StorePutReply::Unavailable => after == before,
    }
}

/// Why a creation failed.
pub enum CreateError {
    /// The submitted URL was rejected by the acceptance filter.
    InvalidLink,
    /// Every generated code collided with an existing one.
    GenerationExhausted,
    /// The store could not be reached.
    StoreUnavailable,
}

/// The creation flow's next move. The caller offers `code` with the
/// validated URL to the store and hands the reply to `on_store_put`.
pub enum CreateStep {
    /// Offer this code to the store; `rejected` codes collided before it.
    NeedPut { code: String, rejected: u32 },
    /// Creation is decided: the recorded code, or a classified error.
    Finished(Result<String, CreateError>),
}

/// The code a pending step offers.
pub open spec fn step_code(s: CreateStep) -> Seq<char> {
    match s {
        CreateStep::NeedPut { code, .. } => code@,
        CreateStep::Finished(_) => Seq::empty(),
    }
}

/// How many codes a pending step has already had rejected.
pub open spec fn step_rejected(s: CreateStep) -> u32 {
    match s {
        CreateStep::NeedPut { rejected, .. } => rejected,
        CreateStep::Finished(_) => 0,
    }
}

/// Begin creating a short link for `url`: a rejected URL fails at once
/// with `InvalidLink`; an accepted one gets a first generated code to
/// offer to the store.
pub fn create_begin(url: &str) -> (s: CreateStep)
    ensures
        url_accepted(url@) ==> (s matches CreateStep::NeedPut { code, rejected } && code_wf(code@)
            && rejected == 0),
        !url_accepted(url@) ==> s == CreateStep::Finished(Err(CreateError::InvalidLink)),
{
    if url_is_acceptable(url) {
        CreateStep::NeedPut { code: generate_code(), rejected: 0 }
    } else {
        CreateStep::Finished(Err(CreateError::InvalidLink))
    }
}

/// Continue after the store answered an offered code. Acceptance
/// finishes with exactly the code that was offered; a conflict
/// regenerates while fewer than `MAX_GENERATION_ATTEMPTS` codes have
/// been rejected, and gives up with `GenerationExhausted` at the bound;
/// an unavailable store is surfaced as `StoreUnavailable`.
pub fn on_store_put(s: CreateStep, r: StorePutReply) -> (t: CreateStep)
    requires
        s matches CreateStep::NeedPut { .. },
    ensures
        match r {
            StorePutReply::Accepted => (t matches CreateStep::Finished(Ok(c)) && c@ == step_code(
                s,
            )),
            StorePutReply::Conflict => {
                if step_rejected(s) + 1 < MAX_GENERATION_ATTEMPTS {
                    t matches CreateStep::NeedPut { code, rejected } && code_wf(code@) && rejected
                        == step_rejected(s) + 1
                } else {
                    t == CreateStep::Finished(Err(CreateError::GenerationExhausted))
                }
            },
            StorePutReply::Unavailable => t == CreateStep::Finished(
                Err(CreateError::StoreUnavailable),
            ),
        },
{
    match s {
        CreateStep::NeedPut { code, rejected } => match r {
            StorePutReply::Accepted => CreateStep::Finished(Ok(code)),
            StorePutReply::Conflict => {
                if rejected < MAX_GENERATION_ATTEMPTS - 1 {
                    CreateStep::NeedPut { code: generate_code(), rejected: rejected + 1 }
                } else {
                    CreateStep::Finished(Err(CreateError::GenerationExhausted))
                }
            },
            StorePutReply::Unavailable => CreateStep::Finished(Err(CreateError::StoreUnavailable)),
        },
        CreateStep::Finished(_) => s,
    }
}

} // verus!
