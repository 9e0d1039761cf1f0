//! Who is calling, and the closed set of ways a call can be turned down.

use vstd::prelude::*;
use crate::records::AccountId;

verus! {

/// The caller context that the host hands to a handler, after it has verified
/// any signature itself.
#[derive(Clone, Copy, Debug, PartialEq, Eq, Structural)]
pub enum Origin {
    /// The system itself ordered the call.
    Root,
    /// The call is signed by the given account.
    Signed(AccountId),
    /// The call is signed by nobody.
    Unsigned,
    /// The call is signed by nobody and was authorized by the runtime.
    Authorized,
}

/// Why a call was turned down. A call that is turned down writes nothing and
/// emits nothing.
#[derive(Clone, Copy, Debug, PartialEq, Eq, Structural)]
pub enum Error {
    /// The origin is not a signed account.
    Unauthorized,
    /// Reserved for a future check of the number of fields; no handler
    /// returns it.
    NotEnoughDataFields,
}

/// `frame_support::dispatch::RawOrigin`, the origin type of the system
/// pallet. Opaque here: it is only handed to `frame_system::ensure_signed`.
#[verifier::external_type_specification]
#[verifier::external_body]
#[verifier::reject_recursive_types(A)]
pub struct ExRawOrigin<A>(frame_support::dispatch::RawOrigin<A>);

/// `sp_runtime::traits::BadOrigin`, the error of `frame_system::ensure_signed`.
/// Opaque here: it carries no data.
#[verifier::external_type_specification]
#[verifier::external_body]
pub struct ExBadOrigin(sp_runtime::traits::BadOrigin);

impl From<Origin> for Result<frame_support::dispatch::RawOrigin<AccountId>, Origin> {
    /// Rewrites the origin as the system pallet's `RawOrigin`, variant for
    /// variant, so that `frame_system::ensure_signed` can take it. The body is
    /// not verified and no contract is stated for it.
    #[verifier::external_body]
    fn from(origin: Origin) -> (r: Self) {
        Ok(
            match origin {
                Origin::Root => frame_support::dispatch::RawOrigin::Root,
                Origin::Signed(who) => frame_support::dispatch::RawOrigin::Signed(who),
                Origin::Unsigned => frame_support::dispatch::RawOrigin::None,
                Origin::Authorized => frame_support::dispatch::RawOrigin::Authorized,
            },
        )
    }
}

/// The account behind an origin: a signed origin yields its signer, every
/// other origin is unauthorized.
pub open spec fn signer(origin: Origin) -> Result<AccountId, Error> {
    match origin {
        Origin::Signed(who) => Ok(who),
        _ => Err(Error::Unauthorized),
    }
}

/// Calls `frame_system::ensure_signed` on the origin. The body is not
/// verified; the contract is what that function's source shows: a signed
/// origin yields its signer, every other origin yields `BadOrigin`.
#[verifier::external_body]
fn system_ensure_signed(origin: Origin) -> (r: Result<AccountId, sp_runtime::traits::BadOrigin>)
    ensures
        match origin {
            Origin::Signed(who) => r == Ok::<AccountId, sp_runtime::traits::BadOrigin>(who),
            _ => r is Err,
        },
{
    frame_system::ensure_signed(origin)
}

/// Checks that the origin is a signed account and returns that account.
pub fn ensure_signed(origin: Origin) -> (r: Result<AccountId, Error>)
    ensures
        r == signer(origin),
{
    match system_ensure_signed(origin) {
        Ok(who) => Ok(who),
        Err(_) => Err(Error::Unauthorized),
    }
}

} // verus!
