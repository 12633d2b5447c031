//! The issuance state machine.  Each phase is a value consumed by its one
//! forward transition, so a network-confirmed step cannot be replayed from
//! the same phase.  The authority and the provisioning service answer
//! through the embedding application, which performs each exchange a
//! transition asks for and feeds the observed plain values back in; every
//! decision between two exchanges is made here.

use vstd::prelude::*;

use crate::error::{LocalcertError, LocalcertResult, MissingFeature, StateViolation};
use crate::status::{
    is_dns01, spec_find_dns01, AccountInfo, AuthorizationInfo, AuthorizationStatus,
    ChallengeStatus, OrderStatus,
};
use crate::status::find_dns01_challenge;
use crate::wire::client::LocalcertClient;
use crate::wire::provision::ProvisionResult;

verus! {

/// The session data every phase carries: the wire client, the authority
/// account, the URL of the order being driven, and the polling interval.
pub struct Session {
    pub client: LocalcertClient,
    pub account: AccountInfo,
    pub order_url: String,
    pub acme_polling_interval_ms: u64,
}

/// Phase reached once an authority account exists: no order is open yet.
pub struct RegisteredState {
    pub client: LocalcertClient,
    pub account: AccountInfo,
    pub acme_polling_interval_ms: u64,
}

/// The session a registered phase becomes once bound to an order.
pub open spec fn spec_session_of(st: RegisteredState, order_url: String) -> Session {
    Session {
        client: st.client,
        account: st.account,
        order_url: order_url,
        acme_polling_interval_ms: st.acme_polling_interval_ms,
    }
}

/// Phase of an order the authority reports pending: authorization is owed.
pub struct OrderedState {
    pub session: Session,
}

/// Phase of an order whose single authorization is settled: ready to
/// finalize.
pub struct AuthorizedState {
    pub session: Session,
}

/// Phase of an order that has been finalized: the certificate can be
/// retrieved once the authority reports the order valid.
pub struct FinalizedState {
    pub session: Session,
}

/// The phase a persisted order resumes into, derived from its status.
pub enum ResumeOrderState {
    Ordered(OrderedState),
    Authorized(AuthorizedState),
    Finalized(FinalizedState),
}

impl RegisteredState {
    pub fn account(&self) -> (r: &AccountInfo)
        ensures
            r == &self.account,
    {
        &self.account
    }

    /// Binds this phase to a freshly opened order.
    pub fn with_order(self, order_url: String) -> (r: OrderedState)
        ensures
            r.session == spec_session_of(self, order_url),
    {
        OrderedState {
            session: Session {
                client: self.client,
                account: self.account,
                order_url: order_url,
                acme_polling_interval_ms: self.acme_polling_interval_ms,
            },
        }
    }

    /// Resumes a persisted order, classifying it by the status the
    /// authority reports: pending orders still need authorization, ready
    /// orders need finalizing, processing and valid orders are already
    /// finalized.  Any other status is a protocol violation carrying that
    /// status — the authority's status set is open.
    pub fn resume_order(self, order_url: String, status: OrderStatus) -> (r: LocalcertResult<
        ResumeOrderState,
    >)
        ensures
            status == OrderStatus::Pending ==> (r matches Ok(
                ResumeOrderState::Ordered(o),
            ) && o.session == spec_session_of(self, order_url)),
            status == OrderStatus::Ready ==> (r matches Ok(
                ResumeOrderState::Authorized(a),
            ) && a.session == spec_session_of(self, order_url)),
            status == OrderStatus::Processing || status == OrderStatus::Valid ==> (r matches Ok(
                ResumeOrderState::Finalized(f),
            ) && f.session == spec_session_of(self, order_url)),
            !(status == OrderStatus::Pending || status == OrderStatus::Ready || status
                == OrderStatus::Processing || status == OrderStatus::Valid) ==> r == Err::<
                ResumeOrderState,
                LocalcertError,
            >(LocalcertError::StateError(StateViolation::UnexpectedOrderStatus(status))),
    {
        let session = Session {
            client: self.client,
            account: self.account,
            order_url: order_url,
            acme_polling_interval_ms: self.acme_polling_interval_ms,
        };
        match status {
            OrderStatus::Pending => Ok(ResumeOrderState::Ordered(OrderedState { session })),
            OrderStatus::Ready => Ok(ResumeOrderState::Authorized(AuthorizedState { session })),
            OrderStatus::Processing => Ok(
                ResumeOrderState::Finalized(FinalizedState { session }),
            ),
            OrderStatus::Valid => Ok(ResumeOrderState::Finalized(FinalizedState { session })),
            _ => Err(LocalcertError::StateError(StateViolation::UnexpectedOrderStatus(status))),
        }
    }
}

/// How the authorization flow opens, given the order's observed status.
pub enum AuthorizeStart {
    /// The order is pending: its single authorization must be fetched.
    NeedsAuthorization(AuthorizationNeeded),
    /// The order has already left pending: nothing is owed.
    Authorized(AuthorizedState),
}

/// Authorization sub-phase: the order's authorization is being fetched.
pub struct AuthorizationNeeded {
    pub session: Session,
}

/// Authorization sub-phase: a DNS record must be provisioned for the named
/// challenge of the named authorization.
pub struct ProvisionNeeded {
    pub session: Session,
    pub authorization_url: String,
    pub challenge_url: String,
    pub challenge_status: ChallengeStatus,
}

/// Authorization sub-phase: the authority must be signalled to validate the
/// named challenge.
pub struct ResponseNeeded {
    pub session: Session,
    pub challenge_url: String,
}

/// Authorization sub-phase: waiting for the order's status to leave
/// pending.
pub struct AuthorizePoll {
    pub session: Session,
}

/// What follows once the authorization has been fetched.
pub enum AuthorizeProgress {
    Provision(ProvisionNeeded),
    Poll(AuthorizePoll),
}

/// What follows once the provisioning result has been checked.
pub enum ProvisionChecked {
    Respond(ResponseNeeded),
    Poll(AuthorizePoll),
}

/// One round of waiting for the order to leave pending.
pub enum AuthorizePollOutcome {
    /// Still pending: query the order again after the polling interval.
    Wait(AuthorizePoll),
    /// The status changed: the authorization flow is complete.
    Authorized(AuthorizedState),
}

/// How the authorization flow opens on an order observed in `status`.
pub open spec fn spec_authorize(s: Session, status: OrderStatus) -> AuthorizeStart {
    if status == OrderStatus::Pending {
        AuthorizeStart::NeedsAuthorization(AuthorizationNeeded { session: s })
    } else {
        AuthorizeStart::Authorized(AuthorizedState { session: s })
    }
}

/// What the fetched authorization decides.  A valid authorization needs no
/// work; a pending one needs its first DNS-01 challenge provisioned, and
/// lacking one is a missing authority feature; any other status is a
/// protocol violation carrying it.
pub open spec fn spec_on_authorization(s: Session, a: AuthorizationInfo) -> Result<
    AuthorizeProgress,
    LocalcertError,
> {
    match a.status {
        AuthorizationStatus::Valid => Ok(AuthorizeProgress::Poll(AuthorizePoll { session: s })),
        AuthorizationStatus::Pending => match spec_find_dns01(a.challenges@) {
            Some(i) => Ok(
                AuthorizeProgress::Provision(
                    ProvisionNeeded {
                        session: s,
                        authorization_url: a.url,
                        challenge_url: a.challenges@[i].url,
                        challenge_status: a.challenges@[i].status,
                    },
                ),
            ),
            None => Err(LocalcertError::AcmeFeatureMissing(MissingFeature::Dns01Challenge)),
        },
        _ => Err(
            LocalcertError::StateError(StateViolation::UnexpectedAuthorizationStatus(a.status)),
        ),
    }
}

/// What the provisioning result decides.  A result confirming any URL but
/// the challenge's own is rejected as a protocol violation; a confirmed
/// still-pending challenge must be responded to; a challenge already past
/// pending goes straight to polling.
pub open spec fn spec_on_provision(p: ProvisionNeeded, result: ProvisionResult) -> Result<
    ProvisionChecked,
    LocalcertError,
> {
    if result.provisioned_challenge_url@ != p.challenge_url@ {
        Err(
            LocalcertError::StateError(
                StateViolation::ProvisionedChallengeMismatch {
                    expected: p.challenge_url,
                    provisioned: result.provisioned_challenge_url,
                },
            ),
        )
    } else if p.challenge_status == ChallengeStatus::Pending {
        Ok(
            ProvisionChecked::Respond(
                ResponseNeeded { session: p.session, challenge_url: p.challenge_url },
            ),
        )
    } else {
        Ok(ProvisionChecked::Poll(AuthorizePoll { session: p.session }))
    }
}

/// One polling round: the order still pending means wait and query again;
/// any other status completes the flow.
pub open spec fn spec_poll_on_status(p: AuthorizePoll, status: OrderStatus) -> AuthorizePollOutcome {
    if status == OrderStatus::Pending {
        AuthorizePollOutcome::Wait(AuthorizePoll { session: p.session })
    } else {
        AuthorizePollOutcome::Authorized(AuthorizedState { session: p.session })
    }
}

impl OrderedState {
    pub fn order_url(&self) -> (r: &str)
        ensures
            r@ == self.session.order_url@,
    {
        self.session.order_url.as_str()
    }

    /// Opens the authorization flow on the order's observed status.  The
    /// flow yields an authorized phase whether or not work was needed, so
    /// re-entering it on an order already past pending succeeds at once.
    pub fn authorize(self, order_status: OrderStatus) -> (r: AuthorizeStart)
        ensures
            r == spec_authorize(self.session, order_status),
    {
        if order_status == OrderStatus::Pending {
            AuthorizeStart::NeedsAuthorization(AuthorizationNeeded { session: self.session })
        } else {
            AuthorizeStart::Authorized(AuthorizedState { session: self.session })
        }
    }
}

impl AuthorizationNeeded {
    /// Decides on the order's single authorization, as fetched from the
    /// authority.
    pub fn on_authorization(self, authorization: AuthorizationInfo) -> (r: Result<
        AuthorizeProgress,
        LocalcertError,
    >)
        ensures
            r == spec_on_authorization(self.session, authorization),
    {
        match authorization.status {
            AuthorizationStatus::Valid => Ok(
                AuthorizeProgress::Poll(AuthorizePoll { session: self.session }),
            ),
            AuthorizationStatus::Pending => match find_dns01_challenge(
                &authorization.challenges,
            ) {
                Some(i) => {
                    proof {
                        crate::status::lemma_find_dns01_characterization(
                            authorization.challenges@,
                        );
                    }
                    let challenge = &authorization.challenges[i];
                    Ok(
                        AuthorizeProgress::Provision(
                            ProvisionNeeded {
                                session: self.session,
                                authorization_url: authorization.url,
                                challenge_url: challenge.url.clone(),
                                challenge_status: challenge.status,
                            },
                        ),
                    )
                },
                None => Err(
                    LocalcertError::AcmeFeatureMissing(MissingFeature::Dns01Challenge),
                ),
            },
            _ => Err(
                LocalcertError::StateError(
                    StateViolation::UnexpectedAuthorizationStatus(authorization.status),
                ),
            ),
        }
    }
}

impl ProvisionNeeded {
    /// The authorization URL the provisioning request must cite.
    pub fn authorization_url(&self) -> (r: &str)
        ensures
            r@ == self.authorization_url@,
    {
        self.authorization_url.as_str()
    }

    /// Checks the provisioning service's answer against the challenge the
    /// authority reported.  The confirmed URL must equal the DNS-01
    /// challenge's own URL exactly: a service confirming any other
    /// challenge is a protocol violation and aborts the flow.
    pub fn on_provision(self, result: ProvisionResult) -> (r: Result<
        ProvisionChecked,
        LocalcertError,
    >)
        ensures
            r == spec_on_provision(self, result),
    {
        if !(result.provisioned_challenge_url == self.challenge_url) {
            Err(
                LocalcertError::StateError(
                    StateViolation::ProvisionedChallengeMismatch {
                        expected: self.challenge_url,
                        provisioned: result.provisioned_challenge_url,
                    },
                ),
            )
        } else if self.challenge_status == ChallengeStatus::Pending {
            Ok(
                ProvisionChecked::Respond(
                    ResponseNeeded { session: self.session, challenge_url: self.challenge_url },
                ),
            )
        } else {
            Ok(ProvisionChecked::Poll(AuthorizePoll { session: self.session }))
        }
    }
}

impl ResponseNeeded {
    /// The URL of the challenge the authority must be signalled on.
    pub fn challenge_url(&self) -> (r: &str)
        ensures
            r@ == self.challenge_url@,
    {
        self.challenge_url.as_str()
    }

    /// Records that the authority was signalled; the flow then waits for
    /// the order to leave pending.
    pub fn responded(self) -> (r: AuthorizePoll)
        ensures
            r.session == self.session,
    {
        AuthorizePoll { session: self.session }
    }
}

impl AuthorizePoll {
    /// One polling round on the order's freshly queried status.
    pub fn on_status(self, status: OrderStatus) -> (r: AuthorizePollOutcome)
        ensures
            r == spec_poll_on_status(self, status),
    {
        if status == OrderStatus::Pending {
            AuthorizePollOutcome::Wait(AuthorizePoll { session: self.session })
        } else {
            AuthorizePollOutcome::Authorized(AuthorizedState { session: self.session })
        }
    }
}

/// Law: an authorization the authority already reports valid is handled
/// idempotently.  Entering the flow performs no provisioning step — the
/// fetched authorization leads straight to polling, polling completes as
/// soon as the order has left pending, and an order already past pending
/// completes at once — so driving the flow any number of times over a
/// valid authorization succeeds each time without a provisioning call.
pub proof fn lemma_authorize_valid_is_idempotent(
    s: Session,
    order_status: OrderStatus,
    a: AuthorizationInfo,
)
    requires
        a.status == AuthorizationStatus::Valid,
    ensures
        spec_on_authorization(s, a) == Ok::<AuthorizeProgress, LocalcertError>(
            AuthorizeProgress::Poll(AuthorizePoll { session: s }),
        ),
        forall|st: OrderStatus|
            st != OrderStatus::Pending ==> spec_poll_on_status(AuthorizePoll { session: s }, st)
                == AuthorizePollOutcome::Authorized(AuthorizedState { session: s }),
        order_status != OrderStatus::Pending ==> spec_authorize(s, order_status)
            == AuthorizeStart::Authorized(AuthorizedState { session: s }),
{
}

impl AuthorizedState {
    /// Requires the order to be ready; the authority is then asked to both
    /// generate a key and finalize.  Any other observed status fails with
    /// an unexpected-status error carrying it.
    pub fn finalize_with_generated_key(self, order_status: OrderStatus) -> (r: LocalcertResult<
        FinalizedState,
    >)
        ensures
            order_status == OrderStatus::Ready ==> (r matches Ok(f) && f.session == self.session),
            order_status != OrderStatus::Ready ==> r == Err::<FinalizedState, LocalcertError>(
                LocalcertError::StateError(StateViolation::UnexpectedOrderStatus(order_status)),
            ),
    {
        if order_status == OrderStatus::Ready {
            Ok(FinalizedState { session: self.session })
        } else {
            Err(LocalcertError::unexpected_order_status(order_status))
        }
    }

    /// Requires the order to be ready; the caller-supplied DER-encoded
    /// certificate signing request is then submitted unchanged.  Any other
    /// observed status fails with an unexpected-status error carrying it.
    pub fn finalize_with_csr(self, order_status: OrderStatus, csr_der: Vec<u8>) -> (r:
        LocalcertResult<(Vec<u8>, FinalizedState)>)
        ensures
            order_status == OrderStatus::Ready ==> (r matches Ok(p) && p.0@ == csr_der@
                && p.1.session == self.session),
            order_status != OrderStatus::Ready ==> (r matches Err(e) && e
                == LocalcertError::StateError(
                StateViolation::UnexpectedOrderStatus(order_status),
            )),
    {
        if order_status == OrderStatus::Ready {
            Ok((csr_der, FinalizedState { session: self.session }))
        } else {
            Err(LocalcertError::unexpected_order_status(order_status))
        }
    }
}

/// What one certificate-retrieval round decides.
pub enum CertificateStep {
    /// The order is still processing: query it again after the polling
    /// interval.
    Recheck,
    /// The order is valid: fetch the certificate chain.
    Fetch,
    /// Any other status: the retrieval fails, carrying that status.
    Failed(LocalcertError),
}

impl FinalizedState {
    pub fn order_url(&self) -> (r: &str)
        ensures
            r@ == self.session.order_url@,
    {
        self.session.order_url.as_str()
    }

    /// One certificate-retrieval round on the order's freshly queried
    /// status: wait out processing, fetch once valid, and fail with an
    /// unexpected-status error carrying any other status.  The phase is
    /// not consumed, so retrieval can be retried.
    pub fn get_certificate(&self, order_status: OrderStatus) -> (r: CertificateStep)
        ensures
            order_status == OrderStatus::Processing ==> r == CertificateStep::Recheck,
            order_status == OrderStatus::Valid ==> r == CertificateStep::Fetch,
            order_status != OrderStatus::Processing && order_status != OrderStatus::Valid ==> r
                == CertificateStep::Failed(
                LocalcertError::StateError(StateViolation::UnexpectedOrderStatus(order_status)),
            ),
    {
        if order_status == OrderStatus::Processing {
            CertificateStep::Recheck
        } else if order_status == OrderStatus::Valid {
            CertificateStep::Fetch
        } else {
            CertificateStep::Failed(LocalcertError::unexpected_order_status(order_status))
        }
    }
}

} // verus!
