//! The attestation exchange: a verifier challenges a claimant with a fresh
//! nonce, and the claimant answers with a signature over the nonce and the
//! verifier's identifier.
//!
//! On the wire every message is its fields in order, each at its fixed width,
//! with nothing between or around them. Bytes that follow a complete message
//! are not read.

use vstd::prelude::*;
use crate::bytes::{append, equal, field, read_array};
use crate::error::{OckamError, VaultError};
use crate::identifier::ProfileIdentifier;
use crate::vault::{drawn_bytes, ProfileVault, PublicKey, Secret};

verus! {

/// The number of bytes in a nonce.
pub const NONCE_LENGTH: usize = 16;

/// The number of bytes in a signature.
pub const SIGNATURE_LENGTH: usize = 64;

/// The number of bytes that a request takes on the wire.
pub const REQUEST_LENGTH: usize = 16;

/// The number of bytes that the signed part of a response takes on the wire.
pub const RESPONSE_DATA_LENGTH: usize = 48;

/// The number of bytes that a response takes on the wire.
pub const RESPONSE_LENGTH: usize = 112;

/// What a request says: the nonce that the answer has to echo.
pub struct RequestView {
    pub nonce: Seq<u8>,
}

/// What the signed part of a response says.
pub struct ResponseDataView {
    pub nonce: Seq<u8>,
    pub requester_profile_id: Seq<u8>,
}

/// What a response says.
pub struct ResponseView {
    pub data: ResponseDataView,
    pub signature: Seq<u8>,
}

impl RequestView {
    /// The field has the width that the wire format gives it.
    pub open spec fn well_formed(self) -> bool {
        self.nonce.len() == NONCE_LENGTH
    }

    /// The bytes of the request on the wire.
    pub open spec fn encoding(self) -> Seq<u8> {
        self.nonce
    }

    /// The request that `bytes` start with, if they hold a whole one.
    pub open spec fn decoding(bytes: Seq<u8>) -> Option<RequestView> {
        if bytes.len() >= REQUEST_LENGTH {
            Some(RequestView { nonce: field(bytes, 0, 16) })
        } else {
            None
        }
    }
}

impl ResponseDataView {
    /// Each field has the width that the wire format gives it.
    pub open spec fn well_formed(self) -> bool {
        &&& self.nonce.len() == NONCE_LENGTH
        &&& self.requester_profile_id.len() == 32
    }

    /// The bytes of the signed part on the wire: the bytes that are signed.
    pub open spec fn encoding(self) -> Seq<u8> {
        self.nonce + self.requester_profile_id
    }

    /// The signed part that `bytes` start with, if they hold a whole one.
    pub open spec fn decoding(bytes: Seq<u8>) -> Option<ResponseDataView> {
        if bytes.len() >= RESPONSE_DATA_LENGTH {
            Some(
                ResponseDataView {
                    nonce: field(bytes, 0, 16),
                    requester_profile_id: field(bytes, 16, 32),
                },
            )
        } else {
            None
        }
    }
}

impl ResponseView {
    /// Each field has the width that the wire format gives it.
    pub open spec fn well_formed(self) -> bool {
        &&& self.data.well_formed()
        &&& self.signature.len() == SIGNATURE_LENGTH
    }

    /// The bytes of the response on the wire.
    pub open spec fn encoding(self) -> Seq<u8> {
        self.data.encoding() + self.signature
    }

    /// The response that `bytes` start with, if they hold a whole one.
    pub open spec fn decoding(bytes: Seq<u8>) -> Option<ResponseView> {
        if bytes.len() >= RESPONSE_LENGTH {
            Some(
                ResponseView {
                    data: ResponseDataView {
                        nonce: field(bytes, 0, 16),
                        requester_profile_id: field(bytes, 16, 32),
                    },
                    signature: field(bytes, 48, 64),
                },
            )
        } else {
            None
        }
    }
}

/// The challenge: a nonce drawn for one run of the exchange.
#[derive(Debug)]
pub struct AttestationRequest {
    nonce: [u8; 16],
}

impl View for AttestationRequest {
    type V = RequestView;

    closed spec fn view(&self) -> RequestView {
        RequestView { nonce: self.nonce@ }
    }
}

impl AttestationRequest {
    /// The request that carries `nonce`.
    pub fn new(nonce: [u8; 16]) -> (request: AttestationRequest)
        ensures
            request@.nonce == nonce@,
            request@.well_formed(),
    {
        AttestationRequest { nonce }
    }

    /// The nonce of the request.
    pub fn nonce(&self) -> (nonce: &[u8; 16])
        ensures
            nonce@ == self@.nonce,
    {
        &self.nonce
    }

    /// The request as it goes on the wire.
    pub fn serialize(&self) -> (bytes: Vec<u8>)
        ensures
            bytes@ == self@.encoding(),
    {
        let mut bytes: Vec<u8> = Vec::new();
        append(&mut bytes, self.nonce.as_slice());
        bytes
    }

    /// Reads a request from the start of `bytes`. Fails exactly when `bytes`
    /// are too few to hold one.
    pub fn deserialize(bytes: &[u8]) -> (parsed: Result<AttestationRequest, OckamError>)
        ensures
            match RequestView::decoding(bytes@) {
                Some(request) => parsed is Ok && parsed->Ok_0@ == request,
                None => parsed == Err::<AttestationRequest, OckamError>(
                    OckamError::MalformedRequest,
                ),
            },
    {
        if bytes.len() < REQUEST_LENGTH {
            return Err(OckamError::MalformedRequest);
        }
        Ok(AttestationRequest { nonce: read_array::<16>(bytes, 0) })
    }

    /// Every request has a nonce of the right width.
    pub proof fn lemma_well_formed(&self)
        ensures
            self@.well_formed(),
    {
    }
}

/// The signed part of a response: the nonce that is echoed, and the
/// identifier of the verifier that the response is meant for.
#[derive(Debug)]
pub struct AttestationResponseData {
    nonce: [u8; 16],
    requester_profile_id: ProfileIdentifier,
}

impl View for AttestationResponseData {
    type V = ResponseDataView;

    closed spec fn view(&self) -> ResponseDataView {
        ResponseDataView {
            nonce: self.nonce@,
            requester_profile_id: self.requester_profile_id@,
        }
    }
}

impl AttestationResponseData {
    /// The signed part that echoes `nonce` for the verifier
    /// `requester_profile_id`.
    pub fn new(nonce: [u8; 16], requester_profile_id: ProfileIdentifier) -> (data:
        AttestationResponseData)
        ensures
            data@.nonce == nonce@,
            data@.requester_profile_id == requester_profile_id@,
            data@.well_formed(),
    {
        proof {
            requester_profile_id.lemma_width();
        }
        AttestationResponseData { nonce, requester_profile_id }
    }

    /// The nonce that is echoed.
    pub fn nonce(&self) -> (nonce: &[u8; 16])
        ensures
            nonce@ == self@.nonce,
    {
        &self.nonce
    }

    /// The identifier of the verifier that the response is meant for.
    pub fn requester_profile_id(&self) -> (identifier: &ProfileIdentifier)
        ensures
            identifier@ == self@.requester_profile_id,
    {
        &self.requester_profile_id
    }

    /// The signed part as it goes on the wire: the bytes that are signed.
    pub fn serialize(&self) -> (bytes: Vec<u8>)
        ensures
            bytes@ == self@.encoding(),
    {
        let mut bytes: Vec<u8> = Vec::new();
        append(&mut bytes, self.nonce.as_slice());
        append(&mut bytes, self.requester_profile_id.as_bytes().as_slice());
        bytes
    }

    /// Reads a signed part from the start of `bytes`. Fails exactly when
    /// `bytes` are too few to hold one.
    pub fn deserialize(bytes: &[u8]) -> (parsed: Result<AttestationResponseData, OckamError>)
        ensures
            match ResponseDataView::decoding(bytes@) {
                Some(data) => parsed is Ok && parsed->Ok_0@ == data,
                None => parsed == Err::<AttestationResponseData, OckamError>(
                    OckamError::EncodingError,
                ),
            },
    {
        if bytes.len() < RESPONSE_DATA_LENGTH {
            return Err(OckamError::EncodingError);
        }
        let nonce = read_array::<16>(bytes, 0);
        let requester_profile_id = ProfileIdentifier::from_hash(read_array::<32>(bytes, 16));
        Ok(AttestationResponseData { nonce, requester_profile_id })
    }

    /// Every signed part has fields of the right widths.
    pub proof fn lemma_well_formed(&self)
        ensures
            self@.well_formed(),
    {
        self.requester_profile_id.lemma_width();
    }
}

/// The answer to a challenge: the signed part and the signature over its
/// encoding.
#[derive(Debug)]
pub struct AttestationResponse {
    data: AttestationResponseData,
    signature: [u8; 64],
}

impl View for AttestationResponse {
    type V = ResponseView;

    closed spec fn view(&self) -> ResponseView {
        ResponseView { data: self.data@, signature: self.signature@ }
    }
}

impl AttestationResponse {
    /// The response made of `data` and `signature`.
    pub fn new(data: AttestationResponseData, signature: [u8; 64]) -> (response:
        AttestationResponse)
        ensures
            response@.data == data@,
            response@.signature == signature@,
            response@.well_formed(),
    {
        proof {
            data.lemma_well_formed();
        }
        AttestationResponse { data, signature }
    }

    /// The signed part.
    pub fn data(&self) -> (data: &AttestationResponseData)
        ensures
            data@ == self@.data,
    {
        &self.data
    }

    /// The signature over the encoding of the signed part.
    pub fn signature(&self) -> (signature: &[u8; 64])
        ensures
            signature@ == self@.signature,
    {
        &self.signature
    }

    /// The response as it goes on the wire.
    pub fn serialize(&self) -> (bytes: Vec<u8>)
        ensures
            bytes@ == self@.encoding(),
    {
        let mut bytes: Vec<u8> = self.data.serialize();
        append(&mut bytes, self.signature.as_slice());
        bytes
    }

    /// Reads a response from the start of `bytes`. Fails exactly when `bytes`
    /// are too few to hold one.
    pub fn deserialize(bytes: &[u8]) -> (parsed: Result<AttestationResponse, OckamError>)
        ensures
            match ResponseView::decoding(bytes@) {
                Some(response) => parsed is Ok && parsed->Ok_0@ == response,
                None => parsed == Err::<AttestationResponse, OckamError>(
                    OckamError::EncodingError,
                ),
            },
    {
        if bytes.len() < RESPONSE_LENGTH {
            return Err(OckamError::EncodingError);
        }
        let nonce = read_array::<16>(bytes, 0);
        let requester_profile_id = ProfileIdentifier::from_hash(read_array::<32>(bytes, 16));
        let signature = read_array::<64>(bytes, 48);
        Ok(
            AttestationResponse {
                data: AttestationResponseData { nonce, requester_profile_id },
                signature,
            },
        )
    }

    /// Every response has fields of the right widths.
    pub proof fn lemma_well_formed(&self)
        ensures
            self@.well_formed(),
    {
        self.data.lemma_well_formed();
    }
}

/// The bytes inside a result, as the contracts speak of them.
pub open spec fn wire(result: Result<Vec<u8>, OckamError>) -> Result<Seq<u8>, OckamError> {
    match result {
        Ok(bytes) => Ok(bytes@),
        Err(error) => Err(error),
    }
}

/// What becomes of a draw from the random source: the request that carries
/// the drawn nonce, or the vault's failure. No nonce is ever made up.
pub open spec fn request_from(drawn: Result<Seq<u8>, VaultError>) -> Result<Seq<u8>, OckamError> {
    match drawn {
        Ok(nonce) => Ok(RequestView { nonce }.encoding()),
        Err(error) => Err(OckamError::VaultError(error)),
    }
}

/// The signed part that answers `request_data` for the verifier `requester`.
pub open spec fn response_data_for(request_data: Seq<u8>, requester: Seq<u8>) -> Result<
    ResponseDataView,
    OckamError,
> {
    match RequestView::decoding(request_data) {
        Some(request) => Ok(
            ResponseDataView { nonce: request.nonce, requester_profile_id: requester },
        ),
        None => Err(OckamError::MalformedRequest),
    }
}

/// What becomes of an attempt to sign `data`: the response that carries the
/// signature, or the vault's failure.
pub open spec fn response_from(data: ResponseDataView, signed: Result<[u8; 64], VaultError>)
    -> Result<Seq<u8>, OckamError> {
    match signed {
        Ok(signature) => Ok(ResponseView { data, signature: signature@ }.encoding()),
        Err(error) => Err(OckamError::VaultError(error)),
    }
}

/// The checks on a response that need no key, in their order: both messages
/// must parse, the response must name `requester`, and it must echo the nonce
/// of the request. What passes is the response whose signature is still to be
/// verified.
pub open spec fn examination(requester: Seq<u8>, request_data: Seq<u8>, response_data: Seq<u8>)
    -> Result<ResponseView, OckamError> {
    match ResponseView::decoding(response_data) {
        None => Err(OckamError::EncodingError),
        Some(response) => match RequestView::decoding(request_data) {
            None => Err(OckamError::MalformedRequest),
            Some(request) => if response.data.requester_profile_id != requester {
                Err(OckamError::AttestationRequesterDoesntMatch)
            } else if request.nonce != response.data.nonce {
                Err(OckamError::AttestationNonceDoesntMatch)
            } else {
                Ok(response)
            },
        },
    }
}

/// What becomes of the vault's answer about a signature.
pub open spec fn verdict(answer: Result<bool, VaultError>) -> Result<(), OckamError> {
    match answer {
        Ok(accepted) => if accepted {
            Ok(())
        } else {
            Err(OckamError::SignatureInvalid)
        },
        Err(error) => Err(OckamError::VaultError(error)),
    }
}

/// What a verification comes to: the first failing check before the
/// signature decides, and when none fails, the vault's answer about the
/// signature that the response carries, held against `public_key` over the
/// bytes that were signed.
pub open spec fn verification<V: ProfileVault>(
    requester: Seq<u8>,
    request_data: Seq<u8>,
    public_key: Seq<u8>,
    response_data: Seq<u8>,
    outcome: Result<(), OckamError>,
) -> bool {
    match examination(requester, request_data, response_data) {
        Err(error) => outcome == Err::<(), OckamError>(error),
        Ok(response) => exists|answer: Result<bool, VaultError>| #[trigger]
            V::verify_yields(response.signature, public_key, response.data.encoding(), answer)
                && outcome == verdict(answer),
    }
}

/// The three operations of the exchange, and the steps they are made of.
///
/// An operation that consults the vault is a step that prepares the call, the
/// call, and a step that takes its outcome. The steps are offered on their
/// own for callers that reach their vault in another way.
pub struct Attestation {}

impl Attestation {
    /// Draws a nonce from the vault and returns the request that carries it.
    /// Fails when the vault cannot draw; there is no other source of nonces.
    pub fn generate_attestation_request<V: ProfileVault>(vault: &mut V) -> (request: Result<
        Vec<u8>,
        OckamError,
    >)
        ensures
            exists|drawn: Result<[u8; 16], VaultError>| #[trigger]
                old(vault).random_bytes_yields(16, drawn_bytes(drawn), final(vault)) && wire(
                    request,
                ) == request_from(drawn_bytes(drawn)),
    {
        let drawn = vault.random_bytes::<16>();
        Self::request_with_nonce(drawn)
    }

    /// The request that carries the drawn nonce, or the failure of the draw.
    pub fn request_with_nonce(drawn: Result<[u8; 16], VaultError>) -> (request: Result<
        Vec<u8>,
        OckamError,
    >)
        ensures
            wire(request) == request_from(drawn_bytes(drawn)),
    {
        match drawn {
            Ok(nonce) => Ok(AttestationRequest::new(nonce).serialize()),
            Err(error) => Err(OckamError::VaultError(error)),
        }
    }

    /// Answers the request in `request_data` for the verifier
    /// `requester_profile_id`: echoes its nonce, names the verifier, and signs
    /// the encoding of both with `secret`.
    ///
    /// A request that does not parse is refused before the vault is touched.
    pub fn generate_attestation_response<V: ProfileVault>(
        request_data: &[u8],
        requester_profile_id: ProfileIdentifier,
        secret: &Secret,
        vault: &mut V,
    ) -> (response: Result<Vec<u8>, OckamError>)
        ensures
            match response_data_for(request_data@, requester_profile_id@) {
                Err(error) => response == Err::<Vec<u8>, OckamError>(error) && *final(vault)
                    == *old(vault),
                Ok(data) => exists|signed: Result<[u8; 64], VaultError>| #[trigger]
                    old(vault).sign_yields(*secret, data.encoding(), signed, final(vault)) && wire(
                        response,
                    ) == response_from(data, signed),
            },
    {
        let data = Self::answer_to(request_data, requester_profile_id)?;
        let message = data.serialize();
        let signed = vault.sign(secret, message.as_slice());
        Self::response_with_signature(data, signed)
    }

    /// The signed part that answers the request in `request_data` for the
    /// verifier `requester_profile_id`.
    pub fn answer_to(request_data: &[u8], requester_profile_id: ProfileIdentifier) -> (data:
        Result<AttestationResponseData, OckamError>)
        ensures
            match response_data_for(request_data@, requester_profile_id@) {
                Ok(view) => data is Ok && data->Ok_0@ == view,
                Err(error) => data == Err::<AttestationResponseData, OckamError>(error),
            },
    {
        let request = AttestationRequest::deserialize(request_data)?;
        Ok(AttestationResponseData::new(*request.nonce(), requester_profile_id))
    }

    /// The response that carries `data` and the signature over it, or the
    /// failure of the signing.
    pub fn response_with_signature(
        data: AttestationResponseData,
        signed: Result<[u8; 64], VaultError>,
    ) -> (response: Result<Vec<u8>, OckamError>)
        ensures
            wire(response) == response_from(data@, signed),
    {
        match signed {
            Ok(signature) => Ok(AttestationResponse::new(data, signature).serialize()),
            Err(error) => Err(OckamError::VaultError(error)),
        }
    }

    /// Verifies the response in `response_data` to the request in
    /// `request_data`, as the verifier `requester_profile_id` checking a
    /// claimant whose key is `responder_public_key`.
    ///
    /// The checks run in this order and the first that fails ends the run:
    /// both messages parse; the response names this verifier; the response
    /// echoes the nonce of the request; the vault accepts the signature over
    /// the encoding of the signed part. The vault is asked only when the
    /// first three have passed, and it is left as it was: nothing of a run is
    /// kept.
    pub fn verify_attestation_response<V: ProfileVault>(
        requester_profile_id: &ProfileIdentifier,
        request_data: &[u8],
        responder_public_key: &PublicKey,
        response_data: &[u8],
        vault: &mut V,
    ) -> (outcome: Result<(), OckamError>)
        ensures
            *final(vault) == *old(vault),
            verification::<V>(
                requester_profile_id@,
                request_data@,
                responder_public_key@,
                response_data@,
                outcome,
            ),
    {
        let response = Self::examine(requester_profile_id, request_data, response_data)?;
        let message = response.data().serialize();
        let answer = vault.verify(
            response.signature(),
            responder_public_key.as_slice(),
            message.as_slice(),
        );
        Self::conclude(answer)
    }

    /// The checks on a response that need no key. Hands back the response
    /// whose signature is still to be verified.
    pub fn examine(
        requester_profile_id: &ProfileIdentifier,
        request_data: &[u8],
        response_data: &[u8],
    ) -> (examined: Result<AttestationResponse, OckamError>)
        ensures
            match examination(requester_profile_id@, request_data@, response_data@) {
                Ok(response) => examined is Ok && examined->Ok_0@ == response,
                Err(error) => examined == Err::<AttestationResponse, OckamError>(error),
            },
    {
        let response = AttestationResponse::deserialize(response_data)?;
        let request = AttestationRequest::deserialize(request_data)?;
        if !response.data().requester_profile_id().same_as(requester_profile_id) {
            return Err(OckamError::AttestationRequesterDoesntMatch);
        }
        if !equal(request.nonce().as_slice(), response.data().nonce().as_slice()) {
            return Err(OckamError::AttestationNonceDoesntMatch);
        }
        Ok(response)
    }

    /// What the verification comes to, given the vault's answer about the
    /// signature.
    pub fn conclude(answer: Result<bool, VaultError>) -> (outcome: Result<(), OckamError>)
        ensures
            outcome == verdict(answer),
    {
        match answer {
            Ok(true) => Ok(()),
            Ok(false) => Err(OckamError::SignatureInvalid),
            Err(error) => Err(OckamError::VaultError(error)),
        }
    }
}

/// A request survives the wire: reading what was written gives the same
/// nonce back, whatever bytes follow it.
pub proof fn lemma_request_round_trip(request: RequestView, trailing: Seq<u8>)
    requires
        request.well_formed(),
    ensures
        RequestView::decoding(request.encoding()) == Some(request),
        RequestView::decoding(request.encoding() + trailing) == Some(request),
{
    assert(field(request.encoding(), 0, 16) =~= request.nonce);
    assert(field(request.encoding() + trailing, 0, 16) =~= request.nonce);
}

/// The signed part of a response survives the wire, whatever bytes follow it.
pub proof fn lemma_response_data_round_trip(data: ResponseDataView, trailing: Seq<u8>)
    requires
        data.well_formed(),
    ensures
        ResponseDataView::decoding(data.encoding()) == Some(data),
        ResponseDataView::decoding(data.encoding() + trailing) == Some(data),
{
    assert(field(data.encoding(), 0, 16) =~= data.nonce);
    assert(field(data.encoding(), 16, 32) =~= data.requester_profile_id);
    assert(field(data.encoding() + trailing, 0, 16) =~= data.nonce);
    assert(field(data.encoding() + trailing, 16, 32) =~= data.requester_profile_id);
}

/// A response survives the wire, whatever bytes follow it.
pub proof fn lemma_response_round_trip(response: ResponseView, trailing: Seq<u8>)
    requires
        response.well_formed(),
    ensures
        ResponseView::decoding(response.encoding()) == Some(response),
        ResponseView::decoding(response.encoding() + trailing) == Some(response),
{
    let bytes = response.encoding();
    assert(field(bytes, 0, 16) =~= response.data.nonce);
    assert(field(bytes, 16, 32) =~= response.data.requester_profile_id);
    assert(field(bytes, 48, 64) =~= response.signature);
    assert(field(bytes + trailing, 0, 16) =~= response.data.nonce);
    assert(field(bytes + trailing, 16, 32) =~= response.data.requester_profile_id);
    assert(field(bytes + trailing, 48, 64) =~= response.signature);
}

/// The encoding is canonical: the bytes that are signed belong to one signed
/// part only.
pub proof fn lemma_signed_bytes_are_canonical(a: ResponseDataView, b: ResponseDataView)
    requires
        a.well_formed(),
        b.well_formed(),
        a.encoding() == b.encoding(),
    ensures
        a == b,
{
    lemma_response_data_round_trip(a, Seq::empty());
    lemma_response_data_round_trip(b, Seq::empty());
}

/// A response is bound to the verifier it was made for: made for one
/// verifier, it is refused by every other, whatever request the other holds
/// and whoever signed.
pub proof fn lemma_freshness_binding(
    request_data: Seq<u8>,
    made_for: Seq<u8>,
    signature: [u8; 64],
    checked_by: Seq<u8>,
    checked_against: Seq<u8>,
)
    requires
        made_for.len() == 32,
        response_data_for(request_data, made_for) is Ok,
        RequestView::decoding(checked_against) is Some,
        checked_by != made_for,
    ensures
        ({
            let data = response_data_for(request_data, made_for)->Ok_0;
            let response = response_from(data, Ok(signature))->Ok_0;
            examination(checked_by, checked_against, response) == Err::<ResponseView, OckamError>(
                OckamError::AttestationRequesterDoesntMatch,
            )
        }),
{
    let data = response_data_for(request_data, made_for)->Ok_0;
    lemma_response_round_trip(ResponseView { data, signature: signature@ }, Seq::empty());
}

/// A response cannot be replayed: made for a request with one nonce, it is
/// refused by the verifier it names when held against a request with another
/// nonce, whoever signed.
pub proof fn lemma_replay_rejection(
    request_data: Seq<u8>,
    requester: Seq<u8>,
    signature: [u8; 64],
    later_request: RequestView,
)
    requires
        requester.len() == 32,
        response_data_for(request_data, requester) is Ok,
        later_request.well_formed(),
        later_request.nonce != RequestView::decoding(request_data)->Some_0.nonce,
    ensures
        ({
            let data = response_data_for(request_data, requester)->Ok_0;
            let response = response_from(data, Ok(signature))->Ok_0;
            examination(requester, later_request.encoding(), response) == Err::<
                ResponseView,
                OckamError,
            >(OckamError::AttestationNonceDoesntMatch)
        }),
{
    let data = response_data_for(request_data, requester)->Ok_0;
    lemma_response_round_trip(ResponseView { data, signature: signature@ }, Seq::empty());
    lemma_request_round_trip(later_request, Seq::empty());
}

/// A response that answers a request for a verifier passes that verifier's
/// checks up to the signature, and what then reaches the vault is the
/// signature it carries and the bytes that were signed.
pub proof fn lemma_answer_passes_examination(
    request_data: Seq<u8>,
    requester: Seq<u8>,
    signature: [u8; 64],
)
    requires
        requester.len() == 32,
        response_data_for(request_data, requester) is Ok,
    ensures
        ({
            let data = response_data_for(request_data, requester)->Ok_0;
            let response = response_from(data, Ok(signature))->Ok_0;
            examination(requester, request_data, response) == Ok::<ResponseView, OckamError>(
                ResponseView { data, signature: signature@ },
            )
        }),
{
    let data = response_data_for(request_data, requester)->Ok_0;
    lemma_response_round_trip(ResponseView { data, signature: signature@ }, Seq::empty());
}

/// What success means: the response parses, names this verifier, echoes
/// the nonce of this request, and the vault has answered that the signature
/// it carries is one under `public_key` over the bytes that were signed. A
/// verification never succeeds in any other way.
pub proof fn lemma_success_is_fresh_and_vouched<V: ProfileVault>(
    requester: Seq<u8>,
    request_data: Seq<u8>,
    public_key: Seq<u8>,
    response_data: Seq<u8>,
    outcome: Result<(), OckamError>,
)
    requires
        verification::<V>(requester, request_data, public_key, response_data, outcome),
        outcome is Ok,
    ensures
        RequestView::decoding(request_data) is Some,
        ResponseView::decoding(response_data) is Some,
        ({
            let request = RequestView::decoding(request_data)->Some_0;
            let response = ResponseView::decoding(response_data)->Some_0;
            &&& response.data.requester_profile_id == requester
            &&& response.data.nonce == request.nonce
            &&& V::verify_yields(
                response.signature,
                public_key,
                response.data.encoding(),
                Ok::<bool, VaultError>(true),
            )
        }),
{
    let response = examination(requester, request_data, response_data)->Ok_0;
    let answer = choose|answer: Result<bool, VaultError>| #[trigger]
        V::verify_yields(response.signature, public_key, response.data.encoding(), answer)
            && outcome == verdict(answer);
    assert(answer == Ok::<bool, VaultError>(true));
}

/// The checks before the signature do not look at the signature: with any
/// other signature in its place a response passes or fails them as before,
/// and when it passes, the other signature is what reaches the vault, over
/// the same signed bytes.
pub proof fn lemma_examination_ignores_signature(
    requester: Seq<u8>,
    request_data: Seq<u8>,
    response: ResponseView,
    other_signature: Seq<u8>,
)
    requires
        response.well_formed(),
        other_signature.len() == SIGNATURE_LENGTH,
    ensures
        ({
            let other = ResponseView { data: response.data, signature: other_signature };
            match examination(requester, request_data, response.encoding()) {
                Ok(examined) => examined == response && examination(
                    requester,
                    request_data,
                    other.encoding(),
                ) == Ok::<ResponseView, OckamError>(other),
                Err(error) => examination(requester, request_data, other.encoding()) == Err::<
                    ResponseView,
                    OckamError,
                >(error),
            }
        }),
{
    let other = ResponseView { data: response.data, signature: other_signature };
    lemma_response_round_trip(response, Seq::empty());
    lemma_response_round_trip(other, Seq::empty());
}

} // verus!
