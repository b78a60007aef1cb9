//! The protocol handler: answers one request made under the shell's scheme.
//!
//! Answering alternates between deciding and asking the platform. [`plan`]
//! decides from the request alone whether anything has to be resolved, and
//! where. The platform canonicalizes that location. [`confine`] lets the
//! canonical location pass only where it lies under the allowed root. The
//! platform reads what was let through. [`process`] turns the outcome of the
//! read into a response or an error, and [`respond`] turns an error into a
//! response as well, so that nothing but a response ever reaches the
//! webview. [`handle`] runs all of it around the two platform calls, which
//! the caller supplies.

use crate::mime::mime_of;
use crate::mime::plain_text;
use crate::mime::resolve_mime;
use crate::request::resource_path;
use crate::request::ResourceRequest;
use crate::resolver::is_under;
use crate::resolver::within_root;
use crate::resolver::AllowedRoot;
use crate::resolver::PlatformProfile;
use crate::resolver::ProfileModel;
use crate::resolver::RootModel;
use crate::response::degraded_response;
use crate::response::failure_response;
use crate::response::lemma_description_nonempty;
use crate::response::lemma_encoding_nonempty;
use crate::response::success_response;
use crate::response::ErrorModel;
use crate::response::ResourceError;
use crate::response::ResourceResponse;
use crate::response::ResponseModel;
use vstd::prelude::*;
use vstd::string::StringExecFns;
use vstd::utf8::encode_utf8;

verus! {

/// What has to happen next for a request.
#[derive(Clone, Debug, PartialEq, Eq)]
pub enum HandlerStep {
    /// The answer is known without consulting the filesystem.
    Respond(ResourceResponse),
    /// This location has to be canonicalized.
    Resolve(String),
}

/// Mathematical value of a [`HandlerStep`].
pub enum StepModel {
    Respond(ResponseModel),
    Resolve(Seq<char>),
}

impl View for HandlerStep {
    type V = StepModel;

    open spec fn view(&self) -> StepModel {
        match self {
            HandlerStep::Respond(response) => StepModel::Respond(response@),
            HandlerStep::Resolve(location) => StepModel::Resolve(location@),
        }
    }
}

/// Outcome of canonicalizing a location: the canonical path, or the
/// platform's description of why there is none.
pub type ResolvedModel = Result<Seq<char>, Seq<char>>;

/// Outcome of reading a resource: its bytes, or the platform's description
/// of why there are none.
pub type ReadModel = Result<Seq<u8>, Seq<char>>;

/// Mathematical value of a canonicalization outcome.
pub open spec fn resolved_model(resolved: Result<String, String>) -> ResolvedModel {
    match resolved {
        Ok(canonical) => Ok(canonical@),
        Err(text) => Err(text@),
    }
}

/// Mathematical value of a read outcome.
pub open spec fn read_model(read: Result<Vec<u8>, String>) -> ReadModel {
    match read {
        Ok(bytes) => Ok(bytes@),
        Err(text) => Err(text@),
    }
}

/// Mathematical value of a confinement.
pub open spec fn confinement_model(confinement: Result<String, ResourceError>) -> Result<
    Seq<char>,
    ErrorModel,
> {
    match confinement {
        Ok(canonical) => Ok(canonical@),
        Err(error) => Err(error@),
    }
}

/// Mathematical value of a handling result.
pub open spec fn result_model(result: Result<ResourceResponse, ResourceError>) -> Result<
    ResponseModel,
    ErrorModel,
> {
    match result {
        Ok(response) => Ok(response@),
        Err(error) => Err(error@),
    }
}

/// Text reported for a location outside the allowed root.
pub open spec fn escape_text() -> Seq<char> {
    "path escapes the allowed root"@
}

/// The error that refuses a location outside the allowed root.
pub open spec fn escape_error() -> ErrorModel {
    ErrorModel::ResourceNotFound(escape_text())
}

/// The first step for a request to `uri`: the fixed empty response where
/// the platform resolves nothing, the location to resolve everywhere else.
pub open spec fn plan_of(profile: ProfileModel, uri: Seq<char>) -> StepModel {
    match profile.location(resource_path(uri)) {
        Some(location) => StepModel::Resolve(location),
        None => StepModel::Respond(degraded_response()),
    }
}

/// What may be read once canonicalizing has ended in `resolved`: the
/// canonical location where there is one under `root`, and nothing else.
pub open spec fn confined(root: RootModel, resolved: ResolvedModel) -> Result<
    Seq<char>,
    ErrorModel,
> {
    match resolved {
        Err(text) => Err(ErrorModel::ResourceNotFound(text)),
        Ok(canonical) => if is_under(root, canonical) {
            Ok(canonical)
        } else {
            Err(escape_error())
        },
    }
}

/// What a request to `uri` comes to once its location has been resolved to
/// `canonical` and the read has ended in `read`. A location outside `root`
/// is refused whatever was read; a failed read is reported as such,
/// whatever the extension; bytes are served only under a content type that
/// the MIME table gives.
pub open spec fn outcome_of(
    uri: Seq<char>,
    root: RootModel,
    canonical: Seq<char>,
    read: ReadModel,
) -> Result<ResponseModel, ErrorModel> {
    if !is_under(root, canonical) {
        Err(escape_error())
    } else {
        match read {
            Err(text) => Err(ErrorModel::ResourceNotFound(text)),
            Ok(bytes) => match mime_of(resource_path(uri)) {
                Some(mime) => Ok(success_response(mime, bytes)),
                None => Err(ErrorModel::UnsupportedMimeType),
            },
        }
    }
}

/// The response that a handling result is delivered as.
pub open spec fn answer(result: Result<ResponseModel, ErrorModel>) -> ResponseModel {
    match result {
        Ok(response) => response,
        Err(error) => failure_response(error),
    }
}

/// The response to a request to `uri` on a platform of the given profile,
/// where canonicalizing the resolved location ends in `resolved` and
/// reading what was let through ends in `read`.
pub open spec fn response_of(
    profile: ProfileModel,
    uri: Seq<char>,
    root: RootModel,
    resolved: ResolvedModel,
    read: ReadModel,
) -> ResponseModel {
    if !profile.supports_resolution() {
        degraded_response()
    } else {
        match confined(root, resolved) {
            Err(error) => failure_response(error),
            Ok(canonical) => answer(outcome_of(uri, root, canonical, read)),
        }
    }
}

/// Decides what a request needs: nothing but the fixed empty response on a
/// platform without local resources, the resolved location to be
/// canonicalized elsewhere.
pub fn plan(request: &ResourceRequest, profile: &PlatformProfile) -> (step: HandlerStep)
    ensures
        step@ == plan_of(profile@, request.uri@),
{
    let path: String = request.resource_path();
    match profile.resolve(path.as_str()) {
        Some(location) => HandlerStep::Resolve(location),
        None => HandlerStep::Respond(ResourceResponse::degraded()),
    }
}

/// Decides what may be read: the canonical location, where canonicalizing
/// gave one and it lies under the allowed root. A location outside the
/// root is refused as a resource that is not there.
pub fn confine(root: &AllowedRoot, resolved: Result<String, String>) -> (confinement: Result<
    String,
    ResourceError,
>)
    ensures
        confinement_model(confinement) == confined(root@, resolved_model(resolved)),
{
    match resolved {
        Err(text) => Err(ResourceError::ResourceNotFound(text)),
        Ok(canonical) => {
            if within_root(root, canonical.as_str()) {
                Ok(canonical)
            } else {
                Err(
                    ResourceError::ResourceNotFound(
                        String::from_str("path escapes the allowed root"),
                    ),
                )
            }
        },
    }
}

/// Turns the outcome of reading `canonical` into the result of the
/// request. Bytes that were read outside the allowed root are not served.
pub fn process(
    request: &ResourceRequest,
    root: &AllowedRoot,
    canonical: &str,
    read: Result<Vec<u8>, String>,
) -> (result: Result<ResourceResponse, ResourceError>)
    ensures
        result_model(result) == outcome_of(request.uri@, root@, canonical@, read_model(read)),
{
    if !within_root(root, canonical) {
        return Err(
            ResourceError::ResourceNotFound(String::from_str("path escapes the allowed root")),
        );
    }
    match read {
        Err(text) => Err(ResourceError::ResourceNotFound(text)),
        Ok(bytes) => {
            let path: String = request.resource_path();
            match resolve_mime(path.as_str()) {
                Some(mime) => Ok(ResourceResponse::success(mime, bytes)),
                None => Err(ResourceError::UnsupportedMimeType),
            }
        },
    }
}

/// Delivers a handling result: the response itself, or the failure
/// response that reports the error.
pub fn respond(result: Result<ResourceResponse, ResourceError>) -> (response: ResourceResponse)
    ensures
        response@ == answer(result_model(result)),
{
    match result {
        Ok(response) => response,
        Err(error) => ResourceResponse::failure(&error),
    }
}

/// Answers one request.
///
/// Where the platform resolves local resources, `canonicalize` is asked
/// for the canonical form of the resolved location, and `reader` for the
/// bytes there, but only once that form is known to lie under `root`.
/// Whatever the two return, the caller gets a response.
pub fn handle<C, R>(
    request: &ResourceRequest,
    profile: &PlatformProfile,
    root: &AllowedRoot,
    canonicalize: C,
    reader: R,
) -> (response: ResourceResponse)
    where C: FnOnce(String) -> Result<String, String>, R: FnOnce(String) -> Result<Vec<u8>, String>
    requires
        forall|location: String|
            profile@.location(resource_path(request.uri@)) == Some(location@)
                ==> canonicalize.requires((location,)),
        forall|location: String|
            profile@.supports_resolution() && is_under(root@, location@) ==> reader.requires(
                (location,),
            ),
    ensures
        match profile@.location(resource_path(request.uri@)) {
            None => response@ == degraded_response(),
            Some(location) => exists|asked: String, resolved: Result<String, String>|
                asked@ == location && canonicalize.ensures((asked,), resolved) && match confined(
                    root@,
                    resolved_model(resolved),
                ) {
                    Err(error) => response@ == failure_response(error),
                    Ok(canonical) => exists|given: String, read: Result<Vec<u8>, String>|
                        given@ == canonical && reader.ensures((given,), read) && response@
                            == response_of(
                            profile@,
                            request.uri@,
                            root@,
                            resolved_model(resolved),
                            read_model(read),
                        ),
                },
        },
{
    match plan(request, profile) {
        HandlerStep::Respond(response) => response,
        HandlerStep::Resolve(location) => {
            let ghost asked: String = location;
            let resolved: Result<String, String> = canonicalize(location);
            let ghost found: Result<String, String> = resolved;
            match confine(root, resolved) {
                Err(error) => {
                    let response: ResourceResponse = respond(Err(error));
                    assert(canonicalize.ensures((asked,), found));
                    response
                },
                Ok(canonical) => {
                    let given: String = canonical.clone();
                    let ghost handed: String = given;
                    let read: Result<Vec<u8>, String> = reader(given);
                    let ghost got: Result<Vec<u8>, String> = read;
                    let response: ResourceResponse = respond(
                        process(request, root, canonical.as_str(), read),
                    );
                    assert(handed@ == canonical@ && reader.ensures((handed,), got) && response@
                        == response_of(
                        profile@,
                        request.uri@,
                        root@,
                        resolved_model(found),
                        read_model(got),
                    ));
                    assert(canonicalize.ensures((asked,), found));
                    response
                },
            }
        },
    }
}

/// A request for a path without a listed extension never ends in status
/// 200 where resources are resolved, whatever the platform finds.
pub proof fn lemma_unlisted_extension_fails(
    profile: ProfileModel,
    uri: Seq<char>,
    root: RootModel,
    resolved: ResolvedModel,
    read: ReadModel,
)
    requires
        profile.supports_resolution(),
        mime_of(resource_path(uri)) is None,
    ensures
        response_of(profile, uri, root, resolved, read).status == 500,
{
}

/// A resource that exists under the allowed root and under a listed
/// extension is served with status 200, its content type, and exactly the
/// bytes that were read.
pub proof fn lemma_existing_resource_served(
    profile: ProfileModel,
    uri: Seq<char>,
    root: RootModel,
    canonical: Seq<char>,
    bytes: Seq<u8>,
)
    requires
        profile.supports_resolution(),
        is_under(root, canonical),
        mime_of(resource_path(uri)) is Some,
    ensures
        response_of(profile, uri, root, Ok(canonical), Ok(bytes)) == success_response(
            mime_of(resource_path(uri))->0,
            bytes,
        ),
        response_of(profile, uri, root, Ok(canonical), Ok(bytes)).status == 200,
        response_of(profile, uri, root, Ok(canonical), Ok(bytes)).body == bytes,
{
}

/// The response depends on nothing but the platform's profile, the URI,
/// the allowed root and what the platform found: requests that agree in
/// these get the same response, whatever their method or body and however
/// often they are made.
pub proof fn lemma_identical_requests(
    profile: ProfileModel,
    first: ResourceRequest,
    second: ResourceRequest,
    root: RootModel,
    resolved: ResolvedModel,
    read: ReadModel,
)
    requires
        first.uri@ == second.uri@,
    ensures
        plan_of(profile, first.uri@) == plan_of(profile, second.uri@),
        response_of(profile, first.uri@, root, resolved, read) == response_of(
            profile,
            second.uri@,
            root,
            resolved,
            read,
        ),
{
}

/// A location that cannot be canonicalized, and a read that fails, are
/// answered with status 500 and a plain-text body that is not empty and
/// holds the description of the failure, nothing else.
pub proof fn lemma_failure_reported(
    profile: ProfileModel,
    uri: Seq<char>,
    root: RootModel,
    canonical: Seq<char>,
    text: Seq<char>,
    read: ReadModel,
)
    requires
        profile.supports_resolution(),
        is_under(root, canonical),
    ensures
        response_of(profile, uri, root, Err(text), read) == failure_response(
            ErrorModel::ResourceNotFound(text),
        ),
        response_of(profile, uri, root, Ok(canonical), Err(text)) == failure_response(
            ErrorModel::ResourceNotFound(text),
        ),
        failure_response(ErrorModel::ResourceNotFound(text)).status == 500,
        failure_response(ErrorModel::ResourceNotFound(text)).content_type == Some(plain_text()),
        failure_response(ErrorModel::ResourceNotFound(text)).body.len() > 0,
        text.len() > 0 ==> failure_response(ErrorModel::ResourceNotFound(text)).body
            == encode_utf8(text),
{
    let error = ErrorModel::ResourceNotFound(text);
    lemma_description_nonempty(error);
    lemma_encoding_nonempty(error.description());
}

/// A location outside the allowed root is never served: whatever the read
/// gave, the answer has status 500 and a body that says so, and none of the
/// bytes that were read.
pub proof fn lemma_escape_refused(
    profile: ProfileModel,
    uri: Seq<char>,
    root: RootModel,
    canonical: Seq<char>,
    read: ReadModel,
)
    requires
        profile.supports_resolution(),
        !is_under(root, canonical),
    ensures
        confined(root, Ok(canonical)) == Err::<Seq<char>, ErrorModel>(escape_error()),
        outcome_of(uri, root, canonical, read) == Err::<ResponseModel, ErrorModel>(
            escape_error(),
        ),
        response_of(profile, uri, root, Ok(canonical), read) == failure_response(escape_error()),
        response_of(profile, uri, root, Ok(canonical), read).status == 500,
        response_of(profile, uri, root, Ok(canonical), read).content_type == Some(plain_text()),
        response_of(profile, uri, root, Ok(canonical), read).body == encode_utf8(escape_text()),
{
    reveal_strlit("path escapes the allowed root");
}

/// Where the platform resolves no local resources, every request gets the
/// same empty response with status 200, and nothing is resolved or read
/// for it.
pub proof fn lemma_restricted_platform(
    uri: Seq<char>,
    root: RootModel,
    resolved: ResolvedModel,
    read: ReadModel,
)
    ensures
        plan_of(ProfileModel::CapabilityRestricted, uri) == StepModel::Respond(
            degraded_response(),
        ),
        response_of(ProfileModel::CapabilityRestricted, uri, root, resolved, read)
            == degraded_response(),
        degraded_response().status == 200,
        degraded_response().body.len() == 0,
{
}

} // verus!
