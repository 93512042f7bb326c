//! Requests to the build service, and what its responses mean.

use crate::config::{resolve_base_url, resolve_token, Config};
use crate::error::{Error, ErrorView, Operation, Stage};
use crate::http_status::{is_success, success};
use crate::text::{join, joined, signed, signed_decimal};
use vstd::prelude::*;
use vstd::string::StringExecFns;

verus! {

/// One job as the service reports it in a status response.
#[derive(Clone, Debug, PartialEq, Eq)]
pub struct JobStatus {
    /// Opaque identifier, unique within one build request.
    pub job_id: String,
    /// `pending`, `running`, `finished` or `failed`; other values may appear.
    pub status: String,
    /// Name shown to the user.
    pub name: String,
    /// Why the job failed, if the service said so.
    pub fail_message: Option<String>,
    /// Technical detail of the failure, if the service gave any.
    pub technical_error: Option<String>,
}

/// A [`JobStatus`] as a mathematical value.
pub struct JobStatusView {
    pub job_id: Seq<char>,
    pub status: Seq<char>,
    pub name: Seq<char>,
    pub fail_message: Option<Seq<char>>,
    pub technical_error: Option<Seq<char>>,
}

impl View for JobStatus {
    type V = JobStatusView;

    open spec fn view(&self) -> JobStatusView {
        JobStatusView {
            job_id: self.job_id@,
            status: self.status@,
            name: self.name@,
            fail_message: self.fail_message.deep_view(),
            technical_error: self.technical_error.deep_view(),
        }
    }
}

impl DeepView for JobStatus {
    type V = JobStatusView;

    open spec fn deep_view(&self) -> JobStatusView {
        self@
    }
}

/// The answer to one status query: a snapshot of every job the service
/// knows of, and two flags that summarise them.
#[derive(Clone, Debug, PartialEq, Eq)]
pub struct BuildStatusResponse {
    pub jobs: Vec<JobStatus>,
    /// No job is still pending or running.
    pub all_finished: bool,
    /// At least one job has failed.
    pub any_failed: bool,
}

/// A [`BuildStatusResponse`] as a mathematical value.
pub struct BuildStatusResponseView {
    pub jobs: Seq<JobStatusView>,
    pub all_finished: bool,
    pub any_failed: bool,
}

impl View for BuildStatusResponse {
    type V = BuildStatusResponseView;

    open spec fn view(&self) -> BuildStatusResponseView {
        BuildStatusResponseView {
            jobs: self.jobs.deep_view(),
            all_finished: self.all_finished,
            any_failed: self.any_failed,
        }
    }
}

impl DeepView for BuildStatusResponse {
    type V = BuildStatusResponseView;

    open spec fn deep_view(&self) -> BuildStatusResponseView {
        self@
    }
}

/// The method of a request.
#[derive(Clone, Copy, Debug, PartialEq, Eq, Structural)]
pub enum Method {
    Get,
    Post,
}

/// What a request carries in its body.
#[derive(Clone, Debug, PartialEq, Eq)]
pub enum Payload {
    /// No body.
    Nothing,
    /// A multipart form with one text field.
    Field { name: String, value: String },
    /// A multipart form with one part that holds a file.
    File { name: String, file_name: String, mime: String, bytes: Vec<u8> },
}

/// A [`Payload`] as a mathematical value.
pub enum PayloadView {
    Nothing,
    Field { name: Seq<char>, value: Seq<char> },
    File { name: Seq<char>, file_name: Seq<char>, mime: Seq<char>, bytes: Seq<u8> },
}

impl View for Payload {
    type V = PayloadView;

    open spec fn view(&self) -> PayloadView {
        match self {
            Payload::Nothing => PayloadView::Nothing,
            Payload::Field { name, value } => PayloadView::Field { name: name@, value: value@ },
            Payload::File { name, file_name, mime, bytes } => PayloadView::File {
                name: name@,
                file_name: file_name@,
                mime: mime@,
                bytes: bytes@,
            },
        }
    }
}

/// One request to the service, ready to be sent.
#[derive(Clone, Debug, PartialEq, Eq)]
pub struct Request {
    /// The operation that the request belongs to.
    pub operation: Operation,
    pub method: Method,
    pub url: String,
    /// The bearer token that authorises the request.
    pub token: String,
    pub payload: Payload,
}

/// A [`Request`] as a mathematical value.
pub struct RequestView {
    pub operation: Operation,
    pub method: Method,
    pub url: Seq<char>,
    pub token: Seq<char>,
    pub payload: PayloadView,
}

impl View for Request {
    type V = RequestView;

    open spec fn view(&self) -> RequestView {
        RequestView {
            operation: self.operation,
            method: self.method,
            url: self.url@,
            token: self.token@,
            payload: self.payload@,
        }
    }
}

/// Name of the form field that holds the version to build.
pub const VERSION_FIELD: &'static str = "version";

/// Name of the form part that holds the uploaded file.
pub const FILE_PART: &'static str = "file";

/// Media type under which files are uploaded.
pub const FILE_MIME: &'static str = "application/octet-stream";

/// Where a file is uploaded to: the package and the slot go in the query.
pub open spec fn upload_url(base_url: Seq<char>, package_id: i32, ref_id: Seq<char>) -> Seq<
    char,
> {
    base_url + "/api/upload_file?packageId="@ + signed(package_id as int) + "&accessName="@
        + ref_id
}

/// Where a build is triggered: for one target if one is given, else for all
/// enabled targets.
pub open spec fn build_url(base_url: Seq<char>, package_id: i32, target: Option<Seq<char>>) -> Seq<
    char,
> {
    match target {
        Some(target) => base_url + "/api/build_package_single?packageId="@ + signed(
            package_id as int,
        ) + "&distroType="@ + target,
        None => base_url + "/api/build_package?packageId="@ + signed(package_id as int),
    }
}

/// Where the status of jobs is asked for: the job identifiers go in the
/// query, with commas between them.
pub open spec fn status_url(base_url: Seq<char>, job_ids: Seq<Seq<char>>) -> Seq<char> {
    base_url + "/api/build_status?jobIds="@ + joined(job_ids, ","@)
}

/// An [`ApiClient`] as a mathematical value.
pub struct ApiClientView {
    pub base_url: Seq<char>,
    pub token: Seq<char>,
}

impl ApiClientView {
    /// The request that triggers a build of `version`.
    pub open spec fn build_request(
        self,
        package_id: i32,
        version: Seq<char>,
        target: Option<Seq<char>>,
    ) -> RequestView {
        RequestView {
            operation: Operation::Build,
            method: Method::Post,
            url: build_url(self.base_url, package_id, target),
            token: self.token,
            payload: PayloadView::Field { name: VERSION_FIELD@, value: version },
        }
    }

    /// The request that asks for the status of `job_ids`.
    pub open spec fn status_request(self, job_ids: Seq<Seq<char>>) -> RequestView {
        RequestView {
            operation: Operation::Status,
            method: Method::Get,
            url: status_url(self.base_url, job_ids),
            token: self.token,
            payload: PayloadView::Nothing,
        }
    }
}

/// The three operations of the build service, against one base URL and
/// under one bearer token.
///
/// The client sends nothing itself: it says which request to send, and what
/// the response to it means.
#[derive(Clone, Debug, PartialEq, Eq)]
pub struct ApiClient {
    base_url: String,
    token: String,
}

impl View for ApiClient {
    type V = ApiClientView;

    closed spec fn view(&self) -> ApiClientView {
        ApiClientView { base_url: self.base_url@, token: self.token@ }
    }
}

/// An upload whose file exists and is to be read next.
#[derive(Clone, Debug, PartialEq, Eq)]
pub struct PendingUpload {
    url: String,
    token: String,
    path: String,
}

/// A [`PendingUpload`] as a mathematical value.
pub struct PendingUploadView {
    pub url: Seq<char>,
    pub token: Seq<char>,
    pub path: Seq<char>,
}

impl View for PendingUpload {
    type V = PendingUploadView;

    closed spec fn view(&self) -> PendingUploadView {
        PendingUploadView { url: self.url@, token: self.token@, path: self.path@ }
    }
}

impl PendingUploadView {
    /// The request that uploads `bytes` under the name `file_name`.
    pub open spec fn request(self, file_name: Seq<char>, bytes: Seq<u8>) -> RequestView {
        RequestView {
            operation: Operation::Upload,
            method: Method::Post,
            url: self.url,
            token: self.token,
            payload: PayloadView::File {
                name: FILE_PART@,
                file_name,
                mime: FILE_MIME@,
                bytes,
            },
        }
    }
}

/// Takes the last component of a path with `std::path::Path::file_name`.
///
/// Nothing is promised of the result: what counts as a component depends on
/// the platform.
#[verifier::external_body]
fn file_name_of(path: &str) -> (name: Option<String>) {
    std::path::Path::new(path).file_name().and_then(|name| name.to_str()).map(
        |name| name.to_string(),
    )
}

impl PendingUpload {
    /// The path of the file to read.
    pub fn path(&self) -> (path: &str)
        ensures
            path@ == self@.path,
    {
        self.path.as_str()
    }

    /// The upload of `bytes`, given the file name that the path ends in, if
    /// it ends in one.
    pub fn request(self, file_name: Option<String>, bytes: Vec<u8>) -> (request: Result<
        Request,
        Error,
    >)
        ensures
            match request {
                Ok(request) => file_name matches Some(name) && request@ == self@.request(
                    name@,
                    bytes@,
                ),
                Err(error) => file_name is None && error@ == ErrorView::InvalidFileName,
            },
    {
        match file_name {
            None => Err(Error::InvalidFileName),
            Some(file_name) => Ok(
                Request {
                    operation: Operation::Upload,
                    method: Method::Post,
                    url: self.url,
                    token: self.token,
                    payload: Payload::File {
                        name: String::from_str(FILE_PART),
                        file_name,
                        mime: String::from_str(FILE_MIME),
                        bytes,
                    },
                },
            ),
        }
    }

    /// Goes on with the upload once the file has been read, or could not be:
    /// `content` holds its bytes, or what went wrong.
    ///
    /// A file that could not be read ends the upload. So does a path that
    /// ends in no file name; else the file is uploaded under that name.
    pub fn read(self, content: Result<Vec<u8>, String>) -> (request: Result<Request, Error>)
        ensures
            match content {
                Err(detail) => request matches Err(error) && error@ == (ErrorView::Io {
                    path: self@.path,
                    detail: detail@,
                }),
                Ok(bytes) => match request {
                    Ok(request) => exists|name: Seq<char>| request@ == self@.request(name, bytes@),
                    Err(error) => error@ == ErrorView::InvalidFileName,
                },
            },
    {
        match content {
            Err(detail) => Err(Error::Io { path: self.path, detail }),
            Ok(bytes) => {
                let file_name = file_name_of(self.path.as_str());
                self.request(file_name, bytes)
            },
        }
    }
}

impl ApiClient {
    /// A client for the service that `config` and the environment name:
    /// `token_variable` and `base_url_variable` hold the values of
    /// [`TOKEN_VARIABLE`](crate::config::TOKEN_VARIABLE) and
    /// [`BASE_URL_VARIABLE`](crate::config::BASE_URL_VARIABLE), as far as
    /// they are set. Without a token there is no client.
    pub fn new(
        config: &Config,
        token_variable: Option<String>,
        base_url_variable: Option<String>,
    ) -> (client: Result<ApiClient, Error>)
        ensures
            match client {
                Ok(client) => {
                    &&& resolve_token(token_variable.deep_view(), config@) == Some(client@.token)
                    &&& client@.base_url == resolve_base_url(
                        base_url_variable.deep_view(),
                        config@,
                    )
                },
                Err(error) => {
                    &&& resolve_token(token_variable.deep_view(), config@) is None
                    &&& error@ == ErrorView::NotConfigured
                },
            },
    {
        match config.api_token(token_variable) {
            Err(error) => Err(error),
            Ok(token) => Ok(ApiClient { base_url: config.base_url(base_url_variable), token }),
        }
    }

    /// The first step of an upload to the slot `ref_id` of a package, given
    /// whether the file at `file_path` exists. A file that does not exist is
    /// not uploaded, and nothing is sent.
    pub fn upload_file(&self, package_id: i32, ref_id: &str, file_path: &str, file_exists: bool) -> (step:
        Result<PendingUpload, Error>)
        ensures
            match step {
                Ok(pending) => file_exists && pending@ == (PendingUploadView {
                    url: upload_url(self@.base_url, package_id, ref_id@),
                    token: self@.token,
                    path: file_path@,
                }),
                Err(error) => !file_exists && error@ == (ErrorView::FileNotFound {
                    path: file_path@,
                }),
            },
    {
        if !file_exists {
            return Err(Error::FileNotFound { path: String::from_str(file_path) });
        }
        let id = signed_decimal(package_id);
        let url = self.base_url.clone().concat("/api/upload_file?packageId=").concat(
            id.as_str(),
        ).concat("&accessName=").concat(ref_id);
        Ok(PendingUpload { url, token: self.token.clone(), path: String::from_str(file_path) })
    }

    /// The request that triggers a build of `version`: for `target` if one
    /// is given, else for all enabled targets.
    pub fn build_package(&self, package_id: i32, version: &str, target: Option<&str>) -> (request:
        Request)
        ensures
            request@ == self@.build_request(package_id, version@, target.deep_view()),
    {
        let id = signed_decimal(package_id);
        let url = match target {
            Some(target) => self.base_url.clone().concat(
                "/api/build_package_single?packageId=",
            ).concat(id.as_str()).concat("&distroType=").concat(target),
            None => self.base_url.clone().concat("/api/build_package?packageId=").concat(
                id.as_str(),
            ),
        };
        Request {
            operation: Operation::Build,
            method: Method::Post,
            url,
            token: self.token.clone(),
            payload: Payload::Field {
                name: String::from_str(VERSION_FIELD),
                value: String::from_str(version),
            },
        }
    }

    /// The request that asks for the status of `job_ids`.
    pub fn check_build_status(&self, job_ids: &Vec<String>) -> (request: Request)
        ensures
            request@ == self@.status_request(job_ids.deep_view()),
    {
        let ids = join(job_ids, ",");
        let url = self.base_url.clone().concat("/api/build_status?jobIds=").concat(ids.as_str());
        Request {
            operation: Operation::Status,
            method: Method::Get,
            url,
            token: self.token.clone(),
            payload: Payload::Nothing,
        }
    }
}

/// What to read of a response, once its status is known.
#[derive(Clone, Copy, Debug, PartialEq, Eq, Structural)]
pub enum BodyPlan {
    /// The operation has succeeded and returns nothing: the body is left
    /// unread.
    Nothing,
    /// The operation has succeeded: the body holds what it returns.
    Decode,
    /// The operation was rejected: the body, read as text, says why.
    Text,
}

/// What to read of the response to `operation`, given its status. A status
/// outside the range of success means that the operation was rejected.
pub open spec fn plan_for(operation: Operation, status: u16) -> BodyPlan {
    if !success(status) {
        BodyPlan::Text
    } else if operation is Upload {
        BodyPlan::Nothing
    } else {
        BodyPlan::Decode
    }
}

/// Decides from the status of the response to `operation` what to read of
/// its body.
pub fn body_plan(operation: Operation, status: u16) -> (plan: BodyPlan)
    ensures
        plan == plan_for(operation, status),
{
    if !is_success(status) {
        BodyPlan::Text
    } else {
        match operation {
            Operation::Upload => BodyPlan::Nothing,
            _ => BodyPlan::Decode,
        }
    }
}

/// The error of an operation whose request could not be sent, or to which no
/// response arrived; `detail` says what happened.
pub fn send_failed(operation: Operation, detail: String) -> (error: Error)
    ensures
        error@ == (ErrorView::Transport { operation, stage: Stage::Send, detail: detail@ }),
{
    Error::Transport { operation, stage: Stage::Send, detail }
}

/// The error of an operation whose response reported success with a body
/// that could not be decoded; `detail` says what is wrong with it.
pub fn decode_failed(operation: Operation, detail: String) -> (error: Error)
    ensures
        error@ == (ErrorView::Transport { operation, stage: Stage::Decode, detail: detail@ }),
{
    Error::Transport { operation, stage: Stage::Decode, detail }
}

/// The error of an operation that the service rejected with `status`. The
/// body of the response goes into the error as far as it could be read.
pub fn rejected(operation: Operation, status: u16, body: Option<String>) -> (error: Error)
    ensures
        error@ == (ErrorView::RemoteRejected {
            operation,
            status,
            body: match body {
                Some(body) => body@,
                None => Seq::empty(),
            },
        }),
{
    let body = match body {
        Some(body) => body,
        None => String::new(),
    };
    Error::RemoteRejected { operation, status, body }
}

} // verus!
