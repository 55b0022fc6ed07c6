//! The messaging capability that every backend offers, and the gateway that
//! owns the one backend selected by the configuration.

use vstd::prelude::*;
use std::sync::Arc;
use crate::config::Value;
use crate::napcat::NapCat;

verus! {

/// Why a gateway could not be built or a backend call did not succeed.
#[derive(Debug, Clone, Copy, PartialEq, Eq, Structural)]
pub enum ApiError {
    /// The configuration enables no backend.
    NoBackendEnabled,
    /// The backend's private task scheduler could not be started, or an
    /// exchange's result never came back from its blocking pool (the
    /// scheduler was shutting down).
    SchedulerUnavailable,
    /// The HTTP exchange failed: no response at all (`status` is `None`) or a
    /// response whose status is not a success.
    Transport { status: Option<u16> },
    /// A listing response whose body is not JSON.
    MalformedBody,
}

/// The actions that a backend offers. Each is one delivery attempt, never
/// retried. A failure comes back as `Transport`, with the status that the
/// server answered where it answered; the HTTP client's own error is not
/// kept.
pub trait ApiTrait: Send + Sync {
    /// Sends a text message to a group.
    fn send_group_message(&self, group_id: &str, message: &str) -> (r: Result<(), ApiError>)
        ensures
            r is Ok || r->Err_0 is Transport || r->Err_0 is SchedulerUnavailable,
    ;

    /// Sends a text message to one user.
    fn send_private_msg(&self, user_id: &str, message: &str) -> (r: Result<(), ApiError>)
        ensures
            r is Ok || r->Err_0 is Transport || r->Err_0 is SchedulerUnavailable,
    ;

    /// Has `message` spoken in a group with the voice `voice`.
    fn send_group_ai_record(&self, group_id: &str, voice: &str, message: &str) -> (r: Result<(), ApiError>)
        ensures
            r is Ok || r->Err_0 is Transport || r->Err_0 is SchedulerUnavailable,
    ;

    /// Mentions the user `qq` in a group.
    fn send_group_at(&self, group_id: &str, qq: &str) -> (r: Result<(), ApiError>)
        ensures
            r is Ok || r->Err_0 is Transport || r->Err_0 is SchedulerUnavailable,
    ;

    /// Shows the image `file` in a group.
    fn send_group_image(&self, group_id: &str, file: &str) -> (r: Result<(), ApiError>)
        ensures
            r is Ok || r->Err_0 is Transport || r->Err_0 is SchedulerUnavailable,
    ;

    /// Uploads `file` under `name` into a folder of a group's file area.
    fn send_group_file(&self, group_id: &str, file: &str, name: &str, folder_id: &str) -> (r: Result<(), ApiError>)
        ensures
            r is Ok || r->Err_0 is Transport || r->Err_0 is SchedulerUnavailable,
    ;

    /// Pokes the user `user_id` in a group.
    fn send_group_poke(&self, group_id: &str, user_id: &str) -> (r: Result<(), ApiError>)
        ensures
            r is Ok || r->Err_0 is Transport || r->Err_0 is SchedulerUnavailable,
    ;

    /// Lists the files of a folder of a group, as the backend's JSON text.
    fn get_group_files_by_folder(&self, group_id: &str, folder_id: &str, file_count: i32) -> (r: Result<String, ApiError>)
        ensures
            r is Ok || r->Err_0 is Transport || r->Err_0 is MalformedBody || r->Err_0 is SchedulerUnavailable,
    ;

    /// Lists the files at the root of a group's file area, as the backend's
    /// JSON text.
    fn get_group_root_files(&self, group_id: &str) -> (r: Result<String, ApiError>)
        ensures
            r is Ok || r->Err_0 is Transport || r->Err_0 is MalformedBody || r->Err_0 is SchedulerUnavailable,
    ;
}

/// The backends that a gateway can select.
pub enum Backend {
    NapCat(NapCat),
}

impl Backend {
    /// The base URL to which the backend posts its actions.
    pub open spec fn endpoint(&self) -> Seq<char> {
        match self {
            Backend::NapCat(n) => n.base_url@,
        }
    }

    /// The token that the backend sends with each action.
    pub open spec fn token(&self) -> Seq<char> {
        match self {
            Backend::NapCat(n) => n.access_token@,
        }
    }
}

impl ApiTrait for Backend {
    fn send_group_message(&self, group_id: &str, message: &str) -> (r: Result<(), ApiError>) {
        match self {
            Backend::NapCat(n) => n.send_group_message(group_id, message),
        }
    }

    fn send_group_ai_record(&self, group_id: &str, voice: &str, message: &str) -> (r: Result<(), ApiError>) {
        match self {
            Backend::NapCat(n) => n.send_group_ai_record(group_id, voice, message),
        }
    }

    fn send_group_at(&self, group_id: &str, qq: &str) -> (r: Result<(), ApiError>) {
        match self {
            Backend::NapCat(n) => n.send_group_at(group_id, qq),
        }
    }

    fn send_group_image(&self, group_id: &str, file: &str) -> (r: Result<(), ApiError>) {
        match self {
            Backend::NapCat(n) => n.send_group_image(group_id, file),
        }
    }

    fn send_group_file(&self, group_id: &str, file: &str, name: &str, folder_id: &str) -> (r: Result<(), ApiError>) {
        match self {
            Backend::NapCat(n) => n.send_group_file(group_id, file, name, folder_id),
        }
    }

    fn send_group_poke(&self, group_id: &str, user_id: &str) -> (r: Result<(), ApiError>) {
        match self {
            Backend::NapCat(n) => n.send_group_poke(group_id, user_id),
        }
    }

    fn send_private_msg(&self, user_id: &str, message: &str) -> (r: Result<(), ApiError>) {
        match self {
            Backend::NapCat(n) => n.send_private_msg(user_id, message),
        }
    }

    fn get_group_files_by_folder(&self, group_id: &str, folder_id: &str, file_count: i32) -> (r: Result<String, ApiError>) {
        match self {
            Backend::NapCat(n) => n.get_group_files_by_folder(group_id, folder_id, file_count),
        }
    }

    fn get_group_root_files(&self, group_id: &str) -> (r: Result<String, ApiError>) {
        match self {
            Backend::NapCat(n) => n.get_group_root_files(group_id),
        }
    }
}

/// The gateway: the one backend that the configuration selects, shared by
/// every holder of a clone.
#[derive(Clone)]
pub struct ApiManager {
    api: Arc<Backend>,
}

impl ApiManager {
    /// The backend behind the gateway.
    pub closed spec fn backend(&self) -> Backend {
        *self.api
    }

    /// The gateway for a configuration: the reference backend, set up with the
    /// configuration's base URL and access token, where the configuration
    /// enables it; `NoBackendEnabled`, with no backend built, where it enables
    /// none.
    pub fn new(config: Arc<Value>) -> (r: Result<Self, ApiError>)
        ensures
            !config.napcat ==> r == Err::<Self, ApiError>(ApiError::NoBackendEnabled),
            config.napcat ==> (r is Ok || r->Err_0 == ApiError::SchedulerUnavailable),
            r is Ok ==> r->Ok_0.backend() is NapCat,
            r is Ok ==> r->Ok_0.backend().endpoint() == config.base_url_view(),
            r is Ok ==> r->Ok_0.backend().token() == config.access_token_view(),
    {
        if config.napcat {
            match NapCat::new(config.base_url(), config.access_token()) {
                Ok(napcat) => Ok(ApiManager { api: Arc::new(Backend::NapCat(napcat)) }),
                Err(e) => Err(e),
            }
        } else {
            Err(ApiError::NoBackendEnabled)
        }
    }

    /// Sends a text message to a group. One attempt on the selected backend.
    pub fn send_group_message(&self, group_id: &str, message: &str) -> (r: Result<(), ApiError>)
        ensures
            r is Ok || r->Err_0 is Transport || r->Err_0 is SchedulerUnavailable,
    {
        (*self.api).send_group_message(group_id, message)
    }

    /// Has `message` spoken in a group with the voice `voice`. One attempt on the selected backend.
    pub fn send_group_ai_record(&self, group_id: &str, voice: &str, message: &str) -> (r: Result<(), ApiError>)
        ensures
            r is Ok || r->Err_0 is Transport || r->Err_0 is SchedulerUnavailable,
    {
        (*self.api).send_group_ai_record(group_id, voice, message)
    }

    /// Mentions the user `qq` in a group. One attempt on the selected backend.
    pub fn send_group_at(&self, group_id: &str, qq: &str) -> (r: Result<(), ApiError>)
        ensures
            r is Ok || r->Err_0 is Transport || r->Err_0 is SchedulerUnavailable,
    {
        (*self.api).send_group_at(group_id, qq)
    }

    /// Shows the image `file` in a group. One attempt on the selected backend.
    pub fn send_group_image(&self, group_id: &str, file: &str) -> (r: Result<(), ApiError>)
        ensures
            r is Ok || r->Err_0 is Transport || r->Err_0 is SchedulerUnavailable,
    {
        (*self.api).send_group_image(group_id, file)
    }

    /// Uploads `file` under `name` into a folder of a group's file area. One attempt on the selected backend.
    pub fn send_group_file(&self, group_id: &str, file: &str, name: &str, folder_id: &str) -> (r: Result<(), ApiError>)
        ensures
            r is Ok || r->Err_0 is Transport || r->Err_0 is SchedulerUnavailable,
    {
        (*self.api).send_group_file(group_id, file, name, folder_id)
    }

    /// Pokes the user `user_id` in a group. One attempt on the selected backend.
    pub fn send_group_poke(&self, group_id: &str, user_id: &str) -> (r: Result<(), ApiError>)
        ensures
            r is Ok || r->Err_0 is Transport || r->Err_0 is SchedulerUnavailable,
    {
        (*self.api).send_group_poke(group_id, user_id)
    }

    /// Sends a text message to one user. One attempt on the selected backend.
    pub fn send_private_msg(&self, user_id: &str, message: &str) -> (r: Result<(), ApiError>)
        ensures
            r is Ok || r->Err_0 is Transport || r->Err_0 is SchedulerUnavailable,
    {
        (*self.api).send_private_msg(user_id, message)
    }

    /// Lists the files of a folder of a group, as the backend's JSON text. One attempt on the selected backend.
    pub fn get_group_files_by_folder(&self, group_id: &str, folder_id: &str, file_count: i32) -> (r: Result<String, ApiError>)
        ensures
            r is Ok || r->Err_0 is Transport || r->Err_0 is MalformedBody || r->Err_0 is SchedulerUnavailable,
    {
        (*self.api).get_group_files_by_folder(group_id, folder_id, file_count)
    }

    /// Lists the files at the root of a group's file area, as the backend's JSON text. One attempt on the selected backend.
    pub fn get_group_root_files(&self, group_id: &str) -> (r: Result<String, ApiError>)
        ensures
            r is Ok || r->Err_0 is Transport || r->Err_0 is MalformedBody || r->Err_0 is SchedulerUnavailable,
    {
        (*self.api).get_group_root_files(group_id)
    }
}

} // verus!
