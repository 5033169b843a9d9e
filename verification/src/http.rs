//! What is sent to the service that keeps canvases, and what comes back.

use crate::config::{ConfigJson, StateInfo};
use vstd::prelude::*;

verus! {

/// An answer of the service: what was asked for, or why not.
pub type Response<T> = Result<T, String>;

pub type SaveResponse = Response<StateInfo>;

pub type LoadResponse = Response<CanvasJsonReqResp>;

pub type RegisterResponse = Response<UserInfo>;

pub type LoginResponse = Response<bool>;

pub type AuthedResponse = Response<UserInfo>;

pub type ListCanviResponse = Response<Vec<CanvasJsonReqResp>>;

#[derive(Debug)]
pub struct LoadRequest {
    pub id: String,
}

/// A canvas with what is known of it, as it is kept and as it is loaded.
#[derive(Debug)]
pub struct CanvasJsonReqResp {
    pub info: StateInfo,
    pub json: ConfigJson,
}

#[derive(Debug)]
pub struct LoginForm {
    pub username: String,
    pub password: String,
}

#[derive(Debug, Clone)]
pub struct UserInfo {
    pub id: i32,
    pub name: String,
    pub created_at: i64,
    pub updated_at: i64,
}

} // verus!
