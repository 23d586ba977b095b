//! Errors of the runtime's HTTP API, and what each operation makes of them.
//! The daemon answers a failed request with a status code and a message; the
//! operations tell a few codes apart (404: no such object, 409: conflict,
//! 304: nothing to do, 403: refused) and report the rest as runtime errors.
use crate::runtime::traits::{ContainerError, ExecError, ImageError, NetworkError};
use crate::text::{join2, join3};
use vstd::prelude::*;

verus! {

/// A failed API call, as plain values.
#[derive(Debug)]
pub struct ApiError {
    /// The status code, when the daemon answered with an error.
    pub status: Option<u16>,
    /// The daemon's message, when it answered with an error.
    pub message: String,
    /// The error as its `Display` writes it.
    pub text: String,
}

/// Whether the daemon answered with status `code`.
pub open spec fn has_status(e: ApiError, code: u16) -> bool {
    e.status == Some(code)
}

/// A failed pull of `image_name`: `<image>: <error>`.
pub fn map_image_pull_error(e: &ApiError, image_name: &str) -> (r: ImageError)
    ensures
        r matches ImageError::PullFailed(m) && m@ == image_name@ + ": "@ + e.text@,
{
    ImageError::PullFailed(join3(image_name, ": ", e.text.as_str()))
}

/// A failed removal of `image_name`.
pub fn map_image_remove_error(e: &ApiError, image_name: &str) -> (r: ImageError)
    ensures
        has_status(*e, 404) ==> (r matches ImageError::NotFound(m) && m@ == image_name@),
        !has_status(*e, 404) ==> (r matches ImageError::Runtime(m) && m@ == "failed to remove "@
            + image_name@ + ": "@ + e.text@),
{
    if e.status == Some(404u16) {
        ImageError::NotFound(String::from_str(image_name))
    } else {
        let mut m = join3("failed to remove ", image_name, ": ");
        m.append(e.text.as_str());
        ImageError::Runtime(m)
    }
}

/// A failed container creation: 404 means the image is missing, 409 that the
/// name is taken.
pub fn map_container_create_error(e: &ApiError) -> (r: ContainerError)
    ensures
        has_status(*e, 404) ==> (r matches ContainerError::ImageNotFound(m) && m@ == e.message@),
        has_status(*e, 409) ==> (r matches ContainerError::AlreadyExists(m) && m@ == e.message@),
        !has_status(*e, 404) && !has_status(*e, 409) ==> (r matches ContainerError::Runtime(m)
            && m@ == e.text@),
{
    if e.status == Some(404u16) {
        ContainerError::ImageNotFound(e.message.clone())
    } else if e.status == Some(409u16) {
        ContainerError::AlreadyExists(e.message.clone())
    } else {
        ContainerError::Runtime(e.text.clone())
    }
}

/// A failed start: 404 no such container, 304 already running.
pub fn map_container_start_error(e: &ApiError) -> (r: ContainerError)
    ensures
        has_status(*e, 404) ==> (r matches ContainerError::NotFound(m) && m@ == e.message@),
        has_status(*e, 304) ==> (r matches ContainerError::AlreadyRunning(m) && m@ == e.message@),
        !has_status(*e, 404) && !has_status(*e, 304) ==> (r matches ContainerError::Runtime(m)
            && m@ == e.text@),
{
    if e.status == Some(404u16) {
        ContainerError::NotFound(e.message.clone())
    } else if e.status == Some(304u16) {
        ContainerError::AlreadyRunning(e.message.clone())
    } else {
        ContainerError::Runtime(e.text.clone())
    }
}

/// A failed stop: 404 no such container, 304 not running.
pub fn map_container_stop_error(e: &ApiError) -> (r: ContainerError)
    ensures
        has_status(*e, 404) ==> (r matches ContainerError::NotFound(m) && m@ == e.message@),
        has_status(*e, 304) ==> (r matches ContainerError::NotRunning(m) && m@ == e.message@),
        !has_status(*e, 404) && !has_status(*e, 304) ==> (r matches ContainerError::Runtime(m)
            && m@ == e.text@),
{
    if e.status == Some(404u16) {
        ContainerError::NotFound(e.message.clone())
    } else if e.status == Some(304u16) {
        ContainerError::NotRunning(e.message.clone())
    } else {
        ContainerError::Runtime(e.text.clone())
    }
}

/// A failed call on a container that may not exist: 404 no such container.
pub fn map_container_not_found_error(e: &ApiError) -> (r: ContainerError)
    ensures
        has_status(*e, 404) ==> (r matches ContainerError::NotFound(m) && m@ == e.message@),
        !has_status(*e, 404) ==> (r matches ContainerError::Runtime(m) && m@ == e.text@),
{
    if e.status == Some(404u16) {
        ContainerError::NotFound(e.message.clone())
    } else {
        ContainerError::Runtime(e.text.clone())
    }
}

/// A failed rename: 404 no such container, 409 name taken.
pub fn map_container_rename_error(e: &ApiError) -> (r: ContainerError)
    ensures
        has_status(*e, 404) ==> (r matches ContainerError::NotFound(m) && m@ == e.message@),
        has_status(*e, 409) ==> (r matches ContainerError::AlreadyExists(m) && m@ == e.message@),
        !has_status(*e, 404) && !has_status(*e, 409) ==> (r matches ContainerError::Runtime(m)
            && m@ == e.text@),
{
    if e.status == Some(404u16) {
        ContainerError::NotFound(e.message.clone())
    } else if e.status == Some(409u16) {
        ContainerError::AlreadyExists(e.message.clone())
    } else {
        ContainerError::Runtime(e.text.clone())
    }
}

/// A failed network creation: 409 it exists already.
pub fn map_network_create_error(e: &ApiError) -> (r: NetworkError)
    ensures
        has_status(*e, 409) ==> (r matches NetworkError::AlreadyExists(m) && m@ == e.message@),
        !has_status(*e, 409) ==> (r matches NetworkError::Runtime(m) && m@ == e.text@),
{
    if e.status == Some(409u16) {
        NetworkError::AlreadyExists(e.message.clone())
    } else {
        NetworkError::Runtime(e.text.clone())
    }
}

/// A failed network removal: 404 no such network, 403 still in use.
pub fn map_network_remove_error(e: &ApiError) -> (r: NetworkError)
    ensures
        has_status(*e, 404) ==> (r matches NetworkError::NotFound(m) && m@ == e.message@),
        has_status(*e, 403) ==> (r matches NetworkError::InUse(m) && m@ == e.message@),
        !has_status(*e, 404) && !has_status(*e, 403) ==> (r matches NetworkError::Runtime(m)
            && m@ == e.text@),
{
    if e.status == Some(404u16) {
        NetworkError::NotFound(e.message.clone())
    } else if e.status == Some(403u16) {
        NetworkError::InUse(e.message.clone())
    } else {
        NetworkError::Runtime(e.text.clone())
    }
}

/// A failed connection to a network: 404 no such network or container.
pub fn map_network_connect_error(e: &ApiError) -> (r: NetworkError)
    ensures
        has_status(*e, 404) ==> (r matches NetworkError::NotFound(m) && m@ == e.message@),
        !has_status(*e, 404) ==> (r matches NetworkError::Runtime(m) && m@ == e.text@),
{
    if e.status == Some(404u16) {
        NetworkError::NotFound(e.message.clone())
    } else {
        NetworkError::Runtime(e.text.clone())
    }
}

/// A failed disconnection: 404 no such network, 403 not connected.
pub fn map_network_disconnect_error(e: &ApiError) -> (r: NetworkError)
    ensures
        has_status(*e, 404) ==> (r matches NetworkError::NotFound(m) && m@ == e.message@),
        has_status(*e, 403) ==> (r matches NetworkError::NotConnected(m) && m@ == e.message@),
        !has_status(*e, 404) && !has_status(*e, 403) ==> (r matches NetworkError::Runtime(m)
            && m@ == e.text@),
{
    if e.status == Some(404u16) {
        NetworkError::NotFound(e.message.clone())
    } else if e.status == Some(403u16) {
        NetworkError::NotConnected(e.message.clone())
    } else {
        NetworkError::Runtime(e.text.clone())
    }
}

/// A failed exec creation: 404 no such container, 409 container not running.
pub fn map_exec_create_error(e: &ApiError) -> (r: ExecError)
    ensures
        has_status(*e, 404) ==> (r matches ExecError::ContainerNotFound(m) && m@ == e.message@),
        has_status(*e, 409) ==> (r matches ExecError::ContainerNotRunning(m) && m@ == e.message@),
        !has_status(*e, 404) && !has_status(*e, 409) ==> (r matches ExecError::Runtime(m)
            && m@ == e.text@),
{
    if e.status == Some(404u16) {
        ExecError::ContainerNotFound(e.message.clone())
    } else if e.status == Some(409u16) {
        ExecError::ContainerNotRunning(e.message.clone())
    } else {
        ExecError::Runtime(e.text.clone())
    }
}

/// A failed call on an exec instance: 404 no such instance.
pub fn map_exec_not_found_error(e: &ApiError) -> (r: ExecError)
    ensures
        has_status(*e, 404) ==> (r matches ExecError::ExecNotFound(m) && m@ == e.message@),
        !has_status(*e, 404) ==> (r matches ExecError::Runtime(m) && m@ == e.text@),
{
    if e.status == Some(404u16) {
        ExecError::ExecNotFound(e.message.clone())
    } else {
        ExecError::Runtime(e.text.clone())
    }
}

} // verus!
