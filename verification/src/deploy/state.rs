//! The states a deployment passes through; each carries what exists in it.
use crate::types::ContainerId;
use vstd::prelude::*;

verus! {

/// Connected to the server, ready to deploy.
#[derive(Debug, Default)]
pub struct Initialized;

/// The image is available on the server.
#[derive(Debug, Default)]
pub struct ImagePulled;

/// The new container is running.
#[derive(Debug)]
pub struct ContainerStarted(pub(crate) ContainerId);

impl ContainerStarted {
    pub(crate) fn holding(id: ContainerId) -> (r: Self)
        ensures
            r.container() == id,
    {
        ContainerStarted(id)
    }

    pub(crate) fn into_container(self) -> (r: ContainerId)
        ensures
            r == self.container(),
    {
        self.0
    }

    /// The container this state is about.
    pub closed spec fn container(&self) -> ContainerId {
        self.0
    }

    pub fn container_id(&self) -> (r: &ContainerId)
        ensures
            *r == self.container(),
    {
        &self.0
    }
}

/// The new container passed its health checks.
#[derive(Debug)]
pub struct HealthChecked(pub(crate) ContainerId);

impl HealthChecked {
    pub(crate) fn holding(id: ContainerId) -> (r: Self)
        ensures
            r.container() == id,
    {
        HealthChecked(id)
    }

    pub(crate) fn into_container(self) -> (r: ContainerId)
        ensures
            r == self.container(),
    {
        self.0
    }

    /// The container this state is about.
    pub closed spec fn container(&self) -> ContainerId {
        self.0
    }

    pub fn container_id(&self) -> (r: &ContainerId)
        ensures
            *r == self.container(),
    {
        &self.0
    }
}

/// Traffic goes to the new container.
#[derive(Debug)]
pub struct CutOver(pub(crate) ContainerId);

impl CutOver {
    pub(crate) fn holding(id: ContainerId) -> (r: Self)
        ensures
            r.container() == id,
    {
        CutOver(id)
    }

    pub(crate) fn into_container(self) -> (r: ContainerId)
        ensures
            r == self.container(),
    {
        self.0
    }

    /// The container this state is about.
    pub closed spec fn container(&self) -> ContainerId {
        self.0
    }

    pub fn container_id(&self) -> (r: &ContainerId)
        ensures
            *r == self.container(),
    {
        &self.0
    }
}

/// Finished: the old container is stopped.
#[derive(Debug)]
pub struct Completed(pub(crate) ContainerId);

impl Completed {
    pub(crate) fn holding(id: ContainerId) -> (r: Self)
        ensures
            r.container() == id,
    {
        Completed(id)
    }

    pub(crate) fn into_container(self) -> (r: ContainerId)
        ensures
            r == self.container(),
    {
        self.0
    }

    /// The container this state is about.
    pub closed spec fn container(&self) -> ContainerId {
        self.0
    }

    pub fn container_id(&self) -> (r: &ContainerId)
        ensures
            *r == self.container(),
    {
        &self.0
    }
}

} // verus!
