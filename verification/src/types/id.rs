//! Identifiers tagged with the kind of resource they name, so that a container
//! identifier cannot stand where a network identifier is expected.
use crate::text::str_eq;
use std::marker::PhantomData;
use vstd::prelude::*;

verus! {

/// Marks identifiers of containers.
#[derive(Debug, Clone, Copy, PartialEq, Eq, Hash)]
pub struct ContainerMarker {
    _sealed: (),
}

/// Marks identifiers of networks.
#[derive(Debug, Clone, Copy, PartialEq, Eq, Hash)]
pub struct NetworkMarker {
    _sealed: (),
}

/// Marks identifiers of images.
#[derive(Debug, Clone, Copy, PartialEq, Eq, Hash)]
pub struct ImageMarker {
    _sealed: (),
}

/// Marks identifiers of pods.
#[derive(Debug, Clone, Copy, PartialEq, Eq, Hash)]
pub struct PodMarker {
    _sealed: (),
}

/// An identifier of a resource of kind `T`.
#[derive(Debug, PartialEq, Eq, Hash)]
pub struct Id<T> {
    value: String,
    _marker: PhantomData<T>,
}

impl<T> View for Id<T> {
    type V = Seq<char>;

    closed spec fn view(&self) -> Seq<char> {
        self.value@
    }
}

impl<T> Clone for Id<T> {
    fn clone(&self) -> (r: Self)
        ensures
            r@ == self@,
    {
        Id { value: self.value.clone(), _marker: PhantomData }
    }
}

impl<T> Id<T> {
    pub fn new(value: String) -> (r: Self)
        ensures
            r@ == value@,
    {
        Id { value, _marker: PhantomData }
    }

    pub fn as_str(&self) -> (r: &str)
        ensures
            r@ == self@,
    {
        self.value.as_str()
    }

    pub fn into_inner(self) -> (r: String)
        ensures
            r@ == self@,
    {
        self.value
    }

    /// The identifier's text, as `Display` writes it.
    pub fn to_string(&self) -> (r: String)
        ensures
            r@ == self@,
    {
        self.value.clone()
    }

    /// A copy of this identifier.
    pub fn duplicate(&self) -> (r: Self)
        ensures
            r@ == self@,
    {
        Id { value: self.value.clone(), _marker: PhantomData }
    }

    /// Two identifiers are equal when their texts are.
    pub fn same(&self, other: &Self) -> (r: bool)
        ensures
            r == (self@ == other@),
    {
        str_eq(self.value.as_str(), other.value.as_str())
    }
}

pub type ContainerId = Id<ContainerMarker>;

pub type NetworkId = Id<NetworkMarker>;

pub type ImageId = Id<ImageMarker>;

pub type PodId = Id<PodMarker>;

} // verus!
