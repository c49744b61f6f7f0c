//! The file container that compressed data is written into.
use vstd::prelude::*;
use crate::native::{NVTT_CONTAINER_DDS, NVTT_CONTAINER_DDS10, NVTT_CONTAINER_KTX};

verus! {

/// The container format used to store the texture data.
#[derive(Clone, Copy, Debug, PartialEq, Eq, Hash, Structural)]
pub enum Container {
    /// DDS container, for data compressed in a `dxt` format.
    Dds,
    /// DDS container with the DirectX 10 header.
    Dds10,
    /// KTX container, for data compressed in an `etc` format.
    Ktx,
}

impl Container {
    /// The engine's number for `self`.
    pub open spec fn native(self) -> u32 {
        match self {
            Container::Dds => NVTT_CONTAINER_DDS,
            Container::Dds10 => NVTT_CONTAINER_DDS10,
            Container::Ktx => NVTT_CONTAINER_KTX,
        }
    }

    /// The container that the engine's number `raw` names, if it names one.
    pub open spec fn of_native(raw: u32) -> Option<Container> {
        if raw == NVTT_CONTAINER_DDS {
            Some(Container::Dds)
        } else if raw == NVTT_CONTAINER_DDS10 {
            Some(Container::Dds10)
        } else if raw == NVTT_CONTAINER_KTX {
            Some(Container::Ktx)
        } else {
            None
        }
    }

    /// The extension of files in this container, without the dot.
    pub open spec fn extension(self) -> Seq<char> {
        match self {
            Container::Dds | Container::Dds10 => "dds"@,
            Container::Ktx => "ktx"@,
        }
    }

    /// Translates `self` into the engine's number for it.
    pub fn to_native(self) -> (raw: u32)
        ensures
            raw == self.native(),
    {
        match self {
            Container::Dds => NVTT_CONTAINER_DDS,
            Container::Dds10 => NVTT_CONTAINER_DDS10,
            Container::Ktx => NVTT_CONTAINER_KTX,
        }
    }

    /// Translates the engine's number `raw` back. A number that names no
    /// container gives `None`.
    pub fn from_native(raw: u32) -> (r: Option<Container>)
        ensures
            r == Container::of_native(raw),
            r matches Some(c) ==> c.native() == raw,
            r is None ==> forall|c: Container| c.native() != raw,
    {
        if raw == NVTT_CONTAINER_DDS {
            Some(Container::Dds)
        } else if raw == NVTT_CONTAINER_DDS10 {
            Some(Container::Dds10)
        } else if raw == NVTT_CONTAINER_KTX {
            Some(Container::Ktx)
        } else {
            None
        }
    }

    /// Whether `raw` is the engine's number for `self`.
    pub fn eq_native(self, raw: u32) -> (r: bool)
        ensures
            r == (self.native() == raw),
    {
        self.to_native() == raw
    }

    /// Gets the file extension of files used for the container.
    pub fn file_extension(&self) -> (ext: &'static str)
        ensures
            ext@ == self.extension(),
    {
        match *self {
            Container::Dds | Container::Dds10 => "dds",
            Container::Ktx => "ktx",
        }
    }

    /// A container survives the trip to the engine and back: translating
    /// its number gives the same container again.
    pub proof fn lemma_round_trip(self)
        ensures
            Container::of_native(self.native()) == Some(self),
    {
    }
}

} // verus!
