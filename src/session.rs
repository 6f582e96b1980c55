use vstd::prelude::*;

verus! {

/// The state of one of a session's two handles.
pub enum Slot<H> {
    /// Not requested yet.
    Absent,
    /// Created by the engine and owned by the session.
    Live(H),
    /// The engine failed to create it; it is not asked again in this session.
    Failed,
}

/// What an operation has to do about its handle before it can run.
#[derive(Clone, Copy, Debug, PartialEq, Eq, Structural)]
pub enum Acquire {
    /// No handle yet: ask the engine for one and store it.
    Create,
    /// The session already holds a live handle.
    Ready,
    /// Creating the handle failed earlier in this session.
    Unavailable,
}

pub open spec fn acquire_of<H>(s: Slot<H>) -> Acquire {
    match s {
        Slot::Absent => Acquire::Create,
        Slot::Live(_) => Acquire::Ready,
        Slot::Failed => Acquire::Unavailable,
    }
}

/// The handle that a slot owns, if any.
pub open spec fn live_of<H>(s: Slot<H>) -> Option<H> {
    match s {
        Slot::Live(h) => Some(h),
        _ => None,
    }
}

/// The slot after the engine was asked for a handle: `None` stands for a
/// handle the engine could not create.
pub open spec fn created<H>(h: Option<H>) -> Slot<H> {
    match h {
        Some(h) => Slot::Live(h),
        None => Slot::Failed,
    }
}

/// A codec session: the sole owner of at most one encoder handle and one
/// decoder handle, each created on first use and never recreated.
pub struct CharLS<E, D> {
    encoder: Slot<E>,
    decoder: Slot<D>,
}

impl<E, D> CharLS<E, D> {
    pub closed spec fn encoder_slot(&self) -> Slot<E> {
        self.encoder
    }

    pub closed spec fn decoder_slot(&self) -> Slot<D> {
        self.decoder
    }

    /// The handles that tearing the session down hands out for destruction.
    pub open spec fn releases(&self) -> (Option<E>, Option<D>) {
        (live_of(self.encoder_slot()), live_of(self.decoder_slot()))
    }

    /// A session that has created no handle yet.
    pub fn new() -> (r: Self)
        ensures
            r.encoder_slot() is Absent,
            r.decoder_slot() is Absent,
    {
        CharLS { encoder: Slot::Absent, decoder: Slot::Absent }
    }

    /// What an encode has to do to get its handle.
    pub fn encoder_state(&self) -> (r: Acquire)
        ensures
            r == acquire_of(self.encoder_slot()),
    {
        match self.encoder {
            Slot::Absent => Acquire::Create,
            Slot::Live(_) => Acquire::Ready,
            Slot::Failed => Acquire::Unavailable,
        }
    }

    /// What a decode has to do to get its handle.
    pub fn decoder_state(&self) -> (r: Acquire)
        ensures
            r == acquire_of(self.decoder_slot()),
    {
        match self.decoder {
            Slot::Absent => Acquire::Create,
            Slot::Live(_) => Acquire::Ready,
            Slot::Failed => Acquire::Unavailable,
        }
    }

    /// A reference to the live encoder handle, if there is one.
    pub fn encoder(&self) -> (r: Option<&E>)
        ensures
            r is Some <==> self.encoder_slot() is Live,
            r is Some ==> self.encoder_slot() == Slot::Live(*r->0),
    {
        match &self.encoder {
            Slot::Live(h) => Some(h),
            _ => None,
        }
    }

    /// A reference to the live decoder handle, if there is one.
    pub fn decoder(&self) -> (r: Option<&D>)
        ensures
            r is Some <==> self.decoder_slot() is Live,
            r is Some ==> self.decoder_slot() == Slot::Live(*r->0),
    {
        match &self.decoder {
            Slot::Live(h) => Some(h),
            _ => None,
        }
    }

    /// Records the engine's answer to a request for an encoder handle. Only a
    /// session that never asked before takes it; otherwise the session is left
    /// as it was and the handle is given back to be destroyed by the caller.
    pub fn store_encoder(&mut self, handle: Option<E>) -> (rejected: Option<E>)
        ensures
            old(self).encoder_slot() is Absent ==> {
                &&& final(self).encoder_slot() == created(handle)
                &&& rejected is None
            },
            !(old(self).encoder_slot() is Absent) ==> {
                &&& final(self).encoder_slot() == old(self).encoder_slot()
                &&& rejected == handle
            },
            final(self).decoder_slot() == old(self).decoder_slot(),
    {
        match self.encoder {
            Slot::Absent => {
                self.encoder = match handle {
                    Some(h) => Slot::Live(h),
                    None => Slot::Failed,
                };
                None
            },
            _ => handle,
        }
    }

    /// Records the engine's answer to a request for a decoder handle, as
    /// `store_encoder` does for the encoder.
    pub fn store_decoder(&mut self, handle: Option<D>) -> (rejected: Option<D>)
        ensures
            old(self).decoder_slot() is Absent ==> {
                &&& final(self).decoder_slot() == created(handle)
                &&& rejected is None
            },
            !(old(self).decoder_slot() is Absent) ==> {
                &&& final(self).decoder_slot() == old(self).decoder_slot()
                &&& rejected == handle
            },
            final(self).encoder_slot() == old(self).encoder_slot(),
    {
        match self.decoder {
            Slot::Absent => {
                self.decoder = match handle {
                    Some(h) => Slot::Live(h),
                    None => Slot::Failed,
                };
                None
            },
            _ => handle,
        }
    }

    /// Ends the session, handing out each handle it created, exactly once, for
    /// destruction. A handle never requested, or one the engine failed to
    /// create, is not handed out.
    pub fn teardown(self) -> (r: (Option<E>, Option<D>))
        ensures
            r == self.releases(),
    {
        let encoder = match self.encoder {
            Slot::Live(h) => Some(h),
            _ => None,
        };
        let decoder = match self.decoder {
            Slot::Live(h) => Some(h),
            _ => None,
        };
        (encoder, decoder)
    }
}

/// A session torn down without ever running an operation destroys nothing:
/// no handle was created, so none is handed out.
pub proof fn lemma_unused_session_releases_nothing<E, D>(s: CharLS<E, D>)
    requires
        s.encoder_slot() is Absent,
        s.decoder_slot() is Absent,
    ensures
        s.releases() == (None::<E>, None::<D>),
{
}

/// Once a session has asked for a handle, it never asks again: a live handle
/// is reused and a failed creation stays failed.
pub proof fn lemma_handles_not_recreated<E, D>(s: CharLS<E, D>)
    ensures
        !(s.encoder_slot() is Absent) ==> acquire_of(s.encoder_slot()) != Acquire::Create,
        !(s.decoder_slot() is Absent) ==> acquire_of(s.decoder_slot()) != Acquire::Create,
{
}

} // verus!
