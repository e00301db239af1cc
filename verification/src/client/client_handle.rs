use vstd::prelude::*;

use super::{error::ClientError, shared_state::ClientStatus};

verus! {

/// The sending side of a peer's client: holds the connection's handle until
/// the client is closed, by its owner or because the peer sent an invalid
/// model. Once closed, it stays closed and every send fails.
#[derive(Debug)]
pub struct ClientHandleState<H> {
    inner: Option<H>,
}

impl<H> ClientHandleState<H> {
    /// Whether the connection's handle is still held.
    pub closed spec fn is_open(&self) -> bool {
        self.inner is Some
    }

    /// The connection's handle, while it is held.
    pub closed spec fn spec_inner(&self) -> Option<H> {
        self.inner
    }

    /// A client handle holding the connection's handle `inner`.
    pub fn new(inner: H) -> (r: Self)
        ensures
            r.is_open(),
            r.spec_inner() == Some(inner),
    {
        ClientHandleState { inner: Some(inner) }
    }

    /// Whether the connection's handle is still held.
    pub fn open(&self) -> (r: bool)
        ensures
            r == self.is_open(),
    {
        self.inner.is_some()
    }

    /// Closes both sending and receiving halves of the peer's connection, by
    /// dropping the connection's handle. Consecutive calls have no effect.
    pub fn close(&mut self)
        ensures
            !final(self).is_open(),
    {
        self.inner = None;
    }

    /// Decides what to do on a status update from the client (`Some`), or
    /// when the client's channel has closed (`None`): an invalid model closes
    /// the handle. Returns whether to keep watching.
    pub fn on_client_status(&mut self, update: Option<ClientStatus>) -> (keep: bool)
        ensures
            keep == (update == Some(ClientStatus::Normal)),
            final(self).is_open() == stays_open(old(self).is_open(), update),
            update != Some(ClientStatus::InvalidModel) ==> final(self).spec_inner() == old(self).spec_inner(),
    {
        match update {
            Some(ClientStatus::Normal) => true,
            Some(ClientStatus::InvalidModel) => {
                self.close();
                false
            },
            None => false,
        }
    }

    /// The connection's handle to send through, while it is held.
    pub fn inner_mut(&mut self) -> (r: Option<&mut H>)
        ensures
            r is Some == old(self).is_open(),
            final(self).is_open() == old(self).is_open(),
            r matches Some(h) ==> *h == old(self).spec_inner().unwrap()
                && final(self).spec_inner() == Some(*final(h)),
    {
        self.inner.as_mut()
    }

    /// The result of sending a model: `delivered` is whether the connection's
    /// handle took it, and is not looked at once the handle is closed.
    pub fn send_result(&self, delivered: bool) -> (r: Result<(), ClientError>)
        ensures
            r == send_outcome(self.is_open(), delivered),
    {
        if self.inner.is_none() {
            Err(ClientError::DroppedConnection)
        } else if delivered {
            Ok(())
        } else {
            Err(ClientError::SendModel)
        }
    }
}

/// Whether a handle that is `open` stays open after a status update.
pub open spec fn stays_open(open: bool, update: Option<ClientStatus>) -> bool {
    open && update != Some(ClientStatus::InvalidModel)
}

/// Whether a handle that is `open` is still open after the status updates
/// `updates`, taken in order.
pub open spec fn open_after(open: bool, updates: Seq<Option<ClientStatus>>) -> bool
    decreases updates.len(),
{
    if updates.len() == 0 {
        open
    } else {
        open_after(stays_open(open, updates[0]), updates.drop_first())
    }
}

/// A closed client handle stays closed: whatever status updates follow, it
/// is never reopened, and every send through it fails with
/// `DroppedConnection`, whether or not the connection would have taken the
/// model.
pub proof fn lemma_closed_handle_stays_closed(updates: Seq<Option<ClientStatus>>, delivered: bool)
    ensures
        !open_after(false, updates),
        send_outcome(open_after(false, updates), delivered) == Err::<(), ClientError>(ClientError::DroppedConnection),
    decreases updates.len(),
{
    if updates.len() > 0 {
        lemma_closed_handle_stays_closed(updates.drop_first(), delivered);
    }
}

/// An open handle stays open exactly as long as no update reports an invalid
/// model.
pub proof fn lemma_open_until_invalid_model(updates: Seq<Option<ClientStatus>>)
    ensures
        open_after(true, updates) == !updates.contains(Some(ClientStatus::InvalidModel)),
    decreases updates.len(),
{
    if updates.len() > 0 {
        lemma_open_until_invalid_model(updates.drop_first());
        lemma_closed_handle_stays_closed(updates.drop_first(), true);
        if updates[0] == Some(ClientStatus::InvalidModel) {
            assert(updates.contains(Some(ClientStatus::InvalidModel)));
        } else {
            if updates.drop_first().contains(Some(ClientStatus::InvalidModel)) {
                let j = choose|j: int| 0 <= j < updates.drop_first().len()
                    && updates.drop_first()[j] == Some(ClientStatus::InvalidModel);
                assert(updates[j + 1] == Some(ClientStatus::InvalidModel));
            }
            if updates.contains(Some(ClientStatus::InvalidModel)) {
                let j = choose|j: int| 0 <= j < updates.len() && updates[j] == Some(ClientStatus::InvalidModel);
                assert(j > 0);
                assert(updates.drop_first()[j - 1] == Some(ClientStatus::InvalidModel));
            }
        }
    }
}

/// What sending a model returns, given whether the handle is open and
/// whether the connection took the model.
pub open spec fn send_outcome(open: bool, delivered: bool) -> Result<(), ClientError> {
    if !open {
        Err(ClientError::DroppedConnection)
    } else if delivered {
        Ok(())
    } else {
        Err(ClientError::SendModel)
    }
}

} // verus!

verus! {

/// A send through an open handle succeeds exactly when the connection took
/// the model, and otherwise fails with `SendModel`; through a closed handle
/// it always fails with `DroppedConnection`. Only an invalid-model status
/// closes an open handle.
pub proof fn lemma_send_outcomes(delivered: bool, update: Option<ClientStatus>)
    ensures
        send_outcome(true, true) == Ok::<(), ClientError>(()),
        send_outcome(true, false) == Err::<(), ClientError>(ClientError::SendModel),
        send_outcome(false, delivered) == Err::<(), ClientError>(ClientError::DroppedConnection),
        stays_open(true, update) == (update != Some(ClientStatus::InvalidModel)),
        !stays_open(false, update),
{
}

} // verus!
