//! The per-datagram request context: payload, response buffer, peer
//! address, abort flag and attribute store.

use vstd::prelude::*;

use crate::addr::{IpAddress, PeerAddr};
use crate::attribute::{read_as, AnySendSyncClone, AttrModel, AttributeStore};
use crate::error::ResponseError;
use crate::response::{Request, Response, ResponseData};

verus! {

/// A datagram to write: its bytes and where they go.
#[derive(Clone, Debug)]
pub struct Datagram {
    pub data: Vec<u8>,
    pub peer: PeerAddr,
}

impl View for Datagram {
    type V = (Seq<u8>, PeerAddr);

    open spec fn view(&self) -> (Seq<u8>, PeerAddr) {
        (self.data@, self.peer)
    }
}

/// The mathematical content of a request context.
pub struct ContextView {
    /// Whether a transport is attached to write responses through.
    pub has_socket: bool,
    /// The received payload.
    pub request: Seq<u8>,
    /// The response buffer.
    pub response: Seq<u8>,
    /// The sender's address.
    pub peer: Option<PeerAddr>,
    /// Whether the remaining hooks are to be skipped.
    pub aborted: bool,
    /// The attribute store.
    pub attributes: Map<Seq<char>, AttrModel>,
}

/// The context of a datagram just received from `peer` with `payload`:
/// attached to the transport, with an empty response, no abort and no
/// attributes. It depends on that datagram alone.
pub open spec fn fresh_context(payload: Seq<u8>, peer: PeerAddr) -> ContextView {
    ContextView {
        has_socket: true,
        request: payload,
        response: Seq::empty(),
        peer: Some(peer),
        aborted: false,
        attributes: Map::empty(),
    }
}

/// A context built outside live dispatch: no transport, no peer, nothing
/// received.
pub open spec fn detached_context() -> ContextView {
    ContextView {
        has_socket: false,
        request: Seq::empty(),
        response: Seq::empty(),
        peer: None,
        aborted: false,
        attributes: Map::empty(),
    }
}

/// Where a response of context `c` goes, or why it cannot be sent.
pub open spec fn send_target(c: ContextView) -> Result<PeerAddr, ResponseError> {
    if !c.has_socket {
        Err(ResponseError::SocketNotAvailable)
    } else {
        match c.peer {
            Some(p) => Ok(p),
            None => Err(ResponseError::AddressNotAvailable),
        }
    }
}

/// A hook that answers a dispatched datagram with any transform of its
/// payload (the payload itself, for an echo) reads exactly that payload, and
/// what it sends goes to exactly the datagram's sender: from a fresh
/// context a send always has a target, and the target is the sender.
pub proof fn lemma_reply_reaches_sender(payload: Seq<u8>, peer: PeerAddr)
    ensures
        fresh_context(payload, peer).request == payload,
        send_target(fresh_context(payload, peer)) == Ok::<PeerAddr, ResponseError>(peer),
{
}

/// The state of one request, owned by the pipeline that runs for it.
#[derive(Clone, Debug)]
pub struct InnerContext {
    socket: bool,
    request: Request,
    response: Response,
    socket_addr: Option<PeerAddr>,
    aborted: bool,
    data: AttributeStore,
}

impl View for InnerContext {
    type V = ContextView;

    closed spec fn view(&self) -> ContextView {
        ContextView {
            has_socket: self.socket,
            request: self.request@,
            response: self.response@,
            peer: self.socket_addr,
            aborted: self.aborted,
            attributes: self.data@,
        }
    }
}

impl InnerContext {
    /// Well-formed: the attribute store is.
    pub closed spec fn wf(&self) -> bool {
        self.data.wf()
    }

    /// A context with no transport, no peer and nothing received.
    pub fn new() -> (r: InnerContext)
        ensures
            r.wf(),
            r@ == detached_context(),
    {
        InnerContext {
            socket: false,
            request: Vec::new(),
            response: Response::default(),
            socket_addr: None,
            aborted: false,
            data: AttributeStore::new(),
        }
    }

    /// The context of a datagram received from `peer` with `payload`.
    pub fn from_datagram(payload: Request, peer: PeerAddr) -> (r: InnerContext)
        ensures
            r.wf(),
            r@ == fresh_context(payload@, peer),
    {
        InnerContext {
            socket: true,
            request: payload,
            response: Response::default(),
            socket_addr: Some(peer),
            aborted: false,
            data: AttributeStore::new(),
        }
    }

    /// Attaches the transport, or detaches it when it has been torn down.
    pub fn set_socket(&mut self, attached: bool)
        requires
            old(self).wf(),
        ensures
            final(self).wf(),
            final(self)@ == (ContextView { has_socket: attached, ..old(self)@ }),
    {
        self.socket = attached;
    }

    /// The received payload.
    pub fn get_request(&self) -> (r: &Request)
        ensures
            r@ == self@.request,
    {
        &self.request
    }

    /// The response buffer.
    pub fn get_response(&self) -> (r: &Response)
        ensures
            r@ == self@.response,
    {
        &self.response
    }

    /// Whether a transport is attached.
    pub fn has_socket(&self) -> (r: bool)
        ensures
            r == self@.has_socket,
    {
        self.socket
    }

    /// The sender's address, where known.
    pub fn get_socket_addr(&self) -> (r: Option<PeerAddr>)
        ensures
            r == self@.peer,
    {
        self.socket_addr
    }

    /// The sender's address, or `0.0.0.0:0` where none is known.
    pub fn get_socket_addr_or_default(&self) -> (r: PeerAddr)
        ensures
            match self@.peer {
                Some(p) => r == p,
                None => r.is_unspecified(),
            },
    {
        match self.socket_addr {
            Some(p) => p,
            None => PeerAddr::unspecified(),
        }
    }

    /// The sender's host, where known.
    pub fn get_socket_host(&self) -> (r: Option<IpAddress>)
        ensures
            match self@.peer {
                Some(p) => r == Some(p.host()),
                None => r is None,
            },
    {
        match &self.socket_addr {
            Some(p) => Some(p.ip()),
            None => None,
        }
    }

    /// The sender's port, where known.
    pub fn get_socket_port(&self) -> (r: Option<u16>)
        ensures
            match self@.peer {
                Some(p) => r == Some(p.port_of()),
                None => r is None,
            },
    {
        match &self.socket_addr {
            Some(p) => Some(p.port()),
            None => None,
        }
    }

    /// Replaces the response buffer with `data`.
    pub fn set_response(&mut self, data: ResponseData)
        requires
            old(self).wf(),
        ensures
            final(self).wf(),
            final(self)@ == (ContextView { response: data@, ..old(self)@ }),
    {
        self.response = Response::from(data);
    }

    /// Sets the response to `data` and returns the datagram that carries it
    /// to the peer; `SocketNotAvailable` without a transport,
    /// `AddressNotAvailable` without a peer address. The response is set in
    /// every case.
    pub fn prepare_send(&mut self, data: ResponseData) -> (r: Result<Datagram, ResponseError>)
        requires
            old(self).wf(),
        ensures
            final(self).wf(),
            final(self)@ == (ContextView { response: data@, ..old(self)@ }),
            match send_target(old(self)@) {
                Ok(p) => r matches Ok(d) && d@ == (data@, p),
                Err(e) => r == Err::<Datagram, ResponseError>(e),
            },
    {
        let bytes = data.clone();
        self.set_response(data);
        if !self.socket {
            return Err(ResponseError::SocketNotAvailable);
        }
        match self.socket_addr {
            Some(peer) => Ok(Datagram { data: bytes, peer }),
            None => Err(ResponseError::AddressNotAvailable),
        }
    }

    /// Stores `value` under `key`.
    pub fn set_data_value<T: AnySendSyncClone>(&mut self, key: &str, value: &T)
        requires
            old(self).wf(),
        ensures
            final(self).wf(),
            final(self)@ == (ContextView {
                attributes: old(self)@.attributes.insert(key@, T::encode(value@)),
                ..old(self)@
            }),
    {
        self.data.set(key, value);
    }

    /// The value under `key` read as type `T`: `None` where there is none,
    /// or where it was stored as another type.
    pub fn get_data_value<T: AnySendSyncClone>(&self, key: &str) -> (r: Option<T>)
        requires
            self.wf(),
        ensures
            match r {
                Some(x) => read_as::<T>(self@.attributes, key@) == Some(x@),
                None => read_as::<T>(self@.attributes, key@) is None,
            },
    {
        self.data.get(key)
    }

    /// Removes the value under `key`, if any.
    pub fn remove_data_value(&mut self, key: &str)
        requires
            old(self).wf(),
        ensures
            final(self).wf(),
            final(self)@ == (ContextView {
                attributes: old(self)@.attributes.remove(key@),
                ..old(self)@
            }),
    {
        self.data.remove(key);
    }

    /// Removes every attribute.
    pub fn clear_data(&mut self)
        requires
            old(self).wf(),
        ensures
            final(self).wf(),
            final(self)@ == (ContextView { attributes: Map::empty(), ..old(self)@ }),
    {
        self.data.clear();
    }

    /// Marks the context so that the remaining hooks are skipped.
    pub fn abort(&mut self)
        requires
            old(self).wf(),
        ensures
            final(self).wf(),
            final(self)@ == (ContextView { aborted: true, ..old(self)@ }),
    {
        self.aborted = true;
    }

    /// Withdraws an abort.
    pub fn cancel_abort(&mut self)
        requires
            old(self).wf(),
        ensures
            final(self).wf(),
            final(self)@ == (ContextView { aborted: false, ..old(self)@ }),
    {
        self.aborted = false;
    }

    /// Whether the remaining hooks are to be skipped.
    pub fn is_aborted(&self) -> (r: bool)
        ensures
            r == self@.aborted,
    {
        self.aborted
    }
}

} // verus!
