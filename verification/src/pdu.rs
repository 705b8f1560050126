//! The message: one confirmable request, assembled by a builder from a
//! method, a correlation token, an option list and at most one payload.
//!
//! A message is constructed, sent, and never mutated after send. At most
//! one payload may ever be attached: a second attach attempt fails and
//! leaves the first payload intact.

use crate::error::CoapError;
use crate::light::LightInfo;
use crate::light::LightState;
use crate::optlist::CoapOptList;
use crate::token::CoapToken;
use vstd::prelude::*;

verus! {

/// The request method of a message.
#[derive(Copy, Clone, Debug, PartialEq, Eq, Structural)]
pub enum CoapMethod {
    Get,
    Post,
    Put,
    Delete,
    Fetch,
    Patch,
    Ipatch,
}

impl CoapMethod {
    /// The numeric method code on the wire.
    pub open spec fn spec_code(self) -> u8 {
        match self {
            CoapMethod::Get => 1,
            CoapMethod::Post => 2,
            CoapMethod::Put => 3,
            CoapMethod::Delete => 4,
            CoapMethod::Fetch => 5,
            CoapMethod::Patch => 6,
            CoapMethod::Ipatch => 7,
        }
    }

    /// The numeric method code on the wire.
    pub fn code(&self) -> (r: u8)
        ensures
            r == self.spec_code(),
    {
        match self {
            CoapMethod::Get => 1,
            CoapMethod::Post => 2,
            CoapMethod::Put => 3,
            CoapMethod::Delete => 4,
            CoapMethod::Fetch => 5,
            CoapMethod::Patch => 6,
            CoapMethod::Ipatch => 7,
        }
    }
}

/// The abstract contents of one message.
pub struct PduState {
    pub method: CoapMethod,
    pub token: Option<CoapToken>,
    pub options: Seq<(u16, Seq<char>)>,
    pub payload: Option<Seq<char>>,
}

/// One confirmable request message, ready to be handed to the transport.
pub struct CoapPdu {
    method: CoapMethod,
    token: Option<CoapToken>,
    options: CoapOptList,
    payload: Option<String>,
}

impl View for CoapPdu {
    type V = PduState;

    closed spec fn view(&self) -> PduState {
        PduState {
            method: self.method,
            token: self.token,
            options: self.options@,
            payload: match self.payload {
                Some(p) => Some(p@),
                None => None,
            },
        }
    }
}

impl CoapPdu {
    /// A fresh confirmable message with the given method and nothing
    /// else yet.
    pub fn new(method: CoapMethod) -> (r: CoapPdu)
        ensures
            r@ == (PduState {
                method,
                token: None,
                options: Seq::<(u16, Seq<char>)>::empty(),
                payload: None,
            }),
    {
        CoapPdu { method, token: None, options: CoapOptList::new(), payload: None }
    }

    /// Attaches the correlation token, replacing any present one.
    pub fn add_token(&mut self, token: &CoapToken) -> (r: Result<(), CoapError>)
        ensures
            r is Ok,
            final(self)@ == (PduState { token: Some(*token), ..old(self)@ }),
    {
        self.token = Some(*token);
        Ok(())
    }

    /// Appends an option list's options to the message, in their order,
    /// taking the list over.
    pub fn add_optlist(&mut self, optlist: CoapOptList) -> (r: Result<(), CoapError>)
        ensures
            r is Ok,
            final(self)@ == (PduState { options: old(self)@.options + optlist@, ..old(self)@ }),
    {
        self.options.append(optlist)
    }

    /// Attaches the serialized payload. A message carries at most one
    /// payload ever: a second attach fails with `AlreadyHasPayload` and
    /// leaves the first payload intact.
    pub fn add_payload(&mut self, payload: &LightInfo) -> (r: Result<(), CoapError>)
        ensures
            old(self)@.payload is Some ==> r == Err::<(), CoapError>(CoapError::AlreadyHasPayload)
                && final(self)@ == old(self)@,
            old(self)@.payload is None ==> r is Ok && final(self)@ == (PduState {
                payload: Some(payload@.spec_json()),
                ..old(self)@
            }),
    {
        if self.payload.is_some() {
            return Err(CoapError::AlreadyHasPayload);
        }
        self.payload = Some(payload.to_json());
        Ok(())
    }

    /// The message's method.
    pub fn method(&self) -> (r: CoapMethod)
        ensures
            r == self@.method,
    {
        self.method
    }

    /// The message's correlation token, once attached.
    pub fn token(&self) -> (r: Option<CoapToken>)
        ensures
            r == self@.token,
    {
        self.token
    }

    /// The message's options, in wire order.
    pub fn options(&self) -> (r: &CoapOptList)
        ensures
            r@ == self@.options,
    {
        &self.options
    }

    /// The message's serialized payload, if one was attached.
    pub fn payload(&self) -> (r: &Option<String>)
        ensures
            match r {
                Some(p) => self@.payload == Some(p@),
                None => self@.payload is None,
            },
    {
        &self.payload
    }
}

/// What a builder has collected so far.
pub struct PduBuilderState {
    pub method: CoapMethod,
    pub token: Option<CoapToken>,
    pub options: Option<Seq<(u16, Seq<char>)>>,
    pub payload: Option<LightState>,
}

impl PduBuilderState {
    /// The message a build realizes from the collected parts: the given
    /// option list's options in order (none when no list was given), and
    /// the payload's wire encoding (none when no payload was given).
    pub open spec fn spec_build(self) -> PduState {
        PduState {
            method: self.method,
            token: self.token,
            options: match self.options {
                Some(o) => o,
                None => Seq::<(u16, Seq<char>)>::empty(),
            },
            payload: match self.payload {
                Some(l) => Some(l.spec_json()),
                None => None,
            },
        }
    }

    /// The message a build realizes once the session has attached the
    /// given token.
    pub open spec fn spec_build_with_token(self, token: CoapToken) -> PduState {
        (PduBuilderState { token: Some(token), ..self }).spec_build()
    }
}

/// The builder of one request message: a required method, then an
/// optional token, option list and payload; `build` realizes the message.
pub struct CoapPduBuilder {
    method: CoapMethod,
    token: Option<CoapToken>,
    optlist: Option<CoapOptList>,
    payload: Option<LightInfo>,
}

impl View for CoapPduBuilder {
    type V = PduBuilderState;

    closed spec fn view(&self) -> PduBuilderState {
        PduBuilderState {
            method: self.method,
            token: self.token,
            options: match self.optlist {
                Some(o) => Some(o@),
                None => None,
            },
            payload: match self.payload {
                Some(l) => Some(l@),
                None => None,
            },
        }
    }
}

impl CoapPduBuilder {
    /// A builder for a request with the given method.
    pub fn new(method: CoapMethod) -> (r: CoapPduBuilder)
        ensures
            r@ == (PduBuilderState { method, token: None, options: None, payload: None }),
    {
        CoapPduBuilder { method, token: None, optlist: None, payload: None }
    }

    /// Sets the correlation token the built message will carry. The
    /// session does this at send time with its current token.
    pub(crate) fn with_token(self, token: &CoapToken) -> (r: CoapPduBuilder)
        ensures
            r@ == (PduBuilderState { token: Some(*token), ..self@ }),
    {
        let mut b = self;
        b.token = Some(*token);
        b
    }

    /// Hands the builder the option list the message will carry.
    pub fn with_optlist(self, optlist: CoapOptList) -> (r: CoapPduBuilder)
        ensures
            r@ == (PduBuilderState { options: Some(optlist@), ..self@ }),
    {
        let mut b = self;
        b.optlist = Some(optlist);
        b
    }

    /// Hands the builder the payload the message will carry, replacing a
    /// previously given one. The built message itself accepts a payload
    /// only once.
    pub fn with_payload(self, payload: LightInfo) -> (r: CoapPduBuilder)
        ensures
            r@ == (PduBuilderState { payload: Some(payload@), ..self@ }),
    {
        let mut b = self;
        b.payload = Some(payload);
        b
    }

    /// Realizes the message: method, token if one was set, the option
    /// list's options in order, the payload's wire encoding.
    pub fn build(self) -> (r: Result<CoapPdu, CoapError>)
        ensures
            r is Ok,
            r->Ok_0@ == self@.spec_build(),
    {
        let CoapPduBuilder { method, token, optlist, payload } = self;
        let mut pdu = CoapPdu::new(method);
        if let Some(t) = &token {
            let _ = pdu.add_token(t);
        }
        if let Some(o) = optlist {
            let _ = pdu.add_optlist(o);
        }
        match &payload {
            Some(p) => {
                let _ = pdu.add_payload(p);
            },
            None => {},
        }
        Ok(pdu)
    }

    /// Hands the builder a payload and realizes the message in one step.
    pub fn build_with_payload(self, payload: LightInfo) -> (r: Result<CoapPdu, CoapError>)
        ensures
            r is Ok,
            r->Ok_0@ == (PduBuilderState { payload: Some(payload@), ..self@ }).spec_build(),
    {
        self.with_payload(payload).build()
    }
}

} // verus!
