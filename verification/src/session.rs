//! The secured session: one PSK association with one remote endpoint.
//!
//! A session owns the only copy of its PSK material for its lifetime,
//! carries the correlation token used to match replies, and hands built
//! messages to the transport through its outbox. The token attached to an
//! outgoing message always equals the session's last issued token at send
//! time, and the session re-rolls its token immediately after a send,
//! strictly before the next one.

use crate::address::CoapAddress;
use crate::address::spec_socket_addr;
use crate::engine::CoapContext;
use crate::error::CoapError;
use crate::light::LightInfo;
use crate::optlist::COAP_OPTION_URI_PATH;
use crate::optlist::CoapOptList;
use crate::pdu::CoapMethod;
use crate::pdu::CoapPdu;
use crate::pdu::CoapPduBuilder;
use crate::pdu::PduState;
use crate::token::CoapToken;
use crate::uri::CoapUri;
use vstd::prelude::*;
use vstd::string::is_ascii;

verus! {

/// The PSK setup descriptor of one session: the credential pair and the
/// server name indication taken from the locator's host.
pub(crate) struct CoapDtlsPsk {
    identity: String,
    key: String,
    client_sni: String,
}

impl CoapDtlsPsk {
    pub(crate) closed spec fn spec_identity(self) -> Seq<char> {
        self.identity@
    }

    pub(crate) closed spec fn spec_key(self) -> Seq<char> {
        self.key@
    }

    pub(crate) closed spec fn spec_sni(self) -> Seq<char> {
        self.client_sni@
    }

    /// Builds the setup descriptor. Both credentials must be ASCII — a
    /// wire-format constraint of the PSK negotiation — and each is
    /// checked here, the identity first.
    pub(crate) fn new(uri: &CoapUri, identity: &str, key: &str) -> (r: Result<
        CoapDtlsPsk,
        CoapError,
    >)
        ensures
            !is_ascii(identity) ==> r == Err::<CoapDtlsPsk, CoapError>(CoapError::IdentityNotAscii),
            is_ascii(identity) && !is_ascii(key) ==> r == Err::<CoapDtlsPsk, CoapError>(
                CoapError::KeyNotAscii,
            ),
            is_ascii(identity) && is_ascii(key) ==> {
                &&& r is Ok
                &&& r->Ok_0.spec_identity() == identity@
                &&& r->Ok_0.spec_key() == key@
                &&& r->Ok_0.spec_sni() == uri.spec_host()
            },
    {
        if !identity.is_ascii() {
            return Err(CoapError::IdentityNotAscii);
        }
        if !key.is_ascii() {
            return Err(CoapError::KeyNotAscii);
        }
        Ok(
            CoapDtlsPsk {
                identity: identity.to_owned(),
                key: key.to_owned(),
                client_sni: uri.host().clone(),
            },
        )
    }
}

/// One secured association with one remote endpoint.
pub struct CoapSession {
    uri: CoapUri,
    psk: CoapDtlsPsk,
    address: CoapAddress,
    last_token: CoapToken,
    warmup_requested: bool,
    outbox: Vec<CoapPdu>,
}

impl CoapSession {
    /// The locator this session was established against; it outlives
    /// every message derived from it.
    pub closed spec fn spec_uri(self) -> CoapUri {
        self.uri
    }

    /// The token the next built message will carry: engine-issued at
    /// session initialization, re-rolled after every send.
    pub closed spec fn spec_last_token(self) -> CoapToken {
        self.last_token
    }

    /// The PSK identity, as given at session creation.
    pub closed spec fn spec_identity(self) -> Seq<char> {
        self.psk.spec_identity()
    }

    /// The PSK key, as given at session creation.
    pub closed spec fn spec_key(self) -> Seq<char> {
        self.psk.spec_key()
    }

    /// The server name indication of the secured handshake: the
    /// locator's host.
    pub closed spec fn spec_sni(self) -> Seq<char> {
        self.psk.spec_sni()
    }

    /// The raw bytes of the endpoint's transport address.
    pub closed spec fn spec_address(self) -> Seq<u8> {
        self.address.spec_raw()
    }

    /// Whether a warmup run was requested at creation, to let the
    /// secured handshake complete before the first real request.
    pub closed spec fn spec_warmup_requested(self) -> bool {
        self.warmup_requested
    }

    /// The messages handed to the transport, oldest first.
    pub closed spec fn spec_outbox(self) -> Seq<PduState> {
        self.outbox@.map_values(|p: CoapPdu| p@)
    }

    /// The fields a send leaves untouched.
    pub open spec fn spec_same_association(self, other: CoapSession) -> bool {
        &&& self.spec_identity() == other.spec_identity()
        &&& self.spec_key() == other.spec_key()
        &&& self.spec_sni() == other.spec_sni()
        &&& self.spec_address() == other.spec_address()
        &&& self.spec_warmup_requested() == other.spec_warmup_requested()
    }

    /// The locator this session was established against.
    pub fn uri(&self) -> (r: &CoapUri)
        ensures
            *r == self.spec_uri(),
    {
        &self.uri
    }

    /// The token the next built message will carry.
    pub fn last_token(&self) -> (r: CoapToken)
        ensures
            r == self.spec_last_token(),
    {
        self.last_token
    }

    /// The messages handed to the transport so far, oldest first.
    pub fn outbox(&self) -> (r: &Vec<CoapPdu>)
        ensures
            r@.map_values(|p: CoapPdu| p@) == self.spec_outbox(),
            r@.len() == self.spec_outbox().len(),
    {
        &self.outbox
    }

    /// Drains the outbox: the embedding program takes the built messages
    /// to put them on the wire, oldest first.
    pub fn take_outbox(&mut self) -> (r: Vec<CoapPdu>)
        ensures
            r@.map_values(|p: CoapPdu| p@) == old(self).spec_outbox(),
            final(self).spec_outbox() == Seq::<PduState>::empty(),
            final(self).spec_last_token() == old(self).spec_last_token(),
            final(self).spec_same_association(*old(self)),
    {
        let mut taken: Vec<CoapPdu> = Vec::new();
        core::mem::swap(&mut taken, &mut self.outbox);
        proof {
            assert(self.spec_outbox() =~= Seq::<PduState>::empty());
        }
        taken
    }

    /// Builds the message against this session — attaching the session's
    /// current token — hands it to the transport, immediately re-rolls
    /// the token so the next build gets a fresh one, and returns the
    /// token that was actually sent, for caller-side correlation.
    pub fn send_pdu(&mut self, pdu: CoapPduBuilder) -> (r: Result<CoapToken, CoapError>)
        ensures
            r == Ok::<CoapToken, CoapError>(old(self).spec_last_token()),
            final(self).spec_last_token() == old(self).spec_last_token().spec_rolled(),
            final(self).spec_last_token() != old(self).spec_last_token(),
            final(self).spec_outbox() == old(self).spec_outbox().push(
                pdu@.spec_build_with_token(old(self).spec_last_token()),
            ),
            final(self).spec_same_association(*old(self)),
    {
        let token = self.last_token;
        let built = match pdu.with_token(&token).build() {
            Ok(p) => p,
            Err(e) => {
                return Err(e);
            },
        };
        self.last_token = token.rolled();
        self.outbox.push(built);
        proof {
            assert(self.spec_outbox() =~= old(self).spec_outbox().push(
                pdu@.spec_build_with_token(old(self).spec_last_token()),
            ));
        }
        Ok(token)
    }

    /// Asks the gateway for the device's status: a GET to the device
    /// resource path, with no payload, under the session's current token.
    pub fn request_status(&mut self, id: &'static str) -> (r: Result<(), CoapError>)
        ensures
            r is Ok,
            final(self).spec_outbox() == old(self).spec_outbox().push(
                (PduState {
                    method: CoapMethod::Get,
                    token: Some(old(self).spec_last_token()),
                    options: seq![
                        (COAP_OPTION_URI_PATH, "15001"@),
                        (COAP_OPTION_URI_PATH, id@),
                    ],
                    payload: None,
                }),
            ),
            final(self).spec_last_token() == old(self).spec_last_token().spec_rolled(),
            final(self).spec_same_association(*old(self)),
    {
        let mut optlist = CoapOptList::new();
        let _ = optlist.add_path_segment("15001");
        let _ = optlist.add_path_segment(id);
        proof {
            assert(optlist@ =~= seq![(COAP_OPTION_URI_PATH, "15001"@), (COAP_OPTION_URI_PATH, id@)]);
        }
        let pdu = CoapPduBuilder::new(CoapMethod::Get).with_optlist(optlist);
        match self.send_pdu(pdu) {
            Ok(_) => Ok(()),
            Err(e) => Err(e),
        }
    }

    /// Sends a light-control update to the device: a PUT to the device
    /// resource path whose payload is the update's wire encoding, under
    /// the session's current token.
    pub fn update_light(&mut self, id: &'static str, command: LightInfo) -> (r: Result<
        (),
        CoapError,
    >)
        ensures
            r is Ok,
            final(self).spec_outbox() == old(self).spec_outbox().push(
                (PduState {
                    method: CoapMethod::Put,
                    token: Some(old(self).spec_last_token()),
                    options: seq![
                        (COAP_OPTION_URI_PATH, "15001"@),
                        (COAP_OPTION_URI_PATH, id@),
                    ],
                    payload: Some(command@.spec_json()),
                }),
            ),
            final(self).spec_last_token() == old(self).spec_last_token().spec_rolled(),
            final(self).spec_same_association(*old(self)),
    {
        let mut optlist = CoapOptList::new();
        let _ = optlist.add_path_segment("15001");
        let _ = optlist.add_path_segment(id);
        proof {
            assert(optlist@ =~= seq![(COAP_OPTION_URI_PATH, "15001"@), (COAP_OPTION_URI_PATH, id@)]);
        }
        let pdu = CoapPduBuilder::new(CoapMethod::Put).with_optlist(optlist).with_payload(command);
        match self.send_pdu(pdu) {
            Ok(_) => Ok(()),
            Err(e) => Err(e),
        }
    }
}

impl CoapContext {
    /// Establishes a secured session with the endpoint at the given IPv4
    /// octets, using the locator's host as server name indication.
    ///
    /// Both credentials must be ASCII, the identity being checked first;
    /// a failed check rejects the session. On success the session's
    /// token slot is initialized to the eight-byte engine-issued token,
    /// and a requested warmup is recorded for the embedding run loop to
    /// drive before the first real request.
    pub fn new_session(
        &self,
        ip: [u8; 4],
        uri: CoapUri,
        identity: &str,
        key: &str,
        warmup: bool,
    ) -> (r: Result<CoapSession, CoapError>)
        ensures
            !is_ascii(identity) ==> (r matches Err(e) && e == CoapError::IdentityNotAscii),
            is_ascii(identity) && !is_ascii(key) ==> (r matches Err(e) && e
                == CoapError::KeyNotAscii),
            is_ascii(identity) && is_ascii(key) ==> {
                &&& r is Ok
                &&& r->Ok_0.spec_uri() == uri
                &&& r->Ok_0.spec_identity() == identity@
                &&& r->Ok_0.spec_key() == key@
                &&& r->Ok_0.spec_sni() == uri.spec_host()
                &&& r->Ok_0.spec_address() == spec_socket_addr(ip@)
                &&& r->Ok_0.spec_last_token().spec_value() == 0
                &&& r->Ok_0.spec_last_token().spec_len() == 8
                &&& r->Ok_0.spec_warmup_requested() == warmup
                &&& r->Ok_0.spec_outbox() == Seq::<PduState>::empty()
            },
    {
        let address = CoapAddress::new(ip);
        let psk = match CoapDtlsPsk::new(&uri, identity, key) {
            Ok(p) => p,
            Err(e) => {
                return Err(e);
            },
        };
        let session = CoapSession {
            uri,
            psk,
            address,
            last_token: CoapToken::new(),
            warmup_requested: warmup,
            outbox: Vec::new(),
        };
        proof {
            assert(session.spec_outbox() =~= Seq::<PduState>::empty());
        }
        Ok(session)
    }
}

} // verus!
