//! Negotiation of a framed session.
use crate::protocol::framed::{
    HelloRemedy, NegotiatedSession, CAPABILITY_CATALOG, CAPABILITY_NOTIFICATION,
    CAPABILITY_PANE_STREAM, CAPABILITY_PASTE_IMAGE, CAPABILITY_WINDOW_TITLE,
};
use crate::text::{decimal, decimal_text, same, texts};
use vstd::prelude::*;
use vstd::string::*;

verus! {

/// The newest framed protocol this side speaks.
pub const FRAMED_PROTOCOL_VERSION: u32 = 1;

/// The oldest framed protocol this side speaks.
pub const FRAMED_PROTOCOL_MIN_SUPPORTED: u32 = 1;

/// What a client offers.
#[derive(Clone, PartialEq, Eq, Debug)]
pub struct SessionHelloParams {
    pub protocol: u32,
    /// The oldest protocol the client speaks; the newest one if absent.
    pub min_protocol: Option<u32>,
    pub capabilities: Vec<String>,
}

pub struct HelloModel {
    pub protocol: u32,
    pub min_protocol: Option<u32>,
    pub capabilities: Seq<Seq<char>>,
}

impl View for SessionHelloParams {
    type V = HelloModel;

    open spec fn view(&self) -> HelloModel {
        HelloModel {
            protocol: self.protocol,
            min_protocol: self.min_protocol,
            capabilities: texts(self.capabilities@),
        }
    }
}

impl HelloModel {
    pub open spec fn oldest(self) -> u32 {
        match self.min_protocol {
            Some(n) => n,
            None => self.protocol,
        }
    }

    /// Whether the client speaks a protocol.
    pub open spec fn speaks(self, v: u32) -> bool {
        self.oldest() <= v <= self.protocol
    }
}

impl SessionHelloParams {
    /// The oldest protocol the client speaks.
    pub fn oldest_protocol(&self) -> (r: u32)
        ensures
            r == self@.oldest(),
    {
        match self.min_protocol {
            Some(n) => n,
            None => self.protocol,
        }
    }
}

/// Why a hello is refused.
#[derive(Clone, PartialEq, Eq, Debug)]
pub enum HelloError {
    /// The client's window is empty.
    InvalidWindow { message: String },
    /// The two windows do not overlap.
    OutOfWindow { remedy: HelloRemedy, message: String },
}

/// Whether this side speaks a protocol.
pub open spec fn served(v: u32) -> bool {
    FRAMED_PROTOCOL_MIN_SUPPORTED <= v <= FRAMED_PROTOCOL_VERSION
}

/// Whether the server offers a capability.
pub open spec fn offered(capability: Seq<char>) -> bool {
    ||| capability == CAPABILITY_PANE_STREAM@
    ||| capability == CAPABILITY_PASTE_IMAGE@
    ||| capability == CAPABILITY_NOTIFICATION@
    ||| capability == CAPABILITY_WINDOW_TITLE@
    ||| capability == CAPABILITY_CATALOG@
}

/// Whether the server offers a capability.
pub fn is_offered(capability: &str) -> (r: bool)
    ensures
        r == offered(capability@),
{
    same(capability, CAPABILITY_PANE_STREAM) || same(capability, CAPABILITY_PASTE_IMAGE) || same(
        capability,
        CAPABILITY_NOTIFICATION,
    ) || same(capability, CAPABILITY_WINDOW_TITLE) || same(capability, CAPABILITY_CATALOG)
}

/// The requested capabilities that the server offers, in the order asked for.
pub open spec fn granted(asked: Seq<Seq<char>>) -> Seq<Seq<char>> {
    asked.filter(|c: Seq<char>| offered(c))
}

/// The message for a window that is empty.
pub open spec fn empty_window_message(p: HelloModel) -> Seq<char> {
    "session.hello window is empty: min_protocol "@ + decimal(p.oldest() as nat)
        + " exceeds protocol "@ + decimal(p.protocol as nat)
}

/// The message for a client that is newer than the server.
pub open spec fn newer_client_message(p: HelloModel) -> Seq<char> {
    "the client requires framed protocol "@ + decimal(p.oldest() as nat)
        + " or newer, but this server speaks up to "@ + decimal(FRAMED_PROTOCOL_VERSION as nat)
        + "; upgrade this herdr server"@
}

/// The message for a client that is older than the server.
pub open spec fn older_client_message(p: HelloModel) -> Seq<char> {
    "the client speaks framed protocol up to "@ + decimal(p.protocol as nat)
        + ", but this server requires "@ + decimal(FRAMED_PROTOCOL_MIN_SUPPORTED as nat)
        + " or newer; upgrade the herdr client"@
}

/// The outcome that a hello is owed: the newest protocol in both windows and
/// the granted capabilities, or why there is none.
pub open spec fn negotiated(p: HelloModel, r: Result<NegotiatedSession, HelloError>) -> bool {
    if p.oldest() > p.protocol {
        r matches Err(HelloError::InvalidWindow { message }) && message@ == empty_window_message(p)
    } else if p.oldest() > FRAMED_PROTOCOL_VERSION {
        r matches Err(HelloError::OutOfWindow { remedy, message }) && remedy
            == HelloRemedy::UpgradeServer && message@ == newer_client_message(p)
    } else if p.protocol < FRAMED_PROTOCOL_MIN_SUPPORTED {
        r matches Err(HelloError::OutOfWindow { remedy, message }) && remedy
            == HelloRemedy::UpgradeClient && message@ == older_client_message(p)
    } else {
        r matches Ok(s) && s.protocol == (if p.protocol < FRAMED_PROTOCOL_VERSION {
            p.protocol
        } else {
            FRAMED_PROTOCOL_VERSION
        }) && texts(s.capabilities@) == granted(p.capabilities)
    }
}

/// Negotiates a session.
pub fn negotiate_session_hello(params: &SessionHelloParams) -> (r: Result<
    NegotiatedSession,
    HelloError,
>)
    ensures
        negotiated(params@, r),
{
    let oldest: u32 = params.oldest_protocol();
    if oldest > params.protocol {
        let message = "session.hello window is empty: min_protocol ".to_owned().concat(
            decimal_text(oldest as u64).as_str(),
        ).concat(" exceeds protocol ").concat(decimal_text(params.protocol as u64).as_str());
        return Err(HelloError::InvalidWindow { message });
    }
    if oldest > FRAMED_PROTOCOL_VERSION {
        let message = "the client requires framed protocol ".to_owned().concat(
            decimal_text(oldest as u64).as_str(),
        ).concat(" or newer, but this server speaks up to ").concat(
            decimal_text(FRAMED_PROTOCOL_VERSION as u64).as_str(),
        ).concat("; upgrade this herdr server");
        return Err(HelloError::OutOfWindow { remedy: HelloRemedy::UpgradeServer, message });
    }
    if params.protocol < FRAMED_PROTOCOL_MIN_SUPPORTED {
        let message = "the client speaks framed protocol up to ".to_owned().concat(
            decimal_text(params.protocol as u64).as_str(),
        ).concat(", but this server requires ").concat(
            decimal_text(FRAMED_PROTOCOL_MIN_SUPPORTED as u64).as_str(),
        ).concat(" or newer; upgrade the herdr client");
        return Err(HelloError::OutOfWindow { remedy: HelloRemedy::UpgradeClient, message });
    }
    let protocol: u32 = if params.protocol < FRAMED_PROTOCOL_VERSION {
        params.protocol
    } else {
        FRAMED_PROTOCOL_VERSION
    };
    let mut capabilities: Vec<String> = Vec::new();
    let mut i: usize = 0;
    let ghost asked = texts(params.capabilities@);
    proof {
        reveal(Seq::filter);
        assert(asked.take(0) =~= Seq::empty());
        assert(texts(capabilities@) =~= granted(asked.take(0)));
    }
    while i < params.capabilities.len()
        invariant
            i <= params.capabilities@.len(),
            asked == texts(params.capabilities@),
            texts(capabilities@) == granted(asked.take(i as int)),
        decreases params.capabilities@.len() - i,
    {
        let ghost was = capabilities@;
        proof {
            assert(asked.take(i + 1) =~= asked.take(i as int).push(asked[i as int]));
            asked.take(i as int).lemma_filter_push(
                asked[i as int],
                |c: Seq<char>| offered(c),
            );
        }
        if is_offered(params.capabilities[i].as_str()) {
            capabilities.push(params.capabilities[i].clone());
            assert(texts(capabilities@) =~= texts(was).push(asked[i as int]));
        }
        i = i + 1;
    }
    assert(asked.take(i as int) =~= asked);
    Ok(NegotiatedSession { protocol, capabilities })
}

/// A granted capability was asked for and is offered, and every offered one
/// that was asked for is granted.
pub proof fn grants_are_exact(asked: Seq<Seq<char>>, capability: Seq<char>)
    ensures
        granted(asked).contains(capability) <==> asked.contains(capability) && offered(capability),
{
    let p = |c: Seq<char>| offered(c);
    crate::seqs::filter_props(asked, p);
    if granted(asked).contains(capability) {
        let k = choose|k: int| 0 <= k < granted(asked).len() && granted(asked)[k] == capability;
        assert(p(granted(asked)[k]));
    }
    if asked.contains(capability) && offered(capability) {
        let k = choose|k: int| 0 <= k < asked.len() && asked[k] == capability;
        assert(p(asked[k]));
    }
}

/// Every negotiated protocol lies in both windows.
pub proof fn negotiated_protocols_are_shared(
    p: HelloModel,
    r: Result<NegotiatedSession, HelloError>,
)
    requires
        negotiated(p, r),
    ensures
        r matches Ok(s) ==> p.speaks(s.protocol) && served(s.protocol),
        r is Ok <==> exists|v: u32| #[trigger] p.speaks(v) && served(v),
{
    if let Ok(s) = r {
        assert(p.speaks(s.protocol) && served(s.protocol));
    }
}

} // verus!
