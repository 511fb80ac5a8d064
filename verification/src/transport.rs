//! Transports: the capability to deliver opaque payload text to a named
//! destination, returning an acknowledgment id or a single failure signal.
//!
//! The trait models each implementation by two spec functions: what its next
//! send returns, and the state it leaves behind. The orchestrator's contract
//! is stated over these, so whatever a transport decides, the outcome record
//! is pinned down exactly.

use vstd::prelude::*;

use crate::text::{ascii_lowercase, chars_to_string, dec_digits, lower_ascii, push_dec_digits};
use vstd::utf8::encode_utf8;
use vstd::string::StringExecFns;

verus! {

/// The single failure signal of a transport: delivery did not happen, with a
/// human-readable cause. The core distinguishes only success from failure,
/// never failure subtypes.
#[derive(Debug)]
pub struct TransportError {
    pub message: String,
}

/// Deliver opaque payload text to a named destination, returning an
/// acknowledgment token or failing.
pub trait Transport: Sized {
    /// What this transport's next send of (destination, payload) yields: an
    /// acknowledgment id, or a failure cause.
    spec fn spec_send_result(&self, destination: Seq<char>, payload: Seq<char>) -> Result<
        Seq<char>,
        Seq<char>,
    >;

    /// The transport's state after that send.
    spec fn spec_send_post(&self, destination: Seq<char>, payload: Seq<char>) -> Self;

    /// Attempts delivery of `payload` to `destination`.
    fn send(&mut self, destination: &str, payload: &str) -> (r: Result<String, TransportError>)
        ensures
            *final(self) == old(self).spec_send_post(destination@, payload@),
            (match old(self).spec_send_result(destination@, payload@) {
                Ok(id) => r is Ok && r->Ok_0@ == id,
                Err(cause) => r is Err && r->Err_0.message@ == cause,
            }),
    ;
}

/// A deterministic stand-in for a live transport: configured to succeed with
/// sequenced delivery ids, or to always fail. The sequence counter is owned
/// by the instance, so independent transports never interfere.
pub struct MockNetworkTransport {
    pub label: String,
    pub should_fail: bool,
    pub sequence: u64,
}

impl MockNetworkTransport {
    /// The failure cause this transport reports when configured to fail; the
    /// payload is measured in UTF-8 bytes.
    pub open spec fn spec_failure_message(
        &self,
        destination: Seq<char>,
        payload: Seq<char>,
    ) -> Seq<char> {
        "Simulated "@ + self.label@ + " transport failure delivering to "@ + destination
            + " with payload "@ + dec_digits((encode_utf8(payload).len() as usize) as u128)
    }

    /// The acknowledgment id of this transport's next successful delivery:
    /// the lowercased label, then the sequence number.
    pub open spec fn spec_success_id(&self) -> Seq<char> {
        lower_ascii(self.label@) + "-delivery-"@ + dec_digits(self.sequence as u128)
    }

    /// A fresh transport for one destination kind; `should_fail` is the
    /// caller's simulated-failure switch.
    pub fn new(label: &str, should_fail: bool) -> (r: Self)
        ensures
            r.label@ == label@,
            r.should_fail == should_fail,
            r.sequence == 1,
    {
        MockNetworkTransport { label: String::from_str(label), should_fail, sequence: 1 }
    }
}

impl Transport for MockNetworkTransport {
    open spec fn spec_send_result(&self, destination: Seq<char>, payload: Seq<char>) -> Result<
        Seq<char>,
        Seq<char>,
    > {
        if self.should_fail {
            Err(self.spec_failure_message(destination, payload))
        } else {
            Ok(self.spec_success_id())
        }
    }

    open spec fn spec_send_post(&self, destination: Seq<char>, payload: Seq<char>) -> Self {
        if self.should_fail {
            *self
        } else {
            MockNetworkTransport {
                label: self.label,
                should_fail: self.should_fail,
                sequence: vstd::wrapping::u64_specs::wrapping_add(self.sequence, 1),
            }
        }
    }

    fn send(&mut self, destination: &str, payload: &str) -> (r: Result<String, TransportError>) {
        if self.should_fail {
            let mut m = String::from_str("Simulated ");
            m.append(self.label.as_str());
            m.append(" transport failure delivering to ");
            m.append(destination);
            m.append(" with payload ");
            let byte_len: usize = payload.len();
            let mut digits: Vec<char> = Vec::new();
            push_dec_digits(&mut digits, byte_len as u128);
            let rendered = chars_to_string(&digits);
            m.append(rendered.as_str());
            Err(TransportError { message: m })
        } else {
            let mut id = ascii_lowercase(self.label.as_str());
            id.append("-delivery-");
            let mut digits: Vec<char> = Vec::new();
            push_dec_digits(&mut digits, self.sequence as u128);
            let rendered = chars_to_string(&digits);
            id.append(rendered.as_str());
            self.sequence = self.sequence.wrapping_add(1);
            Ok(id)
        }
    }
}

/// A transport scripted for a test: it returns a fixed id, or always fails.
pub struct ControlledTransport {
    pub should_fail: bool,
    pub response: String,
}

impl ControlledTransport {
    /// A transport that acknowledges every delivery with `response`.
    pub fn success(response: &str) -> (r: Self)
        ensures
            r.should_fail == false,
            r.response@ == response@,
    {
        ControlledTransport { should_fail: false, response: String::from_str(response) }
    }

    /// A transport that fails every delivery.
    pub fn failure() -> (r: Self)
        ensures
            r.should_fail == true,
    {
        ControlledTransport { should_fail: true, response: String::from_str("unused") }
    }
}

impl Transport for ControlledTransport {
    open spec fn spec_send_result(&self, destination: Seq<char>, payload: Seq<char>) -> Result<
        Seq<char>,
        Seq<char>,
    > {
        if self.should_fail {
            Err("forced failure for "@ + destination)
        } else {
            Ok(self.response@)
        }
    }

    open spec fn spec_send_post(&self, destination: Seq<char>, payload: Seq<char>) -> Self {
        *self
    }

    fn send(&mut self, destination: &str, payload: &str) -> (r: Result<String, TransportError>) {
        if self.should_fail {
            let mut m = String::from_str("forced failure for ");
            m.append(destination);
            Err(TransportError { message: m })
        } else {
            Ok(self.response.clone())
        }
    }
}

/// Builds the delivery transport for one destination kind; `should_fail` is
/// the caller's simulated-failure switch for that kind.
pub fn build_transport(label: &str, should_fail: bool) -> (t: MockNetworkTransport)
    ensures
        t.label@ == label@,
        t.should_fail == should_fail,
        t.sequence == 1,
{
    MockNetworkTransport::new(label, should_fail)
}

} // verus!
