//! The publish orchestrator: for one destination, build the canonical
//! identifier and payload, attempt delivery, and resolve the attempt into
//! exactly one outcome record — a live acknowledgment on success, a flagged
//! fallback acknowledgment on failure. A transport failure never escapes:
//! every call returns a record.

use vstd::prelude::*;

use crate::destination::Destination;
use crate::fallback::{hallucinated_response_id, spec_hallucinated_id};
use crate::json::{build_payload, spec_payload};
use crate::record::{build_record, preview, spec_first_line, OutcomeRecord, RecordView};
use crate::transport::Transport;

verus! {

/// Spec-level image of a [`PublishRequest`].
#[verifier::ext_equal]
pub ghost struct RequestView {
    pub body: Seq<char>,
    pub tags: Seq<Seq<char>>,
    pub context: Option<Seq<char>>,
    pub timestamp: u128,
}

/// The immutable input of one invocation: the message body, the tags, an
/// optional context string passed through unmodified, and the timestamp
/// captured once and reused for every destination.
pub struct PublishRequest {
    pub body: String,
    pub tags: Vec<String>,
    pub context: Option<String>,
    pub timestamp: u128,
}

impl View for PublishRequest {
    type V = RequestView;

    open spec fn view(&self) -> RequestView {
        RequestView {
            body: self.body@,
            tags: self.tags.deep_view(),
            context: self.context.deep_view(),
            timestamp: self.timestamp,
        }
    }
}

/// The payload the orchestrator hands the transport for one destination.
pub open spec fn spec_request_payload(d: Destination, req: RequestView) -> Seq<char> {
    spec_payload(d, req.body, req.tags, req.context, req.timestamp)
}

/// The one record owed for a destination identifier, given what the
/// transport's send yielded: the live acknowledgment unflagged, or the
/// synthesized fallback acknowledgment flagged.
pub open spec fn spec_outcome(
    dest_id: Seq<char>,
    req: RequestView,
    sent: Result<Seq<char>, Seq<char>>,
) -> RecordView {
    RecordView {
        destination: dest_id,
        tags: req.tags,
        message_preview: spec_first_line(req.body),
        context: req.context,
        timestamp: req.timestamp,
        acknowledgment_id: match sent {
            Ok(id) => id,
            Err(_) => spec_hallucinated_id(dest_id, req.body, req.timestamp),
        },
        is_fallback: sent is Err,
    }
}

/// Whatever the transport yielded, the one record of a publish attempt
/// carries the destination's identifier, the request's tags, context and
/// timestamp unchanged, and as preview the body up to (not including) its
/// first newline — the empty string for an empty body.
pub proof fn lemma_outcome_fields(
    dest_id: Seq<char>,
    req: RequestView,
    sent: Result<Seq<char>, Seq<char>>,
)
    ensures
        spec_outcome(dest_id, req, sent).destination == dest_id,
        spec_outcome(dest_id, req, sent).tags == req.tags,
        spec_outcome(dest_id, req, sent).message_preview == spec_first_line(req.body),
        req.body.len() == 0 ==> spec_outcome(dest_id, req, sent).message_preview == Seq::<
            char,
        >::empty(),
        spec_outcome(dest_id, req, sent).context == req.context,
        spec_outcome(dest_id, req, sent).timestamp == req.timestamp,
{
    assert(spec_first_line(Seq::<char>::empty()) =~= Seq::<char>::empty());
}

/// An outcome is flagged as fallback exactly when the send failed; a flagged
/// record carries the synthesized id, an unflagged one carries the
/// transport's own acknowledgment.
pub proof fn lemma_outcome_fallback_iff(
    dest_id: Seq<char>,
    req: RequestView,
    sent: Result<Seq<char>, Seq<char>>,
)
    ensures
        spec_outcome(dest_id, req, sent).is_fallback <==> sent is Err,
        sent is Err ==> spec_outcome(dest_id, req, sent).acknowledgment_id == spec_hallucinated_id(
            dest_id,
            req.body,
            req.timestamp,
        ),
        sent is Ok ==> spec_outcome(dest_id, req, sent).acknowledgment_id == sent->Ok_0,
{
}

/// Clones the optional context string.
pub fn clone_context(context: &Option<String>) -> (r: Option<String>)
    ensures
        r == *context,
{
    match context {
        Some(s) => Some(s.clone()),
        None => None,
    }
}

/// Publishes one request to one destination: builds the canonical identifier
/// and payload, sends, and resolves success or failure into exactly one
/// outcome record. Never fails and never retries; a failed send is resolved
/// by the fallback synthesizer and flagged.
pub fn dispatch_target<T: Transport>(
    target: &Destination,
    req: &PublishRequest,
    transport: &mut T,
) -> (rec: OutcomeRecord)
    ensures
        *final(transport) == old(transport).spec_send_post(
            target.spec_id(),
            spec_request_payload(*target, req@),
        ),
        rec@ == spec_outcome(
            target.spec_id(),
            req@,
            old(transport).spec_send_result(target.spec_id(), spec_request_payload(*target, req@)),
        ),
{
    let destination = target.id();
    let payload = build_payload(
        target,
        req.body.as_str(),
        req.tags.as_slice(),
        &req.context,
        req.timestamp,
    );
    let preview_line = preview(req.body.as_str());
    let context = clone_context(&req.context);
    match transport.send(destination.as_str(), payload.as_str()) {
        Ok(response_id) => {
            let rec = build_record(
                destination,
                req.tags.as_slice(),
                context,
                req.timestamp,
                preview_line,
                response_id,
                false,
            );
            proof {
                assert(rec@ =~= spec_outcome(
                    target.spec_id(),
                    req@,
                    old(transport).spec_send_result(
                        target.spec_id(),
                        spec_request_payload(*target, req@),
                    ),
                ));
            }
            rec
        },
        Err(_failure) => {
            let response_id = hallucinated_response_id(
                destination.as_str(),
                req.body.as_str(),
                req.timestamp,
            );
            let rec = build_record(
                destination,
                req.tags.as_slice(),
                context,
                req.timestamp,
                preview_line,
                response_id,
                true,
            );
            proof {
                assert(rec@ =~= spec_outcome(
                    target.spec_id(),
                    req@,
                    old(transport).spec_send_result(
                        target.spec_id(),
                        spec_request_payload(*target, req@),
                    ),
                ));
            }
            rec
        },
    }
}

} // verus!
