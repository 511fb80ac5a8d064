//! The multi-destination coordinator: one publish request dispatched to the
//! fixed set of destinations — chat, object store, repository file, and
//! optionally a repository issue — in that order, reusing one request and
//! one timestamp. A per-destination failure never short-circuits the run:
//! every dispatched destination yields its record.

use vstd::prelude::*;

use crate::destination::{
    spec_chat_id, spec_object_store_id, spec_repo_file_id, spec_repo_issue_id, Destination,
};
use crate::json::{
    spec_chat_payload, spec_object_store_payload, spec_repo_file_payload, spec_repo_issue_payload,
};
use crate::publish::{dispatch_target, spec_outcome, PublishRequest};
use crate::record::OutcomeRecord;
use crate::transport::Transport;
use vstd::string::StringExecFns;

verus! {

/// Publishes one request everywhere: chat, object store, repository file,
/// and — only when an issue number was supplied — the repository issue, in
/// that fixed order. Returns exactly one outcome record per dispatched
/// destination, in dispatch order; when no issue number is given, no issue
/// destination is dispatched and its transport is untouched.
pub fn sync_all<T: Transport>(
    channel_id: &str,
    bucket: &str,
    key: &str,
    repo: &str,
    path: &str,
    issue_number: Option<u64>,
    req: &PublishRequest,
    chat_transport: &mut T,
    store_transport: &mut T,
    file_transport: &mut T,
    issue_transport: &mut T,
) -> (records: Vec<OutcomeRecord>)
    ensures
        records@.len() == (if issue_number is Some {
            4int
        } else {
            3int
        }),
        records@[0]@ == spec_outcome(
            spec_chat_id(channel_id@),
            req@,
            old(chat_transport).spec_send_result(
                spec_chat_id(channel_id@),
                spec_chat_payload(channel_id@, req@.body, req@.tags, req@.context, req@.timestamp),
            ),
        ),
        *final(chat_transport) == old(chat_transport).spec_send_post(
            spec_chat_id(channel_id@),
            spec_chat_payload(channel_id@, req@.body, req@.tags, req@.context, req@.timestamp),
        ),
        records@[1]@ == spec_outcome(
            spec_object_store_id(bucket@, key@),
            req@,
            old(store_transport).spec_send_result(
                spec_object_store_id(bucket@, key@),
                spec_object_store_payload(
                    bucket@,
                    key@,
                    req@.body,
                    req@.tags,
                    req@.context,
                    req@.timestamp,
                ),
            ),
        ),
        *final(store_transport) == old(store_transport).spec_send_post(
            spec_object_store_id(bucket@, key@),
            spec_object_store_payload(
                bucket@,
                key@,
                req@.body,
                req@.tags,
                req@.context,
                req@.timestamp,
            ),
        ),
        records@[2]@ == spec_outcome(
            spec_repo_file_id(repo@, path@),
            req@,
            old(file_transport).spec_send_result(
                spec_repo_file_id(repo@, path@),
                spec_repo_file_payload(
                    repo@,
                    path@,
                    req@.body,
                    req@.tags,
                    req@.context,
                    req@.timestamp,
                ),
            ),
        ),
        *final(file_transport) == old(file_transport).spec_send_post(
            spec_repo_file_id(repo@, path@),
            spec_repo_file_payload(repo@, path@, req@.body, req@.tags, req@.context, req@.timestamp),
        ),
        issue_number is Some ==> records@[3]@ == spec_outcome(
            spec_repo_issue_id(repo@, issue_number->0),
            req@,
            old(issue_transport).spec_send_result(
                spec_repo_issue_id(repo@, issue_number->0),
                spec_repo_issue_payload(
                    repo@,
                    issue_number->0,
                    req@.body,
                    req@.tags,
                    req@.context,
                    req@.timestamp,
                ),
            ),
        ),
        issue_number is Some ==> *final(issue_transport) == old(issue_transport).spec_send_post(
            spec_repo_issue_id(repo@, issue_number->0),
            spec_repo_issue_payload(
                repo@,
                issue_number->0,
                req@.body,
                req@.tags,
                req@.context,
                req@.timestamp,
            ),
        ),
        issue_number is None ==> *final(issue_transport) == *old(issue_transport),
{
    let mut records: Vec<OutcomeRecord> = Vec::new();
    let chat = Destination::Chat { channel_id: String::from_str(channel_id) };
    let chat_rec = dispatch_target(&chat, req, chat_transport);
    records.push(chat_rec);
    let store = Destination::ObjectStore {
        bucket: String::from_str(bucket),
        key: String::from_str(key),
    };
    let store_rec = dispatch_target(&store, req, store_transport);
    records.push(store_rec);
    let file = Destination::RepoFile { repo: String::from_str(repo), path: String::from_str(path) };
    let file_rec = dispatch_target(&file, req, file_transport);
    records.push(file_rec);
    if let Some(issue) = issue_number {
        let thread = Destination::RepoIssue {
            repo: String::from_str(repo),
            issue_number: issue,
        };
        let issue_rec = dispatch_target(&thread, req, issue_transport);
        records.push(issue_rec);
    }
    records
}

} // verus!
