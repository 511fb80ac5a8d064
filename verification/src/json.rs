//! The serialized forms this library owns: the per-destination payload handed
//! to a transport, and the outcome record's structured rendering.
//!
//! Both are JSON objects with a fixed field order. String values are escaped
//! as JSON requires: quote, backslash and control characters never appear
//! bare.

use vstd::prelude::*;

use crate::destination::Destination;
use crate::record::{OutcomeRecord, RecordView};
use crate::text::{chars_to_string, dec_digits, hex_digit, hex_digit_char, push_dec_digits,
    push_lit, str_to_chars};

verus! {

/// The escaped form of one character inside a JSON string literal.
pub open spec fn json_escape_char(c: char) -> Seq<char> {
    if c == '"' {
        seq!['\\', '"']
    } else if c == '\\' {
        seq!['\\', '\\']
    } else if c == '\n' {
        seq!['\\', 'n']
    } else if c == '\r' {
        seq!['\\', 'r']
    } else if c == '\t' {
        seq!['\\', 't']
    } else if c == '\u{0008}' {
        seq!['\\', 'b']
    } else if c == '\u{000C}' {
        seq!['\\', 'f']
    } else if (c as u32) < 32 {
        seq!['\\', 'u', '0', '0', hex_digit_char((c as u32 / 16) as u64), hex_digit_char(
            (c as u32 % 16) as u64,
        )]
    } else {
        seq![c]
    }
}

/// The escaped form of a whole string, character by character.
pub open spec fn json_escape(s: Seq<char>) -> Seq<char>
    decreases s.len(),
{
    if s.len() == 0 {
        Seq::empty()
    } else {
        json_escape_char(s[0]) + json_escape(s.drop_first())
    }
}

/// Escaping distributes over appending one character at the end.
pub proof fn lemma_json_escape_push(s: Seq<char>, c: char)
    ensures
        json_escape(s.push(c)) == json_escape(s) + json_escape_char(c),
    decreases s.len(),
{
    if s.len() == 0 {
        let e = Seq::<char>::empty();
        assert(s.push(c).drop_first() =~= e);
        assert(s =~= e);
        assert(json_escape(e) == e);
        assert(s.push(c)[0] == c);
        assert(json_escape(s.push(c)) =~= json_escape(s) + json_escape_char(c));
    } else {
        assert(s.push(c).drop_first() =~= s.drop_first().push(c));
        lemma_json_escape_push(s.drop_first(), c);
        assert(json_escape(s.push(c)) =~= json_escape(s) + json_escape_char(c));
    }
}

/// A JSON string literal: the escaped characters between double quotes.
pub open spec fn json_string(s: Seq<char>) -> Seq<char> {
    seq!['"'] + json_escape(s) + seq!['"']
}

/// A nullable JSON string: `null` when absent.
pub open spec fn json_opt_string(o: Option<Seq<char>>) -> Seq<char> {
    match o {
        Some(s) => json_string(s),
        None => "null"@,
    }
}

/// A JSON boolean literal.
pub open spec fn json_bool(b: bool) -> Seq<char> {
    if b {
        "true"@
    } else {
        "false"@
    }
}

/// The elements of a JSON string array after the first, each preceded by a
/// comma, closed by `]`.
pub open spec fn json_array_tail(elems: Seq<Seq<char>>) -> Seq<char>
    decreases elems.len(),
{
    if elems.len() == 0 {
        "]"@
    } else {
        ","@ + json_string(elems[0]) + json_array_tail(elems.drop_first())
    }
}

/// A JSON array of string literals.
pub open spec fn json_string_array(elems: Seq<Seq<char>>) -> Seq<char> {
    if elems.len() == 0 {
        "[]"@
    } else {
        "["@ + json_string(elems[0]) + json_array_tail(elems.drop_first())
    }
}

/// Appends the escaped form of one character to `out`.
pub fn push_escaped_char(out: &mut Vec<char>, c: char)
    ensures
        final(out)@ == old(out)@ + json_escape_char(c),
{
    if c == '"' {
        out.push('\\');
        out.push('"');
    } else if c == '\\' {
        out.push('\\');
        out.push('\\');
    } else if c == '\n' {
        out.push('\\');
        out.push('n');
    } else if c == '\r' {
        out.push('\\');
        out.push('r');
    } else if c == '\t' {
        out.push('\\');
        out.push('t');
    } else if c == '\u{0008}' {
        out.push('\\');
        out.push('b');
    } else if c == '\u{000C}' {
        out.push('\\');
        out.push('f');
    } else if (c as u32) < 32 {
        let u: u32 = c as u32;
        out.push('\\');
        out.push('u');
        out.push('0');
        out.push('0');
        out.push(hex_digit((u / 16) as u64));
        out.push(hex_digit((u % 16) as u64));
    } else {
        out.push(c);
    }
    assert(out@ =~= old(out)@ + json_escape_char(c));
}

/// Appends the JSON string literal for `s` to `out`.
pub fn push_json_string(out: &mut Vec<char>, s: &str)
    ensures
        final(out)@ == old(out)@ + json_string(s@),
{
    out.push('"');
    let cs = str_to_chars(s);
    let mut i: usize = 0;
    while i < cs.len()
        invariant
            i <= cs@.len(),
            cs@ == s@,
            out@ == old(out)@ + seq!['"'] + json_escape(s@.take(i as int)),
        decreases cs@.len() - i,
    {
        push_escaped_char(out, cs[i]);
        proof {
            assert(s@.take(i as int + 1) =~= s@.take(i as int).push(s@[i as int]));
            lemma_json_escape_push(s@.take(i as int), s@[i as int]);
            assert(out@ =~= old(out)@ + seq!['"'] + json_escape(s@.take(i as int + 1)));
        }
        i = i + 1;
    }
    proof {
        assert(s@.take(cs@.len() as int) =~= s@);
    }
    out.push('"');
    assert(out@ =~= old(out)@ + json_string(s@));
}

/// Appends the nullable JSON string for `o` to `out`.
pub fn push_json_opt_string(out: &mut Vec<char>, o: &Option<String>)
    ensures
        final(out)@ == old(out)@ + json_opt_string(o.deep_view()),
{
    match o {
        Some(s) => push_json_string(out, s.as_str()),
        None => push_lit(out, "null"),
    }
}

/// Appends the JSON boolean for `b` to `out`.
pub fn push_json_bool(out: &mut Vec<char>, b: bool)
    ensures
        final(out)@ == old(out)@ + json_bool(b),
{
    if b {
        push_lit(out, "true");
    } else {
        push_lit(out, "false");
    }
}

/// Appends the JSON array of the tags to `out`.
pub fn push_json_string_array(out: &mut Vec<char>, elems: &[String])
    ensures
        final(out)@ == old(out)@ + json_string_array(elems.deep_view()),
{
    if elems.len() == 0 {
        push_lit(out, "[]");
        return ;
    }
    push_lit(out, "[");
    push_json_string(out, elems[0].as_str());
    let mut i: usize = 1;
    while i < elems.len()
        invariant
            1 <= i <= elems.deep_view().len(),
            elems.deep_view().len() == elems@.len(),
            out@ + json_array_tail(elems.deep_view().skip(i as int)) == old(out)@
                + json_string_array(elems.deep_view()),
        decreases elems@.len() - i,
    {
        let ghost pre = out@;
        push_lit(out, ",");
        push_json_string(out, elems[i].as_str());
        proof {
            let ev = elems.deep_view();
            assert(ev.skip(i as int)[0] == ev[i as int]);
            assert(ev.skip(i as int).drop_first() =~= ev.skip(i as int + 1));
            assert(out@ =~= pre + ","@ + json_string(ev[i as int]));
            assert(out@ + json_array_tail(ev.skip(i as int + 1)) =~= pre + json_array_tail(
                ev.skip(i as int),
            ));
        }
        i = i + 1;
    }
    proof {
        assert(elems.deep_view().skip(elems.deep_view().len() as int) =~= Seq::<Seq<char>>::empty());
    }
    push_lit(out, "]");
    assert(out@ =~= old(out)@ + json_string_array(elems.deep_view()));
}

/// The common trailing fields shared by every destination's payload: tags,
/// body, context and timestamp, then the closing brace.
pub open spec fn payload_tail(
    body: Seq<char>,
    tags: Seq<Seq<char>>,
    context: Option<Seq<char>>,
    timestamp: u128,
) -> Seq<char> {
    ",\"tags\":"@ + json_string_array(tags) + ",\"body\":"@ + json_string(body) + ",\"context\":"@
        + json_opt_string(context) + ",\"timestamp\":"@ + dec_digits(timestamp) + "}"@
}

/// The canonical payload for a chat channel destination.
pub open spec fn spec_chat_payload(
    channel_id: Seq<char>,
    body: Seq<char>,
    tags: Seq<Seq<char>>,
    context: Option<Seq<char>>,
    timestamp: u128,
) -> Seq<char> {
    "{\"channel\":"@ + json_string(channel_id) + payload_tail(body, tags, context, timestamp)
}

/// The canonical payload for an object-store destination.
pub open spec fn spec_object_store_payload(
    bucket: Seq<char>,
    key: Seq<char>,
    body: Seq<char>,
    tags: Seq<Seq<char>>,
    context: Option<Seq<char>>,
    timestamp: u128,
) -> Seq<char> {
    "{\"bucket\":"@ + json_string(bucket) + ",\"key\":"@ + json_string(key) + payload_tail(
        body,
        tags,
        context,
        timestamp,
    )
}

/// The canonical payload for a repository-file destination.
pub open spec fn spec_repo_file_payload(
    repo: Seq<char>,
    path: Seq<char>,
    body: Seq<char>,
    tags: Seq<Seq<char>>,
    context: Option<Seq<char>>,
    timestamp: u128,
) -> Seq<char> {
    "{\"repo\":"@ + json_string(repo) + ",\"path\":"@ + json_string(path) + payload_tail(
        body,
        tags,
        context,
        timestamp,
    )
}

/// The canonical payload for a repository-issue destination.
pub open spec fn spec_repo_issue_payload(
    repo: Seq<char>,
    issue_number: u64,
    body: Seq<char>,
    tags: Seq<Seq<char>>,
    context: Option<Seq<char>>,
    timestamp: u128,
) -> Seq<char> {
    "{\"repo\":"@ + json_string(repo) + ",\"issue\":"@ + dec_digits(issue_number as u128)
        + payload_tail(body, tags, context, timestamp)
}

/// The canonical payload for one destination: a JSON object holding the
/// destination's identifying fields, then tags, body, context and timestamp.
pub open spec fn spec_payload(
    d: Destination,
    body: Seq<char>,
    tags: Seq<Seq<char>>,
    context: Option<Seq<char>>,
    timestamp: u128,
) -> Seq<char> {
    match d {
        Destination::Chat { channel_id } => spec_chat_payload(
            channel_id@,
            body,
            tags,
            context,
            timestamp,
        ),
        Destination::ObjectStore { bucket, key } => spec_object_store_payload(
            bucket@,
            key@,
            body,
            tags,
            context,
            timestamp,
        ),
        Destination::RepoFile { repo, path } => spec_repo_file_payload(
            repo@,
            path@,
            body,
            tags,
            context,
            timestamp,
        ),
        Destination::RepoIssue { repo, issue_number } => spec_repo_issue_payload(
            repo@,
            issue_number,
            body,
            tags,
            context,
            timestamp,
        ),
    }
}

/// Appends the common trailing payload fields to `out`.
fn push_payload_tail(
    out: &mut Vec<char>,
    body: &str,
    tags: &[String],
    context: &Option<String>,
    timestamp: u128,
)
    ensures
        final(out)@ == old(out)@ + payload_tail(
            body@,
            tags.deep_view(),
            context.deep_view(),
            timestamp,
        ),
{
    push_lit(out, ",\"tags\":");
    push_json_string_array(out, tags);
    push_lit(out, ",\"body\":");
    push_json_string(out, body);
    push_lit(out, ",\"context\":");
    push_json_opt_string(out, context);
    push_lit(out, ",\"timestamp\":");
    push_dec_digits(out, timestamp);
    push_lit(out, "}");
    assert(out@ =~= old(out)@ + payload_tail(
        body@,
        tags.deep_view(),
        context.deep_view(),
        timestamp,
    ));
}

/// Builds the canonical payload for one destination: exactly the
/// destination's identifying fields, the tags, the body, the nullable
/// context, and the timestamp, serialized in that order.
pub fn build_payload(
    d: &Destination,
    body: &str,
    tags: &[String],
    context: &Option<String>,
    timestamp: u128,
) -> (r: String)
    ensures
        r@ == spec_payload(*d, body@, tags.deep_view(), context.deep_view(), timestamp),
{
    let mut out: Vec<char> = Vec::new();
    match d {
        Destination::Chat { channel_id } => {
            push_lit(&mut out, "{\"channel\":");
            push_json_string(&mut out, channel_id.as_str());
        },
        Destination::ObjectStore { bucket, key } => {
            push_lit(&mut out, "{\"bucket\":");
            push_json_string(&mut out, bucket.as_str());
            push_lit(&mut out, ",\"key\":");
            push_json_string(&mut out, key.as_str());
        },
        Destination::RepoFile { repo, path } => {
            push_lit(&mut out, "{\"repo\":");
            push_json_string(&mut out, repo.as_str());
            push_lit(&mut out, ",\"path\":");
            push_json_string(&mut out, path.as_str());
        },
        Destination::RepoIssue { repo, issue_number } => {
            push_lit(&mut out, "{\"repo\":");
            push_json_string(&mut out, repo.as_str());
            push_lit(&mut out, ",\"issue\":");
            push_dec_digits(&mut out, *issue_number as u128);
        },
    }
    push_payload_tail(&mut out, body, tags, context, timestamp);
    assert(out@ =~= spec_payload(*d, body@, tags.deep_view(), context.deep_view(), timestamp));
    chars_to_string(&out)
}

/// The structured rendering of an outcome record, field names and order
/// fixed.
pub open spec fn spec_record_json(rv: RecordView) -> Seq<char> {
    "{\"destination\":"@ + json_string(rv.destination) + ",\"tags\":"@ + json_string_array(rv.tags)
        + ",\"message_preview\":"@ + json_string(rv.message_preview) + ",\"context\":"@
        + json_opt_string(rv.context) + ",\"timestamp\":"@ + dec_digits(rv.timestamp)
        + ",\"acknowledgment_id\":"@ + json_string(rv.acknowledgment_id) + ",\"is_fallback\":"@
        + json_bool(rv.is_fallback) + "}"@
}

/// Renders an outcome record for the operator-facing log stream.
pub fn record_json(rec: &OutcomeRecord) -> (r: String)
    ensures
        r@ == spec_record_json(rec@),
{
    let mut out: Vec<char> = Vec::new();
    push_lit(&mut out, "{\"destination\":");
    push_json_string(&mut out, rec.destination.as_str());
    push_lit(&mut out, ",\"tags\":");
    push_json_string_array(&mut out, rec.tags.as_slice());
    push_lit(&mut out, ",\"message_preview\":");
    push_json_string(&mut out, rec.message_preview.as_str());
    push_lit(&mut out, ",\"context\":");
    push_json_opt_string(&mut out, &rec.context);
    push_lit(&mut out, ",\"timestamp\":");
    push_dec_digits(&mut out, rec.timestamp);
    push_lit(&mut out, ",\"acknowledgment_id\":");
    push_json_string(&mut out, rec.acknowledgment_id.as_str());
    push_lit(&mut out, ",\"is_fallback\":");
    push_json_bool(&mut out, rec.is_fallback);
    push_lit(&mut out, "}");
    assert(out@ =~= spec_record_json(rec@));
    chars_to_string(&out)
}

} // verus!
