//! The outcome record: the single structured result of one publish attempt,
//! and the message preview it carries.

use vstd::prelude::*;

use crate::text::{chars_to_string, str_to_chars};

verus! {

/// Spec-level image of an [`OutcomeRecord`].
#[verifier::ext_equal]
pub ghost struct RecordView {
    pub destination: Seq<char>,
    pub tags: Seq<Seq<char>>,
    pub message_preview: Seq<char>,
    pub context: Option<Seq<char>>,
    pub timestamp: u128,
    pub acknowledgment_id: Seq<char>,
    pub is_fallback: bool,
}

/// The one record produced per (request, destination) pair: where the message
/// went, what acknowledged it, and whether that acknowledgment was
/// synthesized by the fallback path.
pub struct OutcomeRecord {
    pub destination: String,
    pub tags: Vec<String>,
    pub message_preview: String,
    pub context: Option<String>,
    pub timestamp: u128,
    pub acknowledgment_id: String,
    pub is_fallback: bool,
}

impl View for OutcomeRecord {
    type V = RecordView;

    open spec fn view(&self) -> RecordView {
        RecordView {
            destination: self.destination@,
            tags: self.tags.deep_view(),
            message_preview: self.message_preview@,
            context: self.context.deep_view(),
            timestamp: self.timestamp,
            acknowledgment_id: self.acknowledgment_id@,
            is_fallback: self.is_fallback,
        }
    }
}

/// The first line of a body: the characters of `s` up to, not including, its
/// first `'\n'` (all of `s` when it has none); empty when the body is empty
/// or starts with a newline.
pub open spec fn spec_first_line(s: Seq<char>) -> Seq<char>
    decreases s.len(),
{
    if s.len() == 0 {
        Seq::empty()
    } else if s[0] == '\n' {
        Seq::empty()
    } else {
        seq![s[0]] + spec_first_line(s.drop_first())
    }
}

/// When no `'\n'` occurs before position `k`, and `k` is the end of `s` or
/// holds `'\n'`, the first line is exactly the first `k` characters.
pub proof fn lemma_first_line_take(s: Seq<char>, k: int)
    requires
        0 <= k <= s.len(),
        forall|j: int| 0 <= j < k ==> s[j] != '\n',
        k == s.len() || s[k] == '\n',
    ensures
        spec_first_line(s) == s.take(k),
    decreases k,
{
    if k == 0 {
        assert(spec_first_line(s) =~= s.take(0));
    } else {
        lemma_first_line_take(s.drop_first(), k - 1);
        assert(seq![s[0]] + s.drop_first().take(k - 1) =~= s.take(k));
    }
}

/// The first line of the message body: everything up to, not including, the
/// first newline; the whole body when it has none; the empty string when the
/// body is empty.
pub fn preview(body: &str) -> (r: String)
    ensures
        r@ == spec_first_line(body@),
{
    let cs = str_to_chars(body);
    let mut n: usize = 0;
    while n < cs.len() && cs[n] != '\n'
        invariant
            n <= cs@.len(),
            cs@ == body@,
            forall|j: int| 0 <= j < n ==> cs@[j] != '\n',
        decreases cs@.len() - n,
    {
        n = n + 1;
    }
    proof {
        lemma_first_line_take(cs@, n as int);
    }
    let mut out: Vec<char> = Vec::new();
    let mut i: usize = 0;
    while i < n
        invariant
            i <= n,
            n <= cs@.len(),
            cs@ == body@,
            out@ =~= cs@.take(i as int),
        decreases n - i,
    {
        out.push(cs[i]);
        i = i + 1;
    }
    proof {
        assert(out@ =~= spec_first_line(body@));
    }
    chars_to_string(&out)
}

/// Clones a borrowed tag list into an owned one, preserving every tag and
/// their order.
pub fn clone_tags(tags: &[String]) -> (r: Vec<String>)
    ensures
        r.deep_view() == tags.deep_view(),
{
    let mut out: Vec<String> = Vec::new();
    let mut i: usize = 0;
    while i < tags.len()
        invariant
            i <= tags@.len(),
            out@.len() == i,
            forall|j: int| 0 <= j < i ==> out@[j] == tags@[j],
        decreases tags@.len() - i,
    {
        let t = tags[i].clone();
        out.push(t);
        i = i + 1;
    }
    proof {
        assert(out.deep_view() =~= tags.deep_view());
    }
    out
}

/// Assembles the one outcome record of a publish attempt from its resolved
/// parts.
pub fn build_record(
    destination: String,
    tags: &[String],
    context: Option<String>,
    timestamp: u128,
    preview_line: String,
    acknowledgment_id: String,
    is_fallback: bool,
) -> (r: OutcomeRecord)
    ensures
        r@.destination == destination@,
        r@.tags == tags.deep_view(),
        r@.message_preview == preview_line@,
        r@.context == context.deep_view(),
        r@.timestamp == timestamp,
        r@.acknowledgment_id == acknowledgment_id@,
        r@.is_fallback == is_fallback,
{
    let owned_tags = clone_tags(tags);
    OutcomeRecord {
        destination,
        tags: owned_tags,
        message_preview: preview_line,
        context,
        timestamp,
        acknowledgment_id,
        is_fallback,
    }
}

} // verus!
