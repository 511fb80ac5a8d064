//! Destinations: the closed set of delivery targets, each with a stable
//! canonical string identifier used both as the transport argument and as the
//! outcome record's destination field.
//!
//! The identifier is collision-free: within a field that precedes a separator
//! character, that separator (and the escape character `%`) is percent-escaped,
//! so no two distinct destinations render to the same string. Fields that end
//! an identifier are rendered verbatim.

use vstd::prelude::*;

use crate::text::{
    chars_to_string, dec_digits, lemma_dec_digits_injective, lemma_dec_digits_props,
    push_dec_digits, push_lit, str_to_chars,
};
use vstd::string::StringExecFns;

verus! {

/// One addressable external target for a published message.
pub enum Destination {
    Chat { channel_id: String },
    ObjectStore { bucket: String, key: String },
    RepoFile { repo: String, path: String },
    RepoIssue { repo: String, issue_number: u64 },
}

/// The escaped form of one character: `%` becomes `%25`, the separator
/// becomes `%` followed by its two-character code, anything else stays.
pub open spec fn sep_escape_char(c: char, sep: char, code: Seq<char>) -> Seq<char> {
    if c == '%' {
        seq!['%', '2', '5']
    } else if c == sep {
        seq!['%'] + code
    } else {
        seq![c]
    }
}

/// A field with its separator character escaped away.
pub open spec fn sep_escape(s: Seq<char>, sep: char, code: Seq<char>) -> Seq<char>
    decreases s.len(),
{
    if s.len() == 0 {
        Seq::empty()
    } else {
        sep_escape_char(s[0], sep, code) + sep_escape(s.drop_first(), sep, code)
    }
}

/// A separator and escape code this module uses: the separator is not `%`
/// nor a character of the `%` escape, the code is two characters, is not the
/// `%` escape's own code, and does not contain the separator.
pub open spec fn valid_sep_code(sep: char, code: Seq<char>) -> bool {
    &&& sep != '%'
    &&& sep != '2'
    &&& sep != '5'
    &&& code.len() == 2
    &&& code != seq!['2', '5']
    &&& code[0] != sep
    &&& code[1] != sep
}

/// Escaping distributes over appending one character at the end.
pub proof fn lemma_sep_escape_push(s: Seq<char>, c: char, sep: char, code: Seq<char>)
    ensures
        sep_escape(s.push(c), sep, code) == sep_escape(s, sep, code) + sep_escape_char(
            c,
            sep,
            code,
        ),
    decreases s.len(),
{
    if s.len() == 0 {
        let e = Seq::<char>::empty();
        assert(s.push(c).drop_first() =~= e);
        assert(s =~= e);
        assert(sep_escape(e, sep, code) == e);
        assert(s.push(c)[0] == c);
        assert(sep_escape(s.push(c), sep, code) =~= sep_escape(s, sep, code) + sep_escape_char(
            c,
            sep,
            code,
        ));
    } else {
        assert(s.push(c).drop_first() =~= s.drop_first().push(c));
        lemma_sep_escape_push(s.drop_first(), c, sep, code);
        assert(sep_escape(s.push(c), sep, code) =~= sep_escape(s, sep, code) + sep_escape_char(
            c,
            sep,
            code,
        ));
    }
}

/// An escaped field never contains its separator.
pub proof fn lemma_sep_escape_no_sep(s: Seq<char>, sep: char, code: Seq<char>)
    requires
        valid_sep_code(sep, code),
    ensures
        forall|i: int|
            0 <= i < sep_escape(s, sep, code).len() ==> #[trigger] sep_escape(s, sep, code)[i]
                != sep,
    decreases s.len(),
{
    if s.len() > 0 {
        lemma_sep_escape_no_sep(s.drop_first(), sep, code);
        let ec = sep_escape_char(s[0], sep, code);
        assert forall|i: int| 0 <= i < sep_escape(s, sep, code).len() implies #[trigger] sep_escape(
            s,
            sep,
            code,
        )[i] != sep by {
            if i < ec.len() {
                assert(sep_escape(s, sep, code)[i] == ec[i]);
            } else {
                assert(sep_escape(s, sep, code)[i] == sep_escape(s.drop_first(), sep, code)[i
                    - ec.len()]);
            }
        }
    }
}

/// Escaping is injective: equal escaped forms come from equal fields.
pub proof fn lemma_sep_escape_injective(a: Seq<char>, b: Seq<char>, sep: char, code: Seq<char>)
    requires
        valid_sep_code(sep, code),
        sep_escape(a, sep, code) == sep_escape(b, sep, code),
    ensures
        a == b,
    decreases a.len(),
{
    if a.len() == 0 && b.len() == 0 {
        assert(a =~= b);
    } else if a.len() == 0 {
        assert(sep_escape(a, sep, code).len() == 0);
        assert(sep_escape(b, sep, code).len() >= sep_escape_char(b[0], sep, code).len());
    } else if b.len() == 0 {
        assert(sep_escape(b, sep, code).len() == 0);
        assert(sep_escape(a, sep, code).len() >= sep_escape_char(a[0], sep, code).len());
    } else {
        let c = a[0];
        let d = b[0];
        let ea = sep_escape_char(c, sep, code);
        let eb = sep_escape_char(d, sep, code);
        assert(forall|i: int|
            0 <= i < ea.len() ==> #[trigger] sep_escape(a, sep, code)[i] == ea[i]);
        assert(forall|i: int|
            0 <= i < eb.len() ==> #[trigger] sep_escape(b, sep, code)[i] == eb[i]);
        if c != d {
            if (c == '%' || c == sep) && (d == '%' || d == sep) {
                assert(ea.len() == 3 && eb.len() == 3);
                assert(sep_escape(a, sep, code)[1] == ea[1]);
                assert(sep_escape(b, sep, code)[1] == eb[1]);
                assert(sep_escape(a, sep, code)[2] == ea[2]);
                assert(sep_escape(b, sep, code)[2] == eb[2]);
                assert(ea[1] == eb[1] && ea[2] == eb[2]);
                assert(code =~= seq!['2', '5']);
            } else if c == '%' || c == sep {
                assert(sep_escape(a, sep, code)[0] == '%');
                assert(sep_escape(b, sep, code)[0] == d);
            } else if d == '%' || d == sep {
                assert(sep_escape(b, sep, code)[0] == '%');
                assert(sep_escape(a, sep, code)[0] == c);
            } else {
                assert(sep_escape(a, sep, code)[0] == c);
                assert(sep_escape(b, sep, code)[0] == d);
            }
        }
        assert(c == d);
        let n = ea.len() as int;
        let ta = sep_escape(a.drop_first(), sep, code);
        let tb = sep_escape(b.drop_first(), sep, code);
        assert(ta =~= sep_escape(a, sep, code).subrange(n, sep_escape(a, sep, code).len() as int));
        assert(tb =~= sep_escape(b, sep, code).subrange(n, sep_escape(b, sep, code).len() as int));
        lemma_sep_escape_injective(a.drop_first(), b.drop_first(), sep, code);
        assert(a.len() == a.drop_first().len() + 1);
        assert(b.len() == b.drop_first().len() + 1);
        assert forall|i: int| 0 <= i < a.len() implies a[i] == b[i] by {
            if i > 0 {
                assert(a[i] == a.drop_first()[i - 1]);
                assert(b[i] == b.drop_first()[i - 1]);
            }
        }
        assert(a =~= b);
    }
}

/// Two strings of the form `prefix + [sep] + tail`, whose prefixes are free
/// of the separator, are equal only piecewise.
pub proof fn lemma_split_at_sep(
    x1: Seq<char>,
    y1: Seq<char>,
    x2: Seq<char>,
    y2: Seq<char>,
    sep: char,
)
    requires
        x1 + seq![sep] + y1 == x2 + seq![sep] + y2,
        forall|i: int| 0 <= i < x1.len() ==> #[trigger] x1[i] != sep,
        forall|i: int| 0 <= i < x2.len() ==> #[trigger] x2[i] != sep,
    ensures
        x1 == x2,
        y1 == y2,
{
    let s = x1 + seq![sep] + y1;
    if x1.len() < x2.len() {
        assert(s[x1.len() as int] == (x1 + seq![sep])[x1.len() as int]);
        assert(s[x1.len() as int] == sep);
        assert((x2 + seq![sep] + y2)[x1.len() as int] == (x2 + seq![sep])[x1.len() as int]);
        assert((x2 + seq![sep])[x1.len() as int] == x2[x1.len() as int]);
    }
    if x2.len() < x1.len() {
        assert(s[x2.len() as int] == (x1 + seq![sep])[x2.len() as int]);
        assert(s[x2.len() as int] == x1[x2.len() as int]);
        assert((x2 + seq![sep] + y2)[x2.len() as int] == (x2 + seq![sep])[x2.len() as int]);
        assert((x2 + seq![sep])[x2.len() as int] == sep);
    }
    assert(x1.len() == x2.len());
    assert forall|i: int| 0 <= i < x1.len() implies x1[i] == x2[i] by {
        assert(s[i] == (x1 + seq![sep])[i]);
        assert((x1 + seq![sep])[i] == x1[i]);
        assert((x2 + seq![sep] + y2)[i] == (x2 + seq![sep])[i]);
        assert((x2 + seq![sep])[i] == x2[i]);
    }
    assert(x1 =~= x2);
    assert(s.len() == x1.len() + 1 + y1.len());
    assert((x2 + seq![sep] + y2).len() == x2.len() + 1 + y2.len());
    assert(y1.len() == y2.len());
    assert forall|i: int| 0 <= i < y1.len() implies y1[i] == y2[i] by {
        let k = x1.len() as int + 1 + i;
        assert(s[k] == y1[k - (x1 + seq![sep]).len()]);
        assert((x2 + seq![sep] + y2)[k] == y2[k - (x2 + seq![sep]).len()]);
    }
    assert(y1 =~= y2);
}

/// A shared prefix cancels: `p + a == p + b` forces `a == b`.
pub proof fn lemma_cancel_prefix(p: Seq<char>, a: Seq<char>, b: Seq<char>)
    requires
        p + a == p + b,
    ensures
        a == b,
{
    assert((p + a).len() == (p + b).len());
    assert((p + a).len() == p.len() + a.len());
    assert((p + b).len() == p.len() + b.len());
    assert(a.len() == b.len());
    assert forall|i: int| 0 <= i < a.len() implies a[i] == b[i] by {
        let k = p.len() as int + i;
        assert((p + a)[k] == a[k - p.len()]);
        assert((p + b)[k] == b[k - p.len()]);
    }
    assert(a =~= b);
}

/// The escape code for `/`.
pub open spec fn slash_code() -> Seq<char> {
    seq!['2', 'F']
}

/// The escape code for `:`.
pub open spec fn colon_code() -> Seq<char> {
    seq!['3', 'A']
}

/// The escape code for `#`.
pub open spec fn hash_code() -> Seq<char> {
    seq!['2', '3']
}

/// The canonical identifier of a chat channel destination.
pub open spec fn spec_chat_id(channel_id: Seq<char>) -> Seq<char> {
    "chat:"@ + channel_id
}

/// The canonical identifier of an object-store destination; `/` and `%` in
/// the bucket are escaped, so the first `/` after the tag separates bucket
/// from key.
pub open spec fn spec_object_store_id(bucket: Seq<char>, key: Seq<char>) -> Seq<char> {
    "object:"@ + sep_escape(bucket, '/', slash_code()) + "/"@ + key
}

/// The canonical identifier of a repository-file destination; `:` and `%` in
/// the repository are escaped.
pub open spec fn spec_repo_file_id(repo: Seq<char>, path: Seq<char>) -> Seq<char> {
    "repofile:"@ + sep_escape(repo, ':', colon_code()) + ":"@ + path
}

/// The canonical identifier of a repository-issue destination; `#` and `%`
/// in the repository are escaped.
pub open spec fn spec_repo_issue_id(repo: Seq<char>, issue_number: u64) -> Seq<char> {
    "issue:"@ + sep_escape(repo, '#', hash_code()) + "#"@ + dec_digits(issue_number as u128)
}

/// Appends the field `s` to `out` with `sep` (whose escape code is the two
/// characters `c0 c1`) and `%` escaped.
fn push_sep_escaped(out: &mut Vec<char>, s: &str, sep: char, c0: char, c1: char)
    ensures
        final(out)@ == old(out)@ + sep_escape(s@, sep, seq![c0, c1]),
{
    let cs = str_to_chars(s);
    let mut i: usize = 0;
    while i < cs.len()
        invariant
            i <= cs@.len(),
            cs@ == s@,
            out@ == old(out)@ + sep_escape(s@.take(i as int), sep, seq![c0, c1]),
        decreases cs@.len() - i,
    {
        let c = cs[i];
        if c == '%' {
            out.push('%');
            out.push('2');
            out.push('5');
        } else if c == sep {
            out.push('%');
            out.push(c0);
            out.push(c1);
        } else {
            out.push(c);
        }
        proof {
            assert(s@.take(i as int + 1) =~= s@.take(i as int).push(s@[i as int]));
            lemma_sep_escape_push(s@.take(i as int), s@[i as int], sep, seq![c0, c1]);
            assert(out@ =~= old(out)@ + sep_escape(s@.take(i as int + 1), sep, seq![c0, c1]));
        }
        i = i + 1;
    }
    proof {
        assert(s@.take(cs@.len() as int) =~= s@);
    }
}

impl Destination {
    /// The canonical identifier: variant tag, then the identifying fields.
    pub open spec fn spec_id(&self) -> Seq<char> {
        match self {
            Destination::Chat { channel_id } => spec_chat_id(channel_id@),
            Destination::ObjectStore { bucket, key } => spec_object_store_id(bucket@, key@),
            Destination::RepoFile { repo, path } => spec_repo_file_id(repo@, path@),
            Destination::RepoIssue { repo, issue_number } => spec_repo_issue_id(
                repo@,
                *issue_number,
            ),
        }
    }

    /// Renders the canonical identifier of this destination.
    pub fn id(&self) -> (r: String)
        ensures
            r@ == self.spec_id(),
    {
        match self {
            Destination::Chat { channel_id } => {
                let mut s = String::from_str("chat:");
                s.append(channel_id.as_str());
                s
            },
            Destination::ObjectStore { bucket, key } => {
                let mut out: Vec<char> = Vec::new();
                push_lit(&mut out, "object:");
                push_sep_escaped(&mut out, bucket.as_str(), '/', '2', 'F');
                push_lit(&mut out, "/");
                push_lit(&mut out, key.as_str());
                proof {
                    assert(out@ =~= spec_object_store_id(bucket@, key@));
                }
                chars_to_string(&out)
            },
            Destination::RepoFile { repo, path } => {
                let mut out: Vec<char> = Vec::new();
                push_lit(&mut out, "repofile:");
                push_sep_escaped(&mut out, repo.as_str(), ':', '3', 'A');
                push_lit(&mut out, ":");
                push_lit(&mut out, path.as_str());
                proof {
                    assert(out@ =~= spec_repo_file_id(repo@, path@));
                }
                chars_to_string(&out)
            },
            Destination::RepoIssue { repo, issue_number } => {
                let mut out: Vec<char> = Vec::new();
                push_lit(&mut out, "issue:");
                push_sep_escaped(&mut out, repo.as_str(), '#', '2', '3');
                push_lit(&mut out, "#");
                push_dec_digits(&mut out, *issue_number as u128);
                proof {
                    assert(out@ =~= spec_repo_issue_id(repo@, *issue_number));
                }
                chars_to_string(&out)
            },
        }
    }
}

/// The character that opens the canonical identifier of each variant.
pub open spec fn first_id_char(d: Destination) -> char {
    match d {
        Destination::Chat { .. } => 'c',
        Destination::ObjectStore { .. } => 'o',
        Destination::RepoFile { .. } => 'r',
        Destination::RepoIssue { .. } => 'i',
    }
}

/// A canonical identifier is non-empty and starts with its variant's opening
/// character.
pub proof fn lemma_first_id_char(d: Destination)
    ensures
        d.spec_id().len() > 0,
        d.spec_id()[0] == first_id_char(d),
{
    reveal_strlit("chat:");
    reveal_strlit("object:");
    reveal_strlit("repofile:");
    reveal_strlit("issue:");
}

/// Identifiers never collide across destination kinds: two destinations of
/// different variants render to different strings (their identifiers begin
/// with different characters).
pub proof fn lemma_destination_id_separates_variants(a: Destination, b: Destination)
    requires
        a.spec_id() == b.spec_id(),
    ensures
        a is Chat <==> b is Chat,
        a is ObjectStore <==> b is ObjectStore,
        a is RepoFile <==> b is RepoFile,
        a is RepoIssue <==> b is RepoIssue,
{
    lemma_first_id_char(a);
    lemma_first_id_char(b);
}

/// Canonical identifiers are collision-free: two destinations that render to
/// the same identifier have the same variant and identical fields.
pub proof fn lemma_destination_id_injective(a: Destination, b: Destination)
    requires
        a.spec_id() == b.spec_id(),
    ensures
        (match (a, b) {
            (
                Destination::Chat { channel_id: c1 },
                Destination::Chat { channel_id: c2 },
            ) => c1@ == c2@,
            (
                Destination::ObjectStore { bucket: b1, key: k1 },
                Destination::ObjectStore { bucket: b2, key: k2 },
            ) => b1@ == b2@ && k1@ == k2@,
            (
                Destination::RepoFile { repo: r1, path: p1 },
                Destination::RepoFile { repo: r2, path: p2 },
            ) => r1@ == r2@ && p1@ == p2@,
            (
                Destination::RepoIssue { repo: r1, issue_number: i1 },
                Destination::RepoIssue { repo: r2, issue_number: i2 },
            ) => r1@ == r2@ && i1 == i2,
            _ => false,
        }),
{
    lemma_destination_id_separates_variants(a, b);
    match (a, b) {
        (Destination::Chat { channel_id: c1 }, Destination::Chat { channel_id: c2 }) => {
            lemma_cancel_prefix("chat:"@, c1@, c2@);
        },
        (
            Destination::ObjectStore { bucket: b1, key: k1 },
            Destination::ObjectStore { bucket: b2, key: k2 },
        ) => {
            reveal_strlit("/");
            let e1 = sep_escape(b1@, '/', slash_code());
            let e2 = sep_escape(b2@, '/', slash_code());
            assert(spec_object_store_id(b1@, k1@) =~= "object:"@ + (e1 + seq!['/'] + k1@));
            assert(spec_object_store_id(b2@, k2@) =~= "object:"@ + (e2 + seq!['/'] + k2@));
            lemma_cancel_prefix("object:"@, e1 + seq!['/'] + k1@, e2 + seq!['/'] + k2@);
            lemma_sep_escape_no_sep(b1@, '/', slash_code());
            lemma_sep_escape_no_sep(b2@, '/', slash_code());
            lemma_split_at_sep(e1, k1@, e2, k2@, '/');
            lemma_sep_escape_injective(b1@, b2@, '/', slash_code());
        },
        (
            Destination::RepoFile { repo: r1, path: p1 },
            Destination::RepoFile { repo: r2, path: p2 },
        ) => {
            reveal_strlit(":");
            let e1 = sep_escape(r1@, ':', colon_code());
            let e2 = sep_escape(r2@, ':', colon_code());
            assert(spec_repo_file_id(r1@, p1@) =~= "repofile:"@ + (e1 + seq![':'] + p1@));
            assert(spec_repo_file_id(r2@, p2@) =~= "repofile:"@ + (e2 + seq![':'] + p2@));
            lemma_cancel_prefix("repofile:"@, e1 + seq![':'] + p1@, e2 + seq![':'] + p2@);
            lemma_sep_escape_no_sep(r1@, ':', colon_code());
            lemma_sep_escape_no_sep(r2@, ':', colon_code());
            lemma_split_at_sep(e1, p1@, e2, p2@, ':');
            lemma_sep_escape_injective(r1@, r2@, ':', colon_code());
        },
        (
            Destination::RepoIssue { repo: r1, issue_number: i1 },
            Destination::RepoIssue { repo: r2, issue_number: i2 },
        ) => {
            reveal_strlit("#");
            let e1 = sep_escape(r1@, '#', hash_code());
            let e2 = sep_escape(r2@, '#', hash_code());
            let d1 = dec_digits(i1 as u128);
            let d2 = dec_digits(i2 as u128);
            assert(spec_repo_issue_id(r1@, i1) =~= "issue:"@ + (e1 + seq!['#'] + d1));
            assert(spec_repo_issue_id(r2@, i2) =~= "issue:"@ + (e2 + seq!['#'] + d2));
            lemma_cancel_prefix("issue:"@, e1 + seq!['#'] + d1, e2 + seq!['#'] + d2);
            lemma_sep_escape_no_sep(r1@, '#', hash_code());
            lemma_sep_escape_no_sep(r2@, '#', hash_code());
            lemma_split_at_sep(e1, d1, e2, d2, '#');
            lemma_sep_escape_injective(r1@, r2@, '#', hash_code());
            lemma_dec_digits_injective(i1 as u128, i2 as u128);
            lemma_dec_digits_props(i1 as u128);
        },
        _ => {},
    }
}

} // verus!
