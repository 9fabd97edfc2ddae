//! What the engine's answers look like to a client: the short link as plain
//! text, the validity deadline as text, and whether the client asked for HTML.
use crate::clock::{validity_deadline, VALIDITY_SECS};
use vstd::prelude::*;

verus! {

/// The text that chrono prints for the UTC instant `secs` seconds after the
/// Unix epoch, or `None` where chrono cannot represent that instant.
pub uninterp spec fn utc_text(secs: i64) -> Option<Seq<char>>;

/// Relies on chrono's `DateTime::<Utc>::from_timestamp` (`None` when the
/// seconds are out of its range) and on the `Display` of `DateTime<Utc>`.
#[verifier::external_body]
fn format_utc(secs: i64) -> (r: Option<String>)
    ensures
        match r {
            Some(t) => utc_text(secs) == Some(t@),
            None => utc_text(secs) is None,
        },
{
    chrono::DateTime::from_timestamp(secs, 0).map(|d| d.to_string())
}

/// The end of the validity window of a link created at `created_at`, as text.
pub fn validity_text(created_at: i64) -> (r: Option<String>)
    requires
        created_at <= i64::MAX - VALIDITY_SECS,
    ensures
        match r {
            Some(t) => utc_text((created_at + VALIDITY_SECS) as i64) == Some(t@),
            None => utc_text((created_at + VALIDITY_SECS) as i64) is None,
        },
{
    format_utc(validity_deadline(created_at))
}

/// The plain-text answer to a creation request: `<base_url>/<short_code>` and
/// a line break.
pub fn short_link_text(base_url: &str, short_code: &str) -> (r: String)
    ensures
        r@ == base_url@ + seq!['/'] + short_code@ + seq!['\n'],
{
    let mut r = String::from_str(base_url);
    r.append("/");
    r.append(short_code);
    r.append("\n");
    proof {
        reveal_strlit("/");
        reveal_strlit("\n");
    }
    r
}

/// `needle` occurs in `hay` at position `i`.
pub open spec fn occurs_at(hay: Seq<char>, needle: Seq<char>, i: int) -> bool {
    0 <= i && i + needle.len() <= hay.len() && hay.subrange(i, i + needle.len()) == needle
}

/// The media type that asks for a page rather than plain text.
pub open spec fn html_media_type() -> Seq<char> {
    seq!['t', 'e', 'x', 't', '/', 'h', 't', 'm', 'l']
}

/// The value of an `Accept` header names `text/html` somewhere in it.
pub fn accepts_html(accept: &str) -> (r: bool)
    ensures
        r == exists|i: int| occurs_at(accept@, html_media_type(), i),
{
    let needle = "text/html";
    proof {
        reveal_strlit("text/html");
    }
    assert(needle@ == html_media_type());
    let n = accept.unicode_len();
    let m = needle.unicode_len();
    if n < m {
        assert forall|i: int| !occurs_at(accept@, html_media_type(), i) by {}
        return false;
    }
    let mut i: usize = 0;
    while i <= n - m
        invariant
            n == accept@.len(),
            m == needle@.len(),
            needle@ == html_media_type(),
            m <= n,
            i <= n - m + 1,
            forall|k: int| 0 <= k < i ==> !occurs_at(accept@, html_media_type(), k),
        decreases n - i,
    {
        let mut j: usize = 0;
        let mut same = true;
        while j < m
            invariant
                n == accept@.len(),
                m == needle@.len(),
                i + m <= n,
                j <= m,
                same == forall|t: int| 0 <= t < j ==> accept@[i + t] == needle@[t],
            decreases m - j,
        {
            if accept.get_char(i + j) != needle.get_char(j) {
                same = false;
            }
            j = j + 1;
        }
        if same {
            assert(accept@.subrange(i as int, i + m) =~= needle@);
            assert(occurs_at(accept@, html_media_type(), i as int));
            return true;
        }
        assert(!occurs_at(accept@, html_media_type(), i as int)) by {
            if occurs_at(accept@, html_media_type(), i as int) {
                assert forall|t: int| 0 <= t < m implies accept@[i + t] == needle@[t] by {
                    assert(accept@.subrange(i as int, i + m)[t] == accept@[i + t]);
                }
            }
        }
        i = i + 1;
    }
    false
}

} // verus!
