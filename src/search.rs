use vstd::prelude::*;
use crate::text::{lemma_contains_at, lower_of, seq_contains, str_contains, to_lowercase};
use crate::types::{DownloadId, TopicId};

verus! {

/// Marks a tracker page that asks for a captcha.
pub const CAPTCHA_IS_REQUIRED_TEXT: &'static str = "введите код подтверждения";

/// Marks a tracker page that refused the password.
pub const INCORRECT_PASSWORD_TEXT: &'static str = "неверный пароль";

/// Marks a tracker page seen by a logged-in user.
pub const SUCCESSFUL_LOGIN_TEXT: &'static str = "log-out-icon";

/// Highest value that `priority` takes.
pub const MAX_PRIORITY: usize = 160;

/// One row of the tracker's search results.
#[derive(Debug, Clone, PartialEq)]
pub struct TopicData {
    pub title: String,
    pub topic_id: TopicId,
    pub download_id: DownloadId,
    pub seeds_number: u64,
}

impl TopicData {
    /// A copy of the row.
    pub fn duplicate(&self) -> (r: TopicData)
        ensures
            r == *self,
    {
        TopicData {
            title: self.title.clone(),
            topic_id: self.topic_id,
            download_id: self.download_id,
            seeds_number: self.seeds_number,
        }
    }
}

/// A result row together with the category it is listed under.
#[derive(Debug, Clone, PartialEq)]
pub struct SearchRow {
    pub category: String,
    pub topic: TopicData,
}

/// Why a tracker page shows no logged-in session.
#[derive(Debug, Clone, Copy, PartialEq, Eq, Structural)]
pub enum AuthError {
    CaptchaVerificationIsRequired,
    IncorrectPasswordText,
    UnknownAuthError,
}

/// Rank of the first audio format named in a title, from the list FLAC, MP3, ALAC, AAC;
/// 10 when none is named.
pub open spec fn format_rank(title: Seq<char>) -> nat {
    if seq_contains(title, "FLAC"@) {
        0
    } else if seq_contains(title, "MP3"@) {
        1
    } else if seq_contains(title, "ALAC"@) {
        2
    } else if seq_contains(title, "AAC"@) {
        3
    } else {
        10
    }
}

/// Rank of the first bitrate named in a title, from the list lossless, 320 kbps,
/// 256 kbps; 10 when none is named.
pub open spec fn bitrate_rank(title: Seq<char>) -> nat {
    if seq_contains(title, "lossless"@) {
        0
    } else if seq_contains(title, "320 kbps"@) {
        1
    } else if seq_contains(title, "256 kbps"@) {
        2
    } else {
        10
    }
}

/// Rank of a seed count: more seeds rank better, no seed ranks worst.
pub open spec fn seed_rank(seeds: u64) -> nat {
    if seeds == 0 {
        10
    } else if seeds < 10 {
        3
    } else if seeds < 20 {
        2
    } else if seeds < 30 {
        1
    } else {
        0
    }
}

/// The priority of a candidate; lower is better.
pub open spec fn priority(title: Seq<char>, seeds: u64) -> nat {
    format_rank(title) * 5 + bitrate_rank(title) * 10 + seed_rank(seeds)
}

/// The priority of a search result row.
pub open spec fn priority_of(t: TopicData) -> nat {
    priority(t.title@, t.seeds_number)
}

/// Computes the priority of a search result; lower is better.
pub fn get_search_result_priority(result: &TopicData) -> (r: usize)
    ensures
        r == priority_of(*result),
        r <= MAX_PRIORITY,
{
    let title = result.title.as_str();
    let format_priority: usize = if str_contains(title, "FLAC") {
        0
    } else if str_contains(title, "MP3") {
        1
    } else if str_contains(title, "ALAC") {
        2
    } else if str_contains(title, "AAC") {
        3
    } else {
        10
    };
    let bitrate_priority: usize = if str_contains(title, "lossless") {
        0
    } else if str_contains(title, "320 kbps") {
        1
    } else if str_contains(title, "256 kbps") {
        2
    } else {
        10
    };
    let seeds = result.seeds_number;
    let seeds_priority: usize = if seeds == 0 {
        10
    } else if seeds < 10 {
        3
    } else if seeds < 20 {
        2
    } else if seeds < 30 {
        1
    } else {
        0
    };
    format_priority * 5 + bitrate_priority * 10 + seeds_priority
}

/// For one title, more seeds never make the priority worse.
pub proof fn lemma_more_seeds_rank_no_worse(title: Seq<char>, s1: u64, s2: u64)
    requires
        s1 > s2,
    ensures
        priority(title, s1) <= priority(title, s2),
{
}

/// Inserting `FLAC, lossless` anywhere into a title that does not already name both
/// FLAC and lossless strictly lowers its priority.
pub proof fn lemma_flac_lossless_improves(title: Seq<char>, at: int, seeds: u64)
    requires
        0 <= at <= title.len(),
        !(seq_contains(title, "FLAC"@) && seq_contains(title, "lossless"@)),
    ensures
        priority(title.subrange(0, at) + "FLAC, lossless"@ + title.subrange(at, title.len() as int), seeds)
            < priority(title, seeds),
{
    reveal_strlit("FLAC, lossless");
    reveal_strlit("FLAC");
    reveal_strlit("lossless");
    let marked = title.subrange(0, at) + "FLAC, lossless"@ + title.subrange(at, title.len() as int);
    assert(marked.subrange(at, at + 4) =~= "FLAC"@);
    assert(marked.subrange(at + 6, at + 14) =~= "lossless"@);
    lemma_contains_at(marked, "FLAC"@, at);
    lemma_contains_at(marked, "lossless"@, at + 6);
}

/// Reads the login state off a tracker page: a captcha request, then a refused
/// password, then the absence of the logout mark are errors, in that order.
pub fn parse_and_validate_auth_state(raw_html: &str) -> (r: Result<(), AuthError>)
    ensures
        seq_contains(raw_html@, CAPTCHA_IS_REQUIRED_TEXT@) ==> r == Err::<(), AuthError>(
            AuthError::CaptchaVerificationIsRequired,
        ),
        !seq_contains(raw_html@, CAPTCHA_IS_REQUIRED_TEXT@) && seq_contains(
            raw_html@,
            INCORRECT_PASSWORD_TEXT@,
        ) ==> r == Err::<(), AuthError>(AuthError::IncorrectPasswordText),
        !seq_contains(raw_html@, CAPTCHA_IS_REQUIRED_TEXT@) && !seq_contains(
            raw_html@,
            INCORRECT_PASSWORD_TEXT@,
        ) ==> (r is Ok <==> seq_contains(raw_html@, SUCCESSFUL_LOGIN_TEXT@)),
        r matches Err(e) ==> (e == AuthError::UnknownAuthError) || seq_contains(
            raw_html@,
            CAPTCHA_IS_REQUIRED_TEXT@,
        ) || seq_contains(raw_html@, INCORRECT_PASSWORD_TEXT@),
{
    if str_contains(raw_html, CAPTCHA_IS_REQUIRED_TEXT) {
        return Err(AuthError::CaptchaVerificationIsRequired);
    }
    if str_contains(raw_html, INCORRECT_PASSWORD_TEXT) {
        return Err(AuthError::IncorrectPasswordText);
    }
    if !str_contains(raw_html, SUCCESSFUL_LOGIN_TEXT) {
        return Err(AuthError::UnknownAuthError);
    }
    Ok(())
}


/// A row is kept when its category, lower-cased, mentions `loss` and its title does not
/// announce a disc image with a cue sheet.
pub open spec fn row_kept(row: SearchRow) -> bool {
    seq_contains(lower_of(row.category@), "loss"@) && !seq_contains(row.topic.title@, "image+.cue"@)
}

/// The topics of the kept rows, in order.
pub open spec fn kept_topics(rows: Seq<SearchRow>) -> Seq<TopicData>
    decreases rows.len(),
{
    if rows.len() == 0 {
        Seq::empty()
    } else {
        let r = kept_topics(rows.drop_last());
        if row_kept(rows.last()) {
            r.push(rows.last().topic)
        } else {
            r
        }
    }
}

/// The topics of `s` with priority `q`, in order.
pub open spec fn with_priority(s: Seq<TopicData>, q: nat) -> Seq<TopicData>
    decreases s.len(),
{
    if s.len() == 0 {
        Seq::empty()
    } else {
        let r = with_priority(s.drop_last(), q);
        if priority_of(s.last()) == q {
            r.push(s.last())
        } else {
            r
        }
    }
}

/// The topics of `s` with priority below `n`, by priority, keeping the order of `s`
/// among equal priorities.
pub open spec fn ranked_below(s: Seq<TopicData>, n: nat) -> Seq<TopicData>
    decreases n,
{
    if n == 0 {
        Seq::empty()
    } else {
        ranked_below(s, (n - 1) as nat) + with_priority(s, (n - 1) as nat)
    }
}

/// Every topic picked for priority `q` has priority `q`.
pub proof fn lemma_with_priority_exact(s: Seq<TopicData>, q: nat)
    ensures
        forall|i: int|
            0 <= i < with_priority(s, q).len() ==> priority_of(#[trigger] with_priority(s, q)[i])
                == q,
    decreases s.len(),
{
    if s.len() > 0 {
        lemma_with_priority_exact(s.drop_last(), q);
        let prev = with_priority(s.drop_last(), q);
        assert forall|i: int| 0 <= i < with_priority(s, q).len() implies priority_of(
            #[trigger] with_priority(s, q)[i],
        ) == q by {
            if i < prev.len() {
                assert(with_priority(s, q)[i] == prev[i]);
            }
        }
    }
}

/// Ranked topics come best first, each with a priority below the bound.
pub proof fn lemma_ranked_sorted(s: Seq<TopicData>, n: nat)
    ensures
        forall|i: int|
            0 <= i < ranked_below(s, n).len() ==> priority_of(#[trigger] ranked_below(s, n)[i])
                < n,
        forall|i: int, j: int|
            0 <= i < j < ranked_below(s, n).len() ==> priority_of(
                #[trigger] ranked_below(s, n)[i],
            ) <= priority_of(#[trigger] ranked_below(s, n)[j]),
    decreases n,
{
    if n > 0 {
        let m = (n - 1) as nat;
        lemma_ranked_sorted(s, m);
        lemma_with_priority_exact(s, m);
        let prev = ranked_below(s, m);
        let last = with_priority(s, m);
        let r = ranked_below(s, n);
        assert(r == prev + last);
        assert forall|i: int| 0 <= i < r.len() implies priority_of(#[trigger] r[i]) < n by {
            if i < prev.len() {
                assert(r[i] == prev[i]);
            } else {
                assert(r[i] == last[i - prev.len()]);
            }
        }
        assert forall|i: int, j: int| 0 <= i < j < r.len() implies priority_of(#[trigger] r[i])
            <= priority_of(#[trigger] r[j]) by {
            if j < prev.len() {
                assert(r[i] == prev[i]);
                assert(r[j] == prev[j]);
            } else if i < prev.len() {
                assert(r[i] == prev[i]);
                assert(r[j] == last[j - prev.len()]);
            } else {
                assert(r[i] == last[i - prev.len()]);
                assert(r[j] == last[j - prev.len()]);
            }
        }
    }
}

/// Keeps the rows whose category mentions lossless audio and that are no disc image,
/// then orders their topics by priority, best first, keeping the order of the rows
/// among equal priorities.
pub fn select_search_results(rows: Vec<SearchRow>) -> (r: Vec<TopicData>)
    ensures
        r@ == ranked_below(kept_topics(rows@), (MAX_PRIORITY + 1) as nat),
        forall|i: int, j: int|
            0 <= i < j < r@.len() ==> priority_of(#[trigger] r@[i]) <= priority_of(
                #[trigger] r@[j],
            ),
{
    let ghost orig = rows@;
    let mut rest = rows;
    let mut kept: Vec<TopicData> = Vec::new();
    while rest.len() > 0
        invariant
            rest@.len() <= orig.len(),
            rest@ == orig.subrange(orig.len() - rest@.len(), orig.len() as int),
            kept@ == kept_topics(orig.subrange(0, orig.len() - rest@.len())),
        decreases rest@.len(),
    {
        let ghost k = orig.len() - rest@.len();
        let row = rest.remove(0);
        assert(row == orig[k]);
        assert(orig.subrange(0, k + 1).drop_last() =~= orig.subrange(0, k));
        let category = to_lowercase(row.category.as_str());
        if str_contains(category.as_str(), "loss") && !str_contains(
            row.topic.title.as_str(),
            "image+.cue",
        ) {
            kept.push(row.topic);
        }
        assert(rest@ =~= orig.subrange(orig.len() - rest@.len(), orig.len() as int));
    }
    assert(orig.subrange(0, orig.len() as int) =~= orig);
    let mut out: Vec<TopicData> = Vec::new();
    let mut q: usize = 0;
    while q <= MAX_PRIORITY
        invariant
            q <= MAX_PRIORITY + 1,
            kept@ == kept_topics(orig),
            out@ == ranked_below(kept@, q as nat),
        decreases MAX_PRIORITY + 1 - q,
    {
        let mut i: usize = 0;
        while i < kept.len()
            invariant
                q <= MAX_PRIORITY,
                i <= kept@.len(),
                kept@ == kept_topics(orig),
                out@ == ranked_below(kept@, q as nat) + with_priority(
                    kept@.subrange(0, i as int),
                    q as nat,
                ),
            decreases kept@.len() - i,
        {
            assert(kept@.subrange(0, i + 1).drop_last() =~= kept@.subrange(0, i as int));
            if get_search_result_priority(&kept[i]) == q {
                out.push(kept[i].duplicate());
                assert(out@ =~= ranked_below(kept@, q as nat) + with_priority(
                    kept@.subrange(0, i + 1),
                    q as nat,
                ));
            }
            i = i + 1;
        }
        assert(kept@.subrange(0, kept@.len() as int) =~= kept@);
        q = q + 1;
    }
    proof {
        lemma_ranked_sorted(kept@, (MAX_PRIORITY + 1) as nat);
    }
    out
}

} // verus!
