use vstd::prelude::*;
use vstd::string::StrSliceExecFns;
use crate::error::WatchdogError;

verus! {

/// A comma-separated value split at every comma, in order, as the
/// standard split does: every comma ends a segment, and the empty
/// sequence yields one empty segment.
pub open spec fn split_commas(s: Seq<char>) -> Seq<Seq<char>>
    decreases s.len(),
{
    if s.len() == 0 {
        seq![Seq::<char>::empty()]
    } else if s[0] == ',' {
        seq![Seq::<char>::empty()] + split_commas(s.drop_first())
    } else {
        let rest = split_commas(s.drop_first());
        seq![seq![s[0]] + rest[0]] + rest.drop_first()
    }
}

/// Splitting always yields at least one segment.
pub proof fn lemma_split_len(s: Seq<char>)
    ensures
        split_commas(s).len() >= 1,
    decreases s.len(),
{
    if s.len() > 0 {
        lemma_split_len(s.drop_first());
    }
}

/// A sequence without commas is a single segment.
pub proof fn lemma_split_no_comma(s: Seq<char>)
    requires
        forall|j: int| 0 <= j < s.len() ==> s[j] != ',',
    ensures
        split_commas(s) == seq![s],
    decreases s.len(),
{
    if s.len() == 0 {
        assert(s =~= Seq::<char>::empty());
        assert(split_commas(s) =~~= seq![s]);
    } else {
        let d = s.drop_first();
        assert forall|j: int| 0 <= j < d.len() implies d[j] != ',' by {
            assert(d[j] == s[j + 1]);
        }
        lemma_split_no_comma(d);
        assert(seq![s[0]] + d =~= s);
        assert(seq![d].drop_first() =~= Seq::<Seq<char>>::empty());
        assert(split_commas(s) =~~= seq![s]);
    }
}

/// Splitting at the first comma: the segment before it, then the split
/// of what follows it.
pub proof fn lemma_split_at_first_comma(s: Seq<char>, k: int)
    requires
        0 <= k < s.len(),
        s[k] == ',',
        forall|j: int| 0 <= j < k ==> s[j] != ',',
    ensures
        split_commas(s) == seq![s.take(k)] + split_commas(s.skip(k + 1)),
    decreases k,
{
    if k == 0 {
        assert(s.take(0) =~= Seq::<char>::empty());
        assert(s.skip(1) =~= s.drop_first());
        assert(split_commas(s) =~~= seq![s.take(0)] + split_commas(s.skip(1)));
    } else {
        let d = s.drop_first();
        assert forall|j: int| 0 <= j < k - 1 implies d[j] != ',' by {
            assert(d[j] == s[j + 1]);
        }
        assert(d[k - 1] == s[k]);
        lemma_split_at_first_comma(d, k - 1);
        lemma_split_len(d.skip(k));
        let rest = split_commas(d);
        assert(rest[0] == d.take(k - 1));
        assert(rest.drop_first() =~= split_commas(d.skip(k)));
        assert(seq![s[0]] + d.take(k - 1) =~= s.take(k));
        assert(d.skip(k) =~= s.skip(k + 1));
        assert(split_commas(s) =~~= seq![s.take(k)] + split_commas(s.skip(k + 1)));
    }
}

/// The views of a list of owned strings.
pub open spec fn views_of(parts: Seq<String>) -> Seq<Seq<char>> {
    parts.map_values(|t: String| t@)
}

proof fn lemma_views_push(parts: Seq<String>, t: String)
    ensures
        views_of(parts.push(t)) == views_of(parts).push(t@),
{
    assert(views_of(parts.push(t)) =~~= views_of(parts).push(t@));
}

/// Split a comma-separated value into its items, as the standard
/// split at `','` does.
#[verifier::loop_isolation(false)]
pub fn split_commas_exec(s: &str) -> (r: Vec<String>)
    ensures
        views_of(r@) == split_commas(s@),
{
    let n: usize = s.unicode_len();
    let mut parts: Vec<String> = Vec::new();
    let mut start: usize = 0;
    let mut i: usize = 0;
    proof {
        assert(s@.subrange(0, n as int) =~= s@);
        assert(views_of(parts@) =~= Seq::<Seq<char>>::empty());
    }
    while i < n
        invariant
            start <= i <= n,
            n == s@.len(),
            forall|j: int| start <= j < i ==> s@[j] != ',',
            split_commas(s@) == views_of(parts@) + split_commas(
                s@.subrange(start as int, n as int),
            ),
        decreases n - i,
    {
        let c = s.get_char(i);
        if c == ',' {
            let seg = s.substring_char(start, i).to_owned();
            proof {
                let tail = s@.subrange(start as int, n as int);
                let d = i - start;
                assert(tail[d] == s@[i as int]);
                assert forall|j: int| 0 <= j < d implies tail[j] != ',' by {
                    assert(tail[j] == s@[start + j]);
                }
                lemma_split_at_first_comma(tail, d);
                assert(tail.take(d) =~= s@.subrange(start as int, i as int));
                assert(tail.skip(d + 1) =~= s@.subrange(i as int + 1, n as int));
                lemma_views_push(parts@, seg);
                assert(views_of(parts@.push(seg)) + split_commas(
                    s@.subrange(i as int + 1, n as int),
                ) =~~= split_commas(s@));
            }
            parts.push(seg);
            start = i + 1;
        }
        i += 1;
    }
    let seg = s.substring_char(start, n).to_owned();
    proof {
        let tail = s@.subrange(start as int, n as int);
        assert forall|j: int| 0 <= j < tail.len() implies tail[j] != ',' by {
            assert(tail[j] == s@[start + j]);
        }
        lemma_split_no_comma(tail);
        lemma_views_push(parts@, seg);
        assert(views_of(parts@.push(seg)) =~~= split_commas(s@));
    }
    parts.push(seg);
    parts
}

/// The startup configuration, resolved once: each value either supplied
/// or its documented default.
#[derive(Debug, PartialEq, Eq)]
pub struct Config {
    /// Bearer credential for the moderation API (required).
    pub token: String,
    /// Notification webhook endpoint (required).
    pub webhook_url: String,
    /// Name of the service to stop on shutdown.
    pub service: String,
    /// Accounts to force-follow each cycle.
    pub users_to_follow: Vec<String>,
}

/// The default name of the service to stop on shutdown.
pub open spec fn default_service() -> Seq<char> {
    "mastodon"@
}

/// Resolve the startup configuration from the raw optional values. The
/// credential and the webhook endpoint are required: missing either is
/// a fatal configuration error. The service name has a default, and the
/// follow list is the comma-split of its value, empty when absent.
pub fn resolve_config(
    token: Option<String>,
    webhook_url: Option<String>,
    service: Option<String>,
    users_to_follow: Option<String>,
) -> (r: Result<Config, WatchdogError>)
    ensures
        (token is Some && webhook_url is Some) <==> r is Ok,
        r is Err ==> r == Err::<Config, WatchdogError>(WatchdogError::Configuration),
        r matches Ok(c) ==> {
            &&& token matches Some(t) && c.token == t
            &&& webhook_url matches Some(w) && c.webhook_url == w
            &&& match service {
                Some(sv) => c.service == sv,
                None => c.service@ == default_service(),
            }
            &&& match users_to_follow {
                Some(u) => views_of(c.users_to_follow@) == split_commas(u@),
                None => c.users_to_follow@ == Seq::<String>::empty(),
            }
        },
{
    let token = match token {
        Some(t) => t,
        None => {
            return Err(WatchdogError::Configuration);
        },
    };
    let webhook_url = match webhook_url {
        Some(w) => w,
        None => {
            return Err(WatchdogError::Configuration);
        },
    };
    let service = match service {
        Some(sv) => sv,
        None => "mastodon".to_owned(),
    };
    let users = match users_to_follow {
        Some(u) => split_commas_exec(u.as_str()),
        None => Vec::new(),
    };
    Ok(Config { token, webhook_url, service, users_to_follow: users })
}

} // verus!
