//! Best-effort alert dispatch: gating, host extraction and message addressing.
//!
//! The decision of whether and where to send is verified here; the transport
//! itself is performed by the outer driver. A dispatch failure is logged and
//! swallowed: it never masks the failure it was reporting.
use vstd::prelude::*;
use vstd::string::*;
use crate::config::SmtpSettings;

verus! {

/// The literal word `null` in any ASCII case, used as an explicit
/// "unconfigured" marker for the sender password.
pub open spec fn is_null_word(s: Seq<char>) -> bool {
    s.len() == 4 && (s[0] == 'n' || s[0] == 'N') && (s[1] == 'u' || s[1] == 'U') && (s[2] == 'l'
        || s[2] == 'L') && (s[3] == 'l' || s[3] == 'L')
}

pub open spec fn opt_string_view(p: Option<String>) -> Option<Seq<char>> {
    match p {
        Some(s) => Some(s@),
        None => None,
    }
}

/// Dispatch happens only for a configured, non-empty sender password that is
/// not the literal word `null` in any ASCII case.
pub open spec fn password_enables_dispatch(p: Option<Seq<char>>) -> bool {
    match p {
        None => false,
        Some(s) => s.len() > 0 && !is_null_word(s),
    }
}

/// Decides whether the configured sender password enables dispatch at all.
pub fn should_dispatch(password: &Option<String>) -> (r: bool)
    ensures
        r == password_enables_dispatch(opt_string_view(*password)),
{
    match password {
        None => false,
        Some(s) => {
            let st: &str = s.as_str();
            let n = st.unicode_len();
            if n == 0 {
                false
            } else if n == 4 {
                let c0 = st.get_char(0);
                let c1 = st.get_char(1);
                let c2 = st.get_char(2);
                let c3 = st.get_char(3);
                !((c0 == 'n' || c0 == 'N') && (c1 == 'u' || c1 == 'U') && (c2 == 'l' || c2 == 'L')
                    && (c3 == 'l' || c3 == 'L'))
            } else {
                true
            }
        },
    }
}

/// The transport URL with its scheme prefix removed: `smtps://` is tried
/// first, then `smtp://`; a URL with neither prefix yields nothing.
pub open spec fn strip_scheme(url: Seq<char>) -> Option<Seq<char>> {
    if url.len() >= 8 && url.take(8) == "smtps://"@ {
        Some(url.skip(8))
    } else if url.len() >= 7 && url.take(7) == "smtp://"@ {
        Some(url.skip(7))
    } else {
        None
    }
}

/// The index of the first colon in `s`, or `s.len()` when there is none.
pub open spec fn first_colon(s: Seq<char>) -> int
    decreases s.len(),
{
    if s.len() == 0 {
        0
    } else if s[0] == ':' {
        0
    } else {
        1 + first_colon(s.drop_first())
    }
}

/// The host part of the transport URL: what stands between the scheme prefix
/// and the first colon; nothing when the prefix is missing or the host empty.
pub open spec fn smtp_host_spec(url: Seq<char>) -> Option<Seq<char>> {
    match strip_scheme(url) {
        None => None,
        Some(rest) => if first_colon(rest) == 0 {
            None
        } else {
            Some(rest.take(first_colon(rest)))
        },
    }
}

/// `first_colon` is pinned down by what a scan observes: no colon before
/// position `k`, and a colon at `k` unless `k` is the end.
proof fn lemma_first_colon_is(s: Seq<char>, k: int)
    requires
        0 <= k <= s.len(),
        forall|i: int| 0 <= i < k ==> s[i] != ':',
        k < s.len() ==> s[k] == ':',
    ensures
        first_colon(s) == k,
    decreases k,
{
    if s.len() == 0 {
    } else if k == 0 {
    } else {
        assert(s[0] != ':');
        let t = s.drop_first();
        assert forall|i: int| 0 <= i < k - 1 implies t[i] != ':' by {
            assert(t[i] == s[i + 1]);
        }
        if k - 1 < t.len() {
            assert(t[k - 1] == s[k]);
        }
        lemma_first_colon_is(t, k - 1);
    }
}

/// Whether `s` begins with `prefix`, compared character by character.
fn str_has_prefix(s: &str, prefix: &str) -> (r: bool)
    ensures
        r == (s@.len() >= prefix@.len() && s@.take(prefix@.len() as int) == prefix@),
{
    let pn = prefix.unicode_len();
    let n = s.unicode_len();
    if n < pn {
        return false;
    }
    let mut i: usize = 0;
    while i < pn
        invariant
            0 <= i <= pn,
            pn <= n,
            pn == prefix@.len(),
            n == s@.len(),
            forall|k: int| 0 <= k < i ==> s@[k] == prefix@[k],
        decreases pn - i,
    {
        if s.get_char(i) != prefix.get_char(i) {
            proof {
                assert(s@.take(pn as int)[i as int] == s@[i as int]);
            }
            return false;
        }
        i = i + 1;
    }
    proof {
        assert(s@.take(pn as int) =~= prefix@);
    }
    true
}

/// Extracts the mail host from the transport URL: strips a `smtps://` or
/// `smtp://` prefix and takes the non-empty part before the first colon.
pub fn smtp_host(url: &str) -> (r: Option<String>)
    ensures
        (match r {
            Some(h) => smtp_host_spec(url@) == Some(h@),
            None => smtp_host_spec(url@) is None,
        }),
{
    let n = url.unicode_len();
    let start: usize;
    if str_has_prefix(url, "smtps://") {
        proof {
            reveal_strlit("smtps://");
        }
        start = 8;
    } else if str_has_prefix(url, "smtp://") {
        proof {
            reveal_strlit("smtps://");
            reveal_strlit("smtp://");
        }
        start = 7;
    } else {
        proof {
            reveal_strlit("smtps://");
            reveal_strlit("smtp://");
        }
        return None;
    }
    let ghost rest: Seq<char> = url@.skip(start as int);
    let mut i: usize = start;
    while i < n && url.get_char(i) != ':'
        invariant
            start <= i <= n,
            n == url@.len(),
            start <= n,
            rest =~= url@.skip(start as int),
            forall|k: int| start <= k < i ==> url@[k] != ':',
        decreases n - i,
    {
        i = i + 1;
    }
    proof {
        assert forall|k: int| 0 <= k < i - start implies rest[k] != ':' by {
            assert(rest[k] == url@[start + k]);
        }
        if i < n {
            assert(rest[i - start] == url@[i as int]);
        }
        lemma_first_colon_is(rest, i - start);
    }
    if i == start {
        return None;
    }
    let host = url.substring_char(start, i);
    proof {
        assert(host@ =~= rest.take(i - start));
    }
    Some(String::from_str(host))
}

/// What the driver should do with a failure: nothing, report a bad URL, or
/// hand a fully addressed message to the transport.
#[derive(Debug)]
pub enum NotificationPlan {
    /// The channel is unconfigured: succeed immediately, send nothing.
    Skip,
    /// The configured URL yields no host: dispatch fails without sending.
    InvalidUrl,
    /// Hand this message to the mail transport.
    Send { host: String, from_mailbox: String, subject: String, body: String },
}

/// The display form of the sending mailbox.
pub open spec fn from_mailbox_spec(sender_email: Seq<char>) -> Seq<char> {
    "bili-sync-fav <"@ + sender_email + ">"@
}

/// Decides whether and where an alert is sent. Dispatch is skipped - not an
/// error - whenever the sender password is absent, empty or the literal
/// `"null"`; otherwise the message is addressed to the configured recipient
/// via the host extracted from the transport URL.
pub fn notification_plan(smtp: &SmtpSettings, subject: &str, body: &str) -> (r: NotificationPlan)
    ensures
        (r is Skip <==> !password_enables_dispatch(opt_string_view(smtp.sender_password))),
        (r is InvalidUrl <==> password_enables_dispatch(opt_string_view(smtp.sender_password))
            && smtp_host_spec(smtp.url@) is None),
        (r matches NotificationPlan::Send { host, from_mailbox, subject: s2, body: b2 } ==> {
            &&& smtp_host_spec(smtp.url@) == Some(host@)
            &&& from_mailbox@ == from_mailbox_spec(smtp.sender_email@)
            &&& s2@ == subject@
            &&& b2@ == body@
        }),
{
    if !should_dispatch(&smtp.sender_password) {
        return NotificationPlan::Skip;
    }
    match smtp_host(smtp.url.as_str()) {
        None => NotificationPlan::InvalidUrl,
        Some(host) => {
            let mut from_mailbox = String::from_str("bili-sync-fav <");
            from_mailbox.append(smtp.sender_email.as_str());
            from_mailbox.append(">");
            NotificationPlan::Send {
                host,
                from_mailbox,
                subject: String::from_str(subject),
                body: String::from_str(body),
            }
        },
    }
}

} // verus!
