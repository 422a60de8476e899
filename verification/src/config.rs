//! Configuration of the synchronizer, and its validation.
use vstd::prelude::*;
use vstd::string::*;

verus! {

/// Opaque session material: the cookie values handed to the remote service.
#[derive(Debug)]
pub struct Credential {
    pub sessdata: String,
    pub bili_jct: String,
    pub buvid3: String,
    pub dedeuserid: String,
    pub ac_time_value: String,
}

/// Transport settings for the alert channel. A missing, empty or literal
/// `"null"` password leaves the channel unconfigured.
#[derive(Debug)]
pub struct SmtpSettings {
    pub url: String,
    pub sender_email: String,
    pub sender_password: Option<String>,
    pub recipient_email: String,
}

/// One remote collection bound to its local target directory.
#[derive(Debug)]
pub struct CollectionTarget {
    pub id: i64,
    pub directory: String,
}

/// Configuration as read from the configuration file, before validation:
/// collection identifiers are still the raw key strings.
#[derive(Debug)]
pub struct RawConfig {
    pub interval_seconds: u64,
    pub credential: Credential,
    pub smtp: SmtpSettings,
    pub favorite_list: Vec<(String, String)>,
}

/// Validated configuration: the interval is positive and every collection key
/// has been parsed into a signed 64-bit identifier. Built once before the
/// scheduler starts and read-only thereafter.
#[derive(Debug)]
pub struct SyncConfiguration {
    pub interval_seconds: u64,
    pub credential: Credential,
    pub smtp: SmtpSettings,
    pub collections: Vec<CollectionTarget>,
}

impl SyncConfiguration {
    pub open spec fn wf(self) -> bool {
        self.interval_seconds > 0
    }
}

/// A fatal configuration fault, detected before the scheduler starts. No
/// notification channel is available that early, so it is never notified.
#[derive(Debug)]
pub enum ConfigError {
    /// The sleep interval must be a positive number of seconds.
    NonPositiveInterval,
    /// A collection key is not a valid signed 64-bit integer.
    InvalidCollectionId { key: String },
}

pub open spec fn is_ascii_digit(c: char) -> bool {
    48 <= c as u32 <= 57
}

pub open spec fn digit_value(c: char) -> int {
    c as u32 - 48
}

/// The numeric value of a digit string, most significant digit first.
pub open spec fn digits_value(s: Seq<char>) -> int
    decreases s.len(),
{
    if s.len() == 0 {
        0
    } else {
        digits_value(s.drop_last()) * 10 + digit_value(s.last())
    }
}

pub open spec fn all_digits(s: Seq<char>) -> bool {
    forall|i: int| 0 <= i < s.len() ==> is_ascii_digit(s[i])
}

/// What it means to parse a signed 64-bit integer from a string: an optional
/// single sign, then one or more decimal digits, and the value must fit.
pub open spec fn parse_i64_spec(s: Seq<char>) -> Option<i64> {
    let negative = s.len() > 0 && s[0] == '-';
    let signed = s.len() > 0 && (s[0] == '-' || s[0] == '+');
    let digits = if signed {
        s.drop_first()
    } else {
        s
    };
    if digits.len() == 0 || !all_digits(digits) {
        None
    } else {
        let value = if negative {
            -digits_value(digits)
        } else {
            digits_value(digits)
        };
        if i64::MIN <= value <= i64::MAX {
            Some(value as i64)
        } else {
            None
        }
    }
}

proof fn lemma_digits_value_nonneg(s: Seq<char>)
    requires
        all_digits(s),
    ensures
        digits_value(s) >= 0,
    decreases s.len(),
{
    if s.len() > 0 {
        assert(all_digits(s.drop_last()));
        lemma_digits_value_nonneg(s.drop_last());
    }
}

/// Appending further digits never shrinks the value: the value of a prefix is
/// a lower bound for the value of the whole digit string.
proof fn lemma_digits_value_prefix_le(s: Seq<char>, k: int)
    requires
        all_digits(s),
        0 <= k <= s.len(),
    ensures
        digits_value(s.take(k)) <= digits_value(s),
    decreases s.len() - k,
{
    if k < s.len() {
        assert(all_digits(s.take(k)));
        lemma_digits_value_nonneg(s.take(k));
        assert(s.take(k + 1).drop_last() =~= s.take(k));
        assert(digits_value(s.take(k + 1)) == digits_value(s.take(k)) * 10 + digit_value(
            s.take(k + 1).last(),
        ));
        lemma_digits_value_prefix_le(s, k + 1);
    } else {
        assert(s.take(k) =~= s);
    }
}

/// Parses a signed 64-bit collection identifier, exactly as `parse_i64_spec`
/// describes: `None` on an empty string, a stray character, or overflow.
pub fn parse_collection_id(s: &str) -> (r: Option<i64>)
    ensures
        r == parse_i64_spec(s@),
{
    let n = s.unicode_len();
    if n == 0 {
        return None;
    }
    let first = s.get_char(0);
    let negative = first == '-';
    let signed = negative || first == '+';
    let start: usize = if signed {
        1
    } else {
        0
    };
    if start == n {
        // a bare sign has no digits
        return None;
    }
    let ghost digits: Seq<char> = if signed {
        s@.drop_first()
    } else {
        s@
    };
    proof {
        assert(digits =~= s@.subrange(start as int, n as int));
    }
    // the magnitude may reach 2^63 for a negative number, one less otherwise
    let last_digit_max: u64 = if negative {
        8
    } else {
        7
    };
    let mut acc: u64 = 0;
    let mut i: usize = start;
    while i < n
        invariant
            start <= i <= n,
            0 < n == s@.len(),
            negative == (s@.len() > 0 && s@[0] == '-'),
            signed == (s@.len() > 0 && (s@[0] == '-' || s@[0] == '+')),
            start == if signed { 1int } else { 0int },
            digits == (if signed { s@.drop_first() } else { s@ }),
            digits =~= s@.subrange(start as int, n as int),
            all_digits(s@.subrange(start as int, i as int)),
            acc == digits_value(s@.subrange(start as int, i as int)),
            acc <= 9223372036854775807 + if negative { 1int } else { 0int },
            last_digit_max == if negative { 8u64 } else { 7u64 },
        decreases n - i,
    {
        let c = s.get_char(i);
        let code = c as u32;
        if code < 48 || code > 57 {
            proof {
                assert(!is_ascii_digit(digits[i - start]));
                assert(!all_digits(digits));
            }
            return None;
        }
        let d: u64 = (code - 48) as u64;
        if acc > 922337203685477580 || (acc == 922337203685477580 && d > last_digit_max) {
            // the digits read so far already exceed the magnitude bound
            proof {
                let prefix = s@.subrange(start as int, (i + 1) as int);
                assert(prefix.drop_last() =~= s@.subrange(start as int, i as int));
                assert(all_digits(prefix));
                assert(digits_value(prefix) == acc * 10 + d);
                if all_digits(digits) {
                    assert(prefix =~= digits.take(i + 1 - start));
                    lemma_digits_value_prefix_le(digits, i + 1 - start);
                    assert(digits_value(digits) > 9223372036854775807 + if negative {
                        1int
                    } else {
                        0int
                    });
                }
            }
            return None;
        }
        acc = acc * 10 + d;
        proof {
            let prefix = s@.subrange(start as int, (i + 1) as int);
            assert(prefix.drop_last() =~= s@.subrange(start as int, i as int));
            assert(prefix.last() == c);
            assert(digit_value(c) == d);
            assert forall|k: int| 0 <= k < prefix.len() implies is_ascii_digit(prefix[k]) by {
                if k < prefix.len() - 1 {
                    assert(prefix[k] == s@.subrange(start as int, i as int)[k]);
                }
            }
        }
        i = i + 1;
    }
    proof {
        assert(s@.subrange(start as int, n as int) =~= digits);
    }
    if negative {
        if acc == 9223372036854775808 {
            Some(i64::MIN)
        } else {
            Some(-(acc as i64))
        }
    } else {
        Some(acc as i64)
    }
}

pub open spec fn all_keys_valid(list: Seq<(String, String)>) -> bool {
    forall|i: int| 0 <= i < list.len() ==> parse_i64_spec(list[i].0@) is Some
}

/// Validates a freshly loaded configuration: the interval must be positive and
/// every collection key must parse as a signed 64-bit identifier. The reported
/// invalid key, if any, is the first offending one.
pub fn validate(raw: RawConfig) -> (r: Result<SyncConfiguration, ConfigError>)
    ensures
        r is Ok <==> (raw.interval_seconds > 0 && all_keys_valid(raw.favorite_list@)),
        r matches Ok(c) ==> {
            &&& c.wf()
            &&& c.interval_seconds == raw.interval_seconds
            &&& c.credential == raw.credential
            &&& c.smtp == raw.smtp
            &&& c.collections@.len() == raw.favorite_list@.len()
            &&& forall|i: int|
                0 <= i < c.collections@.len() ==> parse_i64_spec(raw.favorite_list@[i].0@)
                    == Some(c.collections@[i].id) && c.collections@[i].directory@
                    == raw.favorite_list@[i].1@
        },
        r matches Err(e) ==> (match e {
            ConfigError::NonPositiveInterval => raw.interval_seconds == 0,
            ConfigError::InvalidCollectionId { key } => {
                &&& raw.interval_seconds > 0
                &&& exists|j: int|
                    0 <= j < raw.favorite_list@.len() && key@ == raw.favorite_list@[j].0@
                        && parse_i64_spec(raw.favorite_list@[j].0@) is None && (forall|i: int|
                        0 <= i < j ==> parse_i64_spec(raw.favorite_list@[i].0@) is Some)
            },
        }),
{
    if raw.interval_seconds == 0 {
        return Err(ConfigError::NonPositiveInterval);
    }
    let mut collections: Vec<CollectionTarget> = Vec::new();
    let mut i: usize = 0;
    while i < raw.favorite_list.len()
        invariant
            raw.interval_seconds > 0,
            0 <= i <= raw.favorite_list@.len(),
            collections@.len() == i,
            forall|k: int|
                0 <= k < i ==> parse_i64_spec(raw.favorite_list@[k].0@) == Some(
                    collections@[k].id,
                ) && collections@[k].directory@ == raw.favorite_list@[k].1@,
        decreases raw.favorite_list@.len() - i,
    {
        let entry = &raw.favorite_list[i];
        match parse_collection_id(entry.0.as_str()) {
            None => {
                let key = entry.0.clone();
                proof {
                    let jw = i as int;
                    assert forall|k: int| 0 <= k < jw implies parse_i64_spec(
                        raw.favorite_list@[k].0@,
                    ) is Some by {
                        assert(parse_i64_spec(raw.favorite_list@[k].0@) == Some(
                            collections@[k].id,
                        ));
                    }
                    assert(0 <= jw < raw.favorite_list@.len() && key@
                        == raw.favorite_list@[jw].0@ && parse_i64_spec(
                        raw.favorite_list@[jw].0@,
                    ) is None && (forall|k: int|
                        0 <= k < jw ==> parse_i64_spec(raw.favorite_list@[k].0@) is Some));
                    assert(!all_keys_valid(raw.favorite_list@));
                }
                return Err(ConfigError::InvalidCollectionId { key });
            },
            Some(id) => {
                collections.push(CollectionTarget { id, directory: entry.1.clone() });
            },
        }
        i = i + 1;
    }
    proof {
        assert forall|k: int| 0 <= k < raw.favorite_list@.len() implies parse_i64_spec(
            raw.favorite_list@[k].0@,
        ) is Some by {
            assert(parse_i64_spec(raw.favorite_list@[k].0@) == Some(collections@[k].id));
        }
    }
    Ok(
        SyncConfiguration {
            interval_seconds: raw.interval_seconds,
            credential: raw.credential,
            smtp: raw.smtp,
            collections,
        },
    )
}

/// The cookie line handed to the remote service for session establishment.
pub open spec fn cookie_string_spec(c: Credential) -> Seq<char> {
    "SESSDATA="@ + c.sessdata@ + ";bili_jct="@ + c.bili_jct@ + ";buvid3="@ + c.buvid3@
        + ";DedeUserID="@ + c.dedeuserid@ + ";ac_time_value="@ + c.ac_time_value@
}

impl Credential {
    /// Concatenates the stored cookie values into the remote service's
    /// expected credential format.
    pub fn cookie_string(&self) -> (r: String)
        ensures
            r@ == cookie_string_spec(*self),
    {
        let mut r = String::from_str("SESSDATA=");
        r.append(self.sessdata.as_str());
        r.append(";bili_jct=");
        r.append(self.bili_jct.as_str());
        r.append(";buvid3=");
        r.append(self.buvid3.as_str());
        r.append(";DedeUserID=");
        r.append(self.dedeuserid.as_str());
        r.append(";ac_time_value=");
        r.append(self.ac_time_value.as_str());
        r
    }
}

/// The list of target directories that must exist before the first round.
pub fn target_directories(config: &SyncConfiguration) -> (r: Vec<String>)
    ensures
        r@.len() == config.collections@.len(),
        forall|i: int|
            0 <= i < r@.len() ==> r@[i]@ == config.collections@[i].directory@,
{
    let mut r: Vec<String> = Vec::new();
    let mut i: usize = 0;
    while i < config.collections.len()
        invariant
            0 <= i <= config.collections@.len(),
            r@.len() == i,
            forall|k: int| 0 <= k < i ==> r@[k]@ == config.collections@[k].directory@,
        decreases config.collections@.len() - i,
    {
        r.push(config.collections[i].directory.clone());
        i = i + 1;
    }
    r
}

} // verus!
