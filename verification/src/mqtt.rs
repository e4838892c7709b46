//! The broker wire contract: state-topic construction, recognition of
//! echoes on the subscribed wildcard as publish confirmations, and the
//! checks performed on connection settings.
//!
//! The session itself (network I/O, reconnect loop, fire-and-forget
//! publishes) lives outside the library; everything it decides with is
//! stated and proved here.

use vstd::prelude::*;
use vstd::string::StringExecFns;

use crate::ruuvi::BDAddr;
use crate::ruuvi::is_hex_digit;
use crate::ruuvi::lemma_hex12_round_trip;
use crate::ruuvi::spec_hex12;
use crate::ruuvi::spec_parse_hex12;

verus! {

/// Keep-alive interval handed to the broker client, in seconds.
pub const KEEP_ALIVE_SECS: u64 = 15;

/// Fixed pause between poll retries after a network error, in seconds;
/// the session retries indefinitely.
pub const POLL_RETRY_BACKOFF_SECS: u64 = 10;

/// Capacity of the bounded event queue feeding the dispatch loop; full
/// slots block the producers, which is the only backpressure mechanism.
pub const EVENT_QUEUE_BOUND: usize = 32;

/// The state topic a device's readings are published on: the base topic,
/// a slash, and the identity as twelve lower-case hex digits.
pub open spec fn spec_state_topic(base: Seq<char>, bits: u64) -> Seq<char> {
    base + seq!['/'] + spec_hex12(bits)
}

/// Builds the state topic for one device.
pub fn state_topic(base_topic: &str, a: &BDAddr) -> (r: String)
    requires
        a.wf(),
    ensures
        r@ == spec_state_topic(base_topic@, a@),
{
    let id = a.to_string_no_delim();
    let r = base_topic.to_owned().concat("/").concat(id.as_str());
    proof {
        reveal_strlit("/");
        assert(r@ =~= spec_state_topic(base_topic@, a@));
    }
    r
}

/// Builds the wildcard the session subscribes to on every (re)connect:
/// everything under the base topic, which covers every state topic and
/// so every echo.
pub fn subscription_topic(base_topic: &str) -> (r: String)
    ensures
        r@ == base_topic@ + "/#"@,
{
    base_topic.to_owned().concat("/#")
}

/// The identity confirmed by a message on `topic`, if the topic has
/// exactly the shape of a state topic under `base`: the base, a slash,
/// and twelve hex digits. Any other topic confirms nothing.
pub open spec fn spec_confirmation(topic: Seq<char>, base: Seq<char>) -> Option<u64> {
    if topic.len() == base.len() + 13 && topic.subrange(0, base.len() as int) == base && topic[
        base.len() as int] == '/' && (forall|i: int|
        base.len() + 1 <= i < topic.len() ==> is_hex_digit(#[trigger] topic[i])) {
        Some(spec_parse_hex12(topic.subrange(base.len() + 1 as int, topic.len() as int)))
    } else {
        None
    }
}

/// Recognises a broker echo: a message arriving on a topic of exactly the
/// state-topic shape yields the identity it confirms; topics of any other
/// shape, and identities that fail to parse, are ignored.
pub fn confirmation_from_topic(topic: &str, base_topic: &str) -> (r: Option<BDAddr>)
    ensures
        match r {
            Some(a) => spec_confirmation(topic@, base_topic@) == Some(a@) && a.wf(),
            None => spec_confirmation(topic@, base_topic@) is None,
        },
{
    let tlen = topic.unicode_len();
    let blen = base_topic.unicode_len();
    if tlen < 13 || tlen - 13 != blen {
        return None;
    }
    let mut i: usize = 0;
    while i < blen
        invariant
            tlen == topic@.len(),
            blen == base_topic@.len(),
            tlen == blen + 13,
            i <= blen,
            forall|j: int| 0 <= j < i ==> topic@[j] == base_topic@[j],
        decreases blen - i,
    {
        if topic.get_char(i) != base_topic.get_char(i) {
            proof {
                assert(topic@.subrange(0, blen as int)[i as int] != base_topic@[i as int]);
            }
            return None;
        }
        i = i + 1;
    }
    if topic.get_char(blen) != '/' {
        return None;
    }
    let suffix = topic.substring_char(blen + 1, tlen);
    proof {
        assert(topic@.subrange(0, blen as int) =~= base_topic@);
    }
    match BDAddr::from_str_no_delim(suffix) {
        Some(a) => {
            proof {
                assert forall|j: int| blen + 1 <= j < tlen implies is_hex_digit(
                    #[trigger] topic@[j],
                ) by {
                    assert(suffix@[j - (blen + 1)] == topic@[j]);
                }
            }
            Some(a)
        },
        None => {
            proof {
                if spec_confirmation(topic@, base_topic@) is Some {
                    assert(forall|i: int|
                        0 <= i < 12 ==> is_hex_digit(#[trigger] suffix@[i]));
                }
            }
            None
        },
    }
}

/// Round trip through the broker: a state topic the gateway publishes
/// under `base` is always recognised back as a confirmation of the same
/// identity. This is the closed loop that arms the throttle window.
pub proof fn lemma_state_topic_round_trip(base: Seq<char>, a: BDAddr)
    requires
        a.wf(),
    ensures
        spec_confirmation(spec_state_topic(base, a@), base) == Some(a@),
{
    let topic = spec_state_topic(base, a@);
    lemma_hex12_round_trip(a@);
    assert(topic.subrange(0, base.len() as int) =~= base);
    assert(topic[base.len() as int] == '/');
    assert(topic.subrange(base.len() + 1 as int, topic.len() as int) =~= spec_hex12(a@));
}

/// The error of a configuration that names a user but no password.
#[derive(Debug, PartialEq, Eq, Structural)]
pub enum OptionsError {
    MissingPassword,
}

/// Checks the credential part of the broker settings: none when no user
/// is configured; the pair when both are; and a password is mandatory
/// whenever a user name is configured.
pub fn credentials(config: &crate::config::Mqtt) -> (r: Result<
    Option<(String, String)>,
    OptionsError,
>)
    ensures
        config.user is None ==> r == Result::<Option<(String, String)>, OptionsError>::Ok(
            Option::<(String, String)>::None,
        ),
        config.user is Some && config.password is None ==> r == Result::<
            Option<(String, String)>,
            OptionsError,
        >::Err(OptionsError::MissingPassword),
        config.user is Some && config.password is Some ==> (r matches Ok(Some((u, p)))
            && u@ == config.user->0@ && p@ == config.password->0@),
{
    match &config.user {
        None => Ok(None),
        Some(user) => match &config.password {
            None => Err(OptionsError::MissingPassword),
            Some(password) => Ok(Some((user.clone(), password.clone()))),
        },
    }
}

} // verus!
