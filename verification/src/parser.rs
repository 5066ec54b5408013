use vstd::prelude::*;
use vstd::string::*;
use crate::bus::{extract_frame, extract_frame_spec};
use crate::text::{concat2, concat3, concat5, lemma_split_len, split_char, split_spec, str_eq,
    trim_spec, trim_str};

verus! {

/// What kind of message a bus topic carries, read off its last segment.
#[derive(Debug)]
pub enum MessageType {
    Status,
    Command,
    Unknown(String),
}

/// The message type that belongs to a topic's last `/`-separated segment.
pub open spec fn message_type_is(t: MessageType, last: Seq<char>) -> bool {
    if last == "status"@ {
        t is Status
    } else if last == "command"@ {
        t is Command
    } else {
        t matches MessageType::Unknown(s) && s@ == last
    }
}

/// The service-name segment of a topic: the second-to-last `/`-separated
/// part, or `unknown` where the topic has fewer than two parts.
pub open spec fn topic_service_spec(topic: Seq<char>) -> Seq<char> {
    let parts = split_spec(topic, '/');
    if parts.len() >= 2 {
        parts[parts.len() - 2]
    } else {
        "unknown"@
    }
}

/// Reads the service name and the message type out of a bus topic.
pub fn parse_topic(topic: &str) -> (r: (String, MessageType))
    ensures
        r.0@ == topic_service_spec(topic@),
        message_type_is(r.1, split_spec(topic@, '/').last()),
{
    let parts = split_char(topic, '/');
    proof {
        lemma_split_len(topic@, '/');
        assert(parts.deep_view().len() == parts@.len());
    }
    let n = parts.len();
    let name = if n >= 2 {
        proof {
            assert(parts.deep_view()[n - 2] == parts@[n - 2]@);
        }
        parts[n - 2].clone()
    } else {
        String::from_str("unknown")
    };
    proof {
        assert(parts.deep_view()[n - 1] == parts@[n - 1]@);
        assert(split_spec(topic@, '/').last() == parts@[n - 1]@);
    }
    let last = &parts[n - 1];
    let mtype = if str_eq(last.as_str(), "status") {
        MessageType::Status
    } else if str_eq(last.as_str(), "command") {
        MessageType::Command
    } else {
        MessageType::Unknown(last.clone())
    };
    (name, mtype)
}

// ---------------------------------------------------------------------------
// The "status" field of a JSON payload
// ---------------------------------------------------------------------------

/// What the JSON payload `content` holds under its "status" key: nothing at
/// all where `content` is not JSON, and otherwise the string under that key
/// where there is one.
pub uninterp spec fn json_status_of(content: Seq<char>) -> Option<Option<Seq<char>>>;

pub open spec fn opt_opt_view(r: Option<Option<String>>) -> Option<Option<Seq<char>>> {
    match r {
        None => None,
        Some(None) => Some(None),
        Some(Some(s)) => Some(Some(s@)),
    }
}

/// Relies on serde_json::from_str::<serde_json::Value> and
/// serde_json::Value::as_str, with serde_json's index operator fetching the
/// "status" key (which yields JSON null where absent): the outer option is
/// whether `content` parses as JSON at all, the inner one the string under
/// its "status" key. A fixed function of `content` alone, named
/// `json_status_of` here.
#[verifier::external_body]
fn json_status_field(content: &str) -> (r: Option<Option<String>>)
    ensures
        opt_opt_view(r) == json_status_of(content@),
{
    match serde_json::from_str::<serde_json::Value>(content) {
        Ok(doc) => Some(doc["status"].as_str().map(|s| s.to_string())),
        Err(_) => None,
    }
}

// ---------------------------------------------------------------------------
// The console line for a relayed frame
// ---------------------------------------------------------------------------

/// How the console renders one relayed message: a frame is broken into
/// topic and payload; a status message shows the JSON "status" field (or
/// `unknown`), a command message is acknowledged as such, any other kind
/// shows its segment name and trimmed payload; and text that is no frame at
/// all, or a status payload that is not JSON, is shown as it came.
pub open spec fn format_message_spec(m: Seq<char>) -> Seq<char> {
    match extract_frame_spec(m) {
        None => m,
        Some(tc) => {
            let topic = tc.0;
            let content = tc.1;
            let name = topic_service_spec(topic);
            let last = split_spec(topic, '/').last();
            if last == "status"@ {
                match json_status_of(content) {
                    None => m,
                    Some(None) => name + " | Status: "@ + "unknown"@,
                    Some(Some(f)) => name + " | Status: "@ + f,
                }
            } else if last == "command"@ {
                name + " | Command received"@
            } else {
                name + " | "@ + last + ": "@ + trim_spec(content)
            }
        },
    }
}

/// Renders one relayed message for the console.
pub fn format_message(message: &str) -> (r: String)
    ensures
        r@ == format_message_spec(message@),
{
    match extract_frame(message) {
        None => message.to_owned(),
        Some((topic, content)) => {
            let (name, mtype) = parse_topic(topic.as_str());
            match mtype {
                MessageType::Status => {
                    match json_status_field(content.as_str()) {
                        None => message.to_owned(),
                        Some(None) => concat3(name.as_str(), " | Status: ", "unknown"),
                        Some(Some(f)) => concat3(name.as_str(), " | Status: ", f.as_str()),
                    }
                },
                MessageType::Command => concat2(name.as_str(), " | Command received"),
                MessageType::Unknown(t) => {
                    let trimmed = trim_str(content.as_str());
                    concat5(name.as_str(), " | ", t.as_str(), ": ", trimmed.as_str())
                },
            }
        },
    }
}

} // verus!
