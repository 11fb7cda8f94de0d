//! MQTT messages and the command-topic addressing of inverters.
use vstd::prelude::*;

use crate::serial::{Serial, SerialError};
use crate::text::{push_char, str_eq};

verus! {

/// A message to or from the MQTT broker.
#[derive(Debug)]
pub struct Message {
    pub topic: String,
    pub retain: bool,
    pub payload: String,
}

/// The inverters a command topic is addressed to.
#[derive(Clone, Copy, Debug)]
pub enum TargetInverter {
    /// Every enabled inverter.
    All,
    /// The enabled inverters with this datalog serial.
    Serial(Serial),
}

/// Why a command topic was refused.
#[derive(Clone, Copy, Debug, PartialEq, Eq, Structural)]
pub enum MessageError {
    /// The topic has no '/' after the inverter part.
    BadTopic,
    /// The inverter part is neither "all" nor a ten-byte serial.
    BadSerial,
}

/// The part of a command topic before its first '/', if it has one.
pub open spec fn topic_head(topic: Seq<char>) -> Option<Seq<char>> {
    if exists|k: int| 0 <= k < topic.len() && topic[k] == '/' {
        let k = choose|k: int|
            0 <= k < topic.len() && topic[k] == '/' && forall|j: int| 0 <= j < k ==> topic[j] != '/';
        Some(topic.take(k))
    } else {
        None
    }
}

/// Whether `head` names the inverter with this datalog serial.
pub open spec fn names_serial(head: Seq<char>, s: Serial) -> bool {
    s.bytes@ == vstd::utf8::encode_utf8(head)
}

impl Message {
    /// The inverters this command topic addresses. The topic is the part after the
    /// "<namespace>/cmd/" prefix: its first '/'-separated part is "all" or a datalog serial.
    pub fn cmd_target(&self) -> (r: Result<TargetInverter, MessageError>)
        ensures
            match topic_head(self.topic@) {
                None => r == Err::<TargetInverter, MessageError>(MessageError::BadTopic),
                Some(h) => if h == "all"@ {
                    r matches Ok(TargetInverter::All)
                } else if vstd::utf8::encode_utf8(h).len() == 10 {
                    r matches Ok(TargetInverter::Serial(s)) && names_serial(h, s)
                } else {
                    r == Err::<TargetInverter, MessageError>(MessageError::BadSerial)
                },
            },
    {
        let topic = self.topic.as_str();
        let n = topic.unicode_len();
        let mut head = String::new();
        let mut i: usize = 0;
        while i < n
            invariant
                i <= n,
                n == topic@.len(),
                topic@ == self.topic@,
                head@ == topic@.take(i as int),
                forall|j: int| 0 <= j < i ==> topic@[j] != '/',
            decreases n - i,
        {
            let c = topic.get_char(i);
            if c == '/' {
                proof {
                    let k = choose|k: int|
                        0 <= k < topic@.len() && topic@[k] == '/' && forall|j: int|
                            0 <= j < k ==> topic@[j] != '/';
                    assert(topic@[i as int] == '/');
                    assert(k == i) by {
                        if k < i {
                        } else if k > i {
                        }
                    }
                }
                if str_eq(head.as_str(), "all") {
                    return Ok(TargetInverter::All);
                }
                return match Serial::from_str(head.as_str()) {
                    Ok(s) => Ok(TargetInverter::Serial(s)),
                    Err(SerialError::WrongLength) => Err(MessageError::BadSerial),
                };
            }
            push_char(&mut head, c);
            assert(topic@.take(i + 1) == topic@.take(i as int).push(c));
            i = i + 1;
        }
        Err(MessageError::BadTopic)
    }
}

} // verus!
