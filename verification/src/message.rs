//! The outbound message builder and the response mapper.

use vstd::prelude::*;
use crate::fields::FieldMap;

verus! {

/// An outbound request to send one message through a messaging service:
/// the service that routes it, the destination address, and the body text.
pub struct OutboundMessagingServiceMessage<'a> {
    pub messaging_service_sid: &'a str,
    pub to: &'a str,
    pub body: &'a str,
}

impl<'a> OutboundMessagingServiceMessage<'a> {
    pub fn new(messaging_service_sid: &'a str, to: &'a str, body: &'a str) -> (r:
        OutboundMessagingServiceMessage<'a>)
        ensures
            r.messaging_service_sid == messaging_service_sid,
            r.to == to,
            r.body == body,
    {
        OutboundMessagingServiceMessage { messaging_service_sid, to, body }
    }

    /// The form fields of one send request: exactly three key/value
    /// pairs, keyed "To", "MessagingServiceSid", "Body" in that order,
    /// each carrying the message's own value for it.
    pub fn params(&self) -> (r: Vec<(&'a str, &'a str)>)
        ensures
            r@.len() == 3,
            r@[0].0@ == "To"@,
            r@[0].1 == self.to,
            r@[1].0@ == "MessagingServiceSid"@,
            r@[1].1 == self.messaging_service_sid,
            r@[2].0@ == "Body"@,
            r@[2].1 == self.body,
    {
        let mut r: Vec<(&'a str, &'a str)> = Vec::new();
        r.push(("To", self.to));
        r.push(("MessagingServiceSid", self.messaging_service_sid));
        r.push(("Body", self.body));
        r
    }
}

/// The delivery state a provider reports for a message: a closed
/// enumeration, decoded as reported; no transition logic lives here.
#[allow(non_camel_case_types)]
#[derive(Debug, Clone, Copy, PartialEq, Eq, Structural)]
pub enum MessagingServiceMessageStatus {
    queued,
    sending,
    sent,
    failed,
    delivered,
    undelivered,
    receiving,
    received,
}

/// The one failure raised here: a mandatory field was absent from a
/// response mapping.
#[derive(Debug, Clone, Copy, PartialEq, Eq, Structural)]
pub struct ParsingError;

/// One message's decoded metadata. Valid only if the messaging-service
/// identifier, the destination and the message identifier were all
/// present in the source mapping; body and status are optional.
#[derive(Debug)]
pub struct MessagingServiceMessage {
    pub messaging_service_sid: String,
    pub to: String,
    pub body: Option<String>,
    pub sid: String,
    pub status: Option<MessagingServiceMessageStatus>,
}

impl MessagingServiceMessage {
    /// Decodes a response or webhook mapping into a record. Fails if
    /// and only if one of "MessagingServiceSid", "To", "MessageSid" is
    /// absent; "Body" is optional. The status field is never populated
    /// from the mapping.
    pub fn from_map(m: FieldMap) -> (r: Result<MessagingServiceMessage, ParsingError>)
        ensures
            r is Ok <==> (m@.contains_key("MessagingServiceSid"@) && m@.contains_key("To"@)
                && m@.contains_key("MessageSid"@)),
            r matches Ok(rec) ==> {
                &&& rec.messaging_service_sid@ == m@["MessagingServiceSid"@]
                &&& rec.to@ == m@["To"@]
                &&& rec.sid@ == m@["MessageSid"@]
                &&& rec.status is None
                &&& (m@.contains_key("Body"@) ==> (rec.body matches Some(b) && b@
                    == m@["Body"@]))
                &&& (!m@.contains_key("Body"@) ==> rec.body is None)
            },
    {
        let messaging_service_sid = match m.get("MessagingServiceSid") {
            Some(v) => v.clone(),
            None => {
                return Err(ParsingError);
            },
        };
        let to = match m.get("To") {
            Some(v) => v.clone(),
            None => {
                return Err(ParsingError);
            },
        };
        let sid = match m.get("MessageSid") {
            Some(v) => v.clone(),
            None => {
                return Err(ParsingError);
            },
        };
        let body = match m.get("Body") {
            Some(v) => Some(v.clone()),
            None => None,
        };
        Ok(MessagingServiceMessage { messaging_service_sid, to, body, sid, status: None })
    }
}

} // verus!
