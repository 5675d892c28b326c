use vstd::prelude::*;

verus! {

/// Where a message is sent: one device, or a topic.
#[derive(Clone, Copy, PartialEq, Eq, Structural, Debug)]
pub enum MessageType {
    Single,
    Topic,
}

/// The notification itself.
pub struct FcmMessage {
    pub title: String,
    pub body: String,
}

/// Android delivery settings: a priority of "high" or "normal", and the
/// notification channel.
pub struct AndroidSettings {
    pub priority: String,
    pub channel_id: String,
}

/// APNs delivery settings: a priority of "10" or "5", and an optional
/// sound.
pub struct ApnsSettings {
    pub priority: String,
    pub sound: Option<String>,
}

/// One send request: the message, its target by type, and optional
/// platform settings.
pub struct SendRequest {
    pub message_type: MessageType,
    pub message: FcmMessage,
    pub token: Option<String>,
    pub topic: Option<String>,
    pub android: Option<AndroidSettings>,
    pub apns: Option<ApnsSettings>,
}

/// What one send attempt came to.
pub struct SendResult {
    pub success: bool,
    pub details: String,
}

/// A copy of an optional string.
fn clone_opt_string(s: &Option<String>) -> (r: Option<String>)
    ensures
        r == *s,
{
    match s {
        Some(v) => Some(v.clone()),
        None => None,
    }
}

impl Clone for FcmMessage {
    fn clone(&self) -> (r: Self)
        ensures
            r == *self,
    {
        FcmMessage { title: self.title.clone(), body: self.body.clone() }
    }
}

impl Clone for AndroidSettings {
    fn clone(&self) -> (r: Self)
        ensures
            r == *self,
    {
        AndroidSettings { priority: self.priority.clone(), channel_id: self.channel_id.clone() }
    }
}

impl Clone for ApnsSettings {
    fn clone(&self) -> (r: Self)
        ensures
            r == *self,
    {
        ApnsSettings { priority: self.priority.clone(), sound: clone_opt_string(&self.sound) }
    }
}

impl Clone for SendRequest {
    fn clone(&self) -> (r: Self)
        ensures
            r == *self,
    {
        SendRequest {
            message_type: self.message_type,
            message: self.message.clone(),
            token: clone_opt_string(&self.token),
            topic: clone_opt_string(&self.topic),
            android: match &self.android {
                Some(a) => Some(a.clone()),
                None => None,
            },
            apns: match &self.apns {
                Some(a) => Some(a.clone()),
                None => None,
            },
        }
    }
}

impl Clone for SendResult {
    fn clone(&self) -> (r: Self)
        ensures
            r == *self,
    {
        SendResult { success: self.success, details: self.details.clone() }
    }
}

impl SendResult {
    /// A successful send around its details.
    pub fn success(details: String) -> (r: Self)
        ensures
            r.success == true,
            r.details == details,
    {
        SendResult { success: true, details }
    }

    /// A failed send around its details.
    pub fn failure(details: String) -> (r: Self)
        ensures
            r.success == false,
            r.details == details,
    {
        SendResult { success: false, details }
    }
}

impl SendRequest {
    /// The target a request of its type addresses: the device token of a
    /// single send, the topic name of a topic send. A missing or empty one
    /// fails the send with the message the sender reports.
    pub fn resolve_target(&self) -> (r: Result<String, SendResult>)
        ensures
            match self.message_type {
                MessageType::Single => match self.token {
                    Some(t) => if t@.len() > 0 {
                        r matches Ok(v) && v@ == t@
                    } else {
                        r matches Err(f) && f.success == false && f.details@
                            == "the request carries no device token"@
                    },
                    None => r matches Err(f) && f.success == false && f.details@
                        == "the request carries no device token"@,
                },
                MessageType::Topic => match self.topic {
                    Some(t) => if t@.len() > 0 {
                        r matches Ok(v) && v@ == t@
                    } else {
                        r matches Err(f) && f.success == false && f.details@
                            == "the request carries no topic name"@
                    },
                    None => r matches Err(f) && f.success == false && f.details@
                        == "the request carries no topic name"@,
                },
            },
    {
        match self.message_type {
            MessageType::Single => match &self.token {
                Some(t) => {
                    if !t.as_str().is_empty() {
                        Ok(t.clone())
                    } else {
                        Err(
                            SendResult::failure(
                                String::from_str("the request carries no device token"),
                            ),
                        )
                    }
                },
                None => Err(
                    SendResult::failure(String::from_str("the request carries no device token")),
                ),
            },
            MessageType::Topic => match &self.topic {
                Some(t) => {
                    if !t.as_str().is_empty() {
                        Ok(t.clone())
                    } else {
                        Err(
                            SendResult::failure(
                                String::from_str("the request carries no topic name"),
                            ),
                        )
                    }
                },
                None => Err(
                    SendResult::failure(String::from_str("the request carries no topic name")),
                ),
            },
        }
    }
}

} // verus!
