use vstd::prelude::*;

verus! {

/// The code under which a topic is stored: `event/topic/` and the topic code.
pub open spec fn spec_format_code(code: Seq<char>) -> Seq<char> {
    "event/topic/"@ + code
}

/// The code under which a topic is stored.
pub fn format_code(code: &String) -> (r: String)
    ensures
        r@ == spec_format_code(code@),
{
    let mut s = String::from_str("event/topic/");
    s.append(code.as_str());
    s
}

/// The configuration of a message topic.
pub struct EventTopicConfig {
    pub topic_code: String,
    pub blocking: bool,
    pub overflow_policy: Option<String>,
    pub overflow_size: i32,
    pub check_auth: bool,
}

impl EventTopicConfig {
    /// The request that stores this topic: its code and name are the formatted
    /// topic code, the overflow policy defaults to `RejectNew`, and the overflow
    /// size is raised to at least 1.
    pub fn into_rbum_req(self) -> (r: EventTopicAddOrModifyReq)
        ensures
            r.code@ == spec_format_code(self.topic_code@),
            r.name@ == spec_format_code(self.topic_code@),
            r.blocking == self.blocking,
            r.topic_code == self.topic_code,
            r.overflow_policy@ == (match self.overflow_policy {
                Some(p) => p@,
                None => "RejectNew"@,
            }),
            r.overflow_size == (if self.overflow_size < 1 { 1 } else { self.overflow_size }),
            r.check_auth == self.check_auth,
    {
        let code = format_code(&self.topic_code);
        let name = format_code(&self.topic_code);
        let overflow_policy = match self.overflow_policy {
            Some(p) => p,
            None => String::from_str("RejectNew"),
        };
        let overflow_size = if self.overflow_size < 1 { 1 } else { self.overflow_size };
        EventTopicAddOrModifyReq {
            code,
            name,
            blocking: self.blocking,
            topic_code: self.topic_code,
            overflow_policy,
            overflow_size,
            check_auth: self.check_auth,
        }
    }
}

/// The stored form of a topic.
pub struct EventTopicAddOrModifyReq {
    pub code: String,
    pub name: String,
    pub blocking: bool,
    pub topic_code: String,
    pub overflow_policy: String,
    pub overflow_size: i32,
    pub check_auth: bool,
}

/// A stored topic, as it is read back.
pub struct EventTopicInfoResp {
    pub code: String,
    pub name: String,
    pub blocking: bool,
    pub topic_code: String,
    pub overflow_policy: String,
    pub overflow_size: i32,
    pub check_auth: bool,
}

/// A listener registered on a topic.
pub struct EventListenerInfo {
    pub topic_code: String,
    pub subscribe_mode: bool,
    pub events: Option<Vec<String>>,
    pub avatars: Vec<String>,
    pub mgr: bool,
    pub token: String,
}

/// The rights of one access key on a topic.
pub struct TopicAuth {
    pub topic: String,
    pub ak: String,
    pub read: bool,
    pub write: bool,
}

/// A request to set the rights of the caller on a topic.
pub struct SetTopicAuth {
    pub topic: String,
    pub read: bool,
    pub write: bool,
}

} // verus!
