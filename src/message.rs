//! A message to one device, to several, or to a topic: how it is built, how
//! it reads on the wire, and how the service's answer to it is classified.
use vstd::prelude::*;
use vstd::string::*;
use crate::json::{
    quote, quoted, object, object_text, int_text, decimal, texts, joined, parse_json, json_of, JsonValue,
    own_all, str_texts, opt_view, opt_str_view, opt_texts, opt_member, text_member, list_member,
    member, push_member, push_text, push_list, borrow_text,
};
use crate::response::{GcmError, GcmResponse, response_of};
use crate::notification::{
    Notification, NotificationView, DEFAULT_ICON, lemma_bare_notification_json,
};

verus! {

/// How urgently the service delivers a message.
#[derive(Debug, Clone, Copy, PartialEq, Eq, Structural)]
pub enum Priority {
    Normal,
    High,
}

impl Priority {
    /// The name that stands for the priority on the wire.
    pub open spec fn spec_wire_name(self) -> Seq<char> {
        match self {
            Priority::Normal => "normal"@,
            Priority::High => "high"@,
        }
    }

    /// The name that stands for the priority on the wire: `normal` or `high`.
    pub fn wire_name(&self) -> (r: &'static str)
        ensures
            r@ == self.spec_wire_name(),
    {
        match self {
            Priority::Normal => "normal",
            Priority::High => "high",
        }
    }
}

/// No two entries have the same key.
pub open spec fn keys_unique(entries: Seq<(Seq<char>, Seq<char>)>) -> bool {
    forall|i: int, j: int|
        0 <= i < j < entries.len() ==> #[trigger] entries[i].0 != #[trigger] entries[j].0
}

/// Custom key-value data of a message. Each key stands once; the entries
/// keep the order in which their keys were first inserted, and that is the
/// order in which they are sent.
#[derive(Debug)]
pub struct DataMap {
    entries: Vec<(String, String)>,
}

/// The views of key-value pairs.
pub open spec fn pair_texts(v: Seq<(String, String)>) -> Seq<(Seq<char>, Seq<char>)> {
    v.map_values(|e: (String, String)| (e.0@, e.1@))
}

impl View for DataMap {
    type V = Seq<(Seq<char>, Seq<char>)>;

    closed spec fn view(&self) -> Seq<(Seq<char>, Seq<char>)> {
        pair_texts(self.entries@)
    }
}

impl DataMap {
    #[verifier::type_invariant]
    spec fn unique_keys(self) -> bool {
        keys_unique(pair_texts(self.entries@))
    }

    /// An empty map.
    pub fn new() -> (r: DataMap)
        ensures
            r@ == Seq::<(Seq<char>, Seq<char>)>::empty(),
            keys_unique(r@),
    {
        let r = DataMap { entries: Vec::new() };
        assert(r@ =~= Seq::<(Seq<char>, Seq<char>)>::empty());
        r
    }

    /// The number of entries.
    pub fn len(&self) -> (r: usize)
        ensures
            r == self@.len(),
    {
        self.entries.len()
    }

    /// Where the entry of `key` stands.
    fn position(&self, key: &String) -> (r: Option<usize>)
        ensures
            match r {
                Some(i) => i < self@.len() && self@[i as int].0 == key@,
                None => forall|i: int| 0 <= i < self@.len() ==> #[trigger] self@[i].0 != key@,
            },
    {
        let mut i: usize = 0;
        while i < self.entries.len()
            invariant
                i <= self@.len(),
                self@.len() == self.entries@.len(),
                forall|j: int| 0 <= j < i ==> #[trigger] self@[j].0 != key@,
            decreases self.entries.len() - i,
        {
            if self.entries[i].0 == *key {
                return Some(i);
            }
            i = i + 1;
        }
        None
    }

    /// Sets the value of `key`: in place where the key is there, as a new
    /// last entry where it is not. Gives back the value it replaced.
    pub fn insert(&mut self, key: &str, value: &str) -> (r: Option<String>)
        ensures
            match r {
                Some(v) => exists|i: int|
                    0 <= i < old(self)@.len() && #[trigger] old(self)@[i].0 == key@ && v@
                        == old(self)@[i].1 && final(self)@ == old(self)@.update(i, (key@, value@)),
                None => (forall|i: int|
                    0 <= i < old(self)@.len() ==> #[trigger] old(self)@[i].0 != key@)
                    && final(self)@ == old(self)@.push((key@, value@)),
            },
            keys_unique(final(self)@),
    {
        proof {
            use_type_invariant(&*self);
        }
        let key = key.to_owned();
        let value = value.to_owned();
        let ghost before = self@;
        let found = self.position(&key);
        let mut entries: Vec<(String, String)> = Vec::new();
        core::mem::swap(&mut self.entries, &mut entries);
        assert(pair_texts(entries@) == before);
        let r = match found {
            Some(i) => {
                let previous = entries[i].1.clone();
                entries.set(i, (key, value));
                assert(pair_texts(entries@) =~= before.update(i as int, (key@, value@)));
                Some(previous)
            },
            None => {
                entries.push((key, value));
                assert(pair_texts(entries@) =~= before.push((key@, value@)));
                None
            },
        };
        core::mem::swap(&mut self.entries, &mut entries);
        r
    }

    /// The value of `key`, where the map has it.
    pub fn get(&self, key: &str) -> (r: Option<&String>)
        ensures
            match r {
                Some(v) => exists|i: int| 0 <= i < self@.len() && #[trigger] self@[i] == (key@, v@),
                None => forall|i: int| 0 <= i < self@.len() ==> #[trigger] self@[i].0 != key@,
            },
    {
        match self.position(&key.to_owned()) {
            Some(i) => {
                assert(self@[i as int] == (key@, self.entries@[i as int].1@));
                Some(&self.entries[i].1)
            },
            None => None,
        }
    }
}

/// The JSON object of custom data: each value as a string literal.
pub open spec fn data_object(entries: Seq<(Seq<char>, Seq<char>)>) -> Seq<char> {
    object(entries.map_values(|e: (Seq<char>, Seq<char>)| quoted(e.0) + seq![':'] + quoted(e.1)))
}

impl DataMap {
    /// The map as a JSON object, its entries in order.
    pub fn to_json(&self) -> (r: String)
        ensures
            r@ == data_object(self@),
    {
        let mut members: Vec<String> = Vec::new();
        let mut i: usize = 0;
        while i < self.entries.len()
            invariant
                i <= self.entries@.len(),
                self@ == pair_texts(self.entries@),
                members@.len() == i,
                forall|j: int|
                    0 <= j < i ==> #[trigger] members@[j]@ == quoted(self@[j].0) + seq![':'] + quoted(
                        self@[j].1,
                    ),
            decreases self.entries.len() - i,
        {
            let (key, value) = &self.entries[i];
            members.push(member(&member(&quote(key.as_str()), ":".to_owned()), quote(value.as_str())));
            proof {
                reveal_strlit(":");
            }
            i = i + 1;
        }
        assert(texts(members@) =~= self@.map_values(
            |e: (Seq<char>, Seq<char>)| quoted(e.0) + seq![':'] + quoted(e.1),
        ));
        object_text(&members)
    }
}

/// The content of a message.
pub struct MessageView {
    pub to: Seq<char>,
    pub registration_ids: Option<Seq<Seq<char>>>,
    pub collapse_key: Option<Seq<char>>,
    pub priority: Option<Priority>,
    pub content_available: Option<bool>,
    pub delay_while_idle: Option<bool>,
    pub time_to_live: Option<i32>,
    pub restricted_package_name: Option<Seq<char>>,
    pub dry_run: Option<bool>,
    pub data: Option<Seq<(Seq<char>, Seq<char>)>>,
    pub notification: Option<NotificationView>,
}

/// `true` or `false`.
pub open spec fn bool_text(b: bool) -> Seq<char> {
    if b {
        "true"@
    } else {
        "false"@
    }
}

/// An optional flag member.
pub open spec fn flag_member(key: Seq<char>, value: Option<bool>) -> Seq<Seq<char>> {
    match value {
        Some(b) => opt_member(key, Some(bool_text(b))),
        None => Seq::empty(),
    }
}

impl MessageView {
    /// A new message's content: the target, nothing else.
    pub open spec fn initial(to: Seq<char>) -> MessageView {
        MessageView {
            to,
            registration_ids: None,
            collapse_key: None,
            priority: None,
            content_available: None,
            delay_while_idle: None,
            time_to_live: None,
            restricted_package_name: None,
            dry_run: None,
            data: None,
            notification: None,
        }
    }

    /// The members of the JSON object, in wire order: the target always,
    /// every other field only where it is set.
    pub open spec fn members(self) -> Seq<Seq<char>> {
        self.leading_members() + self.priority_member() + self.trailing_members()
    }

    /// The members before the priority: target, registration ids, collapse key.
    pub open spec fn leading_members(self) -> Seq<Seq<char>> {
        seq!["\"to\":"@ + quoted(self.to)] + list_member(
            "\"registration_ids\":"@,
            self.registration_ids,
        ) + text_member("\"collapse_key\":"@, self.collapse_key)
    }

    /// The priority member, where a priority is set.
    pub open spec fn priority_member(self) -> Seq<Seq<char>> {
        opt_member(
            "\"priority\":"@,
            match self.priority {
                Some(p) => Some(quoted(p.spec_wire_name())),
                None => None,
            },
        )
    }

    /// The members after the priority.
    pub open spec fn trailing_members(self) -> Seq<Seq<char>> {
        flag_member("\"content_available\":"@, self.content_available) + flag_member(
            "\"delay_while_idle\":"@,
            self.delay_while_idle,
        ) + opt_member(
            "\"time_to_live\":"@,
            match self.time_to_live {
                Some(t) => Some(int_text(t as int)),
                None => None,
            },
        ) + text_member("\"restricted_package_name\":"@, self.restricted_package_name)
            + flag_member("\"dry_run\":"@, self.dry_run) + opt_member(
            "\"data\":"@,
            match self.data {
                Some(d) => Some(data_object(d)),
                None => None,
            },
        ) + opt_member(
            "\"notification\":"@,
            match self.notification {
                Some(n) => Some(n.json()),
                None => None,
            },
        )
    }

    /// The JSON text of the message.
    pub open spec fn json(self) -> Seq<char> {
        object(self.members())
    }
}

/// A message to send. It names its target, a registration id or a topic
/// (`/topics/...`), and carries whatever options are set on it; the others
/// are left to the service.
#[derive(Debug)]
pub struct Message {
    to: String,
    registration_ids: Option<Vec<String>>,
    collapse_key: Option<String>,
    priority: Option<Priority>,
    content_available: Option<bool>,
    delay_while_idle: Option<bool>,
    time_to_live: Option<i32>,
    restricted_package_name: Option<String>,
    dry_run: Option<bool>,
    data: Option<DataMap>,
    notification: Option<Notification>,
}

impl View for Message {
    type V = MessageView;

    closed spec fn view(&self) -> MessageView {
        MessageView {
            to: self.to@,
            registration_ids: opt_texts(self.registration_ids),
            collapse_key: opt_view(self.collapse_key),
            priority: self.priority,
            content_available: self.content_available,
            delay_while_idle: self.delay_while_idle,
            time_to_live: self.time_to_live,
            restricted_package_name: opt_view(self.restricted_package_name),
            dry_run: self.dry_run,
            data: match self.data {
                Some(d) => Some(d@),
                None => None,
            },
            notification: match self.notification {
                Some(n) => Some(n@),
                None => None,
            },
        }
    }
}

fn flag_text(b: bool) -> (r: String)
    ensures
        r@ == bool_text(b),
{
    if b {
        "true".to_owned()
    } else {
        "false".to_owned()
    }
}

fn push_flag(members: &mut Vec<String>, key: &str, value: Option<bool>)
    ensures
        texts(final(members)@) == texts(old(members)@) + flag_member(key@, value),
{
    match value {
        Some(b) => push_member(members, key, flag_text(b)),
        None => {},
    }
    assert(texts(members@) =~= texts(old(members)@) + flag_member(key@, value));
}

impl Message {
    /// A message to `to`, a registration id or a topic, with no option set.
    pub fn new(to: &str) -> (r: Message)
        ensures
            r@ == MessageView::initial(to@),
    {
        Message {
            to: to.to_owned(),
            registration_ids: None,
            collapse_key: None,
            priority: None,
            content_available: None,
            delay_while_idle: None,
            time_to_live: None,
            restricted_package_name: None,
            dry_run: None,
            data: None,
            notification: None,
        }
    }

    /// Sets the registration ids to send the message to, in order. The
    /// service reads them as an alternative to the target given to `new`,
    /// which is sent as well: nothing here checks that only one is meant.
    pub fn registration_ids(self, ids: Vec<&str>) -> (r: Message)
        ensures
            r@ == (MessageView { registration_ids: Some(str_texts(ids@)), ..self@ }),
    {
        let mut m = self;
        m.registration_ids = Some(own_all(&ids));
        m
    }

    /// Sets the key under which pending messages may be collapsed into one.
    pub fn collapse_key(self, collapse_key: &str) -> (r: Message)
        ensures
            r@ == (MessageView { collapse_key: Some(collapse_key@), ..self@ }),
    {
        let mut m = self;
        m.collapse_key = Some(collapse_key.to_owned());
        m
    }

    /// Sets the priority.
    pub fn priority(self, priority: Priority) -> (r: Message)
        ensures
            r@ == (MessageView { priority: Some(priority), ..self@ }),
    {
        let mut m = self;
        m.priority = Some(priority);
        m
    }

    /// Sets the `content_available` flag, which iOS devices read.
    pub fn content_available(self, content_available: bool) -> (r: Message)
        ensures
            r@ == (MessageView { content_available: Some(content_available), ..self@ }),
    {
        let mut m = self;
        m.content_available = Some(content_available);
        m
    }

    /// When set to `true`, the message waits until the device is active.
    pub fn delay_while_idle(self, delay_while_idle: bool) -> (r: Message)
        ensures
            r@ == (MessageView { delay_while_idle: Some(delay_while_idle), ..self@ }),
    {
        let mut m = self;
        m.delay_while_idle = Some(delay_while_idle);
        m
    }

    /// Sets how many seconds the service keeps the message while the device
    /// is offline.
    pub fn time_to_live(self, time_to_live: i32) -> (r: Message)
        ensures
            r@ == (MessageView { time_to_live: Some(time_to_live), ..self@ }),
    {
        let mut m = self;
        m.time_to_live = Some(time_to_live);
        m
    }

    /// Sets the package name that the registration ids must belong to.
    pub fn restricted_package_name(self, restricted_package_name: &str) -> (r: Message)
        ensures
            r@ == (MessageView {
                restricted_package_name: Some(restricted_package_name@),
                ..self@
            }),
    {
        let mut m = self;
        m.restricted_package_name = Some(restricted_package_name.to_owned());
        m
    }

    /// When set to `true`, the service checks the message without delivering it.
    pub fn dry_run(self, dry_run: bool) -> (r: Message)
        ensures
            r@ == (MessageView { dry_run: Some(dry_run), ..self@ }),
    {
        let mut m = self;
        m.dry_run = Some(dry_run);
        m
    }

    /// Sets the custom key-value data, which the receiving app reads.
    pub fn data(self, data: DataMap) -> (r: Message)
        ensures
            r@ == (MessageView { data: Some(data@), ..self@ }),
    {
        let mut m = self;
        m.data = Some(data);
        m
    }

    /// Sets the notification to show.
    pub fn notification(self, notification: Notification) -> (r: Message)
        ensures
            r@ == (MessageView { notification: Some(notification@), ..self@ }),
    {
        let mut m = self;
        m.notification = Some(notification);
        m
    }

    /// Adds the members before the priority.
    fn push_leading(&self, members: &mut Vec<String>)
        ensures
            texts(final(members)@) == texts(old(members)@) + self@.leading_members(),
    {
        push_member(members, "\"to\":", quote(self.to.as_str()));
        push_list(members, "\"registration_ids\":", &self.registration_ids);
        push_text(members, "\"collapse_key\":", &self.collapse_key);
        assert(texts(members@) =~= texts(old(members)@) + self@.leading_members());
    }

    /// Adds the priority member, where a priority is set.
    fn push_priority(&self, members: &mut Vec<String>)
        ensures
            texts(final(members)@) == texts(old(members)@) + self@.priority_member(),
    {
        match self.priority {
            Some(p) => push_member(members, "\"priority\":", quote(p.wire_name())),
            None => {},
        }
        assert(texts(members@) =~= texts(old(members)@) + self@.priority_member());
    }

    /// Adds the members after the priority.
    fn push_trailing(&self, members: &mut Vec<String>)
        ensures
            texts(final(members)@) == texts(old(members)@) + self@.trailing_members(),
    {
        push_flag(members, "\"content_available\":", self.content_available);
        push_flag(members, "\"delay_while_idle\":", self.delay_while_idle);
        match self.time_to_live {
            Some(t) => push_member(members, "\"time_to_live\":", decimal(t as i64)),
            None => {},
        }
        push_text(members, "\"restricted_package_name\":", &self.restricted_package_name);
        push_flag(members, "\"dry_run\":", self.dry_run);
        match &self.data {
            Some(d) => push_member(members, "\"data\":", d.to_json()),
            None => {},
        }
        match &self.notification {
            Some(n) => push_member(members, "\"notification\":", n.to_json()),
            None => {},
        }
        assert(texts(members@) =~= texts(old(members)@) + self@.trailing_members());
    }

    /// The message as a JSON object: the target always, each other field
    /// only where it is set, in the order of the fields.
    pub fn to_json(&self) -> (r: String)
        ensures
            r@ == self@.json(),
    {
        let mut members: Vec<String> = Vec::new();
        self.push_leading(&mut members);
        self.push_priority(&mut members);
        self.push_trailing(&mut members);
        assert(texts(members@) =~= self@.members());
        object_text(&members)
    }
}

/// Where messages are sent.
pub const SEND_URL: &'static str = "https://gcm-http.googleapis.com/gcm/send";

/// The content type of a message on the wire.
pub const CONTENT_TYPE: &'static str = "application/json; charset=utf-8";

/// The value of the `Authorization` header: `key=` and the API key.
pub open spec fn spec_authorization(api_key: Seq<char>) -> Seq<char> {
    "key="@ + api_key
}

/// The error that an answer with a status other than 200 is classified as:
/// - 401: `Unauthorized`;
/// - 400: `InvalidMessage`, with the body as its detail;
/// - 500 to 599: `ServerError`;
/// - any other status: `InvalidMessage`, whose detail names the status.
pub open spec fn status_error(status: u16, body: Seq<char>, e: GcmError) -> bool {
    if status == 401 {
        e == GcmError::Unauthorized
    } else if status == 400 {
        e matches GcmError::InvalidMessage(m) && m@ == body
    } else if 500 <= status <= 599 {
        e == GcmError::ServerError
    } else {
        e matches GcmError::InvalidMessage(m) && m@ == unknown_status_detail(status)
    }
}

/// The detail of an answer whose status the service does not document.
pub open spec fn unknown_status_detail(status: u16) -> Seq<char> {
    "Unknown Error (status "@ + int_text(status as int) + ")"@
}

impl Message {
    /// The target: a registration id or a topic.
    pub fn get_to(&self) -> (r: &str)
        ensures
            r@ == self@.to,
    {
        self.to.as_str()
    }

    /// The registration ids, where they are set.
    pub fn get_registration_ids(&self) -> (r: Option<&Vec<String>>)
        ensures
            match r {
                Some(v) => self@.registration_ids == Some(texts(v@)),
                None => self@.registration_ids is None,
            },
    {
        match &self.registration_ids {
            Some(v) => Some(v),
            None => None,
        }
    }

    /// The collapse key, where one is set.
    pub fn get_collapse_key(&self) -> (r: Option<&str>)
        ensures
            opt_str_view(r) == self@.collapse_key,
    {
        borrow_text(&self.collapse_key)
    }

    /// The priority, where one is set.
    pub fn get_priority(&self) -> (r: Option<Priority>)
        ensures
            r == self@.priority,
    {
        self.priority
    }

    /// The `content_available` flag, where it is set.
    pub fn get_content_available(&self) -> (r: Option<bool>)
        ensures
            r == self@.content_available,
    {
        self.content_available
    }

    /// The `delay_while_idle` flag, where it is set.
    pub fn get_delay_while_idle(&self) -> (r: Option<bool>)
        ensures
            r == self@.delay_while_idle,
    {
        self.delay_while_idle
    }

    /// The time to live in seconds, where it is set.
    pub fn get_time_to_live(&self) -> (r: Option<i32>)
        ensures
            r == self@.time_to_live,
    {
        self.time_to_live
    }

    /// The restricted package name, where one is set.
    pub fn get_restricted_package_name(&self) -> (r: Option<&str>)
        ensures
            opt_str_view(r) == self@.restricted_package_name,
    {
        borrow_text(&self.restricted_package_name)
    }

    /// The `dry_run` flag, where it is set.
    pub fn get_dry_run(&self) -> (r: Option<bool>)
        ensures
            r == self@.dry_run,
    {
        self.dry_run
    }

    /// The custom data, where it is set.
    pub fn get_data(&self) -> (r: Option<&DataMap>)
        ensures
            match r {
                Some(d) => self@.data == Some(d@),
                None => self@.data is None,
            },
    {
        match &self.data {
            Some(d) => Some(d),
            None => None,
        }
    }

    /// The notification, where one is set.
    pub fn get_notification(&self) -> (r: Option<&Notification>)
        ensures
            match r {
                Some(n) => self@.notification == Some(n@),
                None => self@.notification is None,
            },
    {
        match &self.notification {
            Some(n) => Some(n),
            None => None,
        }
    }

    /// The value of the `Authorization` header that carries `api_key`. The
    /// key is sent as it is given; the service judges it.
    pub fn authorization(api_key: &str) -> (r: String)
        ensures
            r@ == spec_authorization(api_key@),
    {
        let mut r = "key=".to_owned();
        r.append(api_key);
        r
    }

    /// Classifies the service's answer, a status and a body, given what the
    /// body parses to as JSON (`None` where it is not JSON); the document
    /// is read only for status 200.
    pub fn classify_response(status: u16, body: &str, document: Option<&JsonValue>) -> (r: Result<
        GcmResponse,
        GcmError,
    >)
        ensures
            status == 200 ==> match document {
                Some(j) => match r {
                    Ok(x) => response_of(*j) == Some(x@),
                    Err(e) => response_of(*j) is None && e == GcmError::InvalidResponseBody,
                },
                None => r == Err::<GcmResponse, GcmError>(GcmError::InvalidResponseBody),
            },
            status != 200 ==> (r is Err && status_error(status, body@, r->Err_0)),
    {
        if status == 200 {
            return match document {
                Some(j) => GcmResponse::from_json(j),
                None => Err(GcmError::InvalidResponseBody),
            };
        }
        if 500 <= status && status <= 599 {
            return Err(GcmError::ServerError);
        }
        if status == 401 {
            Err(GcmError::Unauthorized)
        } else if status == 400 {
            Err(GcmError::InvalidMessage(body.to_owned()))
        } else {
            let mut detail = "Unknown Error (status ".to_owned();
            detail.append(decimal(status as i64).as_str());
            detail.append(")");
            Err(GcmError::InvalidMessage(detail))
        }
    }

    /// Classifies the service's answer, a status and a body. A failure to
    /// reach the service is classified as status 500 with the body
    /// `Server Error`. A body of status 200 is parsed as JSON and read as a
    /// response payload; where it is neither, the answer is
    /// `InvalidResponseBody`.
    pub fn parse_response(status: u16, body: &str) -> (r: Result<GcmResponse, GcmError>)
        ensures
            status == 200 ==> match json_of(body@) {
                Some(j) => match r {
                    Ok(x) => response_of(j) == Some(x@),
                    Err(e) => response_of(j) is None && e == GcmError::InvalidResponseBody,
                },
                None => r == Err::<GcmResponse, GcmError>(GcmError::InvalidResponseBody),
            },
            status != 200 ==> (r is Err && status_error(status, body@, r->Err_0)),
    {
        if status == 200 {
            match parse_json(body) {
                Some(j) => Message::classify_response(status, body, Some(&j)),
                None => Message::classify_response(status, body, None),
            }
        } else {
            Message::classify_response(status, body, None)
        }
    }
}

/// A message with nothing set but its target serializes to an object whose
/// one member is `to`.
pub proof fn lemma_bare_message_json(to: Seq<char>)
    ensures
        MessageView::initial(to).json() == seq!['{'] + "\"to\":"@ + quoted(to) + seq!['}'],
{
    assert(MessageView::initial(to).members() =~= seq!["\"to\":"@ + quoted(to)]);
}

/// A message with nothing set but its target and a notification serializes
/// to an object with the members `to` and `notification`.
pub proof fn lemma_message_with_notification_json(to: Seq<char>, n: NotificationView)
    ensures
        (MessageView { notification: Some(n), ..MessageView::initial(to) }).json() == seq!['{']
            + "\"to\":"@ + quoted(to) + seq![','] + "\"notification\":"@ + n.json() + seq!['}'],
{
    let ms = (MessageView { notification: Some(n), ..MessageView::initial(to) }).members();
    assert(ms =~= seq!["\"to\":"@ + quoted(to), "\"notification\":"@ + n.json()]);
    assert(ms.drop_last() =~= seq!["\"to\":"@ + quoted(to)]);
    assert(joined(ms.drop_last()) == "\"to\":"@ + quoted(to));
    assert(ms.last() == "\"notification\":"@ + n.json());
    assert(joined(ms) =~= "\"to\":"@ + quoted(to) + seq![','] + "\"notification\":"@ + n.json());
}

/// A message with nothing set but its target and a notification with nothing
/// set but its title serializes to an object with the members `to` and
/// `notification`, the latter holding just the title and the default icon.
pub proof fn lemma_bare_message_with_notification_json(to: Seq<char>, title: Seq<char>)
    ensures
        (MessageView {
            notification: Some(NotificationView::initial(title)),
            ..MessageView::initial(to)
        }).json() == seq!['{'] + "\"to\":"@ + quoted(to) + seq![','] + "\"notification\":"@ + seq![
            '{',
        ] + "\"title\":"@ + quoted(title) + seq![','] + "\"icon\":"@ + quoted(DEFAULT_ICON@)
            + seq!['}'] + seq!['}'],
{
    lemma_message_with_notification_json(to, NotificationView::initial(title));
    lemma_bare_notification_json(title);
}

/// A priority serializes as its lower-case name, `normal` or `high`, in a
/// string literal; a message without one has no `priority` member (see
/// `lemma_bare_message_json`).
pub proof fn lemma_priority_json(to: Seq<char>, p: Priority)
    ensures
        (MessageView { priority: Some(p), ..MessageView::initial(to) }).json() == seq!['{']
            + "\"to\":"@ + quoted(to) + seq![','] + "\"priority\":"@ + quoted(p.spec_wire_name())
            + seq!['}'],
        Priority::Normal.spec_wire_name() == "normal"@,
        Priority::High.spec_wire_name() == "high"@,
{
    let ms = (MessageView { priority: Some(p), ..MessageView::initial(to) }).members();
    assert(ms =~= seq!["\"to\":"@ + quoted(to), "\"priority\":"@ + quoted(p.spec_wire_name())]);
    assert(ms.drop_last() =~= seq!["\"to\":"@ + quoted(to)]);
    assert(joined(ms.drop_last()) == "\"to\":"@ + quoted(to));
    assert(ms.last() == "\"priority\":"@ + quoted(p.spec_wire_name()));
    assert(joined(ms) =~= "\"to\":"@ + quoted(to) + seq![','] + "\"priority\":"@ + quoted(
        p.spec_wire_name(),
    ));
}

/// Where no priority is set, the `priority` member is left out and nothing
/// else changes: the members are those of the same message with a
/// priority, less that one member. Every setter but `priority` keeps the
/// priority as it was, so a message never given one sends none and the
/// service's default applies.
pub proof fn lemma_unset_priority_is_absent(m: MessageView, p: Priority)
    requires
        m.priority is None,
    ensures
        m.members() == m.leading_members() + m.trailing_members(),
        (MessageView { priority: Some(p), ..m }).members() == m.leading_members() + seq![
            "\"priority\":"@ + quoted(p.spec_wire_name()),
        ] + m.trailing_members(),
{
    let with = MessageView { priority: Some(p), ..m };
    assert(m.priority_member() =~= Seq::<Seq<char>>::empty());
    assert(m.members() =~= m.leading_members() + m.trailing_members());
    assert(with.leading_members() == m.leading_members());
    assert(with.trailing_members() == m.trailing_members());
}

} // verus!
