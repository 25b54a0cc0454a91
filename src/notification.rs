//! The display part of a message: what the device shows, and how it is built.
use vstd::prelude::*;
use crate::json::{
    quote, object_text, quoted, object, texts, opt_view, opt_str_view, opt_texts, str_texts,
    text_member, list_member, own_all, push_member, push_text, push_list, borrow_text,
};

verus! {

/// The icon that a notification shows unless another is set.
pub const DEFAULT_ICON: &'static str = "myicon";

/// The content of a notification, and of a builder of one.
pub struct NotificationView {
    pub title: Seq<char>,
    pub body: Option<Seq<char>>,
    pub icon: Seq<char>,
    pub sound: Option<Seq<char>>,
    pub badge: Option<Seq<char>>,
    pub tag: Option<Seq<char>>,
    pub color: Option<Seq<char>>,
    pub click_action: Option<Seq<char>>,
    pub body_loc_key: Option<Seq<char>>,
    pub body_loc_args: Option<Seq<Seq<char>>>,
    pub title_loc_key: Option<Seq<char>>,
    pub title_loc_args: Option<Seq<Seq<char>>>,
}

impl NotificationView {
    /// A new notification's content: the title, the default icon, nothing else.
    pub open spec fn initial(title: Seq<char>) -> NotificationView {
        NotificationView {
            title,
            body: None,
            icon: DEFAULT_ICON@,
            sound: None,
            badge: None,
            tag: None,
            color: None,
            click_action: None,
            body_loc_key: None,
            body_loc_args: None,
            title_loc_key: None,
            title_loc_args: None,
        }
    }

    /// The members of the JSON object, in wire order: title and icon always,
    /// every other field only where it is set.
    pub open spec fn members(self) -> Seq<Seq<char>> {
        seq!["\"title\":"@ + quoted(self.title)] + text_member("\"body\":"@, self.body) + seq![
            "\"icon\":"@ + quoted(self.icon),
        ] + text_member("\"sound\":"@, self.sound) + text_member("\"badge\":"@, self.badge)
            + text_member("\"tag\":"@, self.tag) + text_member("\"color\":"@, self.color)
            + text_member("\"click_action\":"@, self.click_action) + text_member(
            "\"body_loc_key\":"@,
            self.body_loc_key,
        ) + list_member("\"body_loc_args\":"@, self.body_loc_args) + text_member(
            "\"title_loc_key\":"@,
            self.title_loc_key,
        ) + list_member("\"title_loc_args\":"@, self.title_loc_args)
    }

    /// The JSON text of the notification.
    pub open spec fn json(self) -> Seq<char> {
        object(self.members())
    }
}

/// A notification: what the device shows when the message arrives. Get one
/// from a `NotificationBuilder`; it does not change once built.
#[derive(Debug, PartialEq)]
pub struct Notification {
    title: String,
    body: Option<String>,
    icon: String,
    sound: Option<String>,
    badge: Option<String>,
    tag: Option<String>,
    color: Option<String>,
    click_action: Option<String>,
    body_loc_key: Option<String>,
    body_loc_args: Option<Vec<String>>,
    title_loc_key: Option<String>,
    title_loc_args: Option<Vec<String>>,
}

/// Builds a `Notification`, one field at a time.
pub struct NotificationBuilder {
    title: String,
    body: Option<String>,
    icon: String,
    sound: Option<String>,
    badge: Option<String>,
    tag: Option<String>,
    color: Option<String>,
    click_action: Option<String>,
    body_loc_key: Option<String>,
    body_loc_args: Option<Vec<String>>,
    title_loc_key: Option<String>,
    title_loc_args: Option<Vec<String>>,
}

impl View for Notification {
    type V = NotificationView;

    closed spec fn view(&self) -> NotificationView {
        NotificationView {
            title: self.title@,
            body: opt_view(self.body),
            icon: self.icon@,
            sound: opt_view(self.sound),
            badge: opt_view(self.badge),
            tag: opt_view(self.tag),
            color: opt_view(self.color),
            click_action: opt_view(self.click_action),
            body_loc_key: opt_view(self.body_loc_key),
            body_loc_args: opt_texts(self.body_loc_args),
            title_loc_key: opt_view(self.title_loc_key),
            title_loc_args: opt_texts(self.title_loc_args),
        }
    }
}

impl View for NotificationBuilder {
    type V = NotificationView;

    closed spec fn view(&self) -> NotificationView {
        NotificationView {
            title: self.title@,
            body: opt_view(self.body),
            icon: self.icon@,
            sound: opt_view(self.sound),
            badge: opt_view(self.badge),
            tag: opt_view(self.tag),
            color: opt_view(self.color),
            click_action: opt_view(self.click_action),
            body_loc_key: opt_view(self.body_loc_key),
            body_loc_args: opt_texts(self.body_loc_args),
            title_loc_key: opt_view(self.title_loc_key),
            title_loc_args: opt_texts(self.title_loc_args),
        }
    }
}

/// A copy of each string.
fn copy_all(items: &Vec<String>) -> (r: Vec<String>)
    ensures
        texts(r@) == texts(items@),
{
    let mut r: Vec<String> = Vec::new();
    let mut i: usize = 0;
    while i < items.len()
        invariant
            i <= items@.len(),
            r@.len() == i,
            forall|j: int| 0 <= j < i ==> #[trigger] r@[j]@ == items@[j]@,
        decreases items.len() - i,
    {
        r.push(items[i].clone());
        i = i + 1;
    }
    assert(texts(r@) =~= texts(items@));
    r
}

fn copy_text(s: &Option<String>) -> (r: Option<String>)
    ensures
        opt_view(r) == opt_view(*s),
{
    match s {
        Some(t) => Some(t.clone()),
        None => None,
    }
}

fn copy_list(v: &Option<Vec<String>>) -> (r: Option<Vec<String>>)
    ensures
        opt_texts(r) == opt_texts(*v),
{
    match v {
        Some(items) => Some(copy_all(items)),
        None => None,
    }
}

impl Notification {
    /// The title.
    pub fn title(&self) -> (r: &str)
        ensures
            r@ == self@.title,
    {
        self.title.as_str()
    }

    /// The body, where one is set.
    pub fn body(&self) -> (r: Option<&str>)
        ensures
            opt_str_view(r) == self@.body,
    {
        borrow_text(&self.body)
    }

    /// The icon.
    pub fn icon(&self) -> (r: &str)
        ensures
            r@ == self@.icon,
    {
        self.icon.as_str()
    }

    /// The sound, where one is set.
    pub fn sound(&self) -> (r: Option<&str>)
        ensures
            opt_str_view(r) == self@.sound,
    {
        borrow_text(&self.sound)
    }

    /// The badge, where one is set.
    pub fn badge(&self) -> (r: Option<&str>)
        ensures
            opt_str_view(r) == self@.badge,
    {
        borrow_text(&self.badge)
    }

    /// The tag, where one is set.
    pub fn tag(&self) -> (r: Option<&str>)
        ensures
            opt_str_view(r) == self@.tag,
    {
        borrow_text(&self.tag)
    }

    /// The icon's color, where one is set.
    pub fn color(&self) -> (r: Option<&str>)
        ensures
            opt_str_view(r) == self@.color,
    {
        borrow_text(&self.color)
    }

    /// The click action, where one is set.
    pub fn click_action(&self) -> (r: Option<&str>)
        ensures
            opt_str_view(r) == self@.click_action,
    {
        borrow_text(&self.click_action)
    }

    /// The localization key of the body, where one is set.
    pub fn body_loc_key(&self) -> (r: Option<&str>)
        ensures
            opt_str_view(r) == self@.body_loc_key,
    {
        borrow_text(&self.body_loc_key)
    }

    /// The localization arguments of the body, where they are set.
    pub fn body_loc_args(&self) -> (r: Option<&Vec<String>>)
        ensures
            match r {
                Some(v) => self@.body_loc_args == Some(texts(v@)),
                None => self@.body_loc_args is None,
            },
    {
        match &self.body_loc_args {
            Some(v) => Some(v),
            None => None,
        }
    }

    /// The localization key of the title, where one is set.
    pub fn title_loc_key(&self) -> (r: Option<&str>)
        ensures
            opt_str_view(r) == self@.title_loc_key,
    {
        borrow_text(&self.title_loc_key)
    }

    /// The localization arguments of the title, where they are set.
    pub fn title_loc_args(&self) -> (r: Option<&Vec<String>>)
        ensures
            match r {
                Some(v) => self@.title_loc_args == Some(texts(v@)),
                None => self@.title_loc_args is None,
            },
    {
        match &self.title_loc_args {
            Some(v) => Some(v),
            None => None,
        }
    }

    /// The notification as a JSON object: title and icon always, each other
    /// field only where it is set, in the order of the fields.
    pub fn to_json(&self) -> (r: String)
        ensures
            r@ == self@.json(),
    {
        let mut members: Vec<String> = Vec::new();
        push_member(&mut members, "\"title\":", quote(self.title.as_str()));
        push_text(&mut members, "\"body\":", &self.body);
        push_member(&mut members, "\"icon\":", quote(self.icon.as_str()));
        push_text(&mut members, "\"sound\":", &self.sound);
        push_text(&mut members, "\"badge\":", &self.badge);
        push_text(&mut members, "\"tag\":", &self.tag);
        push_text(&mut members, "\"color\":", &self.color);
        push_text(&mut members, "\"click_action\":", &self.click_action);
        push_text(&mut members, "\"body_loc_key\":", &self.body_loc_key);
        push_list(&mut members, "\"body_loc_args\":", &self.body_loc_args);
        push_text(&mut members, "\"title_loc_key\":", &self.title_loc_key);
        push_list(&mut members, "\"title_loc_args\":", &self.title_loc_args);
        assert(texts(members@) =~= self@.members());
        object_text(&members)
    }
}

impl NotificationBuilder {
    /// A builder of a notification with the given title, the default icon
    /// and nothing else.
    pub fn new(title: &str) -> (r: NotificationBuilder)
        ensures
            r@ == NotificationView::initial(title@),
    {
        NotificationBuilder {
            title: title.to_owned(),
            body: None,
            icon: DEFAULT_ICON.to_owned(),
            sound: None,
            badge: None,
            tag: None,
            color: None,
            click_action: None,
            body_loc_key: None,
            body_loc_args: None,
            title_loc_key: None,
            title_loc_args: None,
        }
    }

    /// Sets the body.
    pub fn body(&mut self, body: &str) -> (r: &mut NotificationBuilder)
        ensures
            r@ == (NotificationView { body: Some(body@), ..old(self)@ }),
            *final(self) == *final(r),
    {
        self.body = Some(body.to_owned());
        self
    }

    /// Sets the icon, in place of the default.
    pub fn icon(&mut self, icon: &str) -> (r: &mut NotificationBuilder)
        ensures
            r@ == (NotificationView { icon: icon@, ..old(self)@ }),
            *final(self) == *final(r),
    {
        self.icon = icon.to_owned();
        self
    }

    /// Sets the sound to play.
    pub fn sound(&mut self, sound: &str) -> (r: &mut NotificationBuilder)
        ensures
            r@ == (NotificationView { sound: Some(sound@), ..old(self)@ }),
            *final(self) == *final(r),
    {
        self.sound = Some(sound.to_owned());
        self
    }

    /// Sets the badge.
    pub fn badge(&mut self, badge: &str) -> (r: &mut NotificationBuilder)
        ensures
            r@ == (NotificationView { badge: Some(badge@), ..old(self)@ }),
            *final(self) == *final(r),
    {
        self.badge = Some(badge.to_owned());
        self
    }

    /// Sets the tag: a new notification replaces a shown one with the same tag.
    pub fn tag(&mut self, tag: &str) -> (r: &mut NotificationBuilder)
        ensures
            r@ == (NotificationView { tag: Some(tag@), ..old(self)@ }),
            *final(self) == *final(r),
    {
        self.tag = Some(tag.to_owned());
        self
    }

    /// Sets the icon's color, written `#rrggbb`; the form is not checked.
    pub fn color(&mut self, color: &str) -> (r: &mut NotificationBuilder)
        ensures
            r@ == (NotificationView { color: Some(color@), ..old(self)@ }),
            *final(self) == *final(r),
    {
        self.color = Some(color.to_owned());
        self
    }

    /// Sets what happens when the user clicks the notification.
    pub fn click_action(&mut self, click_action: &str) -> (r: &mut NotificationBuilder)
        ensures
            r@ == (NotificationView { click_action: Some(click_action@), ..old(self)@ }),
            *final(self) == *final(r),
    {
        self.click_action = Some(click_action.to_owned());
        self
    }

    /// Sets the localization key of the body.
    pub fn body_loc_key(&mut self, body_loc_key: &str) -> (r: &mut NotificationBuilder)
        ensures
            r@ == (NotificationView { body_loc_key: Some(body_loc_key@), ..old(self)@ }),
            *final(self) == *final(r),
    {
        self.body_loc_key = Some(body_loc_key.to_owned());
        self
    }

    /// Sets the strings that fill the format specifiers of the body, in order.
    pub fn body_loc_args(&mut self, body_loc_args: Vec<&str>) -> (r: &mut NotificationBuilder)
        ensures
            r@ == (NotificationView {
                body_loc_args: Some(str_texts(body_loc_args@)),
                ..old(self)@
            }),
            *final(self) == *final(r),
    {
        self.body_loc_args = Some(own_all(&body_loc_args));
        self
    }

    /// Sets the localization key of the title.
    pub fn title_loc_key(&mut self, title_loc_key: &str) -> (r: &mut NotificationBuilder)
        ensures
            r@ == (NotificationView { title_loc_key: Some(title_loc_key@), ..old(self)@ }),
            *final(self) == *final(r),
    {
        self.title_loc_key = Some(title_loc_key.to_owned());
        self
    }

    /// Sets the strings that fill the format specifiers of the title, in order.
    pub fn title_loc_args(&mut self, title_loc_args: Vec<&str>) -> (r: &mut NotificationBuilder)
        ensures
            r@ == (NotificationView {
                title_loc_args: Some(str_texts(title_loc_args@)),
                ..old(self)@
            }),
            *final(self) == *final(r),
    {
        self.title_loc_args = Some(own_all(&title_loc_args));
        self
    }

    /// The notification built so far. The builder is left as it was, so it
    /// can go on being used.
    pub fn finalize(&mut self) -> (r: Notification)
        ensures
            r@ == old(self)@,
            *final(self) == *old(self),
    {
        Notification {
            title: self.title.clone(),
            body: copy_text(&self.body),
            icon: self.icon.clone(),
            sound: copy_text(&self.sound),
            badge: copy_text(&self.badge),
            tag: copy_text(&self.tag),
            color: copy_text(&self.color),
            click_action: copy_text(&self.click_action),
            body_loc_key: copy_text(&self.body_loc_key),
            body_loc_args: copy_list(&self.body_loc_args),
            title_loc_key: copy_text(&self.title_loc_key),
            title_loc_args: copy_list(&self.title_loc_args),
        }
    }
}

/// A notification with nothing set but its title serializes to an object
/// with just the title and the default icon.
pub proof fn lemma_bare_notification_json(title: Seq<char>)
    ensures
        NotificationView::initial(title).json() == seq!['{'] + "\"title\":"@ + quoted(title)
            + seq![','] + "\"icon\":"@ + quoted(DEFAULT_ICON@) + seq!['}'],
{
    let ms = NotificationView::initial(title).members();
    assert(ms =~= seq!["\"title\":"@ + quoted(title), "\"icon\":"@ + quoted(DEFAULT_ICON@)]);
    assert(ms.drop_last() =~= seq!["\"title\":"@ + quoted(title)]);
    assert(crate::json::joined(ms.drop_last()) == "\"title\":"@ + quoted(title));
    assert(ms.last() == "\"icon\":"@ + quoted(DEFAULT_ICON@));
    assert(crate::json::joined(ms) =~= "\"title\":"@ + quoted(title) + seq![','] + "\"icon\":"@
        + quoted(DEFAULT_ICON@));
}

} // verus!
