//! Notifications for the user, built step by step.

use vstd::prelude::*;

verus! {

/// How urgent a notification is.
#[derive(Clone, Copy, Debug, PartialEq, Eq, Structural)]
pub enum ToastLevel {
    Info,
    Success,
    Warning,
    Error,
}

/// A notification: a title, a description where one was given, and a level.
#[derive(Debug, PartialEq, Eq)]
pub struct Toast {
    pub title: String,
    pub description: Option<String>,
    pub level: ToastLevel,
}

/// A [`Toast`] with its texts as sequences of characters.
pub struct ToastView {
    pub title: Seq<char>,
    pub description: Option<Seq<char>>,
    pub level: ToastLevel,
}

impl View for Toast {
    type V = ToastView;

    open spec fn view(&self) -> ToastView {
        ToastView {
            title: self.title@,
            description: match self.description {
                Some(d) => Some(d@),
                None => None,
            },
            level: self.level,
        }
    }
}

impl Toast {
    /// A notification without a title or a description, at level `Info`.
    pub fn new() -> (toast: Toast)
        ensures
            toast@ == (ToastView { title: Seq::<char>::empty(), description: None, level: ToastLevel::Info }),
    {
        Toast { title: String::new(), description: None, level: ToastLevel::Info }
    }

    /// The notification with `title` as its title; the rest is kept.
    pub fn title(self, title: &str) -> (toast: Toast)
        ensures
            toast@ == (ToastView { title: title@, ..self@ }),
    {
        let mut toast = self;
        toast.title = title.to_owned();
        toast
    }

    /// The notification with `description` as its description; the rest is
    /// kept.
    pub fn description(self, description: &str) -> (toast: Toast)
        ensures
            toast@ == (ToastView { description: Some(description@), ..self@ }),
    {
        let mut toast = self;
        toast.description = Some(description.to_owned());
        toast
    }

    /// The notification at level `Info`; the rest is kept.
    pub fn info(self) -> (toast: Toast)
        ensures
            toast@ == (ToastView { level: ToastLevel::Info, ..self@ }),
    {
        let mut toast = self;
        toast.level = ToastLevel::Info;
        toast
    }

    /// The notification at level `Success`; the rest is kept.
    pub fn success(self) -> (toast: Toast)
        ensures
            toast@ == (ToastView { level: ToastLevel::Success, ..self@ }),
    {
        let mut toast = self;
        toast.level = ToastLevel::Success;
        toast
    }

    /// The notification at level `Warning`; the rest is kept.
    pub fn warning(self) -> (toast: Toast)
        ensures
            toast@ == (ToastView { level: ToastLevel::Warning, ..self@ }),
    {
        let mut toast = self;
        toast.level = ToastLevel::Warning;
        toast
    }

    /// The notification at level `Error`; the rest is kept.
    pub fn error(self) -> (toast: Toast)
        ensures
            toast@ == (ToastView { level: ToastLevel::Error, ..self@ }),
    {
        let mut toast = self;
        toast.level = ToastLevel::Error;
        toast
    }
}

} // verus!
