//! The information stream of a producer: its first message announces the
//! producer to the remote authority, and the end of the stream takes the
//! announcement back.

use vstd::prelude::*;
use crate::status::Rejection;

verus! {

/// What is to be passed on to the remote authority for a producer.
#[derive(Debug, PartialEq, Eq)]
pub enum Announcement {
    /// The producer with this identifier is there.
    Logon(String),
    /// The producer with this identifier is gone.
    Logoff(String),
}

/// What an `Announcement` is in contracts.
pub enum AnnouncementView {
    Logon(Seq<char>),
    Logoff(Seq<char>),
}

impl View for Announcement {
    type V = AnnouncementView;

    open spec fn view(&self) -> AnnouncementView {
        match self {
            Announcement::Logon(identifier) => AnnouncementView::Logon(identifier@),
            Announcement::Logoff(identifier) => AnnouncementView::Logoff(identifier@),
        }
    }
}

/// The view of an optional text.
pub open spec fn text_view(text: Option<String>) -> Option<Seq<char>> {
    match text {
        Some(t) => Some(t@),
        None => None,
    }
}

/// The view of an optional announcement.
pub open spec fn announcement_view(announcement: Option<Announcement>) -> Option<
    AnnouncementView,
> {
    match announcement {
        Some(a) => Some(a@),
        None => None,
    }
}

/// The state of one information stream: the identifier that its first
/// message brought, once there was one.
#[derive(Debug, PartialEq, Eq)]
pub struct ActionServiceBase {
    identifier: Option<String>,
}

impl ActionServiceBase {
    /// The identifier that the first message brought.
    pub closed spec fn announced(&self) -> Option<Seq<char>> {
        text_view(self.identifier)
    }

    /// The state of a stream that has brought nothing yet.
    pub fn new() -> (service: Self)
        ensures
            service.announced() is None,
    {
        ActionServiceBase { identifier: None }
    }

    /// Takes a message of the stream. The first one announces the producer
    /// `identifier`; every later one is passed over.
    pub fn receive(&mut self, identifier: &String) -> (announcement: Option<Announcement>)
        ensures
            match old(self).announced() {
                None => final(self).announced() == Some(identifier@) && announcement_view(
                    announcement,
                ) == Some(AnnouncementView::Logon(identifier@)),
                Some(first) => final(self).announced() == Some(first) && announcement is None,
            },
    {
        if self.identifier.is_none() {
            self.identifier = Some(identifier.clone());
            Some(Announcement::Logon(identifier.clone()))
        } else {
            None
        }
    }

    /// Takes the end of the stream. A producer that was announced is taken
    /// back; a stream that ended without a message is answered as not found.
    pub fn finish(self) -> (outcome: Result<Announcement, Rejection>)
        ensures
            match self.announced() {
                Some(first) => outcome matches Ok(announcement) && announcement@
                    == AnnouncementView::Logoff(first),
                None => outcome == Err::<Announcement, Rejection>(Rejection::NoRequest),
            },
    {
        match self.identifier {
            Some(identifier) => Ok(Announcement::Logoff(identifier)),
            None => Err(Rejection::NoRequest),
        }
    }

    /// The answer to a stream whose reading failed.
    pub fn broken(&self) -> (rejection: Rejection)
        ensures
            rejection == Rejection::StreamBroken,
    {
        Rejection::StreamBroken
    }
}

} // verus!
