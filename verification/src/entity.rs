//! The four kinds of entity the registry keeps, and their mathematical views.

use vstd::prelude::*;
use crate::identity::Identity;

verus! {

/// What a user may do beyond managing their own entities.
#[derive(Clone, Copy, Debug, PartialEq, Eq, Hash, Structural)]
pub enum Role {
    Student,
    Instructor,
    Admin,
}

/// Something a store can keep: it has a view, and a copy of it has the same view.
pub trait Entity: View + Sized {
    /// An independent copy of this entity.
    fn duplicate(&self) -> (copy: Self)
        ensures
            copy@ == self@,
    ;
}

/// The views of a sequence of identities, in order.
pub open spec fn identity_views(ids: Seq<Identity>) -> Seq<Seq<u8>> {
    Seq::new(ids.len(), |i: int| ids[i]@)
}

/// A registered person.
#[derive(Debug, PartialEq, Eq)]
pub struct User {
    pub principal: Identity,
    pub name: String,
    pub email: String,
    pub role: Role,
}

/// The view of a [`User`].
#[verifier::ext_equal]
pub struct UserView {
    pub principal: Seq<u8>,
    pub name: Seq<char>,
    pub email: Seq<char>,
    pub role: Role,
}

impl View for User {
    type V = UserView;

    open spec fn view(&self) -> UserView {
        UserView {
            principal: self.principal@,
            name: self.name@,
            email: self.email@,
            role: self.role,
        }
    }
}

impl Clone for User {
    fn clone(&self) -> (r: Self)
        ensures
            r@ == self@,
    {
        User {
            principal: self.principal.clone(),
            name: self.name.clone(),
            email: self.email.clone(),
            role: self.role,
        }
    }
}

impl Entity for User {
    fn duplicate(&self) -> (copy: Self) {
        self.clone()
    }
}

/// A course, owned by the instructor who created it.
#[derive(Debug, PartialEq, Eq)]
pub struct Course {
    pub id: u64,
    pub title: String,
    pub description: String,
    pub instructor: Identity,
    pub lessons: Vec<String>,
}

/// The view of a [`Course`].
#[verifier::ext_equal]
pub struct CourseView {
    pub id: u64,
    pub title: Seq<char>,
    pub description: Seq<char>,
    pub instructor: Seq<u8>,
    pub lessons: Seq<Seq<char>>,
}

impl View for Course {
    type V = CourseView;

    open spec fn view(&self) -> CourseView {
        CourseView {
            id: self.id,
            title: self.title@,
            description: self.description@,
            instructor: self.instructor@,
            lessons: self.lessons.deep_view(),
        }
    }
}

impl Clone for Course {
    fn clone(&self) -> (r: Self)
        ensures
            r@ == self@,
    {
        Course {
            id: self.id,
            title: self.title.clone(),
            description: self.description.clone(),
            instructor: self.instructor.clone(),
            lessons: self.lessons.clone(),
        }
    }
}

impl Entity for Course {
    fn duplicate(&self) -> (copy: Self) {
        self.clone()
    }
}

/// The description of a video, owned by whoever uploaded it.
#[derive(Debug, PartialEq, Eq)]
pub struct Video {
    pub id: u64,
    pub title: String,
    pub url: String,
    pub uploader: Identity,
    pub course_id: Option<u64>,
    pub description: String,
}

/// The view of a [`Video`].
#[verifier::ext_equal]
pub struct VideoView {
    pub id: u64,
    pub title: Seq<char>,
    pub url: Seq<char>,
    pub uploader: Seq<u8>,
    pub course_id: Option<u64>,
    pub description: Seq<char>,
}

impl View for Video {
    type V = VideoView;

    open spec fn view(&self) -> VideoView {
        VideoView {
            id: self.id,
            title: self.title@,
            url: self.url@,
            uploader: self.uploader@,
            course_id: self.course_id,
            description: self.description@,
        }
    }
}

impl Clone for Video {
    fn clone(&self) -> (r: Self)
        ensures
            r@ == self@,
    {
        Video {
            id: self.id,
            title: self.title.clone(),
            url: self.url.clone(),
            uploader: self.uploader.clone(),
            course_id: self.course_id,
            description: self.description.clone(),
        }
    }
}

impl Entity for Video {
    fn duplicate(&self) -> (copy: Self) {
        self.clone()
    }
}

/// A hackathon, owned by its creator, with its participants and what they
/// handed in.
#[derive(Debug, PartialEq, Eq)]
pub struct Hackathon {
    pub id: u64,
    pub title: String,
    pub description: String,
    pub start_date: String,
    pub end_date: String,
    pub creator: Identity,
    pub participants: Vec<Identity>,
    pub submissions: Vec<String>,
}

/// The view of a [`Hackathon`].
#[verifier::ext_equal]
pub struct HackathonView {
    pub id: u64,
    pub title: Seq<char>,
    pub description: Seq<char>,
    pub start_date: Seq<char>,
    pub end_date: Seq<char>,
    pub creator: Seq<u8>,
    pub participants: Seq<Seq<u8>>,
    pub submissions: Seq<Seq<char>>,
}

impl View for Hackathon {
    type V = HackathonView;

    open spec fn view(&self) -> HackathonView {
        HackathonView {
            id: self.id,
            title: self.title@,
            description: self.description@,
            start_date: self.start_date@,
            end_date: self.end_date@,
            creator: self.creator@,
            participants: identity_views(self.participants@),
            submissions: self.submissions.deep_view(),
        }
    }
}

impl Hackathon {
    /// Whether `who` is among the participants.
    pub fn has_participant(&self, who: &Identity) -> (r: bool)
        ensures
            r == self@.participants.contains(who@),
    {
        let mut i: usize = 0;
        while i < self.participants.len()
            invariant
                i <= self.participants@.len(),
                forall|j: int| 0 <= j < i ==> self@.participants[j] != who@,
            decreases self.participants@.len() - i,
        {
            if self.participants[i].same(who) {
                assert(self@.participants[i as int] == who@);
                return true;
            }
            i = i + 1;
        }
        false
    }
}

impl Clone for Hackathon {
    fn clone(&self) -> (r: Self)
        ensures
            r@ == self@,
    {
        Hackathon {
            id: self.id,
            title: self.title.clone(),
            description: self.description.clone(),
            start_date: self.start_date.clone(),
            end_date: self.end_date.clone(),
            creator: self.creator.clone(),
            participants: self.participants.clone(),
            submissions: self.submissions.clone(),
        }
    }
}

impl Entity for Hackathon {
    fn duplicate(&self) -> (copy: Self) {
        self.clone()
    }
}

} // verus!
