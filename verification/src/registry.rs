//! The registry: the operations that callers perform on users, courses,
//! videos and hackathons.

use vstd::prelude::*;
use crate::entity::{Course, Entity, Hackathon, Role, User, Video};
use crate::error::RegistryError;
use crate::identity::Identity;
use crate::ids::{EntityKind, IdAllocator};
use crate::model::RegistryView;
use crate::store::{EntityStore, IdentityStore, entity_views, enumerates};

verus! {

/// The view of what an operation returns that may be refused.
pub open spec fn result_view<E: Entity>(r: Result<E, RegistryError>) -> Result<
    E::V,
    RegistryError,
> {
    match r {
        Ok(e) => Ok(e@),
        Err(err) => Err(err),
    }
}

/// The view of what a lookup returns.
pub open spec fn option_view<E: Entity>(r: Option<E>) -> Option<E::V> {
    match r {
        Some(e) => Some(e@),
        None => None,
    }
}

/// The registry. It owns the stores and the identifier allocator; nothing else
/// changes them.
pub struct Registry {
    users: IdentityStore<User>,
    courses: EntityStore<Course>,
    videos: EntityStore<Video>,
    hackathons: EntityStore<Hackathon>,
    ids: IdAllocator,
}

impl View for Registry {
    type V = RegistryView;

    closed spec fn view(&self) -> RegistryView {
        RegistryView {
            users: self.users@,
            courses: self.courses@,
            videos: self.videos@,
            hackathons: self.hackathons@,
            next_course_id: self.ids.upcoming(EntityKind::Course) as nat,
            next_video_id: self.ids.upcoming(EntityKind::Video) as nat,
            next_hackathon_id: self.ids.upcoming(EntityKind::Hackathon) as nat,
        }
    }
}

impl Registry {
    /// Whether the registry is in order. Every registry that this module
    /// hands out is, and every operation keeps it so.
    pub closed spec fn wf(&self) -> bool {
        &&& self.users.wf()
        &&& self@.valid()
    }

    /// The state of a registry that is in order is valid.
    pub proof fn lemma_valid(&self)
        requires
            self.wf(),
        ensures
            self@.valid(),
    {
    }

    /// A registry in which nothing has happened yet.
    pub fn new() -> (r: Self)
        ensures
            r.wf(),
            r@ == RegistryView::empty(),
    {
        Registry {
            users: IdentityStore::new(),
            courses: EntityStore::new(),
            videos: EntityStore::new(),
            hackathons: EntityStore::new(),
            ids: IdAllocator::new(),
        }
    }

    /// A registry that starts out with `users` and nothing else. This is how
    /// instructors and administrators come to be: no operation changes a role.
    /// Of two records for one identity the later one counts.
    pub fn with_users(users: Vec<User>) -> (r: Self)
        ensures
            r.wf(),
            r@ == RegistryView::with_users(entity_views(users@)),
    {
        let mut r = Registry::new();
        let mut i: usize = 0;
        while i < users.len()
            invariant
                i <= users@.len(),
                r.wf(),
                r@ == RegistryView::with_users(entity_views(users@.take(i as int))),
            decreases users@.len() - i,
        {
            let user = users[i].clone();
            r.users.insert(user.principal.clone(), user);
            i = i + 1;
            assert(entity_views(users@.take(i as int)).drop_last() =~= entity_views(
                users@.take(i - 1),
            ));
        }
        assert(users@.take(users@.len() as int) =~= users@);
        r
    }

    /// Whether an identifier is left for one more entity of `kind`.
    pub fn has_free_id(&self, kind: EntityKind) -> (r: bool)
        ensures
            r == (self@.next_id(kind) < u64::MAX),
    {
        self.ids.has_next(kind)
    }

    /// Whether `who` is registered as an administrator.
    fn is_admin(&self, who: &Identity) -> (r: bool)
        requires
            self.wf(),
        ensures
            r == self@.is_admin(who@),
    {
        match self.users.borrow(who) {
            Some(user) => user.role == Role::Admin,
            None => false,
        }
    }

    /// Whether `who` may change or delete what `owner` owns.
    fn may_change(&self, who: &Identity, owner: &Identity) -> (r: bool)
        requires
            self.wf(),
        ensures
            r == self@.may_change(who@, owner@),
    {
        who.same(owner) || self.is_admin(who)
    }

    /// Whether a video may refer to `course_id`.
    fn course_reference_ok(&self, course_id: Option<u64>) -> (r: bool)
        ensures
            r == self@.course_reference_ok(course_id),
    {
        match course_id {
            Some(id) => self.courses.borrow(id).is_some(),
            None => true,
        }
    }

    // Users

    /// Registers the caller as a student under `name` and `email`, and returns
    /// the new record. A caller who is registered already keeps the record
    /// they have, role included, and gets that one back.
    pub fn register_user(&mut self, caller: &Identity, name: String, email: String) -> (user: User)
        requires
            old(self).wf(),
        ensures
            final(self).wf(),
            user@ == old(self)@.register_user_result(caller@, name@, email@),
            final(self)@ == old(self)@.register_user(caller@, name@, email@),
    {
        match self.users.get(caller) {
            Some(existing) => {
                existing
            },
            None => {
                let user = User { principal: caller.clone(), name, email, role: Role::Student };
                let copy = user.clone();
                self.users.insert(caller.clone(), user);
                copy
            },
        }
    }

    /// The record of `principal`, if they are registered. Anyone may ask.
    pub fn get_user(&self, principal: &Identity) -> (r: Option<User>)
        requires
            self.wf(),
        ensures
            option_view(r) == self@.get_user(principal@),
    {
        self.users.get(principal)
    }

    /// Sets the caller's own name and email and returns the record. The role
    /// stays as it was; a caller without a record gets one, as a student.
    pub fn update_user(&mut self, caller: &Identity, name: String, email: String) -> (user: User)
        requires
            old(self).wf(),
        ensures
            final(self).wf(),
            user@ == old(self)@.update_user_result(caller@, name@, email@),
            final(self)@ == old(self)@.update_user(caller@, name@, email@),
    {
        let role = match self.users.borrow(caller) {
            Some(existing) => existing.role,
            None => Role::Student,
        };
        let user = User { principal: caller.clone(), name, email, role };
        let copy = user.clone();
        self.users.insert(caller.clone(), user);
        copy
    }

    /// The records of all users, in no particular order. Anyone may ask.
    pub fn get_all_users(&self) -> (r: Vec<User>)
        requires
            self.wf(),
        ensures
            enumerates(self@.users, entity_views(r@)),
            r@.len() == self@.users.len(),
    {
        self.users.list()
    }

    // Courses

    /// Creates a course under a fresh identifier, with the caller as its
    /// instructor, and returns it.
    pub fn create_course(
        &mut self,
        caller: &Identity,
        title: String,
        description: String,
        lessons: Vec<String>,
    ) -> (course: Course)
        requires
            old(self).wf(),
            old(self)@.next_course_id < u64::MAX,
        ensures
            final(self).wf(),
            course@ == old(self)@.create_course_result(
                caller@,
                title@,
                description@,
                lessons.deep_view(),
            ),
            final(self)@ == old(self)@.create_course(
                caller@,
                title@,
                description@,
                lessons.deep_view(),
            ),
    {
        let id: u64 = self.ids.next_id(EntityKind::Course);
        let course = Course { id, title, description, instructor: caller.clone(), lessons };
        let copy = course.clone();
        self.courses.insert(id, course);
        copy
    }

    /// The course with identifier `id`, if there is one. Anyone may ask.
    pub fn get_course(&self, id: u64) -> (r: Option<Course>)
        ensures
            option_view(r) == self@.get_course(id),
    {
        self.courses.get(id)
    }

    /// Replaces the title, description and lessons of the course `id` and
    /// returns the course as it then is. Only its instructor and
    /// administrators may do so.
    pub fn update_course(
        &mut self,
        caller: &Identity,
        id: u64,
        title: String,
        description: String,
        lessons: Vec<String>,
    ) -> (r: Result<Course, RegistryError>)
        requires
            old(self).wf(),
        ensures
            final(self).wf(),
            result_view(r) == old(self)@.update_course_result(
                caller@,
                id,
                title@,
                description@,
                lessons.deep_view(),
            ),
            final(self)@ == old(self)@.update_course(
                caller@,
                id,
                title@,
                description@,
                lessons.deep_view(),
            ),
    {
        let instructor = match self.courses.borrow(id) {
            None => {
                return Err(RegistryError::NotFound);
            },
            Some(existing) => {
                if !self.may_change(caller, &existing.instructor) {
                    return Err(RegistryError::Unauthorized);
                }
                existing.instructor.clone()
            },
        };
        let course = Course { id, title, description, instructor, lessons };
        let copy = course.clone();
        self.courses.insert(id, course);
        Ok(copy)
    }

    /// Deletes the course `id`. Only its instructor and administrators may do
    /// so. Videos that refer to the course stay as they are.
    pub fn delete_course(&mut self, caller: &Identity, id: u64) -> (r: Result<(), RegistryError>)
        requires
            old(self).wf(),
        ensures
            final(self).wf(),
            r == old(self)@.delete_course_result(caller@, id),
            final(self)@ == old(self)@.delete_course(caller@, id),
    {
        match self.courses.borrow(id) {
            None => {
                return Err(RegistryError::NotFound);
            },
            Some(existing) => {
                if !self.may_change(caller, &existing.instructor) {
                    return Err(RegistryError::Unauthorized);
                }
            },
        }
        self.courses.remove(id);
        Ok(())
    }

    /// All courses, in no particular order. Anyone may ask.
    pub fn list_courses(&self) -> (r: Vec<Course>)
        ensures
            enumerates(self@.courses, entity_views(r@)),
            r@.len() == self@.courses.len(),
    {
        self.courses.list()
    }

    // Videos

    /// Records a video under a fresh identifier, with the caller as its
    /// uploader, and returns it. A video may refer to a course only if that
    /// course exists.
    pub fn upload_video(
        &mut self,
        caller: &Identity,
        title: String,
        url: String,
        course_id: Option<u64>,
        description: String,
    ) -> (r: Result<Video, RegistryError>)
        requires
            old(self).wf(),
            old(self)@.course_reference_ok(course_id) ==> old(self)@.next_video_id < u64::MAX,
        ensures
            final(self).wf(),
            result_view(r) == old(self)@.upload_video_result(
                caller@,
                title@,
                url@,
                course_id,
                description@,
            ),
            final(self)@ == old(self)@.upload_video(
                caller@,
                title@,
                url@,
                course_id,
                description@,
            ),
    {
        if !self.course_reference_ok(course_id) {
            return Err(RegistryError::InvalidReference);
        }
        let id: u64 = self.ids.next_id(EntityKind::Video);
        let video = Video { id, title, url, uploader: caller.clone(), course_id, description };
        let copy = video.clone();
        self.videos.insert(id, video);
        Ok(copy)
    }

    /// The video with identifier `id`, if there is one. Anyone may ask. The
    /// course it refers to may have been deleted since.
    pub fn get_video(&self, id: u64) -> (r: Option<Video>)
        ensures
            option_view(r) == self@.get_video(id),
    {
        self.videos.get(id)
    }

    /// Replaces the title, address, course reference and description of the
    /// video `id` and returns the video as it then is. Only its uploader and
    /// administrators may do so, and the new reference must name a course that
    /// exists.
    pub fn update_video(
        &mut self,
        caller: &Identity,
        id: u64,
        title: String,
        url: String,
        course_id: Option<u64>,
        description: String,
    ) -> (r: Result<Video, RegistryError>)
        requires
            old(self).wf(),
        ensures
            final(self).wf(),
            result_view(r) == old(self)@.update_video_result(
                caller@,
                id,
                title@,
                url@,
                course_id,
                description@,
            ),
            final(self)@ == old(self)@.update_video(
                caller@,
                id,
                title@,
                url@,
                course_id,
                description@,
            ),
    {
        let uploader = match self.videos.borrow(id) {
            None => {
                return Err(RegistryError::NotFound);
            },
            Some(existing) => {
                if !self.may_change(caller, &existing.uploader) {
                    return Err(RegistryError::Unauthorized);
                }
                existing.uploader.clone()
            },
        };
        if !self.course_reference_ok(course_id) {
            return Err(RegistryError::InvalidReference);
        }
        let video = Video { id, title, url, uploader, course_id, description };
        let copy = video.clone();
        self.videos.insert(id, video);
        Ok(copy)
    }

    /// Deletes the video `id`. Only its uploader and administrators may do so.
    pub fn delete_video(&mut self, caller: &Identity, id: u64) -> (r: Result<(), RegistryError>)
        requires
            old(self).wf(),
        ensures
            final(self).wf(),
            r == old(self)@.delete_video_result(caller@, id),
            final(self)@ == old(self)@.delete_video(caller@, id),
    {
        match self.videos.borrow(id) {
            None => {
                return Err(RegistryError::NotFound);
            },
            Some(existing) => {
                if !self.may_change(caller, &existing.uploader) {
                    return Err(RegistryError::Unauthorized);
                }
            },
        }
        self.videos.remove(id);
        Ok(())
    }

    /// All videos, in no particular order. Anyone may ask.
    pub fn list_videos(&self) -> (r: Vec<Video>)
        ensures
            enumerates(self@.videos, entity_views(r@)),
            r@.len() == self@.videos.len(),
    {
        self.videos.list()
    }

    // Hackathons

    /// Creates a hackathon under a fresh identifier, with the caller as its
    /// creator and with no participants or submissions yet, and returns it.
    pub fn create_hackathon(
        &mut self,
        caller: &Identity,
        title: String,
        description: String,
        start_date: String,
        end_date: String,
    ) -> (hackathon: Hackathon)
        requires
            old(self).wf(),
            old(self)@.next_hackathon_id < u64::MAX,
        ensures
            final(self).wf(),
            hackathon@ == old(self)@.create_hackathon_result(
                caller@,
                title@,
                description@,
                start_date@,
                end_date@,
            ),
            final(self)@ == old(self)@.create_hackathon(
                caller@,
                title@,
                description@,
                start_date@,
                end_date@,
            ),
    {
        let id: u64 = self.ids.next_id(EntityKind::Hackathon);
        let hackathon = Hackathon {
            id,
            title,
            description,
            start_date,
            end_date,
            creator: caller.clone(),
            participants: Vec::new(),
            submissions: Vec::new(),
        };
        assert(hackathon@.participants =~= Seq::<Seq<u8>>::empty());
        let copy = hackathon.clone();
        self.hackathons.insert(id, hackathon);
        copy
    }

    /// The hackathon with identifier `id`, if there is one. Anyone may ask.
    pub fn get_hackathon(&self, id: u64) -> (r: Option<Hackathon>)
        ensures
            option_view(r) == self@.get_hackathon(id),
    {
        self.hackathons.get(id)
    }

    /// Replaces the title, description and dates of the hackathon `id` and
    /// returns the hackathon as it then is. Only its creator and
    /// administrators may do so. Participants and submissions stay.
    pub fn update_hackathon(
        &mut self,
        caller: &Identity,
        id: u64,
        title: String,
        description: String,
        start_date: String,
        end_date: String,
    ) -> (r: Result<Hackathon, RegistryError>)
        requires
            old(self).wf(),
        ensures
            final(self).wf(),
            result_view(r) == old(self)@.update_hackathon_result(
                caller@,
                id,
                title@,
                description@,
                start_date@,
                end_date@,
            ),
            final(self)@ == old(self)@.update_hackathon(
                caller@,
                id,
                title@,
                description@,
                start_date@,
                end_date@,
            ),
    {
        let existing = match self.hackathons.get(id) {
            None => {
                return Err(RegistryError::NotFound);
            },
            Some(existing) => existing,
        };
        if !self.may_change(caller, &existing.creator) {
            return Err(RegistryError::Unauthorized);
        }
        let hackathon = Hackathon {
            id,
            title,
            description,
            start_date,
            end_date,
            creator: existing.creator,
            participants: existing.participants,
            submissions: existing.submissions,
        };
        let copy = hackathon.clone();
        self.hackathons.insert(id, hackathon);
        Ok(copy)
    }

    /// Deletes the hackathon `id`. Only its creator and administrators may do
    /// so.
    pub fn delete_hackathon(&mut self, caller: &Identity, id: u64) -> (r: Result<
        (),
        RegistryError,
    >)
        requires
            old(self).wf(),
        ensures
            final(self).wf(),
            r == old(self)@.delete_hackathon_result(caller@, id),
            final(self)@ == old(self)@.delete_hackathon(caller@, id),
    {
        match self.hackathons.borrow(id) {
            None => {
                return Err(RegistryError::NotFound);
            },
            Some(existing) => {
                if !self.may_change(caller, &existing.creator) {
                    return Err(RegistryError::Unauthorized);
                }
            },
        }
        self.hackathons.remove(id);
        Ok(())
    }

    /// All hackathons, in no particular order. Anyone may ask.
    pub fn list_hackathons(&self) -> (r: Vec<Hackathon>)
        ensures
            enumerates(self@.hackathons, entity_views(r@)),
            r@.len() == self@.hackathons.len(),
    {
        self.hackathons.list()
    }

    /// Adds the caller to the participants of the hackathon `id`. Anyone may
    /// register; registering again changes nothing and is no error.
    pub fn register_hackathon(&mut self, caller: &Identity, id: u64) -> (r: Result<
        (),
        RegistryError,
    >)
        requires
            old(self).wf(),
        ensures
            final(self).wf(),
            r == old(self)@.register_hackathon_result(caller@, id),
            final(self)@ == old(self)@.register_hackathon(caller@, id),
    {
        let mut hackathon = match self.hackathons.get(id) {
            None => {
                return Err(RegistryError::NotFound);
            },
            Some(existing) => existing,
        };
        if hackathon.has_participant(caller) {
            return Ok(());
        }
        let ghost before = hackathon@;
        hackathon.participants.push(caller.clone());
        assert(hackathon@.participants =~= before.participants.push(caller@));
        self.hackathons.insert(id, hackathon);
        Ok(())
    }

    /// Adds `submission` behind the submissions that the hackathon `id` has.
    /// Only registered participants may hand in work, as often as they like.
    pub fn submit_hackathon(&mut self, caller: &Identity, id: u64, submission: String) -> (r:
        Result<(), RegistryError>)
        requires
            old(self).wf(),
        ensures
            final(self).wf(),
            r == old(self)@.submit_hackathon_result(caller@, id),
            final(self)@ == old(self)@.submit_hackathon(caller@, id, submission@),
    {
        let mut hackathon = match self.hackathons.get(id) {
            None => {
                return Err(RegistryError::NotFound);
            },
            Some(existing) => existing,
        };
        if !hackathon.has_participant(caller) {
            return Err(RegistryError::NotRegistered);
        }
        let ghost before = hackathon@;
        hackathon.submissions.push(submission);
        assert(hackathon@.submissions =~= before.submissions.push(submission@));
        self.hackathons.insert(id, hackathon);
        Ok(())
    }
}

} // verus!
