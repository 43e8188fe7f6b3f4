//! The registry as mathematics: its state as maps, and each operation as a
//! function from the state before to the state after and to what is returned.

use vstd::prelude::*;
use crate::entity::{CourseView, HackathonView, Role, UserView, VideoView};
use crate::error::RegistryError;
use crate::ids::EntityKind;

verus! {

/// The state of a registry: who is registered, which entities exist, and the
/// identifier that the next new entity of each kind will get.
#[verifier::ext_equal]
pub struct RegistryView {
    pub users: Map<Seq<u8>, UserView>,
    pub courses: Map<u64, CourseView>,
    pub videos: Map<u64, VideoView>,
    pub hackathons: Map<u64, HackathonView>,
    pub next_course_id: nat,
    pub next_video_id: nat,
    pub next_hackathon_id: nat,
}

impl RegistryView {
    /// The state of a registry in which nothing has happened yet.
    pub open spec fn empty() -> RegistryView {
        RegistryView {
            users: Map::empty(),
            courses: Map::empty(),
            videos: Map::empty(),
            hackathons: Map::empty(),
            next_course_id: 1,
            next_video_id: 1,
            next_hackathon_id: 1,
        }
    }

    /// The users that a registry starts out with when it is given `users`: each
    /// under their own identity, a later record in place of an earlier one of
    /// the same identity.
    pub open spec fn seeded_users(users: Seq<UserView>) -> Map<Seq<u8>, UserView>
        decreases users.len(),
    {
        if users.len() == 0 {
            Map::empty()
        } else {
            Self::seeded_users(users.drop_last()).insert(users.last().principal, users.last())
        }
    }

    /// The state of a registry that starts out with `users` and nothing else.
    pub open spec fn with_users(users: Seq<UserView>) -> RegistryView {
        RegistryView { users: Self::seeded_users(users), ..Self::empty() }
    }

    /// What holds of every state that the operations can reach: each entity is
    /// stored under its own key, every numeric identifier in use was handed
    /// out before, and no hackathon lists a participant twice.
    pub open spec fn valid(self) -> bool {
        &&& self.users.dom().finite()
        &&& self.courses.dom().finite()
        &&& self.videos.dom().finite()
        &&& self.hackathons.dom().finite()
        &&& 1 <= self.next_course_id <= u64::MAX
        &&& 1 <= self.next_video_id <= u64::MAX
        &&& 1 <= self.next_hackathon_id <= u64::MAX
        &&& forall|who: Seq<u8>| #[trigger]
            self.users.contains_key(who) ==> self.users[who].principal == who
        &&& forall|id: u64| #[trigger]
            self.courses.contains_key(id) ==> self.courses[id].id == id && 1 <= id
                < self.next_course_id
        &&& forall|id: u64| #[trigger]
            self.videos.contains_key(id) ==> self.videos[id].id == id && 1 <= id
                < self.next_video_id
        &&& forall|id: u64| #[trigger]
            self.hackathons.contains_key(id) ==> self.hackathons[id].id == id && 1 <= id
                < self.next_hackathon_id && self.hackathons[id].participants.no_duplicates()
    }

    /// The identifier that the next new entity of `kind` will get.
    pub open spec fn next_id(self, kind: EntityKind) -> nat {
        match kind {
            EntityKind::Course => self.next_course_id,
            EntityKind::Video => self.next_video_id,
            EntityKind::Hackathon => self.next_hackathon_id,
        }
    }

    /// Whether `who` is registered as an administrator.
    pub open spec fn is_admin(self, who: Seq<u8>) -> bool {
        self.users.contains_key(who) && self.users[who].role == Role::Admin
    }

    /// Whether `who` may change or delete what `owner` owns: the owner may,
    /// and so may every administrator.
    pub open spec fn may_change(self, who: Seq<u8>, owner: Seq<u8>) -> bool {
        who == owner || self.is_admin(who)
    }

    /// Whether a video may refer to `course_id`: to no course, or to one that
    /// exists.
    pub open spec fn course_reference_ok(self, course_id: Option<u64>) -> bool {
        match course_id {
            Some(id) => self.courses.contains_key(id),
            None => true,
        }
    }

    // Users

    /// What `register_user` returns: the caller's record as it stands, or a new
    /// one with the role of a student.
    pub open spec fn register_user_result(
        self,
        caller: Seq<u8>,
        name: Seq<char>,
        email: Seq<char>,
    ) -> UserView {
        if self.users.contains_key(caller) {
            self.users[caller]
        } else {
            UserView { principal: caller, name, email, role: Role::Student }
        }
    }

    /// The state after `register_user`.
    pub open spec fn register_user(
        self,
        caller: Seq<u8>,
        name: Seq<char>,
        email: Seq<char>,
    ) -> RegistryView {
        RegistryView {
            users: self.users.insert(caller, self.register_user_result(caller, name, email)),
            ..self
        }
    }

    /// What `get_user` returns.
    pub open spec fn get_user(self, who: Seq<u8>) -> Option<UserView> {
        if self.users.contains_key(who) {
            Some(self.users[who])
        } else {
            None
        }
    }

    /// What `update_user` returns: the caller's record with the new name and
    /// email, and with the role it had, or that of a student if there was none.
    pub open spec fn update_user_result(
        self,
        caller: Seq<u8>,
        name: Seq<char>,
        email: Seq<char>,
    ) -> UserView {
        UserView {
            principal: caller,
            name,
            email,
            role: if self.users.contains_key(caller) {
                self.users[caller].role
            } else {
                Role::Student
            },
        }
    }

    /// The state after `update_user`.
    pub open spec fn update_user(
        self,
        caller: Seq<u8>,
        name: Seq<char>,
        email: Seq<char>,
    ) -> RegistryView {
        RegistryView {
            users: self.users.insert(caller, self.update_user_result(caller, name, email)),
            ..self
        }
    }

    // Courses

    /// What `create_course` returns.
    pub open spec fn create_course_result(
        self,
        caller: Seq<u8>,
        title: Seq<char>,
        description: Seq<char>,
        lessons: Seq<Seq<char>>,
    ) -> CourseView {
        CourseView {
            id: self.next_course_id as u64,
            title,
            description,
            instructor: caller,
            lessons,
        }
    }

    /// The state after `create_course`.
    pub open spec fn create_course(
        self,
        caller: Seq<u8>,
        title: Seq<char>,
        description: Seq<char>,
        lessons: Seq<Seq<char>>,
    ) -> RegistryView {
        RegistryView {
            courses: self.courses.insert(
                self.next_course_id as u64,
                self.create_course_result(caller, title, description, lessons),
            ),
            next_course_id: self.next_course_id + 1,
            ..self
        }
    }

    /// What `get_course` returns.
    pub open spec fn get_course(self, id: u64) -> Option<CourseView> {
        if self.courses.contains_key(id) {
            Some(self.courses[id])
        } else {
            None
        }
    }

    /// What `update_course` returns.
    pub open spec fn update_course_result(
        self,
        caller: Seq<u8>,
        id: u64,
        title: Seq<char>,
        description: Seq<char>,
        lessons: Seq<Seq<char>>,
    ) -> Result<CourseView, RegistryError> {
        if !self.courses.contains_key(id) {
            Err(RegistryError::NotFound)
        } else if !self.may_change(caller, self.courses[id].instructor) {
            Err(RegistryError::Unauthorized)
        } else {
            Ok(CourseView { title, description, lessons, ..self.courses[id] })
        }
    }

    /// The state after `update_course`.
    pub open spec fn update_course(
        self,
        caller: Seq<u8>,
        id: u64,
        title: Seq<char>,
        description: Seq<char>,
        lessons: Seq<Seq<char>>,
    ) -> RegistryView {
        match self.update_course_result(caller, id, title, description, lessons) {
            Ok(course) => RegistryView { courses: self.courses.insert(id, course), ..self },
            Err(_) => self,
        }
    }

    /// What `delete_course` returns.
    pub open spec fn delete_course_result(self, caller: Seq<u8>, id: u64) -> Result<
        (),
        RegistryError,
    > {
        if !self.courses.contains_key(id) {
            Err(RegistryError::NotFound)
        } else if !self.may_change(caller, self.courses[id].instructor) {
            Err(RegistryError::Unauthorized)
        } else {
            Ok(())
        }
    }

    /// The state after `delete_course`.
    pub open spec fn delete_course(self, caller: Seq<u8>, id: u64) -> RegistryView {
        match self.delete_course_result(caller, id) {
            Ok(_) => RegistryView { courses: self.courses.remove(id), ..self },
            Err(_) => self,
        }
    }

    // Videos

    /// What `upload_video` returns.
    pub open spec fn upload_video_result(
        self,
        caller: Seq<u8>,
        title: Seq<char>,
        url: Seq<char>,
        course_id: Option<u64>,
        description: Seq<char>,
    ) -> Result<VideoView, RegistryError> {
        if !self.course_reference_ok(course_id) {
            Err(RegistryError::InvalidReference)
        } else {
            Ok(
                VideoView {
                    id: self.next_video_id as u64,
                    title,
                    url,
                    uploader: caller,
                    course_id,
                    description,
                },
            )
        }
    }

    /// The state after `upload_video`.
    pub open spec fn upload_video(
        self,
        caller: Seq<u8>,
        title: Seq<char>,
        url: Seq<char>,
        course_id: Option<u64>,
        description: Seq<char>,
    ) -> RegistryView {
        match self.upload_video_result(caller, title, url, course_id, description) {
            Ok(video) => RegistryView {
                videos: self.videos.insert(video.id, video),
                next_video_id: self.next_video_id + 1,
                ..self
            },
            Err(_) => self,
        }
    }

    /// What `get_video` returns.
    pub open spec fn get_video(self, id: u64) -> Option<VideoView> {
        if self.videos.contains_key(id) {
            Some(self.videos[id])
        } else {
            None
        }
    }

    /// What `update_video` returns.
    pub open spec fn update_video_result(
        self,
        caller: Seq<u8>,
        id: u64,
        title: Seq<char>,
        url: Seq<char>,
        course_id: Option<u64>,
        description: Seq<char>,
    ) -> Result<VideoView, RegistryError> {
        if !self.videos.contains_key(id) {
            Err(RegistryError::NotFound)
        } else if !self.may_change(caller, self.videos[id].uploader) {
            Err(RegistryError::Unauthorized)
        } else if !self.course_reference_ok(course_id) {
            Err(RegistryError::InvalidReference)
        } else {
            Ok(VideoView { title, url, course_id, description, ..self.videos[id] })
        }
    }

    /// The state after `update_video`.
    pub open spec fn update_video(
        self,
        caller: Seq<u8>,
        id: u64,
        title: Seq<char>,
        url: Seq<char>,
        course_id: Option<u64>,
        description: Seq<char>,
    ) -> RegistryView {
        match self.update_video_result(caller, id, title, url, course_id, description) {
            Ok(video) => RegistryView { videos: self.videos.insert(id, video), ..self },
            Err(_) => self,
        }
    }

    /// What `delete_video` returns.
    pub open spec fn delete_video_result(self, caller: Seq<u8>, id: u64) -> Result<
        (),
        RegistryError,
    > {
        if !self.videos.contains_key(id) {
            Err(RegistryError::NotFound)
        } else if !self.may_change(caller, self.videos[id].uploader) {
            Err(RegistryError::Unauthorized)
        } else {
            Ok(())
        }
    }

    /// The state after `delete_video`.
    pub open spec fn delete_video(self, caller: Seq<u8>, id: u64) -> RegistryView {
        match self.delete_video_result(caller, id) {
            Ok(_) => RegistryView { videos: self.videos.remove(id), ..self },
            Err(_) => self,
        }
    }

    // Hackathons

    /// What `create_hackathon` returns.
    pub open spec fn create_hackathon_result(
        self,
        caller: Seq<u8>,
        title: Seq<char>,
        description: Seq<char>,
        start_date: Seq<char>,
        end_date: Seq<char>,
    ) -> HackathonView {
        HackathonView {
            id: self.next_hackathon_id as u64,
            title,
            description,
            start_date,
            end_date,
            creator: caller,
            participants: Seq::empty(),
            submissions: Seq::empty(),
        }
    }

    /// The state after `create_hackathon`.
    pub open spec fn create_hackathon(
        self,
        caller: Seq<u8>,
        title: Seq<char>,
        description: Seq<char>,
        start_date: Seq<char>,
        end_date: Seq<char>,
    ) -> RegistryView {
        RegistryView {
            hackathons: self.hackathons.insert(
                self.next_hackathon_id as u64,
                self.create_hackathon_result(caller, title, description, start_date, end_date),
            ),
            next_hackathon_id: self.next_hackathon_id + 1,
            ..self
        }
    }

    /// What `get_hackathon` returns.
    pub open spec fn get_hackathon(self, id: u64) -> Option<HackathonView> {
        if self.hackathons.contains_key(id) {
            Some(self.hackathons[id])
        } else {
            None
        }
    }

    /// What `update_hackathon` returns.
    pub open spec fn update_hackathon_result(
        self,
        caller: Seq<u8>,
        id: u64,
        title: Seq<char>,
        description: Seq<char>,
        start_date: Seq<char>,
        end_date: Seq<char>,
    ) -> Result<HackathonView, RegistryError> {
        if !self.hackathons.contains_key(id) {
            Err(RegistryError::NotFound)
        } else if !self.may_change(caller, self.hackathons[id].creator) {
            Err(RegistryError::Unauthorized)
        } else {
            Ok(
                HackathonView {
                    title,
                    description,
                    start_date,
                    end_date,
                    ..self.hackathons[id]
                },
            )
        }
    }

    /// The state after `update_hackathon`.
    pub open spec fn update_hackathon(
        self,
        caller: Seq<u8>,
        id: u64,
        title: Seq<char>,
        description: Seq<char>,
        start_date: Seq<char>,
        end_date: Seq<char>,
    ) -> RegistryView {
        match self.update_hackathon_result(caller, id, title, description, start_date, end_date) {
            Ok(hackathon) => RegistryView {
                hackathons: self.hackathons.insert(id, hackathon),
                ..self
            },
            Err(_) => self,
        }
    }

    /// What `delete_hackathon` returns.
    pub open spec fn delete_hackathon_result(self, caller: Seq<u8>, id: u64) -> Result<
        (),
        RegistryError,
    > {
        if !self.hackathons.contains_key(id) {
            Err(RegistryError::NotFound)
        } else if !self.may_change(caller, self.hackathons[id].creator) {
            Err(RegistryError::Unauthorized)
        } else {
            Ok(())
        }
    }

    /// The state after `delete_hackathon`.
    pub open spec fn delete_hackathon(self, caller: Seq<u8>, id: u64) -> RegistryView {
        match self.delete_hackathon_result(caller, id) {
            Ok(_) => RegistryView { hackathons: self.hackathons.remove(id), ..self },
            Err(_) => self,
        }
    }

    /// What `register_hackathon` returns.
    pub open spec fn register_hackathon_result(self, caller: Seq<u8>, id: u64) -> Result<
        (),
        RegistryError,
    > {
        if !self.hackathons.contains_key(id) {
            Err(RegistryError::NotFound)
        } else {
            Ok(())
        }
    }

    /// The state after `register_hackathon`: the caller joins the participants
    /// unless already one of them.
    pub open spec fn register_hackathon(self, caller: Seq<u8>, id: u64) -> RegistryView {
        if self.hackathons.contains_key(id) && !self.hackathons[id].participants.contains(caller) {
            RegistryView {
                hackathons: self.hackathons.insert(
                    id,
                    HackathonView {
                        participants: self.hackathons[id].participants.push(caller),
                        ..self.hackathons[id]
                    },
                ),
                ..self
            }
        } else {
            self
        }
    }

    /// What `submit_hackathon` returns.
    pub open spec fn submit_hackathon_result(self, caller: Seq<u8>, id: u64) -> Result<
        (),
        RegistryError,
    > {
        if !self.hackathons.contains_key(id) {
            Err(RegistryError::NotFound)
        } else if !self.hackathons[id].participants.contains(caller) {
            Err(RegistryError::NotRegistered)
        } else {
            Ok(())
        }
    }

    /// The state after `submit_hackathon`: the submission is added behind those
    /// that the hackathon already has.
    pub open spec fn submit_hackathon(
        self,
        caller: Seq<u8>,
        id: u64,
        submission: Seq<char>,
    ) -> RegistryView {
        match self.submit_hackathon_result(caller, id) {
            Ok(_) => RegistryView {
                hackathons: self.hackathons.insert(
                    id,
                    HackathonView {
                        submissions: self.hackathons[id].submissions.push(submission),
                        ..self.hackathons[id]
                    },
                ),
                ..self
            },
            Err(_) => self,
        }
    }
}

} // verus!
