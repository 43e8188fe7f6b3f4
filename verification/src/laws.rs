//! What holds of the registry whatever happens in it, proved of the model in
//! which the operations are specified.

use vstd::prelude::*;
use crate::entity::{CourseView, HackathonView, Role, UserView, VideoView};
use crate::error::RegistryError;
use crate::model::RegistryView;
use crate::store::{enumerates, lemma_enumerates};

verus! {

/// A call that creates or deletes a course.
pub enum CourseCall {
    Create { caller: Seq<u8>, title: Seq<char>, description: Seq<char>, lessons: Seq<Seq<char>> },
    Delete { caller: Seq<u8>, id: u64 },
}

/// The state that `calls`, made one after the other, lead to from `s`.
pub open spec fn after_course_calls(s: RegistryView, calls: Seq<CourseCall>) -> RegistryView
    decreases calls.len(),
{
    if calls.len() == 0 {
        s
    } else {
        let before = after_course_calls(s, calls.drop_last());
        match calls.last() {
            CourseCall::Create { caller, title, description, lessons } => before.create_course(
                caller,
                title,
                description,
                lessons,
            ),
            CourseCall::Delete { caller, id } => before.delete_course(caller, id),
        }
    }
}

/// The identifiers of the courses that the creating calls among `calls`
/// return, in the order of the calls.
pub open spec fn created_course_ids(s: RegistryView, calls: Seq<CourseCall>) -> Seq<u64>
    decreases calls.len(),
{
    if calls.len() == 0 {
        Seq::empty()
    } else {
        let before = after_course_calls(s, calls.drop_last());
        let ids = created_course_ids(s, calls.drop_last());
        match calls.last() {
            CourseCall::Create { caller, title, description, lessons } => ids.push(
                before.create_course_result(caller, title, description, lessons).id,
            ),
            CourseCall::Delete { .. } => ids,
        }
    }
}

/// How many of `calls` create a course.
pub open spec fn creations(calls: Seq<CourseCall>) -> nat
    decreases calls.len(),
{
    if calls.len() == 0 {
        0
    } else {
        creations(calls.drop_last()) + match calls.last() {
            CourseCall::Create { .. } => 1nat,
            CourseCall::Delete { .. } => 0nat,
        }
    }
}

/// Course identifiers are handed out in strictly increasing order and never
/// twice, whatever courses are deleted in between: as long as identifiers are
/// left, the courses created by a sequence of calls get the identifiers that
/// follow the last one handed out before, one after the other, and none of
/// them names a course that exists already.
pub proof fn law_course_ids_increase(s: RegistryView, calls: Seq<CourseCall>)
    requires
        s.valid(),
        s.next_course_id + creations(calls) <= u64::MAX,
    ensures
        after_course_calls(s, calls).valid(),
        created_course_ids(s, calls).len() == creations(calls),
        after_course_calls(s, calls).next_course_id == s.next_course_id + creations(calls),
        forall|i: int|
            0 <= i < created_course_ids(s, calls).len() ==> #[trigger] created_course_ids(
                s,
                calls,
            )[i] == s.next_course_id + i,
        forall|i: int, j: int|
            0 <= i < j < created_course_ids(s, calls).len() ==> created_course_ids(s, calls)[i]
                < created_course_ids(s, calls)[j],
        forall|i: int|
            0 <= i < created_course_ids(s, calls).len() ==> !s.courses.contains_key(
                #[trigger] created_course_ids(s, calls)[i],
            ),
    decreases calls.len(),
{
    if calls.len() > 0 {
        law_course_ids_increase(s, calls.drop_last());
        let before = after_course_calls(s, calls.drop_last());
        match calls.last() {
            CourseCall::Create { caller, title, description, lessons } => {
                law_courses_stay_valid(before, caller, 0, title, description, lessons);
            },
            CourseCall::Delete { caller, id } => {
                law_courses_stay_valid(before, caller, id, Seq::empty(), Seq::empty(), Seq::empty());
            },
        }
    }
}

/// Registering a caller who has no record gives them one, as a student under
/// the given name and email, and a lookup then finds it. A caller who has a
/// record keeps it as it is, role included.
pub proof fn law_register_then_get(
    s: RegistryView,
    caller: Seq<u8>,
    name: Seq<char>,
    email: Seq<char>,
)
    ensures
        s.register_user(caller, name, email).get_user(caller) == Some(
            s.register_user_result(caller, name, email),
        ),
        !s.users.contains_key(caller) ==> s.register_user_result(caller, name, email) == (UserView {
            principal: caller,
            name,
            email,
            role: Role::Student,
        }),
        s.users.contains_key(caller) ==> s.register_user(caller, name, email) == s
            && s.register_user_result(caller, name, email) == s.users[caller],
{
}

/// Updating never fails for want of a record: a caller without one is
/// registered on the spot, as a student under the given name and email. A
/// caller with a record keeps their role. Either way a lookup then finds what
/// was returned, and nobody else's record changes.
pub proof fn law_update_user_registers(
    s: RegistryView,
    caller: Seq<u8>,
    name: Seq<char>,
    email: Seq<char>,
)
    ensures
        s.update_user(caller, name, email).get_user(caller) == Some(
            s.update_user_result(caller, name, email),
        ),
        !s.users.contains_key(caller) ==> s.update_user_result(caller, name, email) == (UserView {
            principal: caller,
            name,
            email,
            role: Role::Student,
        }),
        s.users.contains_key(caller) ==> s.update_user_result(caller, name, email).role
            == s.users[caller].role,
        forall|other: Seq<u8>|
            other != caller ==> s.update_user(caller, name, email).get_user(other) == s.get_user(
                other,
            ),
{
}

/// Users stay valid: registering and updating keep every record under the
/// identity it belongs to, so that nobody ever has two.
pub proof fn law_users_stay_valid(
    s: RegistryView,
    caller: Seq<u8>,
    name: Seq<char>,
    email: Seq<char>,
)
    requires
        s.valid(),
    ensures
        s.register_user(caller, name, email).valid(),
        s.update_user(caller, name, email).valid(),
{
}

/// Courses stay valid under every operation on them.
pub proof fn law_courses_stay_valid(
    s: RegistryView,
    caller: Seq<u8>,
    id: u64,
    title: Seq<char>,
    description: Seq<char>,
    lessons: Seq<Seq<char>>,
)
    requires
        s.valid(),
    ensures
        s.next_course_id < u64::MAX ==> s.create_course(
            caller,
            title,
            description,
            lessons,
        ).valid(),
        s.update_course(caller, id, title, description, lessons).valid(),
        s.delete_course(caller, id).valid(),
{
}

/// Videos stay valid under every operation on them.
pub proof fn law_videos_stay_valid(
    s: RegistryView,
    caller: Seq<u8>,
    id: u64,
    title: Seq<char>,
    url: Seq<char>,
    course_id: Option<u64>,
    description: Seq<char>,
)
    requires
        s.valid(),
    ensures
        s.next_video_id < u64::MAX ==> s.upload_video(
            caller,
            title,
            url,
            course_id,
            description,
        ).valid(),
        s.update_video(caller, id, title, url, course_id, description).valid(),
        s.delete_video(caller, id).valid(),
{
}

/// Hackathons stay valid under every operation on them; in particular nobody
/// is ever listed twice among the participants of one.
pub proof fn law_hackathons_stay_valid(
    s: RegistryView,
    caller: Seq<u8>,
    id: u64,
    title: Seq<char>,
    description: Seq<char>,
    start_date: Seq<char>,
    end_date: Seq<char>,
    submission: Seq<char>,
)
    requires
        s.valid(),
    ensures
        s.next_hackathon_id < u64::MAX ==> s.create_hackathon(
            caller,
            title,
            description,
            start_date,
            end_date,
        ).valid(),
        s.update_hackathon(caller, id, title, description, start_date, end_date).valid(),
        s.delete_hackathon(caller, id).valid(),
        s.register_hackathon(caller, id).valid(),
        s.submit_hackathon(caller, id, submission).valid(),
{
    if s.hackathons.contains_key(id) && !s.hackathons[id].participants.contains(caller) {
        assert(s.hackathons[id].participants.push(caller).no_duplicates());
    }
}

/// Only a course's instructor and administrators may update it. Anyone else
/// is refused as unauthorized, and nothing changes. The instructor succeeds:
/// the course gets the new title, description and lessons, keeps its
/// identifier and instructor, and a lookup then shows it so.
pub proof fn law_update_course_authorization(
    s: RegistryView,
    caller: Seq<u8>,
    id: u64,
    title: Seq<char>,
    description: Seq<char>,
    lessons: Seq<Seq<char>>,
)
    requires
        s.valid(),
        s.courses.contains_key(id),
    ensures
        caller != s.courses[id].instructor && !s.is_admin(caller) ==> s.update_course_result(
            caller,
            id,
            title,
            description,
            lessons,
        ) == Err::<CourseView, RegistryError>(RegistryError::Unauthorized) && s.update_course(
            caller,
            id,
            title,
            description,
            lessons,
        ) == s,
        caller == s.courses[id].instructor || s.is_admin(caller) ==> s.update_course_result(
            caller,
            id,
            title,
            description,
            lessons,
        ) == Ok::<CourseView, RegistryError>(
            CourseView { id, title, description, instructor: s.courses[id].instructor, lessons },
        ) && s.update_course(caller, id, title, description, lessons).get_course(id) == Some(
            CourseView { id, title, description, instructor: s.courses[id].instructor, lessons },
        ),
{
}

/// A deleted video is gone. Unless the caller is refused as unauthorized, a
/// lookup after `delete_video` finds nothing and no listing holds a video with
/// that identifier, though every listing before held the video if it
/// existed.
pub proof fn law_deleted_video_is_gone(
    s: RegistryView,
    caller: Seq<u8>,
    id: u64,
    listed_before: Seq<VideoView>,
    listed_after: Seq<VideoView>,
)
    requires
        s.valid(),
        s.delete_video_result(caller, id) != Err::<(), RegistryError>(RegistryError::Unauthorized),
        enumerates(s.videos, listed_before),
        enumerates(s.delete_video(caller, id).videos, listed_after),
    ensures
        s.videos.contains_key(id) ==> exists|i: int|
            0 <= i < listed_before.len() && (#[trigger] listed_before[i]).id == id,
        s.delete_video(caller, id).get_video(id) is None,
        forall|i: int| 0 <= i < listed_after.len() ==> (#[trigger] listed_after[i]).id != id,
{
    lemma_enumerates(s.videos, listed_before);
    lemma_enumerates(s.delete_video(caller, id).videos, listed_after);
    if s.videos.contains_key(id) {
        assert(listed_before.contains(s.videos[id]));
    }
}

/// Registering for a hackathon twice is the same as registering once: the
/// second call succeeds and changes nothing, and the caller is among the
/// participants exactly once.
pub proof fn law_register_hackathon_idempotent(s: RegistryView, caller: Seq<u8>, id: u64)
    requires
        s.valid(),
        s.hackathons.contains_key(id),
    ensures
        s.register_hackathon_result(caller, id) is Ok,
        s.register_hackathon(caller, id).register_hackathon_result(caller, id) is Ok,
        s.register_hackathon(caller, id).register_hackathon(caller, id) == s.register_hackathon(
            caller,
            id,
        ),
        s.register_hackathon(caller, id).hackathons[id].participants.contains(caller),
        s.register_hackathon(caller, id).hackathons[id].participants.no_duplicates(),
        s.register_hackathon(caller, id).hackathons[id].participants.to_multiset().count(caller)
            == 1,
{
    law_hackathons_stay_valid(
        s,
        caller,
        id,
        Seq::empty(),
        Seq::empty(),
        Seq::empty(),
        Seq::empty(),
        Seq::empty(),
    );
    let once = s.register_hackathon(caller, id);
    let participants = once.hackathons[id].participants;
    if !s.hackathons[id].participants.contains(caller) {
        assert(participants.last() == caller);
    }
    participants.lemma_multiset_has_no_duplicates();
    assert(participants.to_multiset().count(caller) == 1) by {
        vstd::seq_lib::to_multiset_contains(participants, caller);
    }
}

/// Who has not registered for a hackathon cannot hand in work: the call is
/// refused as not registered and changes nothing. A participant can, as often
/// as they like: each submission is added behind those before it, so that two
/// in a row end up as the last two entries, in the order of the calls.
pub proof fn law_submissions_in_call_order(
    s: RegistryView,
    caller: Seq<u8>,
    id: u64,
    first: Seq<char>,
    second: Seq<char>,
)
    requires
        s.valid(),
        s.hackathons.contains_key(id),
    ensures
        !s.hackathons[id].participants.contains(caller) ==> s.submit_hackathon_result(caller, id)
            == Err::<(), RegistryError>(RegistryError::NotRegistered) && s.submit_hackathon(
            caller,
            id,
            first,
        ) == s,
        s.hackathons[id].participants.contains(caller) ==> {
            let once = s.submit_hackathon(caller, id, first);
            let twice = once.submit_hackathon(caller, id, second);
            &&& s.submit_hackathon_result(caller, id) is Ok
            &&& once.submit_hackathon_result(caller, id) is Ok
            &&& once.hackathons[id].submissions == s.hackathons[id].submissions.push(first)
            &&& twice.hackathons[id].submissions == s.hackathons[id].submissions.push(first).push(
                second,
            )
            &&& twice.hackathons[id] == (HackathonView {
                submissions: s.hackathons[id].submissions.push(first).push(second),
                ..s.hackathons[id]
            })
        },
{
}

} // verus!
