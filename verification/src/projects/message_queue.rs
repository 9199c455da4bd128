use vstd::prelude::*;

verus! {

/// A project's page was viewed.
pub struct ProjectViewed {
    pub id: String,
}

/// What the projects message queue carries.
pub enum Message {
    ProjectViewed(ProjectViewed),
}

impl From<ProjectViewed> for Message {
    fn from(message: ProjectViewed) -> (r: Message) {
        Message::ProjectViewed(message)
    }
}

impl vstd::std_specs::convert::FromSpecImpl<ProjectViewed> for Message {
    open spec fn obeys_from_spec() -> bool {
        true
    }

    open spec fn from_spec(message: ProjectViewed) -> Message {
        Message::ProjectViewed(message)
    }
}

} // verus!
