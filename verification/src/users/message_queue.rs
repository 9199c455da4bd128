use vstd::prelude::*;

verus! {

/// A user's profile was viewed.
pub struct UserViewed {
    pub id: String,
}

/// What the users message queue carries.
pub enum Message {
    UserViewed(UserViewed),
}

impl From<UserViewed> for Message {
    fn from(message: UserViewed) -> (r: Message) {
        Message::UserViewed(message)
    }
}

impl vstd::std_specs::convert::FromSpecImpl<UserViewed> for Message {
    open spec fn obeys_from_spec() -> bool {
        true
    }

    open spec fn from_spec(message: UserViewed) -> Message {
        Message::UserViewed(message)
    }
}

} // verus!
