use vstd::prelude::*;

verus! {

/// What a request context holds, as mathematical values.
pub struct ContextView {
    pub user_id: i32,
    pub username: Seq<char>,
}

/// The signed-in user on whose behalf a request runs.
#[derive(Clone, Debug)]
pub struct Context {
    user_id: i32,
    username: String,
}

impl View for Context {
    type V = ContextView;

    closed spec fn view(&self) -> ContextView {
        ContextView { user_id: self.user_id, username: self.username@ }
    }
}

impl Context {
    pub fn new(user_id: i32, username: &str) -> (ctx: Self)
        ensures
            ctx@.user_id == user_id,
            ctx@.username == username@,
    {
        Context { user_id, username: username.to_owned() }
    }

    pub fn user_id(&self) -> (id: i32)
        ensures
            id == self@.user_id,
    {
        self.user_id
    }

    pub fn username(&self) -> (name: &str)
        ensures
            name@ == self@.username,
    {
        self.username.as_str()
    }
}

} // verus!
