//! The state that the login form works on.

use vstd::prelude::*;
use crate::api::NextAPIClient;
use crate::api::json_object_text;
use crate::api::login_members;
use crate::api::login_post;
use crate::flow::LoginFlow;
use crate::flow::Submission;
use crate::flow::initial;
use crate::flow::submitted;

verus! {

/// The login flow together with the two fields of the login form.
#[derive(Debug)]
pub struct ApplicationState {
    /// The flow, and in it the token cell.
    pub flow: LoginFlow,
    /// The e-mail address as typed so far.
    pub username: String,
    /// The password as typed so far.
    pub password: String,
}

impl ApplicationState {
    /// The state at start: the form filled with the given texts, the flow
    /// in its initial state.
    pub fn new(username: String, password: String) -> (state: ApplicationState)
        ensures
            state.flow@ == initial(),
            state.username@ == username@,
            state.password@ == password@,
    {
        ApplicationState { flow: LoginFlow::new(), username, password }
    }

    /// Submits the form: starts a login with the two fields as they stand.
    /// The fields are read, not changed. See `LoginFlow::submit`.
    pub fn submit(&mut self, client: &NextAPIClient) -> (submission: Option<Submission>)
        ensures
            final(self).username@ == old(self).username@,
            final(self).password@ == old(self).password@,
            old(self).flow@.latest < u64::MAX ==> {
                &&& final(self).flow@ == submitted(old(self).flow@)
                &&& submission is Some
                &&& submission->0.id == final(self).flow@.latest
                &&& submission->0.request@ == login_post(
                    client.url@,
                    json_object_text(login_members(old(self).username@, old(self).password@)),
                )
            },
            old(self).flow@.latest >= u64::MAX ==> submission is None && final(self).flow@ == old(
                self,
            ).flow@,
    {
        self.flow.submit(client, self.username.as_str(), self.password.as_str())
    }

    /// Whether the login form is to be shown: as long as the cell holds no
    /// session.
    pub fn shows_login_form(&self) -> (shown: bool)
        ensures
            shown == (self.flow@.token.len() == 0),
    {
        !self.flow.is_authenticated()
    }
}

} // verus!
