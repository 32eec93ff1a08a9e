//! Where and as whom to log in.

use vstd::prelude::*;
use vstd::string::*;

verus! {

#[derive(Debug, Clone, PartialEq, Eq)]
pub struct LoginConfig {
    pub provider: String,
    pub login_url: String,
    pub username: String,
    pub password: String,
}

pub struct LoginConfigView {
    pub provider: Seq<char>,
    pub login_url: Seq<char>,
    pub username: Seq<char>,
    pub password: Seq<char>,
}

impl View for LoginConfig {
    type V = LoginConfigView;

    open spec fn view(&self) -> LoginConfigView {
        LoginConfigView {
            provider: self.provider@,
            login_url: self.login_url@,
            username: self.username@,
            password: self.password@,
        }
    }
}

impl LoginConfigView {
    /// The login section that stands in for values nobody has set yet.
    pub open spec fn placeholder() -> LoginConfigView {
        LoginConfigView {
            provider: "linkedin"@,
            login_url: "put_login_url_here"@,
            username: "your_username_here"@,
            password: "your_password_here"@,
        }
    }

    /// The login section made of values found in the environment.
    pub open spec fn from_environment(
        username: Seq<char>,
        password: Seq<char>,
        login_url: Seq<char>,
    ) -> LoginConfigView {
        LoginConfigView { provider: "the_job_portal_provider"@, login_url, username, password }
    }
}

impl LoginConfig {
    pub fn new(provider: String, username: String, password: String, login_url: String) -> (config:
        LoginConfig)
        ensures
            config@ == (LoginConfigView {
                provider: provider@,
                login_url: login_url@,
                username: username@,
                password: password@,
            }),
    {
        LoginConfig { provider, username, password, login_url }
    }

    /// The login section to start from, given what the environment holds
    /// for the user name, the password and the login address. All three
    /// are taken where all three are set; where one is missing none is
    /// taken, and the section holds placeholders.
    pub fn from_environment(
        username: Option<String>,
        password: Option<String>,
        login_url: Option<String>,
    ) -> (config: LoginConfig)
        ensures
            config@ == match (username, password, login_url) {
                (Some(u), Some(p), Some(l)) => LoginConfigView::from_environment(u@, p@, l@),
                _ => LoginConfigView::placeholder(),
            },
    {
        match (username, password, login_url) {
            (Some(username), Some(password), Some(login_url)) => LoginConfig::new(
                String::from_str("the_job_portal_provider"),
                username,
                password,
                login_url,
            ),
            _ => LoginConfig::new(
                String::from_str("linkedin"),
                String::from_str("your_username_here"),
                String::from_str("your_password_here"),
                String::from_str("put_login_url_here"),
            ),
        }
    }
}

} // verus!
