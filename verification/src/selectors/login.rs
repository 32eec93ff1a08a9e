//! Selectors of the login form.

use vstd::prelude::*;

verus! {

#[derive(Debug, Clone, Copy, PartialEq, Eq)]
pub struct LoginSelectors {
    pub failed_attempt_indicator: &'static str,
    pub username_field: &'static str,
    pub password_field: &'static str,
    pub submit_button: &'static str,
}

/// The same selectors in both selector languages.
#[derive(Debug, Clone, Copy, PartialEq, Eq)]
pub struct LoginSelectorAgg {
    pub css: LoginSelectors,
    pub xpath: LoginSelectors,
}

/// What LinkedIn calls the parts of its login form.
pub open spec fn linkedin_login_table() -> LoginSelectorAgg {
    LoginSelectorAgg {
        css: LoginSelectors {
            failed_attempt_indicator: "div#error-for-username",
            username_field: "input#username",
            password_field: "input#password",
            submit_button: "button[type='submit']",
        },
        xpath: LoginSelectors {
            failed_attempt_indicator: "//div[@id='error-for-username']",
            username_field: "//input[@id='username']",
            password_field: "//input[@id='password']",
            submit_button: "//button[@type='submit']",
        },
    }
}

pub fn linkedin_login_selectors() -> (table: LoginSelectorAgg)
    ensures
        table == linkedin_login_table(),
{
    LoginSelectorAgg {
        css: LoginSelectors {
            failed_attempt_indicator: "div#error-for-username",
            username_field: "input#username",
            password_field: "input#password",
            submit_button: "button[type='submit']",
        },
        xpath: LoginSelectors {
            failed_attempt_indicator: "//div[@id='error-for-username']",
            username_field: "//input[@id='username']",
            password_field: "//input[@id='password']",
            submit_button: "//button[@type='submit']",
        },
    }
}

/// What Seek calls the parts of its login form.
pub open spec fn seek_login_table() -> LoginSelectorAgg {
    LoginSelectorAgg {
        css: LoginSelectors {
            failed_attempt_indicator: "div#error-for-username",
            username_field: "input#username",
            password_field: "input#password",
            submit_button: "button[type='submit']",
        },
        xpath: LoginSelectors {
            failed_attempt_indicator: "//div[@id='error-for-username']",
            username_field: "//input[@id='username']",
            password_field: "//input[@id='password']",
            submit_button: "//button[@type='submit']",
        },
    }
}

pub fn seek_login_selectors() -> (table: LoginSelectorAgg)
    ensures
        table == seek_login_table(),
{
    LoginSelectorAgg {
        css: LoginSelectors {
            failed_attempt_indicator: "div#error-for-username",
            username_field: "input#username",
            password_field: "input#password",
            submit_button: "button[type='submit']",
        },
        xpath: LoginSelectors {
            failed_attempt_indicator: "//div[@id='error-for-username']",
            username_field: "//input[@id='username']",
            password_field: "//input[@id='password']",
            submit_button: "//button[@type='submit']",
        },
    }
}

} // verus!
