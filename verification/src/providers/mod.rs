//! The sites the workflow can drive, and what each one supplies: its
//! selectors in both selector languages, and the three steps every
//! sequence is built from.

pub mod linkedin;
pub mod seek;

use vstd::prelude::*;
use vstd::string::*;

use crate::pre_fsm::command::{
    Command,
    CommandView,
    FailureRule,
    FailureRuleView,
    Operation,
    OperationView,
};
use crate::selectors::job_desc::{
    linkedin_job_description_selectors,
    linkedin_job_description_table,
    seek_job_description_selectors,
    seek_job_description_table,
    JobDescriptionSelectors,
};
use crate::selectors::job_search::{
    linkedin_job_search_selectors,
    linkedin_job_search_table,
    seek_job_search_selectors,
    seek_job_search_table,
    JobSearchSelectors,
};
use crate::selectors::jobs_list::{
    linkedin_job_listing_selectors,
    linkedin_job_listing_table,
    seek_job_listing_selectors,
    seek_job_listing_table,
    JobListingSelectors,
};
use crate::selectors::login::{
    linkedin_login_selectors,
    linkedin_login_table,
    seek_login_selectors,
    seek_login_table,
    LoginSelectors,
};
use crate::error::{Error, ErrorView};
use crate::states::action::{ActionKind, ActionKindView};
use crate::states::navigate::{
    DescriptionElements,
    JobElements,
    LoginElements,
    ValidElements,
};
use crate::text::lowercased;

pub use linkedin::LinkedInProvider;
pub use seek::SeekProvider;

verus! {

/// The language a selector is written in.
#[derive(Debug, Clone, Copy, PartialEq, Eq, Structural)]
pub enum SelectorKind {
    Css,
    Xpath,
}

/// A site.
#[derive(Debug, Clone, Copy, PartialEq, Eq, Structural)]
pub enum ProviderKind {
    LinkedIn,
    Seek,
}

impl ProviderKind {
    /// The name a site is shown with.
    pub open spec fn display_text(self) -> Seq<char> {
        match self {
            ProviderKind::LinkedIn => "LinkedIn"@,
            ProviderKind::Seek => "Seek"@,
        }
    }

    /// The site that the lowercase name `lower` stands for.
    pub open spec fn named(lower: Seq<char>) -> Option<ProviderKind> {
        if lower == "linkedin"@ {
            Some(ProviderKind::LinkedIn)
        } else if lower == "seek"@ {
            Some(ProviderKind::Seek)
        } else {
            None
        }
    }

    /// The name this site is shown with.
    pub fn to_string(&self) -> (text: String)
        ensures
            text@ == self.display_text(),
    {
        match self {
            ProviderKind::LinkedIn => String::from_str("LinkedIn"),
            ProviderKind::Seek => String::from_str("Seek"),
        }
    }

    /// The site that `lower` names, where `lower` is in lowercase already:
    /// `linkedin` or `seek`, and no other text.
    pub fn from_lowercase(lower: &str) -> (kind: Option<ProviderKind>)
        ensures
            kind == ProviderKind::named(lower@),
    {
        if crate::text::same_text(lower, "linkedin") {
            Some(ProviderKind::LinkedIn)
        } else if crate::text::same_text(lower, "seek") {
            Some(ProviderKind::Seek)
        } else {
            None
        }
    }

    /// The site that `name` names in any mix of upper and lower case, or
    /// `None` where it names no site.
    pub fn parse(name: &str) -> (kind: Option<ProviderKind>)
        ensures
            kind == ProviderKind::named(lowercased(name@)),
    {
        let lower = crate::text::lowercase(name);
        ProviderKind::from_lowercase(lower.as_str())
    }
}

/// The login selectors of `provider` in the language `kind`.
pub open spec fn login_selectors(provider: ProviderKind, kind: SelectorKind) -> LoginSelectors {
    let table = match provider {
        ProviderKind::LinkedIn => linkedin_login_table(),
        ProviderKind::Seek => seek_login_table(),
    };
    match kind {
        SelectorKind::Css => table.css,
        SelectorKind::Xpath => table.xpath,
    }
}

/// The job search selectors of `provider` in the language `kind`.
pub open spec fn job_search_selectors(provider: ProviderKind, kind: SelectorKind) -> JobSearchSelectors {
    let table = match provider {
        ProviderKind::LinkedIn => linkedin_job_search_table(),
        ProviderKind::Seek => seek_job_search_table(),
    };
    match kind {
        SelectorKind::Css => table.css,
        SelectorKind::Xpath => table.xpath,
    }
}

/// The job listing selectors of `provider` in the language `kind`.
pub open spec fn job_listing_selectors(provider: ProviderKind, kind: SelectorKind) -> JobListingSelectors {
    let table = match provider {
        ProviderKind::LinkedIn => linkedin_job_listing_table(),
        ProviderKind::Seek => seek_job_listing_table(),
    };
    match kind {
        SelectorKind::Css => table.css,
        SelectorKind::Xpath => table.xpath,
    }
}

/// The job description selectors of `provider` in the language `kind`.
pub open spec fn job_description_selectors(
    provider: ProviderKind,
    kind: SelectorKind,
) -> JobDescriptionSelectors {
    let table = match provider {
        ProviderKind::LinkedIn => linkedin_job_description_table(),
        ProviderKind::Seek => seek_job_description_table(),
    };
    match kind {
        SelectorKind::Css => table.css,
        SelectorKind::Xpath => table.xpath,
    }
}

/// The step that waits for the one element matching `selector`. Its
/// failure is a generic error that names the selector.
pub open spec fn locate_one(kind: SelectorKind, selector: Seq<char>) -> CommandView {
    CommandView {
        op: OperationView::Locate { kind, selector },
        on_failure: FailureRuleView::Generic {
            prefix: "Element not found for selector '"@ + selector + "': "@,
        },
    }
}

/// The step that takes the elements matching `selector` now. Its failure
/// is a generic error that names the selector.
pub open spec fn locate_many(kind: SelectorKind, selector: Seq<char>) -> CommandView {
    CommandView {
        op: OperationView::LocateAll { kind, selector },
        on_failure: FailureRuleView::Generic {
            prefix: "Elements not found for selector '"@ + selector + "': "@,
        },
    }
}

/// The step that carries out `action` on the element located last. Its
/// failure is a generic error that names the kind of action and what was
/// to be sent; the sequence that runs the step puts the element and the
/// cause behind it.
pub open spec fn act(action: ActionKindView) -> CommandView {
    CommandView {
        op: OperationView::Act(action),
        on_failure: FailureRuleView::Generic {
            prefix: match action {
                ActionKindView::Click => "Failed to click "@,
                ActionKindView::InputText { input } => "Failed to send keys '"@ + input
                    + "' to "@,
                ActionKindView::InputKey { key } => "Failed to send key '"@ + key.name_text()
                    + "' to "@,
            },
        },
    }
}

/// A site's capabilities: what it is, the selectors of each part of the
/// workflow in either selector language, and the steps to locate elements
/// and to act on them.
pub trait Provider {
    /// Which site this is.
    spec fn kind(&self) -> ProviderKind;

    fn name(&self) -> (kind: ProviderKind)
        ensures
            kind == self.kind(),
    ;

    /// The selector languages in the order in which to try them.
    fn preferred_selector_order(&self) -> (order: Vec<SelectorKind>)
        ensures
            order@ == seq![SelectorKind::Xpath, SelectorKind::Css],
    {
        let mut order = Vec::new();
        order.push(SelectorKind::Xpath);
        order.push(SelectorKind::Css);
        order
    }

    /// The step that waits, for a bounded time, for the one element that
    /// matches `selector`.
    fn with_element(&self, kind: SelectorKind, selector: &str) -> (command: Command)
        ensures
            command@ == locate_one(kind, selector@),
    {
        let mut prefix = String::from_str("Element not found for selector '");
        prefix.append(selector);
        prefix.append("': ");
        Command {
            op: Operation::Locate { kind, selector: String::from_str(selector) },
            on_failure: FailureRule::Generic { prefix },
        }
    }

    /// The step that takes the elements that match `selector` now.
    fn with_elements(&self, kind: SelectorKind, selector: &str) -> (command: Command)
        ensures
            command@ == locate_many(kind, selector@),
    {
        let mut prefix = String::from_str("Elements not found for selector '");
        prefix.append(selector);
        prefix.append("': ");
        Command {
            op: Operation::LocateAll { kind, selector: String::from_str(selector) },
            on_failure: FailureRule::Generic { prefix },
        }
    }

    /// The step that carries out `action` on the element located last.
    fn with_action(&self, action: ActionKind) -> (command: Command)
        ensures
            command@ == act(action@),
    {
        let prefix = match &action {
            ActionKind::Click => String::from_str("Failed to click "),
            ActionKind::InputText { input } => {
                let mut prefix = String::from_str("Failed to send keys '");
                prefix.append(input.as_str());
                prefix.append("' to ");
                prefix
            },
            ActionKind::InputKey { key } => {
                let mut prefix = String::from_str("Failed to send key '");
                prefix.append(key.name());
                prefix.append("' to ");
                prefix
            },
        };
        Command { op: Operation::Act(action), on_failure: FailureRule::Generic { prefix } }
    }

    fn get_login_selectors(&self, kind: SelectorKind) -> (selectors: LoginSelectors)
        ensures
            selectors == login_selectors(self.kind(), kind),
    ;

    fn get_job_search_selectors(&self, kind: SelectorKind) -> (selectors: JobSearchSelectors)
        ensures
            selectors == job_search_selectors(self.kind(), kind),
    ;

    fn get_job_listing_selectors(&self, kind: SelectorKind) -> (selectors: JobListingSelectors)
        ensures
            selectors == job_listing_selectors(self.kind(), kind),
    ;

    fn get_job_description_selectors(&self, kind: SelectorKind) -> (selectors:
        JobDescriptionSelectors)
        ensures
            selectors == job_description_selectors(self.kind(), kind),
    ;
}

/// The login selectors of `provider` in the language `kind`.
pub fn login_selectors_of(provider: ProviderKind, kind: SelectorKind) -> (selectors: LoginSelectors)
    ensures
        selectors == login_selectors(provider, kind),
{
    let table = match provider {
        ProviderKind::LinkedIn => linkedin_login_selectors(),
        ProviderKind::Seek => seek_login_selectors(),
    };
    match kind {
        SelectorKind::Css => table.css,
        SelectorKind::Xpath => table.xpath,
    }
}

/// The job search selectors of `provider` in the language `kind`.
pub fn job_search_selectors_of(provider: ProviderKind, kind: SelectorKind) -> (selectors:
    JobSearchSelectors)
    ensures
        selectors == job_search_selectors(provider, kind),
{
    let table = match provider {
        ProviderKind::LinkedIn => linkedin_job_search_selectors(),
        ProviderKind::Seek => seek_job_search_selectors(),
    };
    match kind {
        SelectorKind::Css => table.css,
        SelectorKind::Xpath => table.xpath,
    }
}

/// The job listing selectors of `provider` in the language `kind`.
pub fn job_listing_selectors_of(provider: ProviderKind, kind: SelectorKind) -> (selectors:
    JobListingSelectors)
    ensures
        selectors == job_listing_selectors(provider, kind),
{
    let table = match provider {
        ProviderKind::LinkedIn => linkedin_job_listing_selectors(),
        ProviderKind::Seek => seek_job_listing_selectors(),
    };
    match kind {
        SelectorKind::Css => table.css,
        SelectorKind::Xpath => table.xpath,
    }
}

/// The job description selectors of `provider` in the language `kind`.
pub fn job_description_selectors_of(provider: ProviderKind, kind: SelectorKind) -> (selectors:
    JobDescriptionSelectors)
    ensures
        selectors == job_description_selectors(provider, kind),
{
    let table = match provider {
        ProviderKind::LinkedIn => linkedin_job_description_selectors(),
        ProviderKind::Seek => seek_job_description_selectors(),
    };
    match kind {
        SelectorKind::Css => table.css,
        SelectorKind::Xpath => table.xpath,
    }
}

/// The selector of the part `element` of the page of `provider` in the
/// language `kind`, where the site defines one. The submit button of a
/// job description and the parts of an application form have none.
pub open spec fn selector_of(provider: ProviderKind, kind: SelectorKind, element: ValidElements) -> Option<
    &'static str,
> {
    match element {
        ValidElements::Login(LoginElements::LoginUsername) => Some(
            login_selectors(provider, kind).username_field,
        ),
        ValidElements::Login(LoginElements::LoginPassword) => Some(
            login_selectors(provider, kind).password_field,
        ),
        ValidElements::Job(JobElements::SearchInput) => Some(
            job_search_selectors(provider, kind).search_input,
        ),
        ValidElements::Job(JobElements::Listings) => Some(
            job_listing_selectors(provider, kind).job_card,
        ),
        ValidElements::Job(JobElements::Description(DescriptionElements::ApplyButton)) => Some(
            job_description_selectors(provider, kind).apply_button,
        ),
        ValidElements::Job(JobElements::Description(DescriptionElements::Submit)) => None,
        ValidElements::Application(_) => None,
    }
}

/// The text of the error for a part of the page that the site defines no
/// selector for.
pub open spec fn no_selector_text() -> Seq<char> {
    "the site defines no selector for this part of the page"@
}

/// The selector of the part `element` of the page of `provider` in the
/// language `kind`. A part that the site defines no selector for is an
/// error of the configuration, in either language.
pub fn element_selector(provider: ProviderKind, kind: SelectorKind, element: ValidElements) -> (selector:
    Result<&'static str, Error>)
    ensures
        match selector {
            Ok(text) => selector_of(provider, kind, element) == Some(text),
            Err(error) => selector_of(provider, kind, element) is None && error@
                == ErrorView::StateMachineError(no_selector_text()),
        },
{
    match element {
        ValidElements::Login(LoginElements::LoginUsername) => Ok(
            login_selectors_of(provider, kind).username_field,
        ),
        ValidElements::Login(LoginElements::LoginPassword) => Ok(
            login_selectors_of(provider, kind).password_field,
        ),
        ValidElements::Job(JobElements::SearchInput) => Ok(
            job_search_selectors_of(provider, kind).search_input,
        ),
        ValidElements::Job(JobElements::Listings) => Ok(
            job_listing_selectors_of(provider, kind).job_card,
        ),
        ValidElements::Job(JobElements::Description(DescriptionElements::ApplyButton)) => Ok(
            job_description_selectors_of(provider, kind).apply_button,
        ),
        _ => Err(
            Error::StateMachineError(
                String::from_str("the site defines no selector for this part of the page"),
            ),
        ),
    }
}

/// Whether a part of the page has a selector does not depend on the
/// language: every site defines its selectors in both.
pub proof fn selectors_are_defined_in_both_languages(provider: ProviderKind, element: ValidElements)
    ensures
        selector_of(provider, SelectorKind::Css, element) is Some <==> selector_of(
            provider,
            SelectorKind::Xpath,
            element,
        ) is Some,
{
}

/// Any of the sites, chosen when the program runs.
#[derive(Debug, Clone, Copy, PartialEq, Eq, Structural)]
pub enum SiteProvider {
    LinkedIn(LinkedInProvider),
    Seek(SeekProvider),
}

impl Provider for SiteProvider {
    open spec fn kind(&self) -> ProviderKind {
        match self {
            SiteProvider::LinkedIn(_) => ProviderKind::LinkedIn,
            SiteProvider::Seek(_) => ProviderKind::Seek,
        }
    }

    fn name(&self) -> (kind: ProviderKind) {
        match self {
            SiteProvider::LinkedIn(_) => ProviderKind::LinkedIn,
            SiteProvider::Seek(_) => ProviderKind::Seek,
        }
    }

    fn get_login_selectors(&self, kind: SelectorKind) -> (selectors: LoginSelectors) {
        login_selectors_of(self.name(), kind)
    }

    fn get_job_search_selectors(&self, kind: SelectorKind) -> (selectors: JobSearchSelectors) {
        job_search_selectors_of(self.name(), kind)
    }

    fn get_job_listing_selectors(&self, kind: SelectorKind) -> (selectors: JobListingSelectors) {
        job_listing_selectors_of(self.name(), kind)
    }

    fn get_job_description_selectors(&self, kind: SelectorKind) -> (selectors:
        JobDescriptionSelectors) {
        job_description_selectors_of(self.name(), kind)
    }
}

/// The provider of the site `kind`. Every site has one.
pub fn get_provider(kind: ProviderKind) -> (provider: Option<SiteProvider>)
    ensures
        provider matches Some(p) && p.kind() == kind,
{
    match kind {
        ProviderKind::LinkedIn => Some(SiteProvider::LinkedIn(LinkedInProvider)),
        ProviderKind::Seek => Some(SiteProvider::Seek(SeekProvider)),
    }
}

} // verus!
