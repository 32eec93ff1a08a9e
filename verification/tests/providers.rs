use jobflow::error::Error;
use jobflow::pre_fsm::{Command, FailureRule, Operation};
use jobflow::providers::{
    element_selector, get_provider, job_description_selectors_of, job_listing_selectors_of, job_search_selectors_of,
    login_selectors_of, LinkedInProvider, Provider, ProviderKind, SeekProvider, SelectorKind,
    SiteProvider,
};
use jobflow::selectors::job_desc::{linkedin_job_description_selectors, seek_job_description_selectors};
use jobflow::selectors::job_search::{linkedin_job_search_selectors, seek_job_search_selectors};
use jobflow::selectors::jobs_list::{linkedin_job_listing_selectors, seek_job_listing_selectors};
use jobflow::selectors::login::{linkedin_login_selectors, seek_login_selectors};
use jobflow::states::{
    ActionKind, ApplicationElements, DescriptionElements, JobElements, Key, LoginElements,
    ValidElements,
};

#[test]
fn provider_names_are_shown_in_mixed_case() {
    assert_eq!(ProviderKind::LinkedIn.to_string(), "LinkedIn");
    assert_eq!(ProviderKind::Seek.to_string(), "Seek");
}

#[test]
fn provider_is_parsed_whatever_the_case() {
    assert_eq!(ProviderKind::parse("linkedin"), Some(ProviderKind::LinkedIn));
    assert_eq!(ProviderKind::parse("LinkedIn"), Some(ProviderKind::LinkedIn));
    assert_eq!(ProviderKind::parse("LINKEDIN"), Some(ProviderKind::LinkedIn));
    assert_eq!(ProviderKind::parse("Seek"), Some(ProviderKind::Seek));
    assert_eq!(ProviderKind::parse("seek"), Some(ProviderKind::Seek));
}

#[test]
fn unknown_provider_is_none() {
    assert_eq!(ProviderKind::parse("indeed"), None);
    assert_eq!(ProviderKind::parse(""), None);
    assert_eq!(ProviderKind::parse(" linkedin"), None);
    assert_eq!(ProviderKind::parse("the_job_portal_provider"), None);
}

#[test]
fn provider_from_lowercase_is_exact() {
    assert_eq!(ProviderKind::from_lowercase("linkedin"), Some(ProviderKind::LinkedIn));
    assert_eq!(ProviderKind::from_lowercase("seek"), Some(ProviderKind::Seek));
    assert_eq!(ProviderKind::from_lowercase("LinkedIn"), None);
    assert_eq!(ProviderKind::from_lowercase("Seek"), None);
}

#[test]
fn parse_lowercases_as_unicode_does() {
    // The Kelvin sign is an uppercase letter whose lowercase form is the letter k.
    assert_eq!(ProviderKind::parse("LIN\u{212A}EDIN"), Some(ProviderKind::LinkedIn));
    assert_eq!(ProviderKind::parse("SEE\u{212A}"), Some(ProviderKind::Seek));
}

#[test]
fn linkedin_provider_is_parsed_from_its_name_only() {
    assert_eq!(LinkedInProvider::parse("LinkedIn"), Some(LinkedInProvider));
    assert_eq!(LinkedInProvider::parse("linkedin"), Some(LinkedInProvider));
    assert_eq!(LinkedInProvider::parse("seek"), None);
    assert_eq!(LinkedInProvider::from_lowercase("linkedin"), Some(LinkedInProvider));
    assert_eq!(LinkedInProvider::from_lowercase("LinkedIn"), None);
}

#[test]
fn every_site_has_a_provider() {
    let linkedin = get_provider(ProviderKind::LinkedIn);
    assert_eq!(linkedin, Some(SiteProvider::LinkedIn(LinkedInProvider)));
    assert_eq!(linkedin.unwrap().name(), ProviderKind::LinkedIn);
    let seek = get_provider(ProviderKind::Seek);
    assert_eq!(seek, Some(SiteProvider::Seek(SeekProvider)));
    assert_eq!(seek.unwrap().name(), ProviderKind::Seek);
}

#[test]
fn providers_say_which_site_they_are() {
    assert_eq!(LinkedInProvider.name(), ProviderKind::LinkedIn);
    assert_eq!(SeekProvider.name(), ProviderKind::Seek);
}

#[test]
fn xpath_is_tried_before_css() {
    assert_eq!(LinkedInProvider.preferred_selector_order(), vec![SelectorKind::Xpath, SelectorKind::Css]);
    assert_eq!(SeekProvider.preferred_selector_order(), vec![SelectorKind::Xpath, SelectorKind::Css]);
}

#[test]
fn linkedin_login_selectors_in_both_languages() {
    let xpath = LinkedInProvider.get_login_selectors(SelectorKind::Xpath);
    assert_eq!(xpath.failed_attempt_indicator, "//div[@id='error-for-username']");
    assert_eq!(xpath.username_field, "//input[@id='username']");
    assert_eq!(xpath.password_field, "//input[@id='password']");
    assert_eq!(xpath.submit_button, "//button[@type='submit']");
    let css = LinkedInProvider.get_login_selectors(SelectorKind::Css);
    assert_eq!(css.failed_attempt_indicator, "div#error-for-username");
    assert_eq!(css.username_field, "input#username");
    assert_eq!(css.password_field, "input#password");
    assert_eq!(css.submit_button, "button[type='submit']");
}

#[test]
fn linkedin_job_search_selectors_in_both_languages() {
    let xpath = LinkedInProvider.get_job_search_selectors(SelectorKind::Xpath);
    assert_eq!(xpath.jobs_button, "//a[@data-view-name='navigation-jobs']");
    assert_eq!(xpath.search_input, "//input[@componentkey='jobSearchBox']");
    assert_eq!(xpath.location_input, "//input[@aria-label='Location']");
    assert_eq!(xpath.search_button, "//button[@aria-label='Search']");
    assert_eq!(xpath.filter_button, "//button[contains(@class, 'filter-button')]");
    assert_eq!(xpath.remote_filter, "//label[contains(., 'Remote')]//input[@type='checkbox']");
    assert_eq!(xpath.date_posted_filter, "//label[contains(., 'Past 24 hours')]//input[@type='checkbox']");
    let css = LinkedInProvider.get_job_search_selectors(SelectorKind::Css);
    assert_eq!(css.jobs_button, "a[data-view-name='navigation-jobs']");
    assert_eq!(css.search_input, "input[aria-label='Search jobs']");
    assert_eq!(css.location_input, "input[aria-label='Location']");
    assert_eq!(css.search_button, "button[aria-label='Search']");
    assert_eq!(css.filter_button, "button.filter-button");
    assert_eq!(css.remote_filter, "label:contains('Remote') input[type='checkbox']");
    assert_eq!(css.date_posted_filter, "label:contains('Past 24 hours') input[type='checkbox']");
}

#[test]
fn seek_job_search_selectors_differ_from_linkedin() {
    let xpath = SeekProvider.get_job_search_selectors(SelectorKind::Xpath);
    assert_eq!(xpath.jobs_button, "//a[@aria-label='Jobs']");
    assert_eq!(xpath.search_input, "//input[@id='search-field']");
    assert_eq!(xpath.location_input, "//input[@id='location-field']");
    assert_eq!(xpath.search_button, "//button[@id='search-button']");
    let css = SeekProvider.get_job_search_selectors(SelectorKind::Css);
    assert_eq!(css.jobs_button, "a[aria-label='Jobs']");
    assert_eq!(css.search_input, "input#search-field");
    assert_eq!(css.location_input, "input#location-field");
    assert_eq!(css.search_button, "button#search-button");
}

#[test]
fn job_listing_selectors_in_both_languages() {
    let xpath = LinkedInProvider.get_job_listing_selectors(SelectorKind::Xpath);
    assert_eq!(xpath.job_card, "//div[contains(@class, 'job-card-container')]");
    assert_eq!(xpath.easy_apply_button, "//button[contains(@class, 'easy-apply-button')]");
    assert_eq!(xpath.applied_badge, "//span[contains(@class, 'applied-badge')]");
    assert_eq!(xpath.job_closed_indicator, "//span[contains(@class, 'job-closed-indicator')]");
    let css = SeekProvider.get_job_listing_selectors(SelectorKind::Css);
    assert_eq!(css.job_card, "div.job-card-container");
    assert_eq!(css.easy_apply_button, "button.easy-apply-button");
    assert_eq!(css.applied_badge, "span.applied-badge");
    assert_eq!(css.job_closed_indicator, "span.job-closed-indicator");
}

#[test]
fn job_description_selectors_in_both_languages() {
    let xpath = LinkedInProvider.get_job_description_selectors(SelectorKind::Xpath);
    assert_eq!(xpath.job_title, "//h1[contains(@class, 'topcard__title')]");
    assert_eq!(xpath.company_name, "//a[contains(@class, 'topcard__org-name-link')]");
    assert_eq!(xpath.location, "//span[contains(@class, 'topcard__flavor--bullet')]");
    assert_eq!(xpath.job_description, "//div[contains(@class, 'description__text')]");
    assert_eq!(xpath.apply_button, "//button[contains(@class, 'apply-button')]");
    assert_eq!(xpath.save_button, "//button[contains(@class, 'save-button')]");
    let css = SeekProvider.get_job_description_selectors(SelectorKind::Css);
    assert_eq!(css.job_title, "h1.job-title");
    assert_eq!(css.company_name, "a.company-name");
    assert_eq!(css.location, "span.job-location");
    assert_eq!(css.job_description, "div.job-description");
    assert_eq!(css.apply_button, "button.apply-now-button");
    assert_eq!(css.save_button, "button.save-job-button");
}

#[test]
fn every_site_defines_every_selector_in_both_languages() {
    for provider in [ProviderKind::LinkedIn, ProviderKind::Seek] {
        for kind in [SelectorKind::Css, SelectorKind::Xpath] {
            let login = login_selectors_of(provider, kind);
            for text in [login.failed_attempt_indicator, login.username_field, login.password_field, login.submit_button] {
                assert!(!text.is_empty());
                assert_eq!(text.starts_with("//"), kind == SelectorKind::Xpath);
            }
            let search = job_search_selectors_of(provider, kind);
            for text in [
                search.jobs_button, search.search_input, search.location_input, search.search_button,
                search.filter_button, search.remote_filter, search.date_posted_filter,
            ] {
                assert!(!text.is_empty());
                assert_eq!(text.starts_with("//"), kind == SelectorKind::Xpath);
            }
            let listing = job_listing_selectors_of(provider, kind);
            for text in [listing.job_card, listing.easy_apply_button, listing.applied_badge, listing.job_closed_indicator] {
                assert!(!text.is_empty());
                assert_eq!(text.starts_with("//"), kind == SelectorKind::Xpath);
            }
            let description = job_description_selectors_of(provider, kind);
            for text in [
                description.job_title, description.company_name, description.location,
                description.job_description, description.apply_button, description.save_button,
            ] {
                assert!(!text.is_empty());
                assert_eq!(text.starts_with("//"), kind == SelectorKind::Xpath);
            }
        }
    }
}

#[test]
fn tables_and_providers_agree() {
    assert_eq!(linkedin_login_selectors().css, LinkedInProvider.get_login_selectors(SelectorKind::Css));
    assert_eq!(linkedin_login_selectors().xpath, LinkedInProvider.get_login_selectors(SelectorKind::Xpath));
    assert_eq!(seek_login_selectors().css, SeekProvider.get_login_selectors(SelectorKind::Css));
    assert_eq!(seek_login_selectors().xpath, SeekProvider.get_login_selectors(SelectorKind::Xpath));
    assert_eq!(linkedin_job_search_selectors().xpath, LinkedInProvider.get_job_search_selectors(SelectorKind::Xpath));
    assert_eq!(seek_job_search_selectors().css, SeekProvider.get_job_search_selectors(SelectorKind::Css));
    assert_eq!(linkedin_job_listing_selectors().css, LinkedInProvider.get_job_listing_selectors(SelectorKind::Css));
    assert_eq!(seek_job_listing_selectors().xpath, SeekProvider.get_job_listing_selectors(SelectorKind::Xpath));
    assert_eq!(linkedin_job_description_selectors().xpath, LinkedInProvider.get_job_description_selectors(SelectorKind::Xpath));
    assert_eq!(seek_job_description_selectors().css, SeekProvider.get_job_description_selectors(SelectorKind::Css));
    let any = SiteProvider::Seek(SeekProvider);
    assert_eq!(any.get_login_selectors(SelectorKind::Css), seek_login_selectors().css);
    assert_eq!(any.get_job_search_selectors(SelectorKind::Xpath), seek_job_search_selectors().xpath);
    assert_eq!(any.get_job_listing_selectors(SelectorKind::Css), seek_job_listing_selectors().css);
    assert_eq!(any.get_job_description_selectors(SelectorKind::Xpath), seek_job_description_selectors().xpath);
}

#[test]
fn with_element_waits_for_one_and_names_the_selector_on_failure() {
    let command = LinkedInProvider.with_element(SelectorKind::Css, "input#username");
    assert_eq!(
        command,
        Command {
            op: Operation::Locate { kind: SelectorKind::Css, selector: String::from("input#username") },
            on_failure: FailureRule::Generic {
                prefix: String::from("Element not found for selector 'input#username': "),
            },
        }
    );
    assert_eq!(
        command.on_failure.error("timeout").to_string(),
        "Generic error handler: Element not found for selector 'input#username': timeout"
    );
}

#[test]
fn with_elements_takes_what_is_there_and_names_the_selector_on_failure() {
    let command = SeekProvider.with_elements(SelectorKind::Xpath, "//div");
    assert_eq!(
        command,
        Command {
            op: Operation::LocateAll { kind: SelectorKind::Xpath, selector: String::from("//div") },
            on_failure: FailureRule::Generic { prefix: String::from("Elements not found for selector '//div': ") },
        }
    );
}

#[test]
fn with_action_names_the_kind_of_action_on_failure() {
    let click = LinkedInProvider.with_action(ActionKind::Click);
    assert_eq!(click.op, Operation::Act(ActionKind::Click));
    assert_eq!(click.on_failure, FailureRule::Generic { prefix: String::from("Failed to click ") });

    let text = LinkedInProvider.with_action(ActionKind::InputText { input: String::from("rust") });
    assert_eq!(text.op, Operation::Act(ActionKind::InputText { input: String::from("rust") }));
    assert_eq!(text.on_failure, FailureRule::Generic { prefix: String::from("Failed to send keys 'rust' to ") });

    let key = LinkedInProvider.with_action(ActionKind::InputKey { key: Key::Enter });
    assert_eq!(key.op, Operation::Act(ActionKind::InputKey { key: Key::Enter }));
    assert_eq!(key.on_failure, FailureRule::Generic { prefix: String::from("Failed to send key 'Enter' to ") });
}

#[test]
fn key_names_are_their_variant_names() {
    assert_eq!(Key::Enter.name(), "Enter");
    assert_eq!(Key::Tab.name(), "Tab");
    assert_eq!(Key::PageDown.name(), "PageDown");
    assert_eq!(Key::NumPad7.name(), "NumPad7");
    assert_eq!(Key::F12.name(), "F12");
    assert_eq!(format!("{:?}", Key::Escape), Key::Escape.name());
    assert_eq!(format!("{:?}", Key::Command), Key::Command.name());
}

#[test]
fn parts_of_the_page_that_have_a_selector() {
    let cases = [
        (ValidElements::Login(LoginElements::LoginUsername), "input#username", "//input[@id='username']"),
        (ValidElements::Login(LoginElements::LoginPassword), "input#password", "//input[@id='password']"),
        (
            ValidElements::Job(JobElements::SearchInput),
            "input[aria-label='Search jobs']",
            "//input[@componentkey='jobSearchBox']",
        ),
        (
            ValidElements::Job(JobElements::Listings),
            "div.job-card-container",
            "//div[contains(@class, 'job-card-container')]",
        ),
        (
            ValidElements::Job(JobElements::Description(DescriptionElements::ApplyButton)),
            "button.apply-button",
            "//button[contains(@class, 'apply-button')]",
        ),
    ];
    for (element, css, xpath) in cases {
        assert_eq!(element_selector(ProviderKind::LinkedIn, SelectorKind::Css, element), Ok(css));
        assert_eq!(element_selector(ProviderKind::LinkedIn, SelectorKind::Xpath, element), Ok(xpath));
    }
    assert_eq!(
        element_selector(
            ProviderKind::Seek,
            SelectorKind::Css,
            ValidElements::Job(JobElements::Description(DescriptionElements::ApplyButton))
        ),
        Ok("button.apply-now-button")
    );
}

#[test]
fn part_of_the_page_without_a_selector_is_an_error_not_a_panic() {
    let missing = [
        ValidElements::Job(JobElements::Description(DescriptionElements::Submit)),
        ValidElements::Application(ApplicationElements::BulletPoint),
        ValidElements::Application(ApplicationElements::TextField),
        ValidElements::Application(ApplicationElements::NumberField),
        ValidElements::Application(ApplicationElements::TickBox),
        ValidElements::Application(ApplicationElements::ResumeUpload),
        ValidElements::Application(ApplicationElements::FollowCompanyTickBox),
    ];
    for provider in [ProviderKind::LinkedIn, ProviderKind::Seek] {
        for kind in [SelectorKind::Css, SelectorKind::Xpath] {
            for element in missing {
                assert_eq!(
                    element_selector(provider, kind, element),
                    Err(Error::StateMachineError(String::from(
                        "the site defines no selector for this part of the page"
                    )))
                );
            }
        }
    }
}
