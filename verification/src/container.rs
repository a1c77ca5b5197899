//! Settings for wiring the application: whether the AI provider and the
//! task systems are mocks, and the credentials of the real ones.

use vstd::prelude::*;

verus! {

/// How the application is wired.
#[derive(Debug, Clone)]
pub struct DiContainerConfig {
    pub use_mock_ai: bool,
    pub use_mock_tasks: bool,
    pub gemini_api_key: Option<String>,
    pub jira_url: Option<String>,
    pub jira_token: Option<String>,
}

impl Default for DiContainerConfig {
    /// Mocks for both, and no credentials.
    fn default() -> (r: Self)
        ensures
            r.use_mock_ai && r.use_mock_tasks,
            r.gemini_api_key is None && r.jira_url is None && r.jira_token is None,
    {
        DiContainerConfig {
            use_mock_ai: true,
            use_mock_tasks: true,
            gemini_api_key: None,
            jira_url: None,
            jira_token: None,
        }
    }
}

} // verus!
