//! Process configuration as an explicit immutable value: remote endpoint
//! URLs, credentials and the fixed destination-project identifier.  The
//! surrounding process loads it once and passes it in; nothing here reads
//! ambient state.

use vstd::prelude::*;

verus! {

/// The whole configuration the synchronization core needs.
#[derive(Debug, Clone)]
pub struct Config {
    pub jira: JiraConfig,
    pub zammad: ZammadConfig,
    pub db_path: String,
}

/// Target-system (issue tracker) endpoint and credentials.
#[derive(Debug, Clone)]
pub struct JiraConfig {
    pub endpoint: String,
    pub username: String,
    pub token: String,
    pub project_id: i32,
}

/// Source-system (helpdesk) endpoint and credentials.
#[derive(Debug, Clone)]
pub struct ZammadConfig {
    pub endpoint: String,
    pub token: String,
    pub group: String,
    pub customer: String,
}

impl Config {
    /// The target-system section.
    pub fn get_jira(&self) -> (r: &JiraConfig)
        ensures
            *r == self.jira,
    {
        &self.jira
    }

    /// The source-system section.
    pub fn get_zammad(&self) -> (r: &ZammadConfig)
        ensures
            *r == self.zammad,
    {
        &self.zammad
    }
}

impl JiraConfig {
    /// The target API's base URL.
    pub fn get_jira_url(&self) -> (r: String)
        ensures
            r@ == self.endpoint@,
    {
        self.endpoint.clone()
    }

    /// The username and token for basic authentication.
    pub fn get_jira_credentials(&self) -> (r: (String, String))
        ensures
            r.0@ == self.username@,
            r.1@ == self.token@,
    {
        (self.username.clone(), self.token.clone())
    }

    /// The fixed destination project for created issues.
    pub fn get_jira_project(&self) -> (r: i32)
        ensures
            r == self.project_id,
    {
        self.project_id
    }
}

impl ZammadConfig {
    /// The source API's base URL.
    pub fn get_zammad_url(&self) -> (r: String)
        ensures
            r@ == self.endpoint@,
    {
        self.endpoint.clone()
    }

    /// The token for token authentication.
    pub fn get_zammad_token(&self) -> (r: String)
        ensures
            r@ == self.token@,
    {
        self.token.clone()
    }
}

} // verus!
