use vstd::prelude::*;

verus! {

/// The outside HTTP client that requests to the REST service go through.
#[verifier::external_type_specification]
#[verifier::external_body]
pub struct ExClient(reqwest::Client);

/// A to-do entry as the REST service lists it.
#[derive(Clone, Debug)]
pub struct Todo {
    pub id: i64,
    pub task: String,
    pub status: String,
}

/// A client of a Supabase project's REST interface.
pub struct SupabaseClient {
    url: String,
    key: String,
    client: reqwest::Client,
}

impl SupabaseClient {
    /// A client of the project at `url`, authorised by the service key `key`.
    pub fn new(url: String, key: String, client: reqwest::Client) -> (r: SupabaseClient)
        ensures
            r.url() == url@,
            r.key() == key@,
    {
        SupabaseClient { url, key, client }
    }

    /// The project's base URL.
    pub closed spec fn url(&self) -> Seq<char> {
        self.url@
    }

    /// The service key.
    pub closed spec fn key(&self) -> Seq<char> {
        self.key@
    }

    /// The endpoint that lists the to-do entries.
    pub fn todos_endpoint(&self) -> (r: String)
        ensures
            r@ == self.url() + "/rest/v1/todos"@,
    {
        self.url.clone().concat("/rest/v1/todos")
    }

    /// The value of the `apikey` header: the service key.
    pub fn api_key(&self) -> (r: &str)
        ensures
            r@ == self.key(),
    {
        self.key.as_str()
    }

    /// The value of the `Authorization` header: the service key as a bearer token.
    pub fn bearer_token(&self) -> (r: String)
        ensures
            r@ == "Bearer "@ + self.key(),
    {
        String::from_str("Bearer ").concat(self.key.as_str())
    }

    /// The HTTP client that requests go through.
    pub fn client(&self) -> &reqwest::Client {
        &self.client
    }
}

} // verus!
