//! The append-only event store of scoring events, backed by ClickHouse.
use vstd::prelude::*;

verus! {

/// The ClickHouse client, carried through unread.
#[verifier::external_type_specification]
#[verifier::external_body]
pub struct ExClickHouseClient(clickhouse::Client);

/// Calls `clickhouse::Client::default`. Nothing is stated of the client.
#[verifier::external_body]
fn default_client() -> (res: clickhouse::Client) {
    clickhouse::Client::default()
}

/// The address of the ClickHouse server that a client talks to.
pub uninterp spec fn client_address(client: clickhouse::Client) -> Seq<char>;

/// Calls `clickhouse::Client::with_url`, which stores its argument as the
/// server address of the client (the crate rewrites it only under its
/// `test-util` feature, which is not enabled here). Of the client, only that
/// address is stated.
#[verifier::external_body]
fn client_with_url(client: clickhouse::Client, url: &str) -> (res: clickhouse::Client)
    ensures
        client_address(res) == url@,
{
    client.with_url(url)
}

/// The store of scoring events. Its client is cheap to clone (an internal
/// `Arc`), so the store can be shared between tasks. It keeps the address of
/// the server its client was set to.
pub struct ClickHouseIocEventStore {
    pub client: clickhouse::Client,
    pub url: String,
}

impl ClickHouseIocEventStore {
    /// A store on the ClickHouse server at the HTTP address `url`
    /// (e.g. `http://localhost:8123`).
    pub fn new(url: &str) -> (res: Self)
        ensures
            client_address(res.client) == url@,
            res.url@ == url@,
    {
        let client = client_with_url(default_client(), url);
        ClickHouseIocEventStore { client, url: url.to_owned() }
    }
}

} // verus!
