//! The database the service reads its records from: where it is and how many
//! connections it may hold.

use vstd::prelude::*;

use crate::text::to_owned_string;

verus! {

/// The address and size of the database connection pool.
#[derive(Debug)]
pub struct RWDatabase {
    url: String,
    channel: usize,
}

/// The connection URL of a PostgreSQL database.
pub open spec fn database_url(user: Seq<char>, password: Seq<char>, host: Seq<char>, port: Seq<char>, database: Seq<char>) -> Seq<char> {
    "postgres://"@ + user + ":"@ + password + "@"@ + host + ":"@ + port + "/"@ + database
}

impl RWDatabase {
    /// The connection URL.
    pub closed spec fn spec_url(&self) -> Seq<char> {
        self.url@
    }

    /// The most connections the pool may hold.
    pub closed spec fn spec_channel(&self) -> usize {
        self.channel
    }

    /// The database `database` on `host:port`, reached as `user` with
    /// `password`, with a pool of at most `channel` connections.
    pub fn new(user: &str, password: &str, host: &str, port: &str, database: &str, channel: usize) -> (r: Self)
        ensures
            r.spec_url() == database_url(user@, password@, host@, port@, database@),
            r.spec_channel() == channel,
    {
        let mut url = to_owned_string("postgres://");
        url.append(user);
        url.append(":");
        url.append(password);
        url.append("@");
        url.append(host);
        url.append(":");
        url.append(port);
        url.append("/");
        url.append(database);
        proof {
            reveal_strlit("postgres://");
            reveal_strlit(":");
            reveal_strlit("@");
            reveal_strlit("/");
        }
        assert(url@ =~= database_url(user@, password@, host@, port@, database@));
        RWDatabase { url: url, channel: channel }
    }

    /// The connection URL.
    pub fn url(&self) -> (r: &str)
        ensures
            r@ == self.spec_url(),
    {
        self.url.as_str()
    }

    /// The most connections the pool may hold.
    pub fn channel(&self) -> (r: usize)
        ensures
            r == self.spec_channel(),
    {
        self.channel
    }
}

} // verus!
