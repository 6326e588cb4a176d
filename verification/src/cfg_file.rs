//! The configuration records the dashboard is started with: named server
//! endpoints, named query templates, and a log-verbosity level. Loading them
//! from a file is the unverified shell's job; this module holds the records
//! and the name lookups the query executor performs on them.
use vstd::prelude::*;

verus! {

/// A named metrics backend endpoint.
pub struct ServerRef {
    pub name: String,
    pub url: String,
}

/// A named query template; `query` may contain `{{variable}}` placeholders.
pub struct QueryRef {
    pub name: String,
    pub query: String,
}

/// Everything the configuration provider supplies at startup.
pub struct ConfigFile {
    pub log_level: u8,
    pub servers: Vec<ServerRef>,
    pub queries: Vec<QueryRef>,
}

/// The position of the first server whose name is `name`, if any.
pub open spec fn spec_find_server(servers: Seq<ServerRef>, name: Seq<char>) -> Option<int>
    decreases servers.len(),
{
    if servers.len() == 0 {
        None
    } else if servers[0].name@ == name {
        Some(0int)
    } else {
        match spec_find_server(servers.skip(1), name) {
            Some(i) => Some(i + 1),
            None => None,
        }
    }
}

/// The position of the first query whose name is `name`, if any.
pub open spec fn spec_find_query(queries: Seq<QueryRef>, name: Seq<char>) -> Option<int>
    decreases queries.len(),
{
    if queries.len() == 0 {
        None
    } else if queries[0].name@ == name {
        Some(0int)
    } else {
        match spec_find_query(queries.skip(1), name) {
            Some(i) => Some(i + 1),
            None => None,
        }
    }
}

proof fn lemma_find_server_bounds(servers: Seq<ServerRef>, name: Seq<char>)
    ensures
        match spec_find_server(servers, name) {
            Some(i) => 0 <= i < servers.len() && servers[i].name@ == name,
            None => forall|i: int| 0 <= i < servers.len() ==> servers[i].name@ != name,
        },
    decreases servers.len(),
{
    if servers.len() > 0 {
        lemma_find_server_bounds(servers.skip(1), name);
        if spec_find_server(servers.skip(1), name) is None {
            assert forall|i: int| 1 <= i < servers.len()
                implies servers[i].name@ != name by {
                assert(servers.skip(1)[i - 1] == servers[i]);
            }
        }
    }
}

proof fn lemma_find_query_bounds(queries: Seq<QueryRef>, name: Seq<char>)
    ensures
        match spec_find_query(queries, name) {
            Some(i) => 0 <= i < queries.len() && queries[i].name@ == name,
            None => forall|i: int| 0 <= i < queries.len() ==> queries[i].name@ != name,
        },
    decreases queries.len(),
{
    if queries.len() > 0 {
        lemma_find_query_bounds(queries.skip(1), name);
        if spec_find_query(queries.skip(1), name) is None {
            assert forall|i: int| 1 <= i < queries.len()
                implies queries[i].name@ != name by {
                assert(queries.skip(1)[i - 1] == queries[i]);
            }
        }
    }
}

impl ConfigFile {
    /// The index of the first configured server called `name`; `None` exactly
    /// when no server of that name is configured.
    pub fn find_server(&self, name: &String) -> (r: Option<usize>)
        ensures
            match r {
                Some(i) => spec_find_server(self.servers@, name@) == Some(i as int)
                    && i < self.servers@.len() && self.servers@[i as int].name@ == name@,
                None => spec_find_server(self.servers@, name@) is None
                    && forall|i: int| 0 <= i < self.servers@.len()
                        ==> self.servers@[i].name@ != name@,
            },
    {
        proof {
            lemma_find_server_bounds(self.servers@, name@);
            assert(self.servers@.skip(0) =~= self.servers@);
        }
        let n = self.servers.len();
        let mut k: usize = 0;
        while k < n
            invariant
                n == self.servers@.len(),
                k <= n,
                spec_find_server(self.servers@, name@)
                    == match spec_find_server(self.servers@.skip(k as int), name@) {
                        Some(i) => Some(i + k),
                        None => None::<int>,
                    },
            decreases n - k,
        {
            proof {
                assert(self.servers@.skip(k as int)[0] == self.servers@[k as int]);
                assert(self.servers@.skip(k as int).skip(1)
                    =~= self.servers@.skip(k as int + 1));
            }
            if self.servers[k].name == *name {
                return Some(k);
            }
            k = k + 1;
        }
        proof {
            assert(self.servers@.skip(n as int) =~= Seq::<ServerRef>::empty());
        }
        None
    }

    /// The index of the first configured query called `name`; `None` exactly
    /// when no query of that name is configured.
    pub fn find_query(&self, name: &String) -> (r: Option<usize>)
        ensures
            match r {
                Some(i) => spec_find_query(self.queries@, name@) == Some(i as int)
                    && i < self.queries@.len() && self.queries@[i as int].name@ == name@,
                None => spec_find_query(self.queries@, name@) is None
                    && forall|i: int| 0 <= i < self.queries@.len()
                        ==> self.queries@[i].name@ != name@,
            },
    {
        proof {
            lemma_find_query_bounds(self.queries@, name@);
            assert(self.queries@.skip(0) =~= self.queries@);
        }
        let n = self.queries.len();
        let mut k: usize = 0;
        while k < n
            invariant
                n == self.queries@.len(),
                k <= n,
                spec_find_query(self.queries@, name@)
                    == match spec_find_query(self.queries@.skip(k as int), name@) {
                        Some(i) => Some(i + k),
                        None => None::<int>,
                    },
            decreases n - k,
        {
            proof {
                assert(self.queries@.skip(k as int)[0] == self.queries@[k as int]);
                assert(self.queries@.skip(k as int).skip(1)
                    =~= self.queries@.skip(k as int + 1));
            }
            if self.queries[k].name == *name {
                return Some(k);
            }
            k = k + 1;
        }
        proof {
            assert(self.queries@.skip(n as int) =~= Seq::<QueryRef>::empty());
        }
        None
    }
}

} // verus!
