//! NocoDB client core: the endpoint address a bulk insert posts to, and
//! the uniform per-chunk verdict over what the endpoint answered.  The
//! network call itself lives outside the verified core; it hands back
//! the response status, the parsed identifier list when the body parsed,
//! and the raw body text.

use vstd::prelude::*;

use crate::pool::UploadOutcome;

verus! {

/// Connection half of the NocoDB client: where to post and with which
/// token.
#[derive(Debug)]
pub struct NocoDB {
    pub base_url: String,
    pub api_key: String,
}

impl NocoDB {
    /// A client for the given server and token.
    pub fn new(base_url: String, api_key: String) -> (r: NocoDB)
        ensures
            r.base_url@ == base_url@,
            r.api_key@ == api_key@,
    {
        NocoDB { base_url, api_key }
    }

    /// The bulk-record endpoint for a table on this server.
    pub fn records_url(&self, table_id: &str) -> (r: String)
        ensures
            r@ == self.base_url@ + "/api/v2/tables/"@ + table_id@ + "/records"@,
    {
        let mut u = self.base_url.clone();
        u.append("/api/v2/tables/");
        u.append(table_id);
        u.append("/records");
        proof {
            assert(u@ =~= self.base_url@ + "/api/v2/tables/"@ + table_id@ + "/records"@);
        }
        u
    }
}

impl Default for NocoDB {
    /// A client with no server and no token configured yet.
    fn default() -> (r: NocoDB)
        ensures
            r.base_url@ == Seq::<char>::empty(),
            r.api_key@ == Seq::<char>::empty(),
    {
        NocoDB { base_url: String::new(), api_key: String::new() }
    }
}

/// A request is the atomic unit: the chunk is accepted exactly when the
/// status is a success status and the response body parsed into the
/// identifier list; any other answer rejects the whole chunk, with the
/// status and the body kept as diagnostic context.
pub fn classify_response(status: u16, ids: Option<Vec<i32>>, body: String) -> (r: UploadOutcome)
    ensures
        200 <= status < 300 && ids is Some ==> (r matches UploadOutcome::Accepted { ids: got }
            && got@ == ids->0@),
        !(200 <= status < 300) || ids is None ==> (r matches UploadOutcome::Rejected {
            status: s,
            body: b,
        } && s == status && b@ == body@),
{
    if 200 <= status && status < 300 {
        match ids {
            Some(got) => UploadOutcome::Accepted { ids: got },
            None => UploadOutcome::Rejected { status, body },
        }
    } else {
        UploadOutcome::Rejected { status, body }
    }
}

} // verus!
