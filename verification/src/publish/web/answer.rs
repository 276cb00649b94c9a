//! Bodies that several answers share.
use crate::publish::api_types::NotFoundResponse;
use vstd::prelude::*;

verus! {

/// What a request asks for and is not there.
#[derive(Clone, Copy, Debug, PartialEq, Eq, Structural)]
pub enum Missing {
    /// A publish policy, by name.
    Policy,
    /// A merge proposal, by URL.
    Proposal,
    /// A publish, by id.
    Publish,
    /// A run that is ready to be published, by id.
    Run,
}

/// How an answer says that something is not there.
pub open spec fn missing_reason(what: Missing) -> Seq<char> {
    match what {
        Missing::Policy => "Publish policy not found"@,
        Missing::Proposal => "No such merge proposal"@,
        Missing::Publish => "No such publish"@,
        Missing::Run => "No such publish-ready run"@,
    }
}

/// The body of an answer that says that something is not there.
pub fn not_found(what: Missing, key: String) -> (r: NotFoundResponse)
    ensures
        r.reason@ == missing_reason(what),
        r == (NotFoundResponse {
            reason: r.reason,
            name: if what == Missing::Policy {
                Some(key)
            } else {
                None
            },
            url: if what == Missing::Proposal {
                Some(key)
            } else {
                None
            },
            id: if what == Missing::Publish {
                Some(key)
            } else {
                None
            },
            bucket: None,
            run_id: if what == Missing::Run {
                Some(key)
            } else {
                None
            },
            campaign: None,
            codebase: None,
        }),
{
    let mut r = NotFoundResponse {
        reason: String::new(),
        name: None,
        url: None,
        id: None,
        bucket: None,
        run_id: None,
        campaign: None,
        codebase: None,
    };
    match what {
        Missing::Policy => {
            r.reason = "Publish policy not found".to_owned();
            r.name = Some(key);
        },
        Missing::Proposal => {
            r.reason = "No such merge proposal".to_owned();
            r.url = Some(key);
        },
        Missing::Publish => {
            r.reason = "No such publish".to_owned();
            r.id = Some(key);
        },
        Missing::Run => {
            r.reason = "No such publish-ready run".to_owned();
            r.run_id = Some(key);
        },
    }
    r
}

} // verus!
