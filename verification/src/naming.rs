use vstd::prelude::*;

use rand::Rng;

use crate::{args_view, cmd_is, CommandSpec, Tool};

verus! {

use vstd::string::StringExecFns;

/// The alphabet of generated suffixes: lowercase letters and digits.
pub open spec fn is_lower_alnum(c: char) -> bool {
    ('a' <= c && c <= 'z') || ('0' <= c && c <= '9')
}

/// A collision-avoiding dataset identifier for the given project:
/// `<project>:beaver_datalake_<suffix>` with a 9-character suffix drawn from
/// the lowercase alphanumeric alphabet.
pub open spec fn is_candidate(project: Seq<char>, id: Seq<char>) -> bool {
    exists|sfx: Seq<char>|
        #![auto]
        {
            &&& id == project + ":beaver_datalake_"@ + sfx
            &&& sfx.len() == 9
            &&& forall|i: int| 0 <= i < sfx.len() ==> is_lower_alnum(sfx[i])
        }
}

/// Relies on rand's `Alphanumeric` distribution: every sampled byte is an
/// ASCII letter or digit, so after lowercasing, each of the nine characters
/// drawn here is a lowercase letter or digit. Which characters come out
/// depends on the random source, so nothing more is stated.
#[verifier::external_body]
fn sample_suffix() -> (r: String)
    ensures
        r@.len() == 9,
        forall|i: int| 0 <= i < r@.len() ==> is_lower_alnum(r@[i]),
{
    rand::thread_rng()
        .sample_iter(&rand::distributions::Alphanumeric)
        .take(9)
        .map(char::from)
        .map(|c| c.to_ascii_lowercase())
        .collect()
}

fn make_candidate(project_id: &String) -> (r: String)
    ensures
        is_candidate(project_id@, r@),
{
    let sfx = sample_suffix();
    let mut s = project_id.clone();
    s.append(":beaver_datalake_");
    s.append(sfx.as_str());
    proof {
        assert(s@ == project_id@ + ":beaver_datalake_"@ + sfx@);
    }
    s
}

/// One resolution of an auto-named dataset: candidate identifiers are
/// generated until the remote creation — the only authority on collisions —
/// accepts one. The session holds the current candidate and how many
/// candidates have been tried; the caller runs each attempt's command and
/// reports whether it succeeded.
pub struct NamingSession {
    project_id: String,
    candidate: String,
    attempts: u64,
}

impl NamingSession {
    /// The session always holds a well-formed candidate for its project.
    pub closed spec fn wf(&self) -> bool {
        is_candidate(self.project_id@, self.candidate@) && self.attempts >= 1
    }

    pub closed spec fn spec_project(&self) -> Seq<char> {
        self.project_id@
    }

    pub closed spec fn spec_candidate(&self) -> Seq<char> {
        self.candidate@
    }

    pub closed spec fn spec_attempts(&self) -> u64 {
        self.attempts
    }

    /// Opens a session on its first candidate (one attempt under way).
    pub fn begin(project_id: String) -> (r: Self)
        ensures
            r.wf(),
            r.spec_project() == project_id@,
            r.spec_attempts() == 1,
    {
        let candidate = make_candidate(&project_id);
        NamingSession { project_id, candidate, attempts: 1 }
    }

    /// The current candidate identifier.
    pub fn candidate(&self) -> (r: &String)
        ensures
            r@ == self.spec_candidate(),
    {
        &self.candidate
    }

    /// How many candidates have been tried, the current one included.
    pub fn attempts(&self) -> (r: u64)
        ensures
            r == self.spec_attempts(),
    {
        self.attempts
    }

    /// The dataset-creation command that tries the current candidate.
    pub fn command(&self) -> (r: CommandSpec)
        requires
            self.wf(),
        ensures
            cmd_is(r, Tool::Bq, seq!["mk"@, "--dataset"@, self.spec_candidate()]),
    {
        let mut args: Vec<String> = Vec::new();
        args.push("mk".to_owned());
        args.push("--dataset".to_owned());
        args.push(self.candidate.clone());
        proof {
            assert(args_view(args@) =~= seq!["mk"@, "--dataset"@, self.spec_candidate()]);
        }
        CommandSpec { tool: Tool::Bq, args }
    }

    /// The attempt failed: the candidate is discarded and a fresh one drawn.
    pub fn retry(&mut self)
        requires
            old(self).wf(),
            old(self).spec_attempts() < u64::MAX,
        ensures
            final(self).wf(),
            final(self).spec_project() == old(self).spec_project(),
            final(self).spec_attempts() == old(self).spec_attempts() + 1,
            is_candidate(final(self).spec_project(), final(self).spec_candidate()),
    {
        self.candidate = make_candidate(&self.project_id);
        self.attempts = self.attempts + 1;
    }

    /// The attempt succeeded: the accepted identifier is the resolved name.
    pub fn succeed(self) -> (r: String)
        requires
            self.wf(),
        ensures
            r@ == self.spec_candidate(),
            is_candidate(self.spec_project(), r@),
    {
        self.candidate
    }
}

} // verus!
