//! The status codes a client can report, and the messages they stand for.

use vstd::prelude::*;
use vstd::string::*;

verus! {

/// A status a client reports about itself.
#[derive(Clone, Copy, Debug, PartialEq, Eq, Structural)]
pub enum Status {
    Working,
    Stopped,
    Pending,
}

impl Status {
    /// The token that names this status in a request. Tokens are lower case
    /// and matched exactly.
    pub open spec fn token(self) -> Seq<char> {
        match self {
            Status::Working => "working"@,
            Status::Stopped => "stopped"@,
            Status::Pending => "pending"@,
        }
    }

    /// The message that is sent to the peripheral for this status.
    pub open spec fn text(self) -> Seq<char> {
        match self {
            Status::Working => "[working]"@,
            Status::Stopped => "[stopped]"@,
            Status::Pending => "[pending]"@,
        }
    }

    /// The status that `token` names, if it names one.
    pub open spec fn parsed(token: Seq<char>) -> Option<Status> {
        if token == "working"@ {
            Some(Status::Working)
        } else if token == "stopped"@ {
            Some(Status::Stopped)
        } else if token == "pending"@ {
            Some(Status::Pending)
        } else {
            None
        }
    }

    /// Reads a status from its token.
    pub fn from_token(token: &str) -> (status: Option<Status>)
        ensures
            status == Status::parsed(token@),
    {
        let given: String = token.to_owned();
        if given == String::from_str("working") {
            Some(Status::Working)
        } else if given == String::from_str("stopped") {
            Some(Status::Stopped)
        } else if given == String::from_str("pending") {
            Some(Status::Pending)
        } else {
            None
        }
    }

    /// The token that names this status.
    pub fn as_token(&self) -> (token: &'static str)
        ensures
            token@ == self.token(),
    {
        match self {
            Status::Working => "working",
            Status::Stopped => "stopped",
            Status::Pending => "pending",
        }
    }

    /// The message that is sent to the peripheral for this status.
    pub fn message(&self) -> (text: &'static str)
        ensures
            text@ == self.text(),
    {
        match self {
            Status::Working => "[working]",
            Status::Stopped => "[stopped]",
            Status::Pending => "[pending]",
        }
    }

    /// Each status is read back from its own token, and only the three
    /// tokens name a status.
    pub proof fn lemma_tokens(status: Status, token: Seq<char>)
        ensures
            Status::parsed(status.token()) == Some(status),
            Status::parsed(token) == Some(status) <==> token == status.token(),
            status.text() == seq!['['] + status.token() + seq![']'],
    {
        reveal_strlit("working");
        reveal_strlit("stopped");
        reveal_strlit("pending");
        reveal_strlit("[working]");
        reveal_strlit("[stopped]");
        reveal_strlit("[pending]");
        assert("working"@[0] == 'w');
        assert("stopped"@[0] == 's');
        assert("pending"@[0] == 'p');
        assert(status.text() =~= seq!['['] + status.token() + seq![']']);
    }
}

} // verus!
