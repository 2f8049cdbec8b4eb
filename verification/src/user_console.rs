//! Update parsing for console message updates.
use vstd::prelude::*;

verus! {

/// Update for a user's log messages during the last tick.
#[derive(Clone, Hash, Debug)]
pub enum UserConsoleUpdate {
    /// All log messages which occurred during the last tick. Will always be sent
    /// once per tick unless an error occurs *and* this would be empty.
    Messages {
        /// All messages the screeps script code logged last tick.
        log_messages: Vec<String>,
        /// All result strings from console commands executed last tick.
        result_messages: Vec<String>,
        /// The shard the update is from
        shard: Option<String>,
    },
    /// An error occurred in the user script. May be sent multiple times per tick,
    /// and will not be sent unless an error did occur.
    Error {
        /// The error which occurred.
        message: String,
        /// The shard the update is from
        shard: Option<String>,
    },
}

/// The shard a console update is from, if it names one.
pub open spec fn console_shard(u: UserConsoleUpdate) -> Option<Seq<char>> {
    match u {
        UserConsoleUpdate::Messages { shard, .. } => match shard {
            Some(s) => Some(s@),
            None => None,
        },
        UserConsoleUpdate::Error { shard, .. } => match shard {
            Some(s) => Some(s@),
            None => None,
        },
    }
}

/// Why a console message from the server describes no update.
#[derive(Copy, Clone, Debug, PartialEq, Eq, Structural)]
pub enum UserConsoleError {
    /// The message had both an `error` and a `messages` property.
    Both,
    /// The message had neither an `error` nor a `messages` property.
    Neither,
}

impl UserConsoleError {
    /// What went wrong, in words.
    pub fn message(&self) -> (r: &'static str)
        ensures
            r@ == (match *self {
                UserConsoleError::Both => "expected either 'messages' property or 'error' property, not both"@,
                UserConsoleError::Neither => "expected either 'messages' property or 'error' property, neither found"@,
            }),
    {
        match self {
            UserConsoleError::Both => "expected either 'messages' property or 'error' property, not both",
            UserConsoleError::Neither => "expected either 'messages' property or 'error' property, neither found",
        }
    }
}

impl UserConsoleUpdate {
    /// Gets the shard this update is for.
    pub fn shard(&self) -> (r: Option<&str>)
        ensures
            match r {
                Some(s) => console_shard(*self) == Some(s@),
                None => console_shard(*self) is None,
            },
    {
        match self {
            UserConsoleUpdate::Messages { shard, .. } => match shard {
                Some(s) => Some(s.as_str()),
                None => None,
            },
            UserConsoleUpdate::Error { shard, .. } => match shard {
                Some(s) => Some(s.as_str()),
                None => None,
            },
        }
    }

    /// The update that a console message from the server describes, given its `error`
    /// property, its `messages` property (the `log` and `results` lists) and its `shard`
    /// property: exactly one of `error` and `messages` must be there.
    pub fn from_parts(
        error: Option<String>,
        messages: Option<(Vec<String>, Vec<String>)>,
        shard: Option<String>,
    ) -> (r: Result<UserConsoleUpdate, UserConsoleError>)
        ensures
            match (error, messages) {
                (Some(e), None) => r == Ok::<UserConsoleUpdate, UserConsoleError>(
                    UserConsoleUpdate::Error { message: e, shard: shard },
                ),
                (None, Some(m)) => r == Ok::<UserConsoleUpdate, UserConsoleError>(
                    UserConsoleUpdate::Messages {
                        log_messages: m.0,
                        result_messages: m.1,
                        shard: shard,
                    },
                ),
                (Some(_), Some(_)) => r == Err::<UserConsoleUpdate, UserConsoleError>(
                    UserConsoleError::Both,
                ),
                (None, None) => r == Err::<UserConsoleUpdate, UserConsoleError>(
                    UserConsoleError::Neither,
                ),
            },
    {
        match (error, messages) {
            (Some(e), None) => Ok(UserConsoleUpdate::Error { message: e, shard: shard }),
            (None, Some(m)) => {
                let (log, results) = m;
                Ok(
                    UserConsoleUpdate::Messages {
                        log_messages: log,
                        result_messages: results,
                        shard: shard,
                    },
                )
            },
            (Some(_), Some(_)) => Err(UserConsoleError::Both),
            (None, None) => Err(UserConsoleError::Neither),
        }
    }
}

} // verus!
