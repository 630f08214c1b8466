//! The bot-player simulator's view of the game API: its errors, how a
//! GraphQL reply is read, which mutation serves which job, and when a failed
//! mutation is retried.

use vstd::prelude::*;
use vstd::string::StringExecFns;

use crate::enums::Job;
use crate::json::{
    json_kind_at, json_object, json_object_text, json_parse_error, json_quoted, json_string_at,
    json_text_at, member_views, read_json_kind, read_json_string, read_json_text,
    write_json_string, JsonKind,
};

verus! {

/// An error of a call to the game API.
#[derive(Debug)]
pub enum ApiError {
    /// Network or HTTP-level error.
    Network(String),
    /// GraphQL error returned by the server.
    GraphQL { error_type: String, message: String },
    /// The reply could not be read.
    Parse(String),
}

/// Whether the error is a GraphQL error of the given type.
pub open spec fn is_graphql_error_of(e: ApiError, error_type: Seq<char>) -> bool {
    match e {
        ApiError::GraphQL { error_type: t, .. } => t@ == error_type,
        _ => false,
    }
}

impl ApiError {
    /// The server had no yak to hand out.
    pub fn is_no_more_yak(&self) -> (r: bool)
        ensures
            r == is_graphql_error_of(*self, "NoMoreYak"@),
    {
        match self {
            ApiError::GraphQL { error_type, .. } => *error_type == String::from_str("NoMoreYak"),
            _ => false,
        }
    }

    /// The game status forbade the operation.
    pub fn is_invalid_game_status(&self) -> (r: bool)
        ensures
            r == is_graphql_error_of(*self, "InvalidGameStatus"@),
    {
        match self {
            ApiError::GraphQL { error_type, .. } => *error_type == String::from_str(
                "InvalidGameStatus",
            ),
            _ => false,
        }
    }

    /// The player's state forbade the operation.
    pub fn is_invalid_player_status(&self) -> (r: bool)
        ensures
            r == is_graphql_error_of(*self, "InvalidPlayerStatus"@),
    {
        match self {
            ApiError::GraphQL { error_type, .. } => *error_type == String::from_str(
                "InvalidPlayerStatus",
            ),
            _ => false,
        }
    }

    /// The text of the error.
    pub open spec fn spec_message(self) -> Seq<char> {
        match self {
            ApiError::Network(e) => "network error: "@ + e@,
            ApiError::GraphQL { error_type, message } => "GraphQL error ["@ + error_type@ + "]: "@
                + message@,
            ApiError::Parse(e) => "parse error: "@ + e@,
        }
    }

    /// The text of the error, as its `Display` writes it.
    pub fn message(&self) -> (r: String)
        ensures
            r@ == self.spec_message(),
    {
        match self {
            ApiError::Network(e) => {
                let mut s = String::from_str("network error: ");
                s.append(e.as_str());
                s
            },
            ApiError::GraphQL { error_type, message } => {
                let mut s = String::from_str("GraphQL error [");
                s.append(error_type.as_str());
                s.append("]: ");
                s.append(message.as_str());
                s
            },
            ApiError::Parse(e) => {
                let mut s = String::from_str("parse error: ");
                s.append(e.as_str());
                s
            },
        }
    }
}

/// The fields of the first error a GraphQL reply lists, where they are
/// strings.
pub struct GraphqlErrorFields {
    pub error_type: Option<String>,
    pub message: Option<String>,
}

/// Reads a GraphQL reply: its first error, if any, becomes a GraphQL error
/// (with type `Unknown` and message `no message` where these are missing);
/// otherwise its `data` field is the result, and a reply without one is a
/// parse error.
pub fn graphql_outcome<D>(first_error: Option<GraphqlErrorFields>, data: Option<D>) -> (r: Result<D, ApiError>)
    ensures
        match first_error {
            Some(fields) => r matches Err(ApiError::GraphQL { error_type, message }) && error_type@
                == match fields.error_type {
                Some(t) => t@,
                None => "Unknown"@,
            } && message@ == match fields.message {
                Some(m) => m@,
                None => "no message"@,
            },
            None => match data {
                Some(d) => r == Ok::<D, ApiError>(d),
                None => r matches Err(ApiError::Parse(e)) && e@
                    == "missing 'data' field in response"@,
            },
        },
{
    match first_error {
        Some(fields) => {
            let error_type = match fields.error_type {
                Some(t) => t,
                None => String::from_str("Unknown"),
            };
            let message = match fields.message {
                Some(m) => m,
                None => String::from_str("no message"),
            };
            Err(ApiError::GraphQL { error_type, message })
        },
        None => match data {
            Some(d) => Ok(d),
            None => Err(ApiError::Parse(String::from_str("missing 'data' field in response"))),
        },
    }
}

/// The body of a GraphQL request: `{"query": query}`.
pub open spec fn graphql_request_json(query: Seq<char>) -> Seq<char> {
    json_object_text(seq![("query"@, json_quoted(query))])
}

/// Writes the body of a GraphQL request for `query`.
pub fn graphql_request_body(query: &str) -> (r: String)
    ensures
        r@ == graphql_request_json(query@),
{
    let mut members: Vec<(String, String)> = Vec::new();
    members.push((String::from_str("query"), write_json_string(query)));
    proof {
        assert(member_views(members@) =~= seq![("query"@, json_quoted(query@))]);
    }
    json_object(&members)
}

/// Whether a GraphQL reply lists errors: its `errors` is an array with a
/// first element.
pub open spec fn reply_has_errors(text: Seq<char>) -> bool {
    json_kind_at(text, "/errors"@) == Some(JsonKind::Array) && json_text_at(text, "/errors/0"@) is Some
}

/// Reads the raw text of a GraphQL reply: a text that is not JSON is a parse
/// error with the parser's message; a reply listing errors gives the GraphQL
/// error of its first one (with type `Unknown` and message `no message`
/// where these are not strings); otherwise the JSON text of its `data`
/// field is the result, and a reply without one is a parse error.
pub fn graphql_reply_outcome(text: &str) -> (r: Result<String, ApiError>)
    ensures
        match json_parse_error(text@) {
            Some(e) => r matches Err(ApiError::Parse(m)) && m@ == e,
            None => if reply_has_errors(text@) {
                r matches Err(ApiError::GraphQL { error_type, message }) && error_type@
                    == match json_string_at(text@, "/errors/0/errorType"@) {
                    Some(t) => t,
                    None => "Unknown"@,
                } && message@ == match json_string_at(text@, "/errors/0/message"@) {
                    Some(m) => m,
                    None => "no message"@,
                }
            } else {
                match json_text_at(text@, "/data"@) {
                    Some(d) => r matches Ok(t) && t@ == d,
                    None => r matches Err(ApiError::Parse(m)) && m@
                        == "missing 'data' field in response"@,
                }
            },
        },
{
    let errors_kind = match read_json_kind(text, "/errors") {
        Ok(k) => k,
        Err(e) => {
            return Err(ApiError::Parse(e));
        },
    };
    let first = match read_json_text(text, "/errors/0") {
        Ok(f) => f,
        Err(e) => {
            return Err(ApiError::Parse(e));
        },
    };
    let has_errors = match errors_kind {
        Some(JsonKind::Array) => first.is_some(),
        _ => false,
    };
    let first_error = if has_errors {
        let error_type = match read_json_string(text, "/errors/0/errorType") {
            Ok(t) => t,
            Err(e) => {
                return Err(ApiError::Parse(e));
            },
        };
        let message = match read_json_string(text, "/errors/0/message") {
            Ok(m) => m,
            Err(e) => {
                return Err(ApiError::Parse(e));
            },
        };
        Some(GraphqlErrorFields { error_type, message })
    } else {
        None
    };
    let data = match read_json_text(text, "/data") {
        Ok(d) => d,
        Err(e) => {
            return Err(ApiError::Parse(e));
        },
    };
    graphql_outcome(first_error, data)
}

/// The JSON text of the result of mutation `name` in the `data` of a reply;
/// a missing one is a parse error naming the mutation, as is a text that is
/// not JSON.
pub fn mutation_result(data: &str, name: &str) -> (r: Result<String, ApiError>)
    ensures
        match json_parse_error(data@) {
            Some(e) => r matches Err(ApiError::Parse(m)) && m@ == e,
            None => match json_text_at(data@, seq!['/'] + name@) {
                Some(t) => r matches Ok(s) && s@ == t,
                None => r matches Err(ApiError::Parse(m)) && m@ == "missing '"@ + name@
                    + "' in response"@,
            },
        },
{
    match crate::json::member_text(data, name) {
        Ok(Some(t)) => Ok(t),
        Ok(None) => {
            let mut m = String::from_str("missing '");
            m.append(name);
            m.append("' in response");
            Err(ApiError::Parse(m))
        },
        Err(e) => Err(ApiError::Parse(e)),
    }
}

/// The identifier of the player a `registerNewPlayer` reply's `data`
/// carries (at `registerNewPlayer.player.id`); a missing one is a parse
/// error, as is a text that is not JSON.
pub fn registered_player_id(data: &str) -> (r: Result<String, ApiError>)
    ensures
        match json_parse_error(data@) {
            Some(e) => r matches Err(ApiError::Parse(m)) && m@ == e,
            None => match json_string_at(data@, "/registerNewPlayer/player/id"@) {
                Some(id) => r matches Ok(s) && s@ == id,
                None => r matches Err(ApiError::Parse(m)) && m@
                    == "missing player.id in registerNewPlayer"@,
            },
        },
{
    match read_json_string(data, "/registerNewPlayer/player/id") {
        Ok(Some(id)) => Ok(id),
        Ok(None) => Err(ApiError::Parse(String::from_str("missing player.id in registerNewPlayer"))),
        Err(e) => Err(ApiError::Parse(e)),
    }
}

impl Job {
    /// The mutation that hands a player a yak for this job.
    pub open spec fn spec_buy_mutation(self) -> Seq<char> {
        match self {
            Job::Breeder => "buyBabyYak"@,
            Job::Driver => "buyGrownYak"@,
            Job::Shearer => "buyUnshearedYak"@,
        }
    }

    /// The mutation that hands back the yak of this job, done.
    pub open spec fn spec_sell_mutation(self) -> Seq<char> {
        match self {
            Job::Breeder => "sellGrownYak"@,
            Job::Driver => "sellUnshearedYak"@,
            Job::Shearer => "sellShearedYak"@,
        }
    }

    /// The mutation that hands a player a yak for this job.
    pub fn buy_mutation(self) -> (r: &'static str)
        ensures
            r@ == self.spec_buy_mutation(),
    {
        match self {
            Job::Breeder => "buyBabyYak",
            Job::Driver => "buyGrownYak",
            Job::Shearer => "buyUnshearedYak",
        }
    }

    /// The mutation that hands back the yak of this job, done.
    pub fn sell_mutation(self) -> (r: &'static str)
        ensures
            r@ == self.spec_sell_mutation(),
    {
        match self {
            Job::Breeder => "sellGrownYak",
            Job::Driver => "sellUnshearedYak",
            Job::Shearer => "sellShearedYak",
        }
    }
}

/// What to do after a mutation failed.
#[derive(Debug, Clone, Copy, PartialEq, Eq, Structural)]
pub enum RetryDecision {
    /// Retry after a network error (after waiting one second).
    RetryNetwork,
    /// Retry after a GraphQL error (after waiting 250 ms).
    RetryGraphql,
    /// Report the error.
    GiveUp,
}

/// What to do after a mutation failed with `error`, `retries` retries
/// having been made: network errors are retried while fewer than 3 retries
/// were made; GraphQL errors other than no-more-yak, invalid game status
/// and invalid player status are retried while no retry was made; anything
/// else is reported.
pub open spec fn spec_retry_decision(error: ApiError, retries: u32) -> RetryDecision {
    match error {
        ApiError::Network(_) => if retries < 3 {
            RetryDecision::RetryNetwork
        } else {
            RetryDecision::GiveUp
        },
        ApiError::GraphQL { .. } => if !is_graphql_error_of(error, "NoMoreYak"@)
            && !is_graphql_error_of(error, "InvalidGameStatus"@) && !is_graphql_error_of(
            error,
            "InvalidPlayerStatus"@,
        ) && retries < 1 {
            RetryDecision::RetryGraphql
        } else {
            RetryDecision::GiveUp
        },
        ApiError::Parse(_) => RetryDecision::GiveUp,
    }
}

/// What to do after a mutation failed with `error`, `retries` retries
/// having been made.
pub fn retry_decision(error: &ApiError, retries: u32) -> (r: RetryDecision)
    ensures
        r == spec_retry_decision(*error, retries),
        *error is Network ==> (r == RetryDecision::RetryNetwork <==> retries < 3),
        *error is Network ==> r != RetryDecision::RetryGraphql,
        *error matches ApiError::GraphQL { error_type, .. } && (error_type@ == "NoMoreYak"@
            || error_type@ == "InvalidGameStatus"@ || error_type@ == "InvalidPlayerStatus"@) ==> r
            == RetryDecision::GiveUp,
        *error matches ApiError::GraphQL { error_type, .. } && error_type@ != "NoMoreYak"@
            && error_type@ != "InvalidGameStatus"@ && error_type@ != "InvalidPlayerStatus"@ ==> (r
            == RetryDecision::RetryGraphql <==> retries == 0) && r != RetryDecision::RetryNetwork,
        *error is Parse ==> r == RetryDecision::GiveUp,
{
    proof {
        crate::laws::law_retry_decision(*error, retries);
    }
    match error {
        ApiError::Network(_) => if retries < 3 {
            RetryDecision::RetryNetwork
        } else {
            RetryDecision::GiveUp
        },
        ApiError::GraphQL { .. } => if !error.is_no_more_yak() && !error.is_invalid_game_status()
            && !error.is_invalid_player_status() && retries < 1 {
            RetryDecision::RetryGraphql
        } else {
            RetryDecision::GiveUp
        },
        ApiError::Parse(_) => RetryDecision::GiveUp,
    }
}

/// A failed mutation is retried at most three times: a retry is decided only
/// while fewer than 3 retries were made (fewer than 1 for GraphQL errors).
pub proof fn law_retries_bounded(error: ApiError, retries: u32)
    ensures
        spec_retry_decision(error, retries) != RetryDecision::GiveUp ==> retries < 3,
        spec_retry_decision(error, retries) == RetryDecision::RetryGraphql ==> retries == 0,
{
}

} // verus!
