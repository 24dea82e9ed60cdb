//! Row models of the core and metrics databases.

pub mod activity_log;
pub mod api_key;
pub mod blocked_domain;
pub mod blocklist;
pub mod client_metrics;
pub mod config;
pub mod domain_metrics;
pub mod domain_rule;
pub mod error_log;
pub mod list_subscription;
pub mod local_record;
pub mod query_log;
pub mod user;
pub mod user_session;

use vstd::prelude::*;
use vstd::string::*;

use crate::text::str_eq;

verus! {

/// One page of rows, with the number of rows matching the query when it was asked for.
pub struct Page<T> {
    pub items: Vec<T>,
    pub total: Option<i64>,
}

/// How a domain rule matches query names.
#[derive(Debug, Clone, Copy, PartialEq, Eq, Hash, Structural)]
pub enum MatchType {
    /// Matches only this exact domain.
    Exact,
    /// Matches all subdomains but not the domain itself (e.g. `*.example.com`).
    Wildcard,
    /// Matches the domain and all its subdomains (adblock `||domain^` semantics).
    Domain,
}

/// The text a match type is stored as.
pub open spec fn match_type_text(m: MatchType) -> Seq<char> {
    match m {
        MatchType::Exact => "exact"@,
        MatchType::Wildcard => "wildcard"@,
        MatchType::Domain => "domain"@,
    }
}

/// The error message for a stored value that names no match type.
pub open spec fn unknown_match_type_message(text: Seq<char>) -> Seq<char> {
    "unknown match type: "@ + text
}

impl MatchType {
    /// The text this match type is stored as.
    pub fn as_sql(&self) -> (s: &'static str)
        ensures
            s@ == match_type_text(*self),
    {
        match self {
            MatchType::Exact => "exact",
            MatchType::Wildcard => "wildcard",
            MatchType::Domain => "domain",
        }
    }

    /// Reads a stored match type; any other text is an error naming it.
    pub fn from_sql_text(text: &str) -> (r: Result<MatchType, String>)
        ensures
            r matches Ok(m) ==> match_type_text(m) == text@,
            r is Err <==> (forall|m: MatchType| match_type_text(m) != text@),
            r matches Err(msg) ==> msg@ == unknown_match_type_message(text@),
    {
        if str_eq(text, "exact") {
            assert(match_type_text(MatchType::Exact) == text@);
            Ok(MatchType::Exact)
        } else if str_eq(text, "wildcard") {
            assert(match_type_text(MatchType::Wildcard) == text@);
            Ok(MatchType::Wildcard)
        } else if str_eq(text, "domain") {
            assert(match_type_text(MatchType::Domain) == text@);
            Ok(MatchType::Domain)
        } else {
            let mut msg = String::new();
            msg.append("unknown match type: ");
            msg.append(text);
            assert(msg@ =~= unknown_match_type_message(text@));
            assert forall|m: MatchType| match_type_text(m) != text@ by {
                match m {
                    MatchType::Exact => {},
                    MatchType::Wildcard => {},
                    MatchType::Domain => {},
                }
            }
            Err(msg)
        }
    }
}

/// Whether a domain rule blocks or allows the names it matches.
#[derive(Debug, Clone, Copy, PartialEq, Eq, Hash, Structural)]
pub enum ListAction {
    Block,
    Allow,
}

/// The text a list action is stored as.
pub open spec fn list_action_text(a: ListAction) -> Seq<char> {
    match a {
        ListAction::Block => "block"@,
        ListAction::Allow => "allow"@,
    }
}

/// The error message for a stored value that names no list action.
pub open spec fn unknown_list_action_message(text: Seq<char>) -> Seq<char> {
    "unknown list action: "@ + text
}

impl ListAction {
    /// The text this action is stored as.
    pub fn as_sql(&self) -> (s: &'static str)
        ensures
            s@ == list_action_text(*self),
    {
        match self {
            ListAction::Block => "block",
            ListAction::Allow => "allow",
        }
    }

    /// Reads a stored list action; any other text is an error naming it.
    pub fn from_sql_text(text: &str) -> (r: Result<ListAction, String>)
        ensures
            r matches Ok(a) ==> list_action_text(a) == text@,
            r is Err <==> (forall|a: ListAction| list_action_text(a) != text@),
            r matches Err(msg) ==> msg@ == unknown_list_action_message(text@),
    {
        if str_eq(text, "block") {
            assert(list_action_text(ListAction::Block) == text@);
            Ok(ListAction::Block)
        } else if str_eq(text, "allow") {
            assert(list_action_text(ListAction::Allow) == text@);
            Ok(ListAction::Allow)
        } else {
            let mut msg = String::new();
            msg.append("unknown list action: ");
            msg.append(text);
            assert(msg@ =~= unknown_list_action_message(text@));
            assert forall|a: ListAction| list_action_text(a) != text@ by {
                match a {
                    ListAction::Block => {},
                    ListAction::Allow => {},
                }
            }
            Err(msg)
        }
    }
}

/// Distinct match types are stored as distinct texts, so a stored match type
/// reads back as itself.
pub proof fn lemma_match_type_text_injective(a: MatchType, b: MatchType)
    requires
        match_type_text(a) == match_type_text(b),
    ensures
        a == b,
{
    reveal_strlit("exact");
    reveal_strlit("wildcard");
    reveal_strlit("domain");
    assert("exact"@[0] == 'e' && "wildcard"@[0] == 'w' && "domain"@[0] == 'd');
    match (a, b) {
        (MatchType::Exact, MatchType::Exact) => {},
        (MatchType::Wildcard, MatchType::Wildcard) => {},
        (MatchType::Domain, MatchType::Domain) => {},
        _ => {
            assert(match_type_text(a)[0] != match_type_text(b)[0]);
        },
    }
}

/// Distinct list actions are stored as distinct texts, so a stored action
/// reads back as itself.
pub proof fn lemma_list_action_text_injective(a: ListAction, b: ListAction)
    requires
        list_action_text(a) == list_action_text(b),
    ensures
        a == b,
{
    reveal_strlit("block");
    reveal_strlit("allow");
    assert("block"@[0] == 'b' && "allow"@[0] == 'a');
    match (a, b) {
        (ListAction::Block, ListAction::Block) => {},
        (ListAction::Allow, ListAction::Allow) => {},
        _ => {
            assert(list_action_text(a)[0] != list_action_text(b)[0]);
        },
    }
}

} // verus!
