use linear_tasks::client::{ApiError, GraphQlError, GraphQlResponse};
use linear_tasks::queries::structs::teams::{Team, TeamConnection, TeamsQuery, UserConnection};
use linear_tasks::resolve::{resolve_listed_team, resolve_team, ResolveError, TeamNotFoundError};

fn team(key: &str, id: &str) -> Team {
    Team {
        id: id.to_string(),
        name: format!("Team {}", key),
        description: None,
        issue_count: 0,
        key: key.to_string(),
        members: UserConnection { nodes: Vec::new() },
    }
}

fn listing(teams: Vec<Team>) -> Result<GraphQlResponse<TeamsQuery>, String> {
    Ok(GraphQlResponse {
        data: Some(TeamsQuery { teams: TeamConnection { nodes: teams } }),
        errors: None,
    })
}

#[test]
fn resolve_finds_the_team_by_its_key() {
    let teams = vec![team("AWA", "t1"), team("ZZZ", "t2")];
    assert_eq!(resolve_team(&teams, "AWA"), Ok("t1".to_string()));
    assert_eq!(resolve_team(&teams, "ZZZ"), Ok("t2".to_string()));
}

#[test]
fn resolve_takes_the_first_of_two_teams_with_the_key() {
    let teams = vec![team("ZZZ", "t0"), team("AWA", "t1"), team("AWA", "t2")];
    assert_eq!(resolve_team(&teams, "AWA"), Ok("t1".to_string()));
}

#[test]
fn resolve_reports_a_key_that_no_team_has() {
    let teams = vec![team("AWA", "t1"), team("ZZZ", "t2")];
    assert_eq!(
        resolve_team(&teams, "QQQ"),
        Err(TeamNotFoundError { search_key: "QQQ".to_string() })
    );
}

#[test]
fn resolve_finds_nothing_in_an_empty_listing() {
    assert_eq!(
        resolve_team(&Vec::new(), "AWA"),
        Err(TeamNotFoundError { search_key: "AWA".to_string() })
    );
}

#[test]
fn resolve_compares_the_whole_key() {
    let teams = vec![team("AWAY", "t1"), team("awa", "t2"), team("AW", "t3")];
    assert!(resolve_team(&teams, "AWA").is_err());
    assert_eq!(resolve_team(&teams, "awa"), Ok("t2".to_string()));
}

#[test]
fn resolve_does_not_match_the_identifier() {
    let teams = vec![team("AWA", "ZZZ")];
    assert!(resolve_team(&teams, "ZZZ").is_err());
}

#[test]
fn resolve_listed_team_reads_the_reply() {
    let outcome = listing(vec![team("AWA", "t1"), team("ZZZ", "t2")]);
    assert_eq!(resolve_listed_team(outcome, "ZZZ"), Ok("t2".to_string()));
}

#[test]
fn resolve_listed_team_reports_a_missing_team() {
    let outcome = listing(vec![team("AWA", "t1")]);
    assert_eq!(
        resolve_listed_team(outcome, "ZZZ"),
        Err(ResolveError::NotFound(TeamNotFoundError { search_key: "ZZZ".to_string() }))
    );
}

#[test]
fn resolve_listed_team_treats_absent_data_as_no_teams() {
    let outcome = Ok(GraphQlResponse { data: None, errors: None });
    assert_eq!(
        resolve_listed_team(outcome, "AWA"),
        Err(ResolveError::NotFound(TeamNotFoundError { search_key: "AWA".to_string() }))
    );
}

#[test]
fn resolve_listed_team_passes_on_a_transport_failure() {
    let outcome = Err("connection refused".to_string());
    assert_eq!(
        resolve_listed_team(outcome, "AWA"),
        Err(ResolveError::Api(ApiError::Transport("connection refused".to_string())))
    );
}

#[test]
fn resolve_listed_team_stops_on_errors_even_with_data() {
    let error = GraphQlError { message: "rate limited".to_string(), locations: None, path: None };
    let outcome = Ok(GraphQlResponse {
        data: Some(TeamsQuery { teams: TeamConnection { nodes: vec![team("AWA", "t1")] } }),
        errors: Some(vec![error.clone()]),
    });
    assert_eq!(
        resolve_listed_team(outcome, "AWA"),
        Err(ResolveError::Api(ApiError::GraphQl(vec![error])))
    );
}
