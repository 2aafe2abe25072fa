use asana::users;

#[test]
fn me_path() {
    assert_eq!(users::me(), "/users/me");
}

#[test]
fn users_path() {
    assert_eq!(users::users(), "/users");
}

#[test]
fn user_path() {
    assert_eq!(users::user("811156077822027"), "/users/811156077822027");
}

#[test]
fn favorites_path() {
    assert_eq!(
        users::favorites("12", "project", "34"),
        "/users/12/favorites?resource_type=project&workspace=34"
    );
}

#[test]
fn team_path() {
    assert_eq!(users::team("77"), "/teams/77/users");
}

#[test]
fn workspace_path() {
    assert_eq!(users::workspace("88"), "/workspaces/88/users");
}
