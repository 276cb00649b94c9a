use janitor_services::publish::branches::{
    branch_parameter, role_branch_url, with_branch, RoleBranchUrl,
};
use janitor_services::text_map::TextMap;

#[test]
fn test_role_branch_url_no_branch() {
    match role_branch_url("https://example.com/repo", None) {
        RoleBranchUrl::AsIs(url) => assert_eq!(url, "https://example.com/repo"),
        other => panic!("unexpected {:?}", other),
    }
}

#[test]
fn role_branch_url_escapes_the_branch_name() {
    match role_branch_url("https://example.com/repo/", Some("la/bl\u{e4} ~-_.Z0")) {
        RoleBranchUrl::SetBranch { url, branch } => {
            assert_eq!(url, "https://example.com/repo");
            assert_eq!(branch, "la%2Fbl%C3%A4%20~-_.Z0");
        }
        other => panic!("unexpected {:?}", other),
    }
}

#[test]
fn parameters_name_the_branch() {
    let mut parameters = TextMap::new();
    assert_eq!(branch_parameter(&parameters), None);
    parameters.insert("depth".to_string(), "1".to_string());
    parameters.insert("branch".to_string(), "old".to_string());
    assert_eq!(branch_parameter(&parameters).as_deref(), Some("old"));
    let parameters = with_branch(parameters, "new".to_string());
    assert_eq!(branch_parameter(&parameters).as_deref(), Some("new"));
    assert_eq!(parameters.get("depth").unwrap(), "1");
    assert_eq!(parameters.len(), 2);
}
