use jirac::v2::issue::expand_to_hashmap as issue_expand;
use jirac::v2::project::expand_to_hashmap as project_expand;
use jirac::v2::user::expand_to_hashmap;
use jirac::v2::{
    ApplicationRole, ApplicationRoleOptions, Attachment, Changelog, Component, Group,
    GroupOptions, Issue, IssueExpand, IssueFieldOptions, IssueLink, IssueLinkType,
    IssuePropertyOptions, IssueType, IssueUpdateHistory, MyPermission, MyPermissionKey,
    Pagination, Permission, Priority, Project, ProjectExpand, Resolution, Status,
    StatusCategory, User, UserExpand, UserOptions, Version, Worklog,
};
use jirac::{Client, Credentials, Error, Method, Options, Query, QueryOptions, Request};

const HOST: &str = "http://127.0.0.1:1234";

fn client() -> Client {
    let creds = Credentials::new_basic("test".to_string(), "test".to_string()).unwrap();
    Client::new(HOST.to_string(), creds)
}

fn role(key: &str) -> ApplicationRole {
    ApplicationRole {
        key: key.to_string(),
        name: "JIRA Software".to_string(),
        groups: vec!["jira-software-users".to_string(), "jira-testers".to_string()],
        default_groups: vec!["jira-software-users".to_string()],
        selected_by_default: false,
        defined: false,
        number_of_seats: 10,
        remaining_seats: 5,
        user_count: 5,
        user_count_description: "5 developers".to_string(),
        has_unlimited_seats: false,
        platform: false,
    }
}

fn is_get(request: &Request, path_and_query: &str) {
    assert_eq!(request.method, Method::Get);
    assert_eq!(request.url, format!("{}/rest/{}", HOST, path_and_query));
    assert!(request.body.is_none());
    assert_eq!(request.headers.get("content-type").unwrap(), "application/json");
    assert!(matches!(request.credentials, Credentials::Basic(ref u, ref p) if u == "test" && p == "test"));
}

#[test]
fn test_expand_to_hashmap() {
    let e = vec![UserExpand::ApplicationRoles, UserExpand::Groups];
    let h = expand_to_hashmap(e);

    assert!(h.get("expand").unwrap().contains("groups"));
    assert!(h.get("expand").unwrap().contains("applicationRoles"));
}

#[test]
fn expand_joins_the_names_with_commas() {
    let e = vec![UserExpand::ApplicationRoles, UserExpand::Groups];
    let h = expand_to_hashmap(e);
    assert_eq!(h.len(), 1);
    assert_eq!(h.get("expand").unwrap(), "applicationRoles,groups");
    assert_eq!(expand_to_hashmap(vec![UserExpand::Groups]).get("expand").unwrap(), "groups");
}

#[test]
fn expand_of_nothing_is_an_empty_value() {
    let h = expand_to_hashmap(vec![]);
    assert_eq!(h.len(), 1);
    assert_eq!(h.get("expand").unwrap(), "");
    assert_eq!(issue_expand(vec![]).get("expand").unwrap(), "");
    assert_eq!(project_expand(vec![]).get("expand").unwrap(), "");
}

#[test]
fn user_expand_names() {
    assert_eq!(UserExpand::Groups.to_string(), "groups");
    assert_eq!(UserExpand::ApplicationRoles.to_string(), "applicationRoles");
}

#[test]
fn issue_expand_names() {
    assert_eq!(IssueExpand::RenderedFields.to_string(), "renderedFields");
    assert_eq!(IssueExpand::Names.to_string(), "names");
    assert_eq!(IssueExpand::Schema.to_string(), "schema");
    assert_eq!(IssueExpand::Transitions.to_string(), "transitions");
    assert_eq!(IssueExpand::Operations.to_string(), "operations");
    assert_eq!(IssueExpand::Editmeta.to_string(), "editmeta");
    assert_eq!(IssueExpand::Changelog.to_string(), "changelog");
    assert_eq!(
        IssueExpand::VersionedRepresentations.to_string(),
        "versionedRepresentations"
    );
    let all = issue_expand(vec![IssueExpand::Names, IssueExpand::Schema, IssueExpand::Changelog]);
    assert_eq!(all.get("expand").unwrap(), "names,schema,changelog");
}

#[test]
fn project_expand_names() {
    assert_eq!(ProjectExpand::Description.to_string(), "description");
    assert_eq!(ProjectExpand::Lead.to_string(), "lead");
    assert_eq!(ProjectExpand::Url.to_string(), "url");
    assert_eq!(ProjectExpand::ProjectKeys.to_string(), "projectKeys");
    let all = project_expand(vec![ProjectExpand::Lead, ProjectExpand::Url]);
    assert_eq!(all.get("expand").unwrap(), "lead,url");
}

#[test]
fn permission_key_names() {
    assert_eq!(MyPermissionKey::IssueId.to_string(), "issueId");
    assert_eq!(MyPermissionKey::IssueKey.to_string(), "issueKey");
    assert_eq!(MyPermissionKey::ProjectId.to_string(), "projectId");
    assert_eq!(MyPermissionKey::ProjectKey.to_string(), "projectKey");
}

#[test]
fn issue_option_texts() {
    assert_eq!(IssueFieldOptions::default().to_string(), "*all");
    assert_eq!(
        IssueFieldOptions(vec!["*all".to_string(), "-comment".to_string()]).to_string(),
        "*all,-comment"
    );
    assert_eq!(IssuePropertyOptions::default().to_string(), "");
    assert_eq!(
        IssuePropertyOptions(vec!["a".to_string(), "b".to_string()]).to_string(),
        "a,b"
    );
    assert_eq!(IssueUpdateHistory::default().to_string(), "false");
    assert_eq!(IssueUpdateHistory(true).to_string(), "true");
}

#[test]
fn option_contributions() {
    let q: Query = GroupOptions::default().to_query();
    assert_eq!(Client::unpack_query(&q), "?includeInactiveUsers=false");
    let q = UserOptions::default().to_query();
    assert_eq!(Client::unpack_query(&q), "?includeInactive=false&includeActive=true");
    let q = UserOptions::new(false, true).to_query();
    assert_eq!(Client::unpack_query(&q), "?includeInactive=true&includeActive=false");
    let q = Pagination::default().to_query();
    assert_eq!(Client::unpack_query(&q), "?startAt=0&maxResults=50");
}

#[test]
fn application_role_requests() {
    let c = client();
    is_get(&ApplicationRole::from_key(&c, "1"), "api/2/applicationrole/1");
    is_get(&ApplicationRole::all(&c), "api/2/applicationrole");
}

#[test]
fn application_role_update_puts_to_the_key() {
    let c = client();
    let r = role("jira-software").update(&c, None, b"{}".to_vec());
    assert_eq!(r.method, Method::Put);
    assert_eq!(r.url, format!("{}/rest/api/2/applicationrole/jira-software", HOST));
    assert_eq!(r.body.unwrap(), b"{}".to_vec());
    assert_eq!(r.headers.len(), 1);
    assert!(r.headers.get("if-match").is_none());
}

#[test]
fn application_role_update_sends_the_version_hash() {
    let c = client();
    let o = ApplicationRoleOptions::new(String::from("test"));
    let r = role("jira-software").update(&c, Some(o), b"{}".to_vec());
    assert_eq!(r.headers.get("If-Match").unwrap(), "test");
    assert_eq!(r.headers.get("content-type").unwrap(), "application/json");
    assert_eq!(r.headers.len(), 2);
    assert!(c.headers.is_empty());
}

#[test]
fn application_role_bulk_update() {
    let c = client();
    let r = ApplicationRole::update_bulk(&c, b"[]".to_vec(), None);
    assert_eq!(r.method, Method::Put);
    assert_eq!(r.url, format!("{}/rest/api/2/applicationrole", HOST));
    assert_eq!(r.body.unwrap(), b"[]".to_vec());
    assert!(r.headers.get("if-match").is_none());
    let o = ApplicationRoleOptions::new(String::from("h1"));
    let r = ApplicationRole::update_bulk(&c, b"[]".to_vec(), Some(o));
    assert_eq!(r.headers.get("if-match").unwrap(), "h1");
}

#[test]
fn fetches_by_id() {
    let c = client();
    is_get(&Attachment::from_id(&c, "10000"), "api/2/attachment/10000");
    is_get(&Component::from_id(&c, "1"), "api/2/component/1");
    is_get(&IssueLink::from_id(&c, "10101"), "api/2/issueLink/10101");
    is_get(&IssueLinkType::from_id(&c, "1000"), "api/2/issueLinkType/1000");
    is_get(&IssueType::from_id(&c, "10003"), "api/2/issuetype/10003");
    is_get(&Priority::from_id(&c, "3"), "api/2/priority/3");
    is_get(&Resolution::from_id(&c, "10000"), "api/2/resolution/10000");
    is_get(&Status::from_id_or_name(&c, "10000"), "api/2/status/10000");
    is_get(&StatusCategory::from_id_or_key(&c, "in-flight"), "api/2/statuscategory/in-flight");
    is_get(&Version::from_id(&c, "1"), "api/2/version/1");
}

#[test]
fn fetches_keep_the_query_of_the_client() {
    let mut defaults = Query::new();
    defaults.insert("os_authType".to_string(), "basic".to_string());
    let c = client().add_query(defaults);
    is_get(&Component::from_id(&c, "1"), "api/2/component/1?os_authType=basic");
    is_get(
        &Project::from_key_or_id(&c, "TEST", None),
        "api/2/project/TEST?os_authType=basic&expand=",
    );
}

#[test]
fn permission_requests() {
    let c = client();
    is_get(&Permission::all_permissions(&c), "api/2/permissions");
    is_get(
        &MyPermission::my_permissions_for_key(&c, MyPermissionKey::ProjectKey, "TEST"),
        "api/2/mypermissions?projectKey=TEST",
    );
    is_get(
        &MyPermission::my_permissions_for_key(&c, MyPermissionKey::IssueId, "10000"),
        "api/2/mypermissions?issueId=10000",
    );
    assert_eq!(Permission::all_permissions(&c).url, "http://127.0.0.1:1234/rest/api/2/permissions");
}

#[test]
fn permission_requests_with_a_query_of_the_client() {
    let mut defaults = Query::new();
    defaults.insert("os_authType".to_string(), "basic".to_string());
    defaults.insert("issueKey".to_string(), "OLD-1".to_string());
    let c = client().add_query(defaults);
    is_get(&Permission::all_permissions(&c), "api/2/permissions?os_authType=basic&issueKey=OLD-1");
    is_get(
        &MyPermission::my_permissions_for_key(&c, MyPermissionKey::IssueKey, "NEW-2"),
        "api/2/mypermissions?os_authType=basic&issueKey=NEW-2",
    );
    is_get(
        &MyPermission::my_permissions_for_key(&c, MyPermissionKey::ProjectId, "7"),
        "api/2/mypermissions?os_authType=basic&issueKey=OLD-1&projectId=7",
    );
}

#[test]
fn group_members_request() {
    let c = client();
    let r = Group::from_name(&c, "group1".to_string(), None, None);
    is_get(
        &r,
        "api/2/group/member?includeInactiveUsers=false&startAt=0&maxResults=50&groupname=group1",
    );
    let r = Group::from_name(&c, "g".to_string(), None, Some(Pagination::new(3, 2)));
    is_get(&r, "api/2/group/member?includeInactiveUsers=false&startAt=3&maxResults=2&groupname=g");
    assert!(c.query.is_empty());
}

#[test]
fn user_requests() {
    let c = client();
    let e = vec![UserExpand::ApplicationRoles, UserExpand::Groups];
    is_get(
        &User::from_username(&c, "fred".to_string(), e),
        "api/2/user?username=fred&expand=applicationRoles,groups",
    );
    is_get(
        &User::from_key(&c, "fred".to_string(), vec![UserExpand::Groups]),
        "api/2/user?key=fred&expand=groups",
    );
    is_get(&User::from_key(&c, "k".to_string(), vec![]), "api/2/user?key=k&expand=");
    is_get(
        &User::search(&c, "fr".to_string(), None, None),
        "api/2/user/search?includeInactive=false&includeActive=true&startAt=0&maxResults=50&username=fr",
    );
    is_get(
        &User::search(
            &c,
            "fr".to_string(),
            Some(UserOptions::new(false, true)),
            Some(Pagination::new(50, 10)),
        ),
        "api/2/user/search?includeInactive=true&includeActive=false&startAt=50&maxResults=10&username=fr",
    );
}

#[test]
fn user_request_overrides_the_query_of_the_client() {
    let mut defaults = Query::new();
    defaults.insert("expand".to_string(), "old".to_string());
    defaults.insert("x".to_string(), "y".to_string());
    let c = client().add_query(defaults);
    is_get(
        &User::from_key(&c, "k".to_string(), vec![UserExpand::Groups]),
        "api/2/user?expand=groups&x=y&key=k",
    );
}

#[test]
fn issue_request_with_defaults() {
    let c = client();
    let r = Issue::from_key(&c, "XXX-123", None, None, None, None, None);
    is_get(
        &r,
        "api/2/issue/XXX-123?startAt=0&maxResults=50&fields=*all&properties=&updateHistory=false&expand=",
    );
}

#[test]
fn issue_request_with_everything_given() {
    let c = client();
    let r = Issue::from_key(
        &c,
        "XXX-123",
        Some(vec![IssueExpand::Changelog, IssueExpand::Names]),
        Some(IssueFieldOptions(vec!["summary".to_string(), "comment".to_string()])),
        Some(IssuePropertyOptions(vec!["-p".to_string()])),
        Some(IssueUpdateHistory(true)),
        Some(Pagination::new(5, 7)),
    );
    is_get(
        &r,
        "api/2/issue/XXX-123?startAt=5&maxResults=7&fields=summary,comment&properties=-p&updateHistory=true&expand=changelog,names",
    );
}

#[test]
fn project_request() {
    let c = client();
    is_get(&Project::from_key_or_id(&c, "TEST", None), "api/2/project/TEST?expand=");
    is_get(
        &Project::from_key_or_id(
            &c,
            "10000",
            Some(vec![ProjectExpand::Description, ProjectExpand::ProjectKeys]),
        ),
        "api/2/project/10000?expand=description,projectKeys",
    );
}

#[test]
fn version_requests() {
    let c = client();
    let mut v = Version::new();
    v.id = "10000".to_string();
    let r = v.update(&c, b"{\"id\":\"10000\"}".to_vec());
    assert_eq!(r.method, Method::Put);
    assert_eq!(r.url, format!("{}/rest/api/v2/version/10000", HOST));
    assert_eq!(r.body.unwrap(), b"{\"id\":\"10000\"}".to_vec());
    let r = Version::create(&c, b"{}".to_vec());
    assert_eq!(r.method, Method::Post);
    assert_eq!(r.url, format!("{}/rest/api/2/version", HOST));
    assert_eq!(r.body.unwrap(), b"{}".to_vec());
}

#[test]
fn blank_version() {
    let v = Version::new();
    assert_eq!(v.id, "");
    assert_eq!(v.self_link, "");
    assert_eq!(v.description, "");
    assert_eq!(v.name, "");
    assert_eq!(v.release_date, "");
    assert_eq!(v.user_release_date, "");
    assert!(!v.archived);
    assert!(!v.released);
    assert!(!v.overdue);
    assert_eq!(v.project_id, 0);
    let d = Version::default();
    assert_eq!(d.id, "");
    assert_eq!(d.project_id, 0);
}

#[test]
fn empty_changelog() {
    assert!(Changelog::default().histories.is_empty());
}

#[test]
fn worklog_request_lists_the_ids_as_json() {
    let c = client();
    let r = Worklog::from_ids(&c, vec![1, -2, 30]).unwrap();
    assert_eq!(r.method, Method::Post);
    assert_eq!(r.url, format!("{}/rest/api/2/worklog/list", HOST));
    assert_eq!(r.body.unwrap(), b"{\"ids\":[1,-2,30]}".to_vec());
    let r = Worklog::from_ids(&c, vec![]).unwrap();
    assert_eq!(r.body.unwrap(), b"{\"ids\":[]}".to_vec());
    let r = Worklog::from_ids(&c, vec![i64::MIN, i64::MAX]).unwrap();
    assert_eq!(
        r.body.unwrap(),
        b"{\"ids\":[-9223372036854775808,9223372036854775807]}".to_vec()
    );
}

#[test]
fn worklog_request_body_is_the_json_of_the_ids() {
    let c = client();
    let ids = vec![10000i64, 10001, 7];
    let r = Worklog::from_ids(&c, ids.clone()).unwrap();
    let value: serde_json::Value = serde_json::from_slice(&r.body.unwrap()).unwrap();
    let listed: Vec<i64> =
        value["ids"].as_array().unwrap().iter().map(|v| v.as_i64().unwrap()).collect();
    assert_eq!(listed, ids);
    assert_eq!(value.as_object().unwrap().len(), 1);
}

#[test]
fn worklog_request_surfaces_a_failure_to_write_the_ids() {
    let c = client();
    match Worklog::list(&c, Err("no".to_string())) {
        Err(Error::Serde(message)) => assert_eq!(message, "no"),
        _ => panic!("the failure must surface"),
    }
    let r = Worklog::list(&c, Ok("[5]".to_string())).unwrap();
    assert_eq!(r.body.unwrap(), b"{\"ids\":[5]}".to_vec());
}

#[test]
fn user_items_are_handed_out_undecoded() {
    let items: serde_json::Value = serde_json::from_str("[{\"name\":\"g1\"}]").unwrap();
    let user = User {
        active: true,
        avatar_urls: std::collections::BTreeMap::new(),
        display_name: "Fred F. User".to_string(),
        email_address: "fred@example.com".to_string(),
        key: "fred".to_string(),
        name: "fred".to_string(),
        self_link: "http://www.example.com/jira/rest/api/2/user?username=fred".to_string(),
        timezone: "Australia/Sydney".to_string(),
        groups: Some(jirac::v2::Item { size: 1, items: items.clone() }),
        application_roles: None,
    };
    assert_eq!(user.groups().unwrap(), &items);
    assert!(user.application_roles().is_none());
}
