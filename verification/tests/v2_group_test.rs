use jirac::v2::{Group, Pagination, User};
use jirac::{Client, Credentials, Headers, Method, Reply};
use std::collections::BTreeMap;

fn user(name: &str) -> User {
    User {
        active: true,
        avatar_urls: BTreeMap::new(),
        display_name: String::new(),
        email_address: String::new(),
        key: name.to_string(),
        name: name.to_string(),
        self_link: String::new(),
        timezone: String::new(),
        groups: None,
        application_roles: None,
    }
}

#[test]
fn test_get_member() {
    let result = r#"{
        "self": "http://www.example.com/jira/rest/api/2/group/member?groupname=jira-administrators&includeInactiveUsers=false&startAt=2&maxResults=2",
        "nextPage": "http://www.example.com/jira/rest/api/2/group/member?groupname=jira-administrators&includeInactiveUsers=false&startAt=4&maxResults=2",
        "maxResults": 2,
        "startAt": 3,
        "total": 5,
        "isLast": false,
        "values": [{"name": "fred", "key": "fred"}, {"name": "barney", "key": "barney"}]
    }"#;

    let creds = Credentials::new_basic("test".to_string(), "test".to_string()).unwrap();
    let client = Client::new("http://127.0.0.1:1234".to_string(), creds);

    let request = Group::from_name(&client, "group1".to_string(), None, None);
    assert_eq!(request.method, Method::Get);
    let (path, query) = request.url.split_once('?').unwrap();
    assert_eq!(path, "http://127.0.0.1:1234/rest/api/2/group/member");
    let mut given: Vec<&str> = query.split('&').collect();
    given.sort();
    assert_eq!(
        given,
        vec!["groupname=group1", "includeInactiveUsers=false", "maxResults=50", "startAt=0"]
    );

    let document = match Client::receive(200, result.to_string()) {
        Reply::Success { document } => document,
        _ => panic!("a 200 is a success"),
    };
    let value: serde_json::Value = serde_json::from_str(&document).unwrap();
    let group = Group {
        self_link: value["self"].as_str().unwrap().to_string(),
        pagination: Pagination {
            start_at: value["startAt"].as_i64().unwrap(),
            max_results: value["maxResults"].as_i64().unwrap(),
            next_link: value["nextPage"].as_str().unwrap().to_string(),
            total: value["total"].as_i64().unwrap(),
            is_last: false,
        },
        users: value["values"]
            .as_array()
            .unwrap()
            .iter()
            .map(|u| user(u["name"].as_str().unwrap()))
            .collect(),
        name: String::new(),
    };
    let c = Client::deliver(Ok::<Group, String>(group), Headers::new()).unwrap();

    assert_eq!(c.data.users.len(), 2);
    assert_eq!(c.data.pagination.total, 5);
    assert_eq!(c.data.pagination.start_at, 3);
    assert_eq!(c.data.pagination.max_results, 2);
}
