use epifetch::blih::{
    builder_url_autologin, builder_url_blih, create_repo_reply, create_repo_request, document_url,
    json_for_create_repo, json_for_right_repo, project_files_url, repos_request, right_repo_reply,
    right_repo_request, user_notes_path, Blih, BlihData, BlihPayload, BlihResponse, HttpMethod, BLIH_URL,
};
use epifetch::cli::{action_for, config_file_path, new_pass, Action, Command};
use epifetch::data::{Board, Document, Pass, Projet};
use epifetch::signing::{do_hamxc_login_passwd, hash_passwd};

fn s(x: &str) -> String {
    x.to_string()
}

fn pass() -> Pass {
    Pass { autologin: s("https://intra.epitech.eu/auth-abc"), login: s("jane.doe@epitech.eu"), passwd: hash_passwd(&s("secret")) }
}

#[test]
fn intranet_and_service_urls() {
    assert_eq!(builder_url_autologin(&s("https://intra.epitech.eu/auth-abc"), "/user"), "https://intra.epitech.eu/auth-abc/user/?format=json");
    assert_eq!(builder_url_autologin(&s("https://intra.epitech.eu/auth-abc"), ""), "https://intra.epitech.eu/auth-abc/?format=json");
    assert_eq!(builder_url_blih(BLIH_URL, "/repositories"), "https://blih.epitech.eu/repositories");
    assert_eq!(user_notes_path(&s("jane")), "/user/jane/notes/");
}

#[test]
fn signed_data_layouts() {
    assert_eq!(json_for_create_repo(&s("psu")), "{\n    \"name\": \"psu\",\n    \"type\": \"git\"\n}");
    assert_eq!(json_for_right_repo(&s("r"), &s("ramassage-tek")), "{\n    \"acl\": \"r\",\n    \"user\": \"ramassage-tek\"\n}");
}

#[test]
fn request_bodies() {
    let b = Blih { user: s("a\"b"), signature: s("00ff") };
    assert_eq!(b.to_json(), "{\"user\":\"a\\\"b\",\"signature\":\"00ff\"}");
    let d = BlihData { user: s("u"), signature: s("ab"), data: BlihPayload::NewRepository { name: s("psu") } };
    assert_eq!(d.to_json(), "{\"user\":\"u\",\"signature\":\"ab\",\"data\":{\"name\":\"psu\",\"type\":\"git\"}}");
    let a = BlihData { user: s("u"), signature: s("ab"), data: BlihPayload::Acl { acl: s("rw"), user: s("x") } };
    assert_eq!(a.to_json(), "{\"user\":\"u\",\"signature\":\"ab\",\"data\":{\"acl\":\"rw\",\"user\":\"x\"}}");
    let parsed: serde_json::Value = serde_json::from_str(&a.to_json()).unwrap();
    assert_eq!(parsed["data"]["acl"], "rw");
}

#[test]
fn listing_request() {
    let p = pass();
    let r = repos_request(&p);
    assert_eq!(r.method, HttpMethod::Get);
    assert_eq!(r.url, "https://blih.epitech.eu/repositories");
    let sig = do_hamxc_login_passwd(&p.passwd, &p.login, None);
    assert_eq!(r.body, format!("{{\"user\":\"jane.doe@epitech.eu\",\"signature\":\"{}\"}}", sig));
}

#[test]
fn creation_request() {
    let p = pass();
    let r = create_repo_request(&p, &s("psu"));
    assert_eq!(r.method, HttpMethod::Post);
    assert_eq!(r.url, "https://blih.epitech.eu/repositories");
    let sig = do_hamxc_login_passwd(&p.passwd, &p.login, Some(json_for_create_repo(&s("psu"))));
    assert_eq!(
        r.body,
        format!("{{\"user\":\"jane.doe@epitech.eu\",\"signature\":\"{}\",\"data\":{{\"name\":\"psu\",\"type\":\"git\"}}}}", sig)
    );
}

#[test]
fn right_request() {
    let p = pass();
    let r = right_repo_request(&p, &s("psu"), &s("bob"), &s("rw"));
    assert_eq!(r.method, HttpMethod::Post);
    assert_eq!(r.url, "https://blih.epitech.eu/repository/psu/acls");
    let sig = do_hamxc_login_passwd(&p.passwd, &p.login, Some(json_for_right_repo(&s("rw"), &s("bob"))));
    assert_eq!(
        r.body,
        format!("{{\"user\":\"jane.doe@epitech.eu\",\"signature\":\"{}\",\"data\":{{\"acl\":\"rw\",\"user\":\"bob\"}}}}", sig)
    );
}

#[test]
fn right_reply_lines() {
    let both = BlihResponse { message: Some(s("ok")), error: Some(s("bad")) };
    assert_eq!(right_repo_reply(&both), vec![s("bad"), s("ok")]);
    let none = BlihResponse { message: None, error: None };
    assert!(right_repo_reply(&none).is_empty());
}

#[test]
fn created_repository_gets_collector_right() {
    let p = pass();
    let ok = BlihResponse { message: Some(s("Repository created")), error: None };
    let out = create_repo_reply(&p, &s("psu"), &ok);
    assert_eq!(out.lines, vec![s("Repository created"), s("git@git.epitech.eu:/jane.doe@epitech.eu/psu")]);
    let follow = out.follow_up.unwrap();
    let expected = right_repo_request(&p, &s("psu"), &s("ramassage-tek"), &s("r"));
    assert_eq!(follow.method, expected.method);
    assert_eq!(follow.url, expected.url);
    assert_eq!(follow.body, expected.body);
}

#[test]
fn failed_creation_has_no_follow_up() {
    let p = pass();
    let err = BlihResponse { message: None, error: Some(s("Repository already exists")) };
    let out = create_repo_reply(&p, &s("psu"), &err);
    assert_eq!(out.lines, vec![s("Repository already exists")]);
    assert!(out.follow_up.is_none());
}

#[test]
fn project_file_urls() {
    let board = Board {
        projets: vec![Projet {
            title: s("Minishell"),
            title_link: s("/module/2019/B-PSU/act/"),
            timeline_start: s(""),
            timeline_end: s(""),
            timeline_barre: s("0"),
            date_inscription: s("null"),
            id_activite: s("1"),
        }],
        activites: vec![],
    };
    let url = s("https://intra.epitech.eu/auth-abc");
    assert_eq!(
        project_files_url(&board, 0, &url),
        Some(s("https://intra.epitech.eu/auth-abc/module/2019/B-PSU/act/project/file/?format=json"))
    );
    assert_eq!(project_files_url(&board, 1, &url), None);
    assert_eq!(project_files_url(&board, -1, &url), None);
    let doc = Document { title: s("subject.pdf"), fullpath: s("/module/2019/B-PSU/subject.pdf") };
    assert_eq!(document_url(&doc), "https://intra.epitech.eu/module/2019/B-PSU/subject.pdf");
}

#[test]
fn config_path() {
    assert_eq!(config_file_path("/home/jane/.config"), "/home/jane/.config/autologin");
}

#[test]
fn pass_from_typed_lines() {
    let p = new_pass(&s("https://intra.epitech.eu/auth-abc\n"), &s("jane\n"), &s("secret"));
    assert_eq!(p.autologin, "https://intra.epitech.eu/auth-abc");
    assert_eq!(p.login, "jane");
    assert_eq!(p.passwd, hash_passwd(&s("secret")));
    let e = new_pass(&s(""), &s("é"), &s(""));
    assert_eq!(e.autologin, "");
    assert_eq!(e.login, "");
}

#[test]
fn command_actions() {
    assert!(matches!(action_for(Command::User), Action::ShowUser));
    assert!(matches!(action_for(Command::Project { idx: None, dl: None }), Action::ShowProjects));
    assert!(matches!(action_for(Command::Project { idx: Some(3), dl: None }), Action::ShowProjectDetail { idx: 3 }));
    match action_for(Command::Project { idx: None, dl: Some(s("dl")) }) {
        Action::Print { line } => assert_eq!(line, "pleas give me project id"),
        other => panic!("{:?}", other),
    }
    assert!(matches!(action_for(Command::Project { idx: Some(2), dl: Some(s("dl")) }), Action::DownloadProjectFiles { idx: 2 }));
    assert!(matches!(action_for(Command::Project { idx: Some(2), dl: Some(s("x")) }), Action::Nothing));
    assert!(matches!(action_for(Command::Activity { idx: None }), Action::ShowActivities));
    assert!(matches!(action_for(Command::Activity { idx: Some(1) }), Action::ShowActivityDetail { idx: 1 }));
    assert!(matches!(action_for(Command::Notes), Action::ShowNotes));
    assert!(matches!(action_for(Command::Modules), Action::ShowModules));
    assert!(matches!(action_for(Command::Repo { repo_name: None }), Action::ShowRepos));
    match action_for(Command::Repo { repo_name: Some(s("psu")) }) {
        Action::CreateRepo { repo_name } => assert_eq!(repo_name, "psu"),
        other => panic!("{:?}", other),
    }
    match action_for(Command::Setacl { repo_name: s("psu"), user: s("bob"), user_right: s("rw") }) {
        Action::SetAcl { repo_name, user, user_right } => {
            assert_eq!((repo_name.as_str(), user.as_str(), user_right.as_str()), ("psu", "bob", "rw"))
        }
        other => panic!("{:?}", other),
    }
    assert!(matches!(action_for(Command::Token { idx: None }), Action::ShowTokens));
    match action_for(Command::Token { idx: Some(-42) }) {
        Action::Print { line } => assert_eq!(line, "-42"),
        other => panic!("{:?}", other),
    }
}

#[test]
fn signed_text_and_payload_are_the_same_object() {
    let signed: serde_json::Value = serde_json::from_str(&json_for_create_repo(&s("my repo"))).unwrap();
    let sent = BlihData { user: s("u"), signature: s("x"), data: BlihPayload::NewRepository { name: s("my repo") } };
    let sent: serde_json::Value = serde_json::from_str(&sent.to_json()).unwrap();
    assert_eq!(signed, sent["data"]);
    let signed: serde_json::Value = serde_json::from_str(&json_for_right_repo(&s("rw"), &s("bob"))).unwrap();
    let sent = BlihData { user: s("u"), signature: s("x"), data: BlihPayload::Acl { acl: s("rw"), user: s("bob") } };
    let sent: serde_json::Value = serde_json::from_str(&sent.to_json()).unwrap();
    assert_eq!(signed, sent["data"]);
}

#[test]
fn login_data_file_text() {
    let p = Pass { autologin: s("https://intra/auth-1"), login: s("jane"), passwd: s("ab\"c") };
    assert_eq!(p.to_json(), "{\"autologin\":\"https://intra/auth-1\",\"login\":\"jane\",\"passwd\":\"ab\\\"c\"}");
    let v: serde_json::Value = serde_json::from_str(&p.to_json()).unwrap();
    assert_eq!(v["passwd"], "ab\"c");
}
