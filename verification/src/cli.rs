//! The commands of the client, what each one asks for, and the login data
//! kept between runs.

use vstd::prelude::*;
use vstd::string::StringExecFns;
use vstd::string::StrSliceExecFns;

use crate::data::Pass;
use crate::signing::{hash_passwd, password_hash, sha512_digest};
use crate::text::hex_lower;
use vstd::utf8::encode_utf8;
use crate::table::text_of;
use crate::text::{decimal_text, i32_to_decimal};

verus! {

/// The name of the login data file in the configuration directory.
pub const FILE_AUTOLOGIN: &'static str = "autologin";

/// The path of the login data file in a configuration directory.
pub fn config_file_path(config_dir: &str) -> (path: String)
    ensures
        path@ == config_dir@ + "/"@ + FILE_AUTOLOGIN@,
{
    let mut path = text_of(config_dir);
    path.append("/");
    path.append(FILE_AUTOLOGIN);
    path
}

/// A line as read from the terminal, without its last character (the newline).
pub open spec fn without_last(s: Seq<char>) -> Seq<char> {
    if s.len() > 0 {
        s.drop_last()
    } else {
        s
    }
}

fn pop_last(s: &String) -> (t: String)
    ensures
        t@ == without_last(s@),
{
    let len = s.as_str().unicode_len();
    if len == 0 {
        s.clone()
    } else {
        text_of(s.as_str().substring_char(0, len - 1))
    }
}

/// The login data from the lines the user typed (each still ending with its
/// newline) and the typed password, which is kept only as its hash.
pub fn new_pass(autologin_line: &String, login_line: &String, raw_passwd: &String) -> (p: Pass)
    ensures
        p.autologin@ == without_last(autologin_line@),
        p.login@ == without_last(login_line@),
        p.passwd@ == password_hash(raw_passwd@),
        p.passwd@ == hex_lower(sha512_digest(encode_utf8(raw_passwd@))),
        autologin_line@.len() > 0 ==> p.autologin@ == autologin_line@.subrange(0, autologin_line@.len() - 1),
        autologin_line@.len() == 0 ==> p.autologin@.len() == 0,
        login_line@.len() > 0 ==> p.login@ == login_line@.subrange(0, login_line@.len() - 1),
        login_line@.len() == 0 ==> p.login@.len() == 0,
{
    Pass { autologin: pop_last(autologin_line), login: pop_last(login_line), passwd: hash_passwd(raw_passwd) }
}

/// A command of the client.
#[derive(Debug)]
pub enum Command {
    /// Show the user's profile.
    User,
    /// List the projects, show one (`idx`), or download its files (`idx` and `dl` = "dl").
    Project { idx: Option<i32>, dl: Option<String> },
    /// List the activities or show one.
    Activity { idx: Option<i32> },
    /// List the marks.
    Notes,
    /// List the modules.
    Modules,
    /// List the repositories, or create one.
    Repo { repo_name: Option<String> },
    /// Give a user a right on a repository.
    Setacl { repo_name: String, user: String, user_right: String },
    /// List the open activity tokens, or print the index given.
    Token { idx: Option<i32> },
}

/// What the client does for a command.
#[derive(Debug)]
pub enum Action {
    ShowUser,
    ShowProjects,
    ShowProjectDetail { idx: i32 },
    DownloadProjectFiles { idx: i32 },
    ShowActivities,
    ShowActivityDetail { idx: i32 },
    ShowNotes,
    ShowModules,
    ShowRepos,
    CreateRepo { repo_name: String },
    SetAcl { repo_name: String, user: String, user_right: String },
    ShowTokens,
    /// Print a line and stop.
    Print { line: String },
    /// Do nothing.
    Nothing,
}

/// The action of each command.
pub fn action_for(cmd: Command) -> (a: Action)
    ensures
        match cmd {
            Command::User => a == Action::ShowUser,
            Command::Project { idx: None, dl: None } => a == Action::ShowProjects,
            Command::Project { idx: Some(i), dl: None } => a == Action::ShowProjectDetail { idx: i },
            Command::Project { idx: None, dl: Some(_) } =>
                a matches Action::Print { line } && line@ == "pleas give me project id"@,
            Command::Project { idx: Some(i), dl: Some(d) } =>
                if d@ == "dl"@ { a == Action::DownloadProjectFiles { idx: i } } else { a == Action::Nothing },
            Command::Activity { idx: None } => a == Action::ShowActivities,
            Command::Activity { idx: Some(i) } => a == Action::ShowActivityDetail { idx: i },
            Command::Notes => a == Action::ShowNotes,
            Command::Modules => a == Action::ShowModules,
            Command::Repo { repo_name: None } => a == Action::ShowRepos,
            Command::Repo { repo_name: Some(n) } => a == Action::CreateRepo { repo_name: n },
            Command::Setacl { repo_name, user, user_right } =>
                a == Action::SetAcl { repo_name, user, user_right },
            Command::Token { idx: None } => a == Action::ShowTokens,
            Command::Token { idx: Some(i) } =>
                a matches Action::Print { line } && line@ == decimal_text(i as int),
        },
{
    match cmd {
        Command::User => Action::ShowUser,
        Command::Project { idx, dl } => match (idx, dl) {
            (Some(idx), None) => Action::ShowProjectDetail { idx },
            (None, Some(_)) => Action::Print { line: text_of("pleas give me project id") },
            (Some(idx), Some(dl)) => {
                if dl == text_of("dl") {
                    Action::DownloadProjectFiles { idx }
                } else {
                    Action::Nothing
                }
            },
            (None, None) => Action::ShowProjects,
        },
        Command::Activity { idx } => match idx {
            Some(idx) => Action::ShowActivityDetail { idx },
            None => Action::ShowActivities,
        },
        Command::Notes => Action::ShowNotes,
        Command::Modules => Action::ShowModules,
        Command::Repo { repo_name } => match repo_name {
            Some(repo_name) => Action::CreateRepo { repo_name },
            None => Action::ShowRepos,
        },
        Command::Setacl { repo_name, user, user_right } => Action::SetAcl { repo_name, user, user_right },
        Command::Token { idx } => match idx {
            Some(idx) => Action::Print { line: i32_to_decimal(idx) },
            None => Action::ShowTokens,
        },
    }
}


/// Dropping the newline keeps every character before the last one, and only those.
pub proof fn lemma_without_last(s: Seq<char>)
    ensures
        s.len() > 0 ==> without_last(s).push(s.last()) == s,
        s.len() == 0 ==> without_last(s) == s,
{
    if s.len() > 0 {
        assert(s.drop_last().push(s.last()) =~= s);
    }
}

} // verus!
